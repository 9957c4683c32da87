use llhttp::machine::{DataKind, Machine, Notice, Options, State};
use llhttp::run::{Event, Progress, Signal};
use llhttp::{Answer, Error, Method, Type};

/// An event as one mark for each notice and for each data byte.
#[derive(Debug, PartialEq, Eq, Clone, Copy)]
enum Mark {
    Notice(Notice),
    Byte(DataKind, u8),
}

fn marks(events: &[Event]) -> Vec<Mark> {
    let mut out = Vec::new();
    for event in events {
        match event {
            Event::Notice(n) => out.push(Mark::Notice(*n)),
            Event::Data(k, bytes) => out.extend(bytes.iter().map(|b| Mark::Byte(*k, *b))),
        }
    }
    out
}

fn body(events: &[Event]) -> Vec<u8> {
    let mut out = Vec::new();
    for event in events {
        if let Event::Data(DataKind::Body, bytes) = event {
            out.extend_from_slice(bytes);
        }
    }
    out
}

const MESSAGES: [(Type, &[u8]); 5] = [
    (Type::HTTP_REQUEST, b"GET /x HTTP/1.1\r\nHost: a\r\n\r\n"),
    (
        Type::HTTP_RESPONSE,
        b"HTTP/1.1 200 OK\r\nTransfer-Encoding: chunked\r\n\r\n4\r\nWiki\r\n0\r\n\r\n",
    ),
    (
        Type::HTTP_BOTH,
        b"POST /user_info HTTP/1.1\r\nHost: localhost:5555\r\nContent-Length: 17\r\nConnection: keep-alive , Close-not\r\n\r\nusername=cattchenGET / HTTP/1.1\r\n\r\n",
    ),
    (
        Type::HTTP_BOTH,
        b"HTTP/1.0 200 Fine\r\nUpgrade: x\r\n\r\nto the end",
    ),
    (
        Type::HTTP_RESPONSE,
        b"HTTP/1.1 200 OK\r\ntransfer-encoding: gzip,\tchunked\r\n\r\n1a;ext=1\r\nabcdefghijklmnopqrstuvwxyz\r\n3\r\nabc\r\n0\r\nTrailer: yes\r\n\r\nHTTP/1.1 500 \r\nContent-Length: 2\r\n\r\n!!",
    ),
];

#[test]
fn events_do_not_depend_on_where_the_input_is_cut() {
    for (kind, input) in MESSAGES {
        let mut whole = Machine::new(kind, Options::strict());
        let (all, read) = whole.collect(input);
        assert_eq!(read, input.len());
        assert_eq!(whole.error, Error::HPE_OK);
        let expected = marks(&all);
        for cut in 0..=input.len() {
            let mut m = Machine::new(kind, Options::strict());
            let (first, n) = m.collect(&input[..cut]);
            assert_eq!(n, cut);
            let (second, n) = m.collect(&input[cut..]);
            assert_eq!(n, input.len() - cut);
            let mut got = marks(&first);
            got.extend(marks(&second));
            assert_eq!(got, expected, "cut at {cut}");
            assert_eq!(m, whole, "cut at {cut}");
        }
        // Byte by byte.
        let mut m = Machine::new(kind, Options::strict());
        let mut got = Vec::new();
        for i in 0..input.len() {
            let (events, n) = m.collect(&input[i..i + 1]);
            assert_eq!(n, 1);
            got.extend(marks(&events));
        }
        assert_eq!(got, expected);
        assert_eq!(m, whole);
    }
}

#[test]
fn data_read_in_one_run_comes_in_one_event() {
    let mut m = Machine::new(Type::HTTP_RESPONSE, Options::strict());
    let (events, _) = m.collect(MESSAGES[1].1);
    let bodies: Vec<&Event> =
        events.iter().filter(|e| matches!(e, Event::Data(DataKind::Body, _))).collect();
    assert_eq!(bodies, vec![&Event::Data(DataKind::Body, b"Wiki".to_vec())]);
    // Cut inside the data, each part comes by itself.
    let mut m = Machine::new(Type::HTTP_RESPONSE, Options::strict());
    let input = MESSAGES[1].1;
    let (first, _) = m.collect(&input[..52]);
    let (second, _) = m.collect(&input[52..]);
    assert_eq!(first.last(), Some(&Event::Data(DataKind::Body, b"Wi".to_vec())));
    assert_eq!(second.first(), Some(&Event::Data(DataKind::Body, b"ki".to_vec())));
}

#[test]
fn content_length_body_is_read_to_the_byte() {
    for n in [0usize, 1, 2, 17, 300] {
        let payload: Vec<u8> = (0..n).map(|i| (i % 251) as u8).collect();
        let mut input = format!("PUT /f HTTP/1.1\r\nContent-Length: {n}\r\n\r\n").into_bytes();
        let head = input.len();
        input.extend_from_slice(&payload);
        input.extend_from_slice(b"GET /next HTTP/1.1\r\n");
        let mut m = Machine::new(Type::HTTP_REQUEST, Options::strict());
        let (events, read) = m.collect(&input[..head + n]);
        assert_eq!(read, head + n);
        assert_eq!(body(&events), payload);
        assert_eq!(events.last(), Some(&Event::Notice(Notice::MessageComplete)));
        assert_eq!(m.state, State::Start);
        assert_eq!(m.content_length, 0);
        // What follows is the next message, not body data.
        let (events, _) = m.collect(&input[head + n..]);
        assert_eq!(events.first(), Some(&Event::Notice(Notice::MessageBegin)));
        assert!(body(&events).is_empty());
        assert_eq!(m.method, Method::HTTP_GET);
    }
}

#[test]
fn remaining_length_counts_down_with_the_body() {
    let mut m = Machine::new(Type::HTTP_REQUEST, Options::strict());
    m.collect(b"PUT /f HTTP/1.1\r\nContent-Length: 10\r\n\r\n");
    assert_eq!((m.state, m.content_length), (State::BodyIdentity, 10));
    m.collect(b"abc");
    assert_eq!((m.state, m.content_length), (State::BodyIdentity, 7));
    m.collect(b"defghi");
    assert_eq!((m.state, m.content_length), (State::BodyIdentity, 1));
    m.collect(b"j");
    assert_eq!((m.state, m.content_length), (State::Start, 0));
}

fn encode_chunked(chunks: &[&[u8]]) -> Vec<u8> {
    let mut out = Vec::new();
    for chunk in chunks {
        out.extend_from_slice(format!("{:x}\r\n", chunk.len()).as_bytes());
        out.extend_from_slice(chunk);
        out.extend_from_slice(b"\r\n");
    }
    out.extend_from_slice(b"0\r\n\r\n");
    out
}

#[test]
fn chunked_round_trip() {
    let big = vec![b'z'; 70_000];
    let cases: Vec<Vec<&[u8]>> = vec![
        vec![],
        vec![b"a"],
        vec![b"Wiki", b"pedia", b" in\r\n\r\nchunks."],
        vec![b"0123456789abcdef", &big, b"\r\n"],
    ];
    for chunks in cases {
        let mut input = b"HTTP/1.1 200 OK\r\nTransfer-Encoding: chunked\r\n\r\n".to_vec();
        let head = input.len();
        input.extend(encode_chunked(&chunks));
        let mut m = Machine::new(Type::HTTP_RESPONSE, Options::strict());
        let (events, read) = m.collect(&input);
        assert_eq!((m.error, read), (Error::HPE_OK, input.len()));
        assert_eq!(body(&events), chunks.concat());
        let mut expected = Vec::new();
        for chunk in &chunks {
            expected.push(Mark::Notice(Notice::ChunkHeader));
            expected.extend(chunk.iter().map(|b| Mark::Byte(DataKind::Body, *b)));
            expected.push(Mark::Notice(Notice::ChunkComplete));
        }
        expected.push(Mark::Notice(Notice::ChunkHeader));
        expected.push(Mark::Notice(Notice::ChunkComplete));
        expected.push(Mark::Notice(Notice::MessageComplete));
        let mut fresh = Machine::new(Type::HTTP_RESPONSE, Options::strict());
        let (before, _) = fresh.collect(&input[..head]);
        assert_eq!(fresh.state, State::ChunkSizeStart);
        assert_eq!(marks(&events)[marks(&before).len()..], expected[..]);
    }
}

#[test]
fn keep_alive_by_version_and_connection_header() {
    let keep = |kind: Type, input: &[u8]| {
        let mut m = Machine::new(kind, Options::strict());
        m.collect(input);
        assert_eq!(m.error, Error::HPE_OK);
        (m.keep_alive(), m.state)
    };
    let request = Type::HTTP_REQUEST;
    let response = Type::HTTP_RESPONSE;
    assert_eq!(keep(request, b"GET / HTTP/1.0\r\n\r\n"), (false, State::Closed));
    assert_eq!(keep(request, b"GET / HTTP/1.1\r\n\r\n"), (true, State::Start));
    assert_eq!(keep(request, b"GET / HTTP/1.0\r\nConnection: keep-alive\r\n\r\n"), (true, State::Start));
    assert_eq!(keep(request, b"GET / HTTP/1.0\r\nConnection: Keep-Alive\r\n\r\n"), (true, State::Start));
    assert_eq!(keep(request, b"GET / HTTP/1.1\r\nConnection: close\r\n\r\n"), (false, State::Closed));
    assert_eq!(keep(request, b"GET / HTTP/1.1\r\nConnection: foo, close\r\n\r\n"), (false, State::Closed));
    assert_eq!(keep(request, b"GET / HTTP/1.1\r\nConnection: closed\r\n\r\n"), (true, State::Start));
    assert_eq!(keep(request, b"GET / HTTP/1.0\r\nConnection: keep-alive, close\r\n\r\n"), (false, State::Closed));
    assert_eq!(keep(request, b"GET / HTTP/2.0\r\n\r\n"), (true, State::Start));
    assert_eq!(keep(request, b"GET / HTTP/0.9\r\n\r\n"), (false, State::Closed));
    assert_eq!(keep(response, b"HTTP/1.1 200 OK\r\nContent-Length: 0\r\n\r\n"), (true, State::Start));
    assert_eq!(keep(response, b"HTTP/1.0 200 OK\r\nContent-Length: 0\r\n\r\n"), (false, State::Closed));
    // A body that only the end of the stream ends leaves no connection to keep.
    assert_eq!(keep(response, b"HTTP/1.1 200 OK\r\n\r\n"), (false, State::BodyUntilClose));
    assert_eq!(keep(response, b"HTTP/1.1 200 OK\r\nConnection: keep-alive\r\n\r\n"), (false, State::BodyUntilClose));
}

#[test]
fn needs_eof_only_in_a_body_without_length() {
    let mut m = Machine::new(Type::HTTP_RESPONSE, Options::strict());
    assert!(!m.needs_eof());
    m.collect(b"HTTP/1.1 200 OK\r\n");
    assert!(!m.needs_eof());
    m.collect(b"\r\n");
    assert!(m.needs_eof());
    m.collect(b"data");
    assert!(m.needs_eof());
    m = m.at_eof();
    assert!(!m.needs_eof());
    let (events, _) = m.collect(b"");
    assert_eq!(events, vec![Event::Notice(Notice::MessageComplete)]);
    assert_eq!(m.state, State::Closed);

    let mut m = Machine::new(Type::HTTP_REQUEST, Options::strict());
    m.collect(b"POST / HTTP/1.1\r\n\r\n");
    assert!(!m.needs_eof());
}

#[test]
fn pause_and_resume_change_nothing_of_what_is_read() {
    let (kind, input) = MESSAGES[2];
    let mut whole = Machine::new(kind, Options::strict());
    let (all, _) = whole.collect(input);
    let expected = marks(&all);
    // Pause after every event, resume, and go on.
    let mut m = Machine::new(kind, Options::strict());
    let mut got = Vec::new();
    let mut pos = 0;
    loop {
        let Progress { pos: next, signal } = m.advance(input, pos);
        pos = next;
        let Some(signal) = signal else { break };
        match signal {
            Signal::Notice(n) => got.push(Mark::Notice(n)),
            Signal::Data(k, a, b) => got.extend(input[a..b].iter().map(|x| Mark::Byte(k, *x))),
        }
        m = m.answered(signal, Answer::Pause);
        assert_eq!(m.error, Error::HPE_PAUSED);
        let paused = m;
        assert_eq!(m.advance(input, pos), Progress { pos, signal: None });
        assert_eq!(m, paused);
        assert_eq!(m.resumed_after_upgrade(), paused);
        m = m.resumed();
        assert_eq!(m.error, Error::HPE_OK);
    }
    assert_eq!(pos, input.len());
    assert_eq!(got, expected);
    assert_eq!(m, whole);
}

#[test]
fn refusal_names_the_hook() {
    let m = Machine::new(Type::HTTP_BOTH, Options::strict());
    let refused = |signal: Signal| m.answered(signal, Answer::Abort).error;
    assert_eq!(refused(Signal::Notice(Notice::MessageBegin)), Error::HPE_CB_MESSAGE_BEGIN);
    assert_eq!(refused(Signal::Notice(Notice::UrlComplete)), Error::HPE_CB_URL_COMPLETE);
    assert_eq!(refused(Signal::Notice(Notice::StatusComplete)), Error::HPE_CB_STATUS_COMPLETE);
    assert_eq!(
        refused(Signal::Notice(Notice::HeaderFieldComplete)),
        Error::HPE_CB_HEADER_FIELD_COMPLETE
    );
    assert_eq!(
        refused(Signal::Notice(Notice::HeaderValueComplete)),
        Error::HPE_CB_HEADER_VALUE_COMPLETE
    );
    assert_eq!(refused(Signal::Notice(Notice::HeadersComplete)), Error::HPE_CB_HEADERS_COMPLETE);
    assert_eq!(refused(Signal::Notice(Notice::ChunkHeader)), Error::HPE_CB_CHUNK_HEADER);
    assert_eq!(refused(Signal::Notice(Notice::ChunkComplete)), Error::HPE_CB_CHUNK_COMPLETE);
    assert_eq!(refused(Signal::Notice(Notice::MessageComplete)), Error::HPE_CB_MESSAGE_COMPLETE);
    assert_eq!(refused(Signal::Data(DataKind::Body, 0, 1)), Error::HPE_USER);
    assert_eq!(m.answered(Signal::Notice(Notice::MessageBegin), Answer::Continue), m);
    assert!(Error::HPE_USER.from_hook() && Error::HPE_PAUSED.from_hook());
    assert!(!Error::HPE_PAUSED_UPGRADE.from_hook() && !Error::HPE_OK.from_hook());
    let failed = m.fail(Error::HPE_INVALID_URL);
    assert_eq!(failed.answered(Signal::Notice(Notice::MessageBegin), Answer::Abort), failed);
    assert_eq!(failed.paused(), failed);
    assert_eq!(failed.resumed(), failed);
    assert_eq!(failed.cleared(), m);
}

#[test]
fn connect_and_upgrade_leave_http() {
    let mut m = Machine::new(Type::HTTP_REQUEST, Options::strict());
    let input = b"CONNECT example.org:443 HTTP/1.1\r\nContent-Length: 10\r\n\r\nraw bytes";
    let (events, read) = m.collect(input);
    assert_eq!(read, input.len() - 9);
    assert_eq!(m.error, Error::HPE_PAUSED_UPGRADE);
    assert_eq!(m.state, State::Tunnel);
    assert!(m.upgrade_requested());
    assert_eq!(events.last(), Some(&Event::Notice(Notice::MessageComplete)));
    m = m.resumed_after_upgrade();
    let (events, read) = m.collect(b"raw bytes");
    assert!(events.is_empty());
    assert_eq!((m.error, read), (Error::HPE_OK, 9));

    // `Upgrade` alone, or in a response other than 101, is no upgrade.
    let mut m = Machine::new(Type::HTTP_REQUEST, Options::strict());
    m.collect(b"GET / HTTP/1.1\r\nUpgrade: h2c\r\n\r\n");
    assert_eq!((m.error, m.state), (Error::HPE_OK, State::Start));
    let mut m = Machine::new(Type::HTTP_RESPONSE, Options::strict());
    m.collect(b"HTTP/1.1 200 OK\r\nConnection: upgrade\r\nUpgrade: h2c\r\nContent-Length: 0\r\n\r\n");
    assert_eq!((m.error, m.state), (Error::HPE_OK, State::Start));
    let mut m = Machine::new(Type::HTTP_RESPONSE, Options::strict());
    m.collect(b"HTTP/1.1 101 Switching\r\nConnection: upgrade\r\nUpgrade: h2c\r\n\r\n");
    assert_eq!((m.error, m.state), (Error::HPE_PAUSED_UPGRADE, State::Tunnel));
}
