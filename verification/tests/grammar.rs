use llhttp::lexer::{
    digit_value, hex_value, is_blank, is_text, is_token, is_url_char, lower, pack_bytes, push7,
    PACK_NONE,
};
use llhttp::machine::{DataKind, Header, Machine, Notice, Options, State};
use llhttp::run::Event;
use llhttp::{Error, Method, Type};

fn strict(kind: Type) -> Machine {
    Machine::new(kind, Options::strict())
}

/// Feeds `input` to a fresh machine and returns the error and the number
/// of bytes read.
fn outcome(kind: Type, options: Options, input: &[u8]) -> (Error, usize) {
    let mut m = Machine::new(kind, options);
    let (_, read) = m.collect(input);
    (m.error, read)
}

fn request(input: &[u8]) -> (Error, usize) {
    outcome(Type::HTTP_REQUEST, Options::strict(), input)
}

fn response(input: &[u8]) -> (Error, usize) {
    outcome(Type::HTTP_RESPONSE, Options::strict(), input)
}

#[test]
fn byte_classes() {
    for b in 0u8..=0x20 {
        assert!(!is_token(b), "control byte {b} is no token byte");
    }
    for b in 0x7fu8..=0xff {
        assert!(!is_token(b));
    }
    for &b in b"!#$%&'*+-.^_`|~09azAZ" {
        assert!(is_token(b));
    }
    for &b in b"\"(),/:;<=>?@[\\]{}" {
        assert!(!is_token(b));
    }
    assert!(is_url_char(b'/') && is_url_char(b'~') && is_url_char(b'!'));
    assert!(!is_url_char(b' ') && !is_url_char(0x7f) && !is_url_char(b'\r'));
    assert!(is_text(b'\t') && is_text(b' ') && is_text(0x80) && is_text(0xff));
    assert!(!is_text(0) && !is_text(b'\r') && !is_text(b'\n') && !is_text(0x7f));
    assert!(is_blank(b' ') && is_blank(b'\t') && !is_blank(b'\n'));
    assert_eq!(lower(b'A'), b'a');
    assert_eq!(lower(b'Z'), b'z');
    assert_eq!(lower(b'-'), b'-');
    assert_eq!(lower(b'a'), b'a');
    assert_eq!(digit_value(b'7'), Some(7));
    assert_eq!(digit_value(b'a'), None);
    assert_eq!(hex_value(b'9'), Some(9));
    assert_eq!(hex_value(b'a'), Some(10));
    assert_eq!(hex_value(b'F'), Some(15));
    assert_eq!(hex_value(b'g'), None);
}

#[test]
fn packed_tokens() {
    assert_eq!(push7(0, b'G'), 71);
    assert_eq!(push7(71, b'E'), 71 * 128 + 69);
    assert_eq!(pack_bytes(b""), 0);
    assert_eq!(pack_bytes(b"GET"), (71 * 128 + 69) * 128 + 84);
    assert_eq!(pack_bytes(b"GET"), Method::HTTP_GET.code());
    assert_eq!(pack_bytes(b"M-SEARCH"), Method::HTTP_MSEARCH.code());
    assert_eq!(pack_bytes(b"HTTP"), llhttp::consts::TOKEN_HTTP);
    assert_eq!(pack_bytes(b"transfer-encoding"), llhttp::consts::TOKEN_TRANSFER_ENCODING);
    assert_eq!(pack_bytes(b"content-length"), llhttp::consts::TOKEN_CONTENT_LENGTH);
    assert_eq!(pack_bytes(b"connection"), llhttp::consts::TOKEN_CONNECTION);
    assert_eq!(pack_bytes(b"upgrade"), llhttp::consts::TOKEN_UPGRADE);
    assert_eq!(pack_bytes(b"chunked"), llhttp::consts::TOKEN_CHUNKED);
    assert_eq!(pack_bytes(b"close"), llhttp::consts::TOKEN_CLOSE);
    assert_eq!(pack_bytes(b"keep-alive"), llhttp::consts::TOKEN_KEEP_ALIVE);
    // A byte from 0x80 up, or a nineteenth byte, packs to nothing.
    assert_eq!(push7(0, 0x80), PACK_NONE);
    assert_ne!(pack_bytes(b"abcdefghijklmnopqr"), PACK_NONE);
    assert_eq!(pack_bytes(b"abcdefghijklmnopqrs"), PACK_NONE);
    assert_eq!(push7(PACK_NONE, b'a'), PACK_NONE);
}

#[test]
fn every_method_is_found_by_its_name() {
    let all = [
        Method::HTTP_DELETE, Method::HTTP_GET, Method::HTTP_HEAD, Method::HTTP_POST,
        Method::HTTP_PUT, Method::HTTP_CONNECT, Method::HTTP_OPTIONS, Method::HTTP_TRACE,
        Method::HTTP_COPY, Method::HTTP_LOCK, Method::HTTP_MKCOL, Method::HTTP_MOVE,
        Method::HTTP_PROPFIND, Method::HTTP_PROPPATCH, Method::HTTP_SEARCH, Method::HTTP_UNLOCK,
        Method::HTTP_BIND, Method::HTTP_REBIND, Method::HTTP_UNBIND, Method::HTTP_ACL,
        Method::HTTP_REPORT, Method::HTTP_MKACTIVITY, Method::HTTP_CHECKOUT, Method::HTTP_MERGE,
        Method::HTTP_MSEARCH, Method::HTTP_NOTIFY, Method::HTTP_SUBSCRIBE,
        Method::HTTP_UNSUBSCRIBE, Method::HTTP_PATCH, Method::HTTP_PURGE,
        Method::HTTP_MKCALENDAR, Method::HTTP_LINK, Method::HTTP_UNLINK, Method::HTTP_SOURCE,
    ];
    for method in all {
        assert_eq!(pack_bytes(method.name().as_bytes()), method.code());
        assert_eq!(Method::from_code(method.code()), Some(method));
        let mut m = strict(Type::HTTP_BOTH);
        let line = format!("{} /a HTTP/1.1\r\n", method.name());
        let (_, read) = m.collect(line.as_bytes());
        assert_eq!(read, line.len());
        assert_eq!(m.method, method);
        assert_eq!(m.kind, Type::HTTP_REQUEST);
    }
    assert_eq!(Method::from_code(pack_bytes(b"GE")), None);
    assert_eq!(Method::from_code(pack_bytes(b"get")), None);
    assert_eq!(Method::from_code(0), None);
}

#[test]
fn header_names_are_told_apart_in_any_case() {
    assert_eq!(Header::classify(pack_bytes(b"content-length")), Header::ContentLength);
    assert_eq!(Header::classify(pack_bytes(b"transfer-encoding")), Header::TransferEncoding);
    assert_eq!(Header::classify(pack_bytes(b"connection")), Header::Connection);
    assert_eq!(Header::classify(pack_bytes(b"upgrade")), Header::Upgrade);
    assert_eq!(Header::classify(pack_bytes(b"content-lengt")), Header::Other);
    assert_eq!(Header::classify(pack_bytes(b"xtransfer-encoding")), Header::Other);
    let mut m = strict(Type::HTTP_REQUEST);
    m.collect(b"POST / HTTP/1.1\r\ncOnTeNt-LeNgTh: 42\r\nCONNECTION: Keep-Alive, UPGRADE\r\n");
    assert!(m.flags.content_length);
    assert_eq!(m.content_length, 42);
    assert!(m.flags.keep_alive && m.flags.connection_upgrade && !m.flags.close);
}

#[test]
fn malformed_start_lines() {
    assert_eq!(request(b"FOO / HTTP/1.1\r\n"), (Error::HPE_INVALID_METHOD, 3));
    assert_eq!(request(b"get / HTTP/1.1\r\n"), (Error::HPE_INVALID_METHOD, 3));
    assert_eq!(request(b"\x00GET"), (Error::HPE_INVALID_METHOD, 0));
    assert_eq!(request(b"HTTP/1.1 200 OK\r\n"), (Error::HPE_INVALID_METHOD, 4));
    assert_eq!(response(b"GET / HTTP/1.1\r\n"), (Error::HPE_INVALID_CONSTANT, 3));
    assert_eq!(response(b"HTTQ/1.1 200 OK\r\n"), (Error::HPE_INVALID_CONSTANT, 4));
    assert_eq!(response(b" HTTP/1.1"), (Error::HPE_INVALID_CONSTANT, 0));
    assert_eq!(request(b"GET  / HTTP/1.1\r\n"), (Error::HPE_INVALID_URL, 4));
    assert_eq!(request(b"GET /a\x01 HTTP/1.1\r\n"), (Error::HPE_INVALID_URL, 6));
    assert_eq!(request(b"GET /a\r\n"), (Error::HPE_INVALID_URL, 6));
    assert_eq!(request(b"GET / HTXP/1.1\r\n"), (Error::HPE_INVALID_CONSTANT, 10));
    assert_eq!(request(b"GET / HTT/1.1\r\n"), (Error::HPE_INVALID_CONSTANT, 9));
    assert_eq!(request(b"GET / HTTP/x.1\r\n"), (Error::HPE_INVALID_VERSION, 11));
    assert_eq!(request(b"GET / HTTP/1,1\r\n"), (Error::HPE_INVALID_VERSION, 12));
    assert_eq!(request(b"GET / HTTP/1.x\r\n"), (Error::HPE_INVALID_VERSION, 13));
    assert_eq!(request(b"GET / HTTP/1.1 \r\n"), (Error::HPE_CR_EXPECTED, 14));
    assert_eq!(request(b"GET / HTTP/1.1\n"), (Error::HPE_CR_EXPECTED, 14));
    assert_eq!(request(b"GET / HTTP/1.1\rX"), (Error::HPE_LF_EXPECTED, 15));
    assert_eq!(response(b"HTTP/1.1200 OK\r\n"), (Error::HPE_INVALID_VERSION, 8));
    assert_eq!(response(b"HTTP/1.1 20x OK\r\n"), (Error::HPE_INVALID_STATUS, 11));
    assert_eq!(response(b"HTTP/1.1 2000 OK\r\n"), (Error::HPE_INVALID_STATUS, 12));
    assert_eq!(response(b"HTTP/1.1 200 O\x00K\r\n"), (Error::HPE_INVALID_STATUS, 14));
}

#[test]
fn status_line_without_a_reason() {
    let mut m = strict(Type::HTTP_RESPONSE);
    let (events, read) = m.collect(b"HTTP/1.0 204\r\n\r\n");
    assert_eq!(read, 16);
    assert_eq!(m.status_code, 204);
    assert_eq!((m.http_major, m.http_minor), (1, 0));
    assert_eq!(
        events,
        vec![
            Event::Notice(Notice::MessageBegin),
            Event::Notice(Notice::StatusComplete),
            Event::Notice(Notice::HeadersComplete),
            Event::Notice(Notice::MessageComplete),
        ]
    );
    assert_eq!(m.state, State::Closed);
}

#[test]
fn malformed_headers() {
    let line = b"GET / HTTP/1.1\r\n";
    let at = |tail: &[u8]| {
        let mut input = line.to_vec();
        input.extend_from_slice(tail);
        let (error, read) = request(&input);
        (error, read - line.len())
    };
    assert_eq!(at(b"Ho st: a\r\n"), (Error::HPE_INVALID_HEADER_TOKEN, 2));
    assert_eq!(at(b"Host : a\r\n"), (Error::HPE_INVALID_HEADER_TOKEN, 4));
    assert_eq!(at(b"Ho\x00st: a\r\n"), (Error::HPE_INVALID_HEADER_TOKEN, 2));
    assert_eq!(at(b"H\x7fst: a\r\n"), (Error::HPE_INVALID_HEADER_TOKEN, 1));
    assert_eq!(at(b": a\r\n"), (Error::HPE_INVALID_HEADER_TOKEN, 0));
    assert_eq!(at(b"Host: a\r\n b\r\n"), (Error::HPE_INVALID_HEADER_TOKEN, 9));
    assert_eq!(at(b"Host: a\x00b\r\n"), (Error::HPE_INVALID_HEADER_TOKEN, 7));
    assert_eq!(at(b"Host: a\rb"), (Error::HPE_LF_EXPECTED, 8));
    assert_eq!(at(b"Host: a\n"), (Error::HPE_INVALID_HEADER_TOKEN, 7));
    assert_eq!(at(b"Host: a\r\n\rX"), (Error::HPE_LF_EXPECTED, 10));
    assert_eq!(at(b"Host:\r\nA: \t \r\n\r\n"), (Error::HPE_OK, 16));
}

#[test]
fn blanks_before_the_colon_only_by_option() {
    let input = b"GET / HTTP/1.1\r\nHost \t : a\r\nContent-Length : 0\r\n\r\n";
    assert_eq!(request(input), (Error::HPE_INVALID_HEADER_TOKEN, 20));
    let lenient = Options { lenient_header_space: true, ..Options::strict() };
    let mut m = Machine::new(Type::HTTP_REQUEST, lenient);
    let (events, read) = m.collect(input);
    assert_eq!((m.error, read), (Error::HPE_OK, input.len()));
    assert!(m.flags.content_length);
    assert!(events.contains(&Event::Data(DataKind::HeaderField, b"Host".to_vec())));
    // After the blanks only the colon may follow, and a line may not begin with one.
    let split = b"GET / HTTP/1.1\r\nHo st: a\r\n\r\n";
    assert_eq!(outcome(Type::HTTP_REQUEST, lenient, split), (Error::HPE_INVALID_HEADER_TOKEN, 19));
    let lead = b"GET / HTTP/1.1\r\n Host: a\r\n\r\n";
    assert_eq!(outcome(Type::HTTP_REQUEST, lenient, lead), (Error::HPE_INVALID_HEADER_TOKEN, 16));
    let control = b"GET / HTTP/1.1\r\nHo\x00st: a\r\n\r\n";
    assert_eq!(outcome(Type::HTTP_REQUEST, lenient, control), (Error::HPE_INVALID_HEADER_TOKEN, 18));
}

#[test]
fn content_length_values() {
    let at = |value: &str| {
        let input = format!("POST / HTTP/1.1\r\nContent-Length:{value}\r\n");
        let mut m = strict(Type::HTTP_REQUEST);
        let (_, read) = m.collect(input.as_bytes());
        (m.error, read as isize - 32, m.content_length)
    };
    assert_eq!(at(" 0"), (Error::HPE_OK, 4, 0));
    assert_eq!(at("17"), (Error::HPE_OK, 4, 17));
    assert_eq!(at(" 17 \t"), (Error::HPE_OK, 7, 17));
    assert_eq!(at(" 007"), (Error::HPE_OK, 6, 7));
    assert_eq!(at(" 18446744073709551615"), (Error::HPE_OK, 23, u64::MAX));
    assert_eq!(at(" 18446744073709551616").0, Error::HPE_INVALID_CONTENT_LENGTH);
    assert_eq!(at(" 18446744073709551616").1, 20);
    assert_eq!(at(" 99999999999999999999").0, Error::HPE_INVALID_CONTENT_LENGTH);
    assert_eq!(at(" 1a"), (Error::HPE_INVALID_CONTENT_LENGTH, 2, 0));
    assert_eq!(at(" 1 2"), (Error::HPE_INVALID_CONTENT_LENGTH, 3, 0));
    assert_eq!(at(" -1"), (Error::HPE_INVALID_CONTENT_LENGTH, 1, 0));
    assert_eq!(at(" +1"), (Error::HPE_INVALID_CONTENT_LENGTH, 1, 0));
    assert_eq!(at(" 1,1"), (Error::HPE_INVALID_CONTENT_LENGTH, 2, 0));
    assert_eq!(at(""), (Error::HPE_INVALID_CONTENT_LENGTH, 0, 0));
    assert_eq!(at("  "), (Error::HPE_INVALID_CONTENT_LENGTH, 2, 0));
}

#[test]
fn repeated_content_length_must_agree() {
    let same = b"POST / HTTP/1.1\r\nContent-Length: 3\r\nContent-Length: 03\r\n\r\nabc";
    assert_eq!(request(same), (Error::HPE_OK, same.len()));
    let other = b"POST / HTTP/1.1\r\nContent-Length: 3\r\nContent-Length: 4\r\n\r\nabc";
    assert_eq!(request(other), (Error::HPE_UNEXPECTED_CONTENT_LENGTH, 53));
}

#[test]
fn header_length_limit() {
    let options = Options { max_header_len: 4, ..Options::strict() };
    let ok = b"GET / HTTP/1.1\r\nHost: abcd\r\nA:\r\n\r\n";
    assert_eq!(outcome(Type::HTTP_REQUEST, options, ok), (Error::HPE_OK, ok.len()));
    let long_name = b"GET / HTTP/1.1\r\nHosts: a\r\n\r\n";
    assert_eq!(outcome(Type::HTTP_REQUEST, options, long_name), (Error::HPE_HEADER_OVERFLOW, 20));
    let long_value = b"GET / HTTP/1.1\r\nHost: abcde\r\n\r\n";
    assert_eq!(outcome(Type::HTTP_REQUEST, options, long_value), (Error::HPE_HEADER_OVERFLOW, 26));
    let none = Options { max_header_len: 0, ..Options::strict() };
    assert_eq!(outcome(Type::HTTP_REQUEST, none, ok), (Error::HPE_HEADER_OVERFLOW, 16));
    assert_eq!(outcome(Type::HTTP_REQUEST, none, b"GET / HTTP/1.1\r\n\r\n"), (Error::HPE_OK, 18));
    // Without a limit a long field passes.
    let mut long = b"GET / HTTP/1.1\r\n".to_vec();
    long.extend(std::iter::repeat(b'x').take(100_000));
    long.extend_from_slice(b": ");
    long.extend(std::iter::repeat(b'y').take(100_000));
    long.extend_from_slice(b"\r\n\r\n");
    assert_eq!(request(&long), (Error::HPE_OK, long.len()));
}

#[test]
fn chunk_sizes() {
    let head = b"HTTP/1.1 200 OK\r\nTransfer-Encoding: chunked\r\n\r\n";
    let at = |options: Options, tail: &[u8]| {
        let mut input = head.to_vec();
        input.extend_from_slice(tail);
        let (error, read) = outcome(Type::HTTP_RESPONSE, options, &input);
        (error, read - head.len())
    };
    let strict = Options::strict();
    assert_eq!(at(strict, b"g\r\n"), (Error::HPE_INVALID_CHUNK_SIZE, 0));
    assert_eq!(at(strict, b"\r\n"), (Error::HPE_INVALID_CHUNK_SIZE, 0));
    assert_eq!(at(strict, b"1g\r\n"), (Error::HPE_INVALID_CHUNK_SIZE, 1));
    assert_eq!(at(strict, b"1 \r\n"), (Error::HPE_INVALID_CHUNK_SIZE, 1));
    assert_eq!(at(strict, b"1\rX"), (Error::HPE_LF_EXPECTED, 2));
    assert_eq!(at(strict, b"1\n"), (Error::HPE_INVALID_CHUNK_SIZE, 1));
    assert_eq!(at(strict, b"1\r\naX"), (Error::HPE_CR_EXPECTED, 4));
    assert_eq!(at(strict, b"1\r\na\rX"), (Error::HPE_LF_EXPECTED, 5));
    assert_eq!(at(strict, b"ffffffffffffffff\r\n"), (Error::HPE_OK, 18));
    assert_eq!(at(strict, b"10000000000000000\r\n"), (Error::HPE_CHUNK_TOO_LARGE, 16));
    assert_eq!(at(strict, b"1;name=value\r\na\r\n0\r\n\r\n"), (Error::HPE_OK, 22));
    assert_eq!(at(strict, b"1;na\x00me\r\n"), (Error::HPE_INVALID_CHUNK_SIZE, 4));

    let capped = Options { max_chunk_size: 0x1f, ..Options::strict() };
    assert_eq!(at(capped, b"1f\r\n"), (Error::HPE_OK, 4));
    assert_eq!(at(capped, b"20\r\n"), (Error::HPE_CHUNK_TOO_LARGE, 1));
    assert_eq!(at(capped, b"100\r\n"), (Error::HPE_CHUNK_TOO_LARGE, 2));
    let tiny = Options { max_chunk_size: 3, ..Options::strict() };
    assert_eq!(at(tiny, b"3\r\n"), (Error::HPE_OK, 3));
    assert_eq!(at(tiny, b"4\r\n"), (Error::HPE_CHUNK_TOO_LARGE, 0));

    let no_extensions = Options { reject_chunk_extensions: true, ..Options::strict() };
    assert_eq!(at(no_extensions, b"1;name\r\n"), (Error::HPE_INVALID_CHUNK_SIZE, 1));
    assert_eq!(at(no_extensions, b"1\r\na\r\n0\r\n\r\n"), (Error::HPE_OK, 11));
}

#[test]
fn upper_case_chunk_size() {
    let mut m = strict(Type::HTTP_RESPONSE);
    let (events, _) =
        m.collect(b"HTTP/1.1 200 OK\r\nTransfer-Encoding: chunked\r\n\r\n1A\r\n");
    assert_eq!(m.content_length, 26);
    assert_eq!(m.state, State::ChunkData);
    assert_eq!(events.last(), Some(&Event::Notice(Notice::ChunkHeader)));
}

#[test]
fn trailers_are_announced_as_header_fields() {
    let mut m = strict(Type::HTTP_RESPONSE);
    let input = b"HTTP/1.1 200 OK\r\nTransfer-Encoding: chunked\r\n\r\n2\r\nhi\r\n0\r\nContent-Length: 5\r\n\r\n";
    let (events, read) = m.collect(input);
    assert_eq!((m.error, read), (Error::HPE_OK, input.len()));
    // A trailer declares nothing of the framing.
    assert!(!m.flags.content_length);
    assert!(m.flags.trailers);
    let tail: Vec<&Event> = events.iter().skip(events.len() - 8).collect();
    assert_eq!(
        tail,
        vec![
            &Event::Notice(Notice::ChunkComplete),
            &Event::Notice(Notice::ChunkHeader),
            &Event::Data(DataKind::HeaderField, b"Content-Length".to_vec()),
            &Event::Notice(Notice::HeaderFieldComplete),
            &Event::Data(DataKind::HeaderValue, b"5".to_vec()),
            &Event::Notice(Notice::HeaderValueComplete),
            &Event::Notice(Notice::ChunkComplete),
            &Event::Notice(Notice::MessageComplete),
        ]
    );
}

#[test]
fn body_framing_by_the_headers() {
    let both = b"POST / HTTP/1.1\r\nTransfer-Encoding: chunked\r\nContent-Length: 3\r\n\r\nabc";
    assert_eq!(request(both), (Error::HPE_AMBIGUOUS_BODY_LENGTH, both.len() - 3));
    let both = b"POST / HTTP/1.1\r\nContent-Length: 3\r\nTransfer-Encoding: gzip, chunked\r\n\r\nabc";
    assert_eq!(request(both), (Error::HPE_AMBIGUOUS_BODY_LENGTH, both.len() - 3));
    let mut m = strict(Type::HTTP_REQUEST);
    let (events, _) = m.collect(both);
    assert!(events.iter().all(|e| !matches!(e, Event::Data(DataKind::Body, _))));
    assert_eq!(events.last(), Some(&Event::Notice(Notice::HeadersComplete)));

    // A message without a body by its kind is complete before the framing is looked at.
    let bodiless = b"HTTP/1.1 204 No Content\r\nTransfer-Encoding: chunked\r\nContent-Length: 3\r\n\r\n";
    assert_eq!(response(bodiless), (Error::HPE_OK, bodiless.len()));
    let bodiless = b"HTTP/1.1 304 Not Modified\r\nContent-Length: 3\r\n\r\nHTTP/1.1 100 Continue\r\n\r\n";
    assert_eq!(response(bodiless), (Error::HPE_OK, bodiless.len()));

    // The last coding decides.
    let not_last = b"POST / HTTP/1.1\r\nTransfer-Encoding: chunked, gzip\r\n\r\n";
    assert_eq!(request(not_last), (Error::HPE_INVALID_TRANSFER_ENCODING, not_last.len()));
    let mut m = strict(Type::HTTP_RESPONSE);
    m.collect(b"HTTP/1.1 200 OK\r\nTransfer-Encoding: chunked\r\nTransfer-Encoding: gzip\r\n\r\nab");
    assert_eq!(m.state, State::BodyUntilClose);
    assert!(m.flags.eof_delimited && m.flags.transfer_encoding && !m.flags.chunked);
    let mut m = strict(Type::HTTP_RESPONSE);
    m.collect(b"HTTP/1.1 200 OK\r\nTransfer-Encoding: gzip\r\nTransfer-Encoding: CHUNKED\r\n\r\n");
    assert_eq!(m.state, State::ChunkSizeStart);
    let mut m = strict(Type::HTTP_RESPONSE);
    m.collect(b"HTTP/1.1 200 OK\r\nTransfer-Encoding: chunked;q=1\r\n\r\n");
    assert_eq!(m.state, State::BodyUntilClose);

    // A request without a length has no body; so has one of length 0.
    let mut m = strict(Type::HTTP_REQUEST);
    m.collect(b"POST / HTTP/1.1\r\n\r\n");
    assert_eq!(m.state, State::Start);
    let mut m = strict(Type::HTTP_REQUEST);
    let (events, _) = m.collect(b"POST / HTTP/1.1\r\nContent-Length: 0\r\n\r\n");
    assert_eq!(m.state, State::Start);
    assert_eq!(events.last(), Some(&Event::Notice(Notice::MessageComplete)));
}

#[test]
fn connection_close_ends_the_connection() {
    let input = b"GET / HTTP/1.1\r\nConnection: close\r\n\r\n";
    let mut m = strict(Type::HTTP_REQUEST);
    m.collect(input);
    assert_eq!(m.state, State::Closed);
    assert!(!m.keep_alive());
    let (events, read) = m.collect(b"\r\n\r\nGET / HTTP/1.1\r\n\r\n");
    assert_eq!((m.error, read), (Error::HPE_CLOSED_CONNECTION, 4));
    assert!(events.is_empty());

    let lenient = Options { lenient_data_after_close: true, ..Options::strict() };
    let mut m = Machine::new(Type::HTTP_REQUEST, lenient);
    m.collect(input);
    let (events, read) = m.collect(b"GET / HTTP/1.1\r\n\r\n");
    assert_eq!((m.error, read), (Error::HPE_OK, 18));
    assert!(events.is_empty());
}

#[test]
fn bare_line_feeds_only_by_option() {
    let input = b"HTTP/1.1 200 OK\nTransfer-Encoding: chunked\nA:\n\n1;x\na\n0\n\n";
    assert_eq!(response(input), (Error::HPE_INVALID_STATUS, 15));
    let lenient = Options { lenient_lf: true, ..Options::strict() };
    let mut m = Machine::new(Type::HTTP_RESPONSE, lenient);
    let (events, read) = m.collect(input);
    assert_eq!((m.error, read), (Error::HPE_OK, input.len()));
    assert_eq!(events.last(), Some(&Event::Notice(Notice::MessageComplete)));
    assert!(events.contains(&Event::Data(DataKind::Body, b"a".to_vec())));
    let request_line = b"GET / HTTP/1.1\nHost: a\n\n";
    assert_eq!(outcome(Type::HTTP_REQUEST, lenient, request_line), (Error::HPE_OK, 24));
    // A CR must still be followed by LF.
    assert_eq!(outcome(Type::HTTP_REQUEST, lenient, b"GET / HTTP/1.1\rH"), (Error::HPE_LF_EXPECTED, 15));
}

#[test]
fn messages_follow_one_another_on_a_persistent_connection() {
    let mut m = strict(Type::HTTP_BOTH);
    let input = b"\r\nGET /a HTTP/1.1\r\n\r\n\r\nPOST /b HTTP/1.1\r\nContent-Length: 1\r\n\r\nxHTTP/1.1 200 OK\r\nContent-Length: 0\r\n\r\n";
    let (events, read) = m.collect(input);
    assert_eq!((m.error, read), (Error::HPE_OK, input.len()));
    let begins = events.iter().filter(|e| **e == Event::Notice(Notice::MessageBegin)).count();
    let ends = events.iter().filter(|e| **e == Event::Notice(Notice::MessageComplete)).count();
    assert_eq!((begins, ends), (3, 3));
    assert_eq!(m.kind, Type::HTTP_RESPONSE);
    assert_eq!(m.status_code, 200);
    // What the message before declared is forgotten.
    assert_eq!(m.method, Method::HTTP_DELETE);
}
