use llhttp::events::Settings;
use llhttp::machine::{DataKind, Flags, Machine, Notice, Options, State};
use llhttp::run::{Progress, Signal};
use llhttp::{Error, Type};

#[test]
fn every_error_has_its_reason() {
    let all = [
        (Error::HPE_OK, "Success"),
        (Error::HPE_PAUSED, "Paused"),
        (Error::HPE_PAUSED_UPGRADE, "Paused by an upgrade"),
        (Error::HPE_INVALID_METHOD, "Invalid method encountered"),
        (Error::HPE_INVALID_URL, "Invalid characters in url"),
        (Error::HPE_INVALID_CONSTANT, "Expected HTTP/"),
        (Error::HPE_INVALID_VERSION, "Invalid HTTP version"),
        (Error::HPE_INVALID_STATUS, "Invalid status code"),
        (Error::HPE_INVALID_HEADER_TOKEN, "Invalid header token"),
        (Error::HPE_HEADER_OVERFLOW, "Header field or value too long"),
        (Error::HPE_INVALID_CONTENT_LENGTH, "Invalid character in Content-Length"),
        (Error::HPE_UNEXPECTED_CONTENT_LENGTH, "Conflicting Content-Length headers"),
        (
            Error::HPE_AMBIGUOUS_BODY_LENGTH,
            "Content-Length can't be present with Transfer-Encoding",
        ),
        (Error::HPE_INVALID_TRANSFER_ENCODING, "Request has invalid Transfer-Encoding"),
        (Error::HPE_INVALID_CHUNK_SIZE, "Invalid character in chunk size"),
        (Error::HPE_CHUNK_TOO_LARGE, "Chunk size over the limit"),
        (Error::HPE_CR_EXPECTED, "Expected CR"),
        (Error::HPE_LF_EXPECTED, "Expected LF"),
        (Error::HPE_CLOSED_CONNECTION, "Data after `Connection: close`"),
        (Error::HPE_INVALID_EOF_STATE, "Invalid EOF state"),
        (Error::HPE_UNEXPECTED_EOF, "Stream ended inside a body"),
        (Error::HPE_CB_MESSAGE_BEGIN, "`on_message_begin` callback error"),
        (Error::HPE_CB_URL_COMPLETE, "`on_url_complete` callback error"),
        (Error::HPE_CB_STATUS_COMPLETE, "`on_status_complete` callback error"),
        (Error::HPE_CB_HEADER_FIELD_COMPLETE, "`on_header_field_complete` callback error"),
        (Error::HPE_CB_HEADER_VALUE_COMPLETE, "`on_header_value_complete` callback error"),
        (Error::HPE_CB_HEADERS_COMPLETE, "`on_headers_complete` callback error"),
        (Error::HPE_CB_MESSAGE_COMPLETE, "`on_message_complete` callback error"),
        (Error::HPE_CB_CHUNK_HEADER, "`on_chunk_header` callback error"),
        (Error::HPE_CB_CHUNK_COMPLETE, "`on_chunk_complete` callback error"),
        (Error::HPE_USER, "Span callback error"),
    ];
    for (error, reason) in all {
        assert_eq!(error.reason(), reason);
        assert_eq!(error.is_ok(), error == Error::HPE_OK);
    }
}

#[test]
fn settings_switch_single_hooks() {
    let mut settings = Settings::new();
    assert!(settings.silent());
    assert_eq!(settings, Settings::default());
    let body = Signal::Data(DataKind::Body, 0, 1);
    let url = Signal::Data(DataKind::Url, 0, 1);
    let begin = Signal::Notice(Notice::MessageBegin);
    assert!(!settings.wants(body) && !settings.wants(url) && !settings.wants(begin));
    settings.on_body(true);
    assert!(settings.wants(body) && !settings.wants(url) && !settings.wants(begin));
    assert!(!settings.silent());
    settings.on_message_begin(true);
    settings.on_body(false);
    assert!(!settings.wants(body) && settings.wants(begin));
    settings.on_message_begin(false);
    assert!(settings.silent());

    let mut all = Settings::new();
    all.on_message_begin(true);
    all.on_url(true);
    all.on_status(true);
    all.on_header_field(true);
    all.on_header_value(true);
    all.on_headers_complete(true);
    all.on_body(true);
    all.on_message_complete(true);
    all.on_chunk_header(true);
    all.on_chunk_complete(true);
    all.on_url_complete(true);
    all.on_status_complete(true);
    all.on_header_field_complete(true);
    all.on_header_value_complete(true);
    for signal in [
        Signal::Notice(Notice::MessageBegin),
        Signal::Notice(Notice::UrlComplete),
        Signal::Notice(Notice::StatusComplete),
        Signal::Notice(Notice::HeaderFieldComplete),
        Signal::Notice(Notice::HeaderValueComplete),
        Signal::Notice(Notice::HeadersComplete),
        Signal::Notice(Notice::ChunkHeader),
        Signal::Notice(Notice::ChunkComplete),
        Signal::Notice(Notice::MessageComplete),
        Signal::Data(DataKind::Url, 0, 0),
        Signal::Data(DataKind::Status, 0, 0),
        Signal::Data(DataKind::HeaderField, 0, 0),
        Signal::Data(DataKind::HeaderValue, 0, 0),
        Signal::Data(DataKind::Body, 0, 0),
    ] {
        assert!(all.wants(signal));
        assert!(!Settings::new().wants(signal));
    }
}

#[test]
fn strict_options_relax_nothing_and_limit_nothing() {
    let options = Options::strict();
    assert!(!options.lenient_lf);
    assert!(!options.lenient_header_space);
    assert!(!options.lenient_data_after_close);
    assert!(!options.reject_chunk_extensions);
    assert_eq!(options.max_header_len, u64::MAX);
    assert_eq!(options.max_chunk_size, u64::MAX);
    let m = Machine::new(Type::HTTP_REQUEST, options);
    assert_eq!(m.flags, Flags::fresh(false));
    assert!(m.ready() && !m.halted());
    assert!(Flags::fresh(true).skip_body);
}

#[test]
fn advance_hands_out_one_signal_at_a_time() {
    let input = b"PUT /ab HTTP/1.1\r\nA: b\r\nContent-Length: 2\r\n\r\nxyPUT";
    let mut m = Machine::new(Type::HTTP_REQUEST, Options::strict());
    let mut pos = 0;
    let mut seen = Vec::new();
    loop {
        let Progress { pos: next, signal } = m.advance(input, pos);
        assert!(next >= pos);
        pos = next;
        match signal {
            Some(signal) => seen.push((pos, signal)),
            None => break,
        }
    }
    assert_eq!(pos, input.len());
    assert_eq!(
        seen,
        vec![
            (1, Signal::Notice(Notice::MessageBegin)),
            (7, Signal::Data(DataKind::Url, 4, 7)),
            (8, Signal::Notice(Notice::UrlComplete)),
            (19, Signal::Data(DataKind::HeaderField, 18, 19)),
            (20, Signal::Notice(Notice::HeaderFieldComplete)),
            (22, Signal::Data(DataKind::HeaderValue, 21, 22)),
            (24, Signal::Notice(Notice::HeaderValueComplete)),
            (38, Signal::Data(DataKind::HeaderField, 24, 38)),
            (39, Signal::Notice(Notice::HeaderFieldComplete)),
            (41, Signal::Data(DataKind::HeaderValue, 40, 41)),
            (43, Signal::Notice(Notice::HeaderValueComplete)),
            (45, Signal::Notice(Notice::HeadersComplete)),
            (47, Signal::Data(DataKind::Body, 45, 47)),
            (47, Signal::Notice(Notice::MessageComplete)),
            (48, Signal::Notice(Notice::MessageBegin)),
        ]
    );
    assert_eq!(m.state, State::Token);
    // At the end of the input, and on a machine that has stopped, nothing is handed out.
    assert_eq!(m.advance(input, pos), Progress { pos, signal: None });
    let mut failed = m.fail(Error::HPE_USER);
    assert_eq!(failed.advance(input, 0), Progress { pos: 0, signal: None });
    assert_eq!(failed, m.fail(Error::HPE_USER));
}

#[test]
fn phases_of_a_message() {
    let mut m = Machine::new(Type::HTTP_RESPONSE, Options::strict());
    let input = b"HTTP/1.1 200 OK\r\nTransfer-Encoding: chunked\r\n\r\n1\r\na\r\n0\r\nT: v\r\n\r\n";
    let mut states = vec![m.state];
    for i in 0..input.len() {
        m.collect(&input[i..i + 1]);
        if *states.last().unwrap() != m.state {
            states.push(m.state);
        }
    }
    assert_eq!(
        states,
        vec![
            State::Start,
            State::Token,
            State::VersionMajor,
            State::VersionDot,
            State::VersionMinor,
            State::StatusSpace,
            State::StatusCode,
            State::StatusEnd,
            State::Reason,
            State::LineLf,
            State::HeaderStart,
            State::HeaderField,
            State::ValueStart,
            State::Value,
            State::ValueLf,
            State::HeaderStart,
            State::HeadersLf,
            State::ChunkSizeStart,
            State::ChunkSize,
            State::ChunkSizeLf,
            State::ChunkData,
            State::ChunkDataCr,
            State::ChunkDataLf,
            State::ChunkSizeStart,
            State::ChunkSize,
            State::ChunkSizeLf,
            State::HeaderStart,
            State::HeaderField,
            State::ValueStart,
            State::Value,
            State::ValueLf,
            State::HeaderStart,
            State::HeadersLf,
            State::Start,
        ]
    );
}
