use llhttp::consts::{Error, Method, Type};
use llhttp::machine::{DataKind, Machine, Notice, Options, State};
use llhttp::run::Event;

fn data(kind: DataKind, bytes: &[u8]) -> Event {
    Event::Data(kind, bytes.to_vec())
}

#[test]
fn get_request_without_body() {
    let mut m = Machine::new(Type::HTTP_REQUEST, Options::strict());
    let input = b"GET /x HTTP/1.1\r\nHost: a\r\n\r\n";
    let (events, read) = m.collect(input);
    assert_eq!(read, input.len());
    assert_eq!(m.error, Error::HPE_OK);
    assert_eq!(m.method, Method::HTTP_GET);
    assert_eq!((m.http_major, m.http_minor), (1, 1));
    assert_eq!(m.state, State::Start);
    assert_eq!(
        events,
        vec![
            Event::Notice(Notice::MessageBegin),
            data(DataKind::Url, b"/x"),
            Event::Notice(Notice::UrlComplete),
            data(DataKind::HeaderField, b"Host"),
            Event::Notice(Notice::HeaderFieldComplete),
            data(DataKind::HeaderValue, b"a"),
            Event::Notice(Notice::HeaderValueComplete),
            Event::Notice(Notice::HeadersComplete),
            Event::Notice(Notice::MessageComplete),
        ]
    );
}

#[test]
fn chunked_response_wiki() {
    let mut m = Machine::new(Type::HTTP_RESPONSE, Options::strict());
    let input = b"HTTP/1.1 200 OK\r\nTransfer-Encoding: chunked\r\n\r\n4\r\nWiki\r\n0\r\n\r\n";
    let (events, read) = m.collect(input);
    assert_eq!(read, input.len());
    assert_eq!(m.error, Error::HPE_OK);
    assert_eq!(m.status_code, 200);
    assert_eq!(
        events,
        vec![
            Event::Notice(Notice::MessageBegin),
            data(DataKind::Status, b"OK"),
            Event::Notice(Notice::StatusComplete),
            data(DataKind::HeaderField, b"Transfer-Encoding"),
            Event::Notice(Notice::HeaderFieldComplete),
            data(DataKind::HeaderValue, b"chunked"),
            Event::Notice(Notice::HeaderValueComplete),
            Event::Notice(Notice::HeadersComplete),
            Event::Notice(Notice::ChunkHeader),
            data(DataKind::Body, b"Wiki"),
            Event::Notice(Notice::ChunkComplete),
            Event::Notice(Notice::ChunkHeader),
            Event::Notice(Notice::ChunkComplete),
            Event::Notice(Notice::MessageComplete),
        ]
    );
}
