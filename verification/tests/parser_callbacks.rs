use std::collections::HashMap;

use llhttp::machine::{Machine, State};
use llhttp::{Answer, Callbacks, Error, Method, Parser, Settings, Type};

#[test]
fn test_method() {
    let settings = Settings::new();
    let mut parser = Parser::<()>::default();
    parser.init(&settings, Type::HTTP_BOTH);

    let payload = r#"NOTIFY * HTTP/1.1\r
        HOST: 239.255.255.250:1900\r
        CACHE-CONTROL: max-age=60\r
        LOCATION: http://192.168.2.1:5000/rootDesc.xml\r
        SERVER: K2A5/OpenWrt/Barrier_Breaker__unknown_ UPnP/1.1 MiniUPnPd/1.8\r
        NT: upnp:rootdevice\r
        USN: uuid:0aeec1da-795c-448c-864b-11b838fe5945::upnp:rootdevice\r
        NTS: ssdp:alive\r
        OPT: "http://schemas.upnp.org/upnp/1/0/"; ns=01\r
        01-NLS: 1\r
        BOOTID.UPNP.ORG: 1\r
        CONFIGID.UPNP.ORG: 1337\r\n\r\n"#;
    parser.parse(payload.as_bytes());
    assert!(matches!(parser.method(), Method::HTTP_NOTIFY));

    let payload = b"GET /ocsp-devid01/ME4wTKADAgEAMEUwQzBBMAkGBSsOAwIaBQAEFDOB0e%2FbaLCFIU0u76%2BMSmlkPCpsBBRXF%2B2iz9x8mKEQ4Py%2Bhy0s8uMXVAIITaFtmUYgLaY%3D HTTP/1.1\r\n
        Host: ocsp.apple.com\r\n
        Accept: */*\r\n
        Accept-Language: zh-cn\r\n
        Connection: keep-alive\r\n
        Accept-Encoding: gzip, deflate\r\n
        User-Agent: com.apple.trustd/2.0\r\n";

    let mut parser = Parser::<()>::default();
    parser.init(&settings, Type::HTTP_BOTH);

    parser.parse(payload);
    println!("{:?}", parser.method());
    assert!(matches!(parser.method(), Method::HTTP_GET));
}

#[derive(Default, Debug)]
struct TmpStore(pub HashMap<String, String>);

impl TmpStore {
    fn append(&mut self, key: String, data: &[u8]) {
        let data = std::str::from_utf8(data).unwrap();
        let value = self.0.entry(key).or_insert(String::new());
        let data = value.to_owned() + data;
        *value = data;
    }
}

impl Callbacks for TmpStore {
    fn on_url(&mut self, _machine: &Machine, data: &[u8]) -> Answer {
        self.append("url".to_string(), data);
        Answer::Continue
    }

    fn on_header_field(&mut self, _machine: &Machine, data: &[u8]) -> Answer {
        let key = "header_field/".to_string() + std::str::from_utf8(data).unwrap();
        self.append(key, data);
        Answer::Continue
    }

    fn on_header_value(&mut self, _machine: &Machine, data: &[u8]) -> Answer {
        let key = "header_value/".to_string() + std::str::from_utf8(data).unwrap();
        self.append(key, data);
        Answer::Continue
    }

    fn on_body(&mut self, _machine: &Machine, data: &[u8]) -> Answer {
        self.append("body".to_string(), data);
        Answer::Continue
    }

    fn on_message_complete(&mut self, _machine: &Machine) -> Answer {
        let value = self.0.entry("on_message_complete".to_string()).or_insert(String::new());
        *value = "on_message_complete".to_string();
        Answer::Continue
    }
}

#[test]
fn test_callback() {
    let mut settings = Settings::new();

    settings.on_url(true);
    settings.on_header_field(true);
    settings.on_header_value(true);
    settings.on_body(true);
    settings.on_message_complete(true);

    let payload = b"POST /user_info HTTP/1.1\r\nHost: localhost:5555\r\nUser-Agent: curl/7.81.0\r\nAccept: */*\r\nContent-Length: 17\r\nContent-Type: application/x-www-form-urlencoded\r\n\r\nusername=cattchen";

    let mut parser = Parser::<TmpStore>::default();
    parser.init(&settings, Type::HTTP_BOTH);
    parser.set_data(Some(Box::new(TmpStore::default())));

    parser.parse(payload);
    let tmp_store = parser.data().unwrap();

    assert!(matches!(parser.method(), Method::HTTP_POST));

    let mut m: HashMap<String, String> = HashMap::new();
    m.insert("header_value/localhost:5555".to_string(), "localhost:5555".to_string());
    m.insert(
        "header_value/application/x-www-form-urlencoded".to_string(),
        "application/x-www-form-urlencoded".to_string(),
    );
    m.insert("header_field/User-Agent".to_string(), "User-Agent".to_string());
    m.insert("header_field/Content-Length".to_string(), "Content-Length".to_string());
    m.insert("header_value/17".to_string(), "17".to_string());
    m.insert("url".to_string(), "/user_info".to_string());
    m.insert("header_field/Accept".to_string(), "Accept".to_string());
    m.insert("header_value/curl/7.81.0".to_string(), "curl/7.81.0".to_string());
    m.insert("header_value/*/*".to_string(), "*/*".to_string());
    m.insert("body".to_string(), "username=cattchen".to_string());
    m.insert("header_field/Content-Type".to_string(), "Content-Type".to_string());
    m.insert("on_message_complete".to_string(), "on_message_complete".to_string());
    m.insert("header_field/Host".to_string(), "Host".to_string());

    for (key, value) in m {
        assert!(tmp_store.0.get(&key).unwrap() == &value);
    }
}

/// Records the names of the events, and answers as told at the end of the
/// headers and for body data.
#[derive(Default)]
struct Script {
    log: Vec<String>,
    body: Vec<u8>,
    at_headers: Option<Answer>,
    at_body: Option<Answer>,
    keep_alive_at_end: Option<bool>,
}

impl Callbacks for Script {
    fn on_message_begin(&mut self, _machine: &Machine) -> Answer {
        self.log.push("begin".to_string());
        Answer::Continue
    }

    fn on_headers_complete(&mut self, machine: &Machine) -> Answer {
        self.log.push(format!("headers {}", machine.status_code));
        self.at_headers.unwrap_or(Answer::Continue)
    }

    fn on_body(&mut self, _machine: &Machine, data: &[u8]) -> Answer {
        self.log.push("body".to_string());
        self.body.extend_from_slice(data);
        self.at_body.unwrap_or(Answer::Continue)
    }

    fn on_message_complete(&mut self, machine: &Machine) -> Answer {
        self.log.push("complete".to_string());
        self.keep_alive_at_end = Some(machine.keep_alive());
        Answer::Continue
    }
}

fn all_hooks() -> Settings {
    let mut settings = Settings::new();
    settings.on_message_begin(true);
    settings.on_headers_complete(true);
    settings.on_body(true);
    settings.on_message_complete(true);
    settings
}

fn scripted(kind: Type, script: Script) -> Parser<Script> {
    let mut parser = Parser::<Script>::default();
    parser.init(&all_hooks(), kind);
    assert!(parser.set_data(Some(Box::new(script))).is_none());
    parser
}

#[test]
fn pause_at_headers_complete_reads_nothing_until_resumed() {
    let script = Script { at_headers: Some(Answer::Pause), ..Script::default() };
    let mut parser = scripted(Type::HTTP_RESPONSE, script);
    let input = b"HTTP/1.1 200 OK\r\nContent-Length: 5\r\n\r\nhello";
    let headers = input.len() - 5;

    assert_eq!(parser.parse(input), Error::HPE_PAUSED);
    assert_eq!(parser.get_error_pos(), headers);
    assert_eq!(parser.data().unwrap().log, vec!["begin", "headers 200"]);

    // Paused: nothing is read, whatever is offered.
    assert_eq!(parser.parse(&input[headers..]), Error::HPE_PAUSED);
    assert_eq!(parser.get_error_pos(), 0);
    assert_eq!(parser.data().unwrap().log, vec!["begin", "headers 200"]);

    parser.resume();
    assert_eq!(parser.errno(), Error::HPE_OK);
    assert_eq!(parser.parse(&input[headers..]), Error::HPE_OK);
    assert_eq!(parser.get_error_pos(), 5);
    let script = parser.data().unwrap();
    assert_eq!(script.log, vec!["begin", "headers 200", "body", "complete"]);
    assert_eq!(script.body, b"hello");
    assert_eq!(script.keep_alive_at_end, Some(true));
}

#[test]
fn abort_in_a_hook_stops_the_parser_with_the_hooks_error() {
    let script = Script { at_headers: Some(Answer::Abort), ..Script::default() };
    let mut parser = scripted(Type::HTTP_REQUEST, script);
    let input = b"POST / HTTP/1.1\r\nContent-Length: 2\r\n\r\nhi";
    assert_eq!(parser.parse(input), Error::HPE_CB_HEADERS_COMPLETE);
    assert_eq!(parser.get_error_pos(), input.len() - 2);
    assert_eq!(parser.get_error_reason(), "`on_headers_complete` callback error");
    // The error stays until a reset.
    parser.resume();
    assert_eq!(parser.parse(b"hi"), Error::HPE_CB_HEADERS_COMPLETE);
    assert_eq!(parser.get_error_pos(), 0);
    parser.reset();
    assert_eq!(parser.errno(), Error::HPE_OK);
    assert_eq!(parser.parse(b"GET / HTTP/1.1\r\n\r\n"), Error::HPE_CB_HEADERS_COMPLETE);

    let script = Script { at_body: Some(Answer::Abort), ..Script::default() };
    let mut parser = scripted(Type::HTTP_REQUEST, script);
    assert_eq!(parser.parse(input), Error::HPE_USER);
    assert_eq!(parser.get_error_pos(), input.len());
    assert_eq!(parser.data().unwrap().body, b"hi");
}

#[test]
fn a_hook_that_is_switched_off_is_not_called() {
    let mut settings = all_hooks();
    settings.on_body(false);
    let mut parser = Parser::<Script>::default();
    parser.init(&settings, Type::HTTP_REQUEST);
    parser.set_data(Some(Box::new(Script { at_body: Some(Answer::Abort), ..Script::default() })));
    assert_eq!(parser.parse(b"POST / HTTP/1.1\r\nContent-Length: 2\r\n\r\nhi"), Error::HPE_OK);
    assert_eq!(parser.data().unwrap().log, vec!["begin", "headers 0", "complete"]);
}

#[test]
fn set_data_returns_the_context_that_was_held() {
    let mut parser = Parser::<Script>::default();
    assert!(parser.data().is_none());
    assert!(parser.set_data(Some(Box::new(Script::default()))).is_none());
    let mut second = Script::default();
    second.log.push("second".to_string());
    let first = parser.set_data(Some(Box::new(second))).unwrap();
    assert!(first.log.is_empty());
    assert_eq!(parser.data().unwrap().log, vec!["second"]);
    let second = parser.set_data(None).unwrap();
    assert_eq!(second.log, vec!["second"]);
    assert!(parser.data().is_none());
}

#[test]
fn response_without_length_needs_the_end_of_the_stream() {
    let mut parser = scripted(Type::HTTP_RESPONSE, Script::default());
    assert_eq!(parser.parse(b"HTTP/1.1 200 OK\r\n\r\nsome"), Error::HPE_OK);
    assert!(parser.message_needs_eof());
    assert!(!parser.should_keep_alive());
    assert_eq!(parser.parse(b" more"), Error::HPE_OK);
    assert_eq!(parser.data().unwrap().log, vec!["begin", "headers 200", "body", "body"]);
    assert_eq!(parser.finish(), Error::HPE_OK);
    assert!(!parser.message_needs_eof());
    let script = parser.data().unwrap();
    assert_eq!(script.body, b"some more");
    assert_eq!(script.log.last().unwrap(), "complete");
    assert_eq!(script.keep_alive_at_end, Some(false));
    // The connection is over: more bytes are an error.
    assert_eq!(parser.parse(b"HTTP/1.1 200 OK\r\n\r\n"), Error::HPE_CLOSED_CONNECTION);
    assert_eq!(parser.get_error_pos(), 0);
}

#[test]
fn empty_input_ends_a_body_that_needs_the_end_of_the_stream() {
    let mut parser = scripted(Type::HTTP_RESPONSE, Script::default());
    assert_eq!(parser.parse(b""), Error::HPE_OK);
    assert_eq!(parser.parse(b"HTTP/1.0 200 OK\r\n\r\nabc"), Error::HPE_OK);
    assert_eq!(parser.data().unwrap().log, vec!["begin", "headers 200", "body"]);
    assert_eq!(parser.parse(b""), Error::HPE_OK);
    assert_eq!(parser.data().unwrap().log, vec!["begin", "headers 200", "body", "complete"]);
}

#[test]
fn finish_inside_a_message_is_an_error() {
    let mut parser = Parser::<()>::default();
    parser.init(&Settings::new(), Type::HTTP_REQUEST);
    assert_eq!(parser.finish(), Error::HPE_OK);
    assert_eq!(parser.parse(b"GET / HTTP/1.1\r\nHost"), Error::HPE_OK);
    assert_eq!(parser.finish(), Error::HPE_INVALID_EOF_STATE);
    assert_eq!(parser.get_error_reason(), "Invalid EOF state");

    let mut parser = Parser::<()>::default();
    parser.init(&Settings::new(), Type::HTTP_RESPONSE);
    assert_eq!(
        parser.parse(b"HTTP/1.1 200 OK\r\nTransfer-Encoding: chunked\r\n\r\n5\r\nab"),
        Error::HPE_OK
    );
    assert_eq!(parser.finish(), Error::HPE_UNEXPECTED_EOF);
    assert_eq!(parser.get_error_reason(), "Stream ended inside a body");

    let mut parser = Parser::<()>::default();
    parser.init(&Settings::new(), Type::HTTP_REQUEST);
    assert_eq!(parser.parse(b"PUT / HTTP/1.1\r\nContent-Length: 5\r\n\r\nab"), Error::HPE_OK);
    assert_eq!(parser.finish(), Error::HPE_UNEXPECTED_EOF);
    // The error stays.
    assert_eq!(parser.finish(), Error::HPE_UNEXPECTED_EOF);
    assert_eq!(parser.parse(b"cde"), Error::HPE_UNEXPECTED_EOF);
}

#[test]
fn upgrade_pauses_after_the_message_and_then_lets_bytes_pass() {
    let mut parser = scripted(Type::HTTP_REQUEST, Script::default());
    let input = b"GET /chat HTTP/1.1\r\nConnection: Upgrade\r\nUpgrade: websocket\r\n\r\n\x81\x05hello";
    let head = input.len() - 7;
    assert_eq!(parser.parse(input), Error::HPE_PAUSED_UPGRADE);
    assert_eq!(parser.get_error_pos(), head);
    assert_eq!(parser.data().unwrap().log, vec!["begin", "headers 0", "complete"]);
    parser.resume();
    assert_eq!(parser.errno(), Error::HPE_PAUSED_UPGRADE);
    parser.resume_after_upgrade();
    assert_eq!(parser.errno(), Error::HPE_OK);
    assert_eq!(parser.parse(&input[head..]), Error::HPE_OK);
    assert_eq!(parser.data().unwrap().log, vec!["begin", "headers 0", "complete"]);
    assert_eq!(parser.finish(), Error::HPE_OK);
}

#[test]
fn either_mode_tells_requests_from_responses() {
    let mut parser = Parser::<()>::default();
    parser.init(&Settings::new(), Type::HTTP_BOTH);
    assert_eq!(parser.lltype(), Type::HTTP_BOTH);
    assert_eq!(parser.parse(b"HEAD / HTTP/1.0\r\n\r\n"), Error::HPE_OK);
    assert_eq!(parser.lltype(), Type::HTTP_REQUEST);
    assert_eq!(parser.method_name(), "HEAD");
    assert_eq!((parser.major(), parser.minor()), (1, 0));
    assert!(!parser.should_keep_alive());

    parser.reset();
    assert_eq!(parser.lltype(), Type::HTTP_BOTH);
    assert_eq!(parser.parse(b"HTTP/1.1 404 Not Found\r\nContent-Length: 0\r\n\r\n"), Error::HPE_OK);
    assert_eq!(parser.lltype(), Type::HTTP_RESPONSE);
    assert_eq!(parser.status_code(), 404);
    assert!(parser.should_keep_alive());
    assert!(!parser.message_needs_eof());
}

#[test]
fn skip_body_is_for_one_message() {
    let mut parser = scripted(Type::HTTP_RESPONSE, Script::default());
    parser.set_skip_body(true);
    let head = b"HTTP/1.1 200 OK\r\nContent-Length: 3\r\n\r\n";
    assert_eq!(parser.parse(head), Error::HPE_OK);
    assert_eq!(parser.data().unwrap().log, vec!["begin", "headers 200", "complete"]);
    assert_eq!(parser.parse(head), Error::HPE_OK);
    assert_eq!(parser.parse(b"abc"), Error::HPE_OK);
    assert_eq!(
        parser.data().unwrap().log,
        vec!["begin", "headers 200", "complete", "begin", "headers 200", "body", "complete"]
    );
}

#[test]
fn machine_of_a_default_parser_starts_between_messages() {
    let m = Machine::new(Type::HTTP_BOTH, llhttp::Options::strict());
    assert_eq!(m.state, State::Start);
    assert_eq!(m.error, Error::HPE_OK);
    let parser = Parser::<()>::default();
    assert_eq!(parser.errno(), Error::HPE_OK);
    assert_eq!(parser.get_error_reason(), "Success");
    assert_eq!(parser.get_error_pos(), 0);
    assert_eq!(parser.status_code(), 0);
}

/// A consumer that writes one hook and leaves the others as they are.
#[derive(Debug, Default, PartialEq, Eq, Clone)]
struct OnlyBody {
    body: Vec<u8>,
}

impl Callbacks for OnlyBody {
    fn on_body(&mut self, _machine: &Machine, data: &[u8]) -> Answer {
        self.body.extend_from_slice(data);
        Answer::Continue
    }
}

#[test]
fn a_hook_that_is_not_written_lets_the_event_through() {
    let machine = Machine::new(Type::HTTP_BOTH, llhttp::Options::strict());
    let mut consumer = OnlyBody { body: b"kept".to_vec() };
    let before = consumer.clone();
    assert_eq!(consumer.on_message_begin(&machine), Answer::Continue);
    assert_eq!(consumer.on_url(&machine, b"/x"), Answer::Continue);
    assert_eq!(consumer.on_status(&machine, b"OK"), Answer::Continue);
    assert_eq!(consumer.on_header_field(&machine, b"Host"), Answer::Continue);
    assert_eq!(consumer.on_header_value(&machine, b"a"), Answer::Continue);
    assert_eq!(consumer.on_headers_complete(&machine), Answer::Continue);
    assert_eq!(consumer.on_message_complete(&machine), Answer::Continue);
    assert_eq!(consumer.on_chunk_header(&machine), Answer::Continue);
    assert_eq!(consumer.on_chunk_complete(&machine), Answer::Continue);
    assert_eq!(consumer.on_url_complete(&machine), Answer::Continue);
    assert_eq!(consumer.on_status_complete(&machine), Answer::Continue);
    assert_eq!(consumer.on_header_field_complete(&machine), Answer::Continue);
    assert_eq!(consumer.on_header_value_complete(&machine), Answer::Continue);
    assert_eq!(consumer, before);
    assert_eq!(().on_body(&machine, b"x"), Answer::Continue);

    // With every hook switched on, the hooks that are not written change nothing of the run.
    let mut settings = Settings::new();
    settings.on_message_begin(true);
    settings.on_url(true);
    settings.on_status(true);
    settings.on_header_field(true);
    settings.on_header_value(true);
    settings.on_headers_complete(true);
    settings.on_body(true);
    settings.on_message_complete(true);
    settings.on_chunk_header(true);
    settings.on_chunk_complete(true);
    settings.on_url_complete(true);
    settings.on_status_complete(true);
    settings.on_header_field_complete(true);
    settings.on_header_value_complete(true);
    let input = b"HTTP/1.1 200 OK\r\nTransfer-Encoding: chunked\r\n\r\n4\r\nWiki\r\n0\r\n\r\n";
    let mut parser = Parser::<OnlyBody>::default();
    parser.init(&settings, Type::HTTP_RESPONSE);
    parser.set_data(Some(Box::new(OnlyBody::default())));
    assert_eq!(parser.parse(input), Error::HPE_OK);
    assert_eq!(parser.get_error_pos(), input.len());
    assert_eq!(parser.data().unwrap().body, b"Wiki");
    let mut silent = Parser::<()>::default();
    silent.init(&settings, Type::HTTP_RESPONSE);
    silent.set_data(Some(Box::new(())));
    assert_eq!(silent.parse(input), Error::HPE_OK);
    assert_eq!(silent.get_error_pos(), input.len());
    assert_eq!(silent.status_code(), parser.status_code());
}
