use ctehxk2::{
    close, close_reply, data, data_reply, deliver_response, init, init_reply, ExchangeReply, Post,
    SessionRegistry, Settings, SettingsSource, Status, Step, Transport,
};

fn settings() -> Settings {
    Settings::init(SettingsSource::default(), false).unwrap()
}

fn expect_post(step: Step) -> Post {
    match step {
        Step::Post(post) => post,
        Step::Done(status) => panic!("expected a request, the call ended with {:?}", status),
    }
}

fn open_registry(ctn: u16, pn: u16) -> SessionRegistry {
    let mut registry = SessionRegistry::new();
    registry.insert(ctn, pn);
    registry
}

fn exchange(registry: &SessionRegistry, settings: &Settings, ctn: u16, command: &[u8], buffer: &[u8]) -> Step {
    data(registry, settings, ctn, Some(1), Some(2), Some(command), Some(buffer.len() as u16), Some(buffer))
}

fn answer(dad: u8, sad: u8, lenr: u16, response: &str, status: i8) -> Transport<Option<ExchangeReply>> {
    Transport::Delivered(Some(ExchangeReply { dad, sad, lenr, response: response.to_string(), status }))
}

#[test]
fn returns_err_invalid_if_terminal_closed() {
    let registry = SessionRegistry::new();
    let buffer = [0u8; 16];
    assert_eq!(exchange(&registry, &settings(), 4_001, &[0x00, 0xA4], &buffer), Step::Done(Status::ERR_INVALID));
}

#[test]
fn data_use_ctn_and_pn_in_request_path() {
    let registry = open_registry(4_001, 17);
    let buffer = [0u8; 16];
    let post = expect_post(exchange(&registry, &settings(), 4_001, &[0x00, 0xA4], &buffer));
    assert_eq!(post.path, "ct_data/4001/17");
    assert_eq!((post.ctn, post.pn), (4_001, 17));
}

#[test]
fn data_use_ctn_and_pn_from_config() {
    let registry = open_registry(12, 34);
    let source = SettingsSource { ctn: Some(12), pn: Some(34), ..SettingsSource::default() };
    let pinned = Settings::init(source, false).unwrap();
    let buffer = [0u8; 4];
    let post = expect_post(exchange(&registry, &pinned, 60_000, &[1], &buffer));
    assert_eq!(post.path, "ct_data/12/34");
}

#[test]
fn post_body_contains_parameter() {
    let registry = open_registry(9, 1);
    let command = [1u8, 2, 3];
    let buffer = [0u8; 300];
    let step = data(&registry, &settings(), 9, Some(7), Some(2), Some(&command[..]), Some(300), Some(&buffer[..]));
    let post = expect_post(step);
    assert_eq!(
        post.body.as_deref(),
        Some("{\"dad\":7,\"sad\":2,\"lenc\":3,\"command\":\"AQID\",\"lenr\":300}")
    );
}

#[test]
fn empty_command_is_sent_as_empty_text() {
    let registry = open_registry(9, 1);
    let buffer = [0u8; 0];
    let step = data(&registry, &settings(), 9, Some(0), Some(255), Some(&[][..]), Some(0), Some(&buffer[..]));
    assert_eq!(
        expect_post(step).body.as_deref(),
        Some("{\"dad\":0,\"sad\":255,\"lenc\":0,\"command\":\"\",\"lenr\":0}")
    );
}

#[test]
fn response_is_mapped_to_parameter() {
    let (mut dad, mut sad, mut lenr) = (5u8, 6u8, 65_535u16);
    let mut response = vec![0xEEu8; 65_535];
    let status = data_reply(&answer(39, 63, 2, "kAA=", 0), &mut dad, &mut sad, &mut lenr, &mut response);
    assert_eq!(status, Status::OK);
    assert_eq!(dad, 39);
    assert_eq!(sad, 63);
    assert_eq!(2, lenr);
    assert_eq!([144, 0], response[..lenr as usize]);
    assert_eq!(response[2], 0xEE);
}

#[test]
fn undecodable_success_gives_err_htsi() {
    let (mut dad, mut sad, mut lenr) = (5u8, 6u8, 8u16);
    let mut response = vec![0xEEu8; 8];
    let status = data_reply(&answer(39, 63, 2, "0123456789", 0), &mut dad, &mut sad, &mut lenr, &mut response);
    assert_eq!(status, Status::ERR_HTSI);
    assert_eq!((dad, sad, lenr), (5, 6, 8));
    assert_eq!(response, vec![0xEEu8; 8]);
}

#[test]
fn data_returns_err_if_server_response_is_not_200() {
    let (mut dad, mut sad, mut lenr) = (5u8, 6u8, 8u16);
    let mut response = vec![0u8; 8];
    let status = data_reply(&Transport::Refused(400), &mut dad, &mut sad, &mut lenr, &mut response);
    assert_eq!(status, Status::ERR_HTSI);
}

#[test]
fn returns_err_if_server_response_not_contains_response_struct_as_json() {
    let (mut dad, mut sad, mut lenr) = (5u8, 6u8, 8u16);
    let mut response = vec![0u8; 8];
    let status = data_reply(&Transport::Delivered(None), &mut dad, &mut sad, &mut lenr, &mut response);
    assert_eq!(status, Status::ERR_HTSI);
    assert_eq!((dad, sad, lenr), (5, 6, 8));
}

#[test]
fn returns_response_status_from_valid_json_response_struct() {
    let (mut dad, mut sad, mut lenr) = (5u8, 6u8, 8u16);
    let mut response = vec![0x11u8; 8];
    let status = data_reply(&answer(1, 1, 1, "a=", -11), &mut dad, &mut sad, &mut lenr, &mut response);
    assert_eq!(status, Status::ERR_MEMORY);
    assert_eq!((dad, sad, lenr), (5, 6, 8));
    assert_eq!(response, vec![0x11u8; 8]);
}

#[test]
fn data_returns_err_if_no_server() {
    let (mut dad, mut sad, mut lenr) = (5u8, 6u8, 8u16);
    let mut response = vec![0u8; 8];
    assert_eq!(data_reply(&Transport::Failed, &mut dad, &mut sad, &mut lenr, &mut response), Status::ERR_HTSI);
}

#[test]
fn data_with_error() {
    let (mut dad, mut sad, mut lenr) = (5u8, 6u8, 8u16);
    let mut response = vec![0u8; 8];
    let status = data_reply(&Transport::Refused(404), &mut dad, &mut sad, &mut lenr, &mut response);
    assert_eq!(-128, i8::from(status));
}

fn assert_missing_arguments_rejected(registry: &SessionRegistry) {
    let command = [0x20u8];
    let buffer = [0u8; 32];
    let s = settings();
    let c = Some(&command[..]);
    let b = Some(&buffer[..]);
    assert_eq!(data(registry, &s, 3, None, Some(2), c, Some(32), b), Step::Done(Status::ERR_HTSI));
    assert_eq!(data(registry, &s, 3, Some(1), None, c, Some(32), b), Step::Done(Status::ERR_HTSI));
    assert_eq!(data(registry, &s, 3, Some(1), Some(2), c, None, b), Step::Done(Status::ERR_HTSI));
    assert_eq!(data(registry, &s, 3, Some(1), Some(2), c, Some(32), None), Step::Done(Status::ERR_HTSI));
    assert_eq!(data(registry, &s, 3, Some(1), Some(2), None, Some(32), b), Step::Done(Status::ERR_HTSI));
}

#[test]
fn tests_data_null_pointer() {
    assert_missing_arguments_rejected(&SessionRegistry::new());
}

#[test]
fn negative_data_null_pointer() {
    assert_missing_arguments_rejected(&open_registry(3, 9));
}

#[test]
fn decoded_response_is_cut_to_capacity() {
    let registry = open_registry(9, 1);
    let buffer = [0u8; 3];
    let post = expect_post(exchange(&registry, &settings(), 9, &[1, 2, 3], &buffer));
    assert!(post.body.unwrap().contains("\"command\":\"AQID\""));

    let (mut dad, mut sad, mut lenr) = (1u8, 2u8, 3u16);
    let mut response = vec![0u8; 3];
    let status = data_reply(&answer(1, 1, 5, "AQIDBAU=", 0), &mut dad, &mut sad, &mut lenr, &mut response);
    assert_eq!(status, Status::OK);
    assert_eq!(response, vec![1, 2, 3]);
    assert_eq!(lenr, 5);

    let mut roomy = vec![9u8; 8];
    let status = data_reply(&answer(1, 1, 5, "AQIDBAU=", 0), &mut dad, &mut sad, &mut lenr, &mut roomy);
    assert_eq!(status, Status::OK);
    assert_eq!(roomy, vec![1, 2, 3, 4, 5, 9, 9, 9]);
}

#[test]
fn deliver_response_without_bytes_writes_nothing() {
    let (mut dad, mut sad, mut lenr) = (1u8, 2u8, 3u16);
    let mut response = vec![7u8; 3];
    let status = deliver_response(None, 9, 9, 9, &mut dad, &mut sad, &mut lenr, &mut response);
    assert_eq!(status, Status::ERR_HTSI);
    assert_eq!((dad, sad, lenr), (1, 2, 3));
    assert_eq!(response, vec![7u8; 3]);

    let status = deliver_response(Some(vec![4, 5]), 9, 8, 2, &mut dad, &mut sad, &mut lenr, &mut response);
    assert_eq!(status, Status::OK);
    assert_eq!((dad, sad, lenr), (9, 8, 2));
    assert_eq!(response, vec![4, 5, 7]);
}

#[test]
fn open_exchange_close_scenario() {
    let mut registry = SessionRegistry::new();
    let s = settings();

    let post = expect_post(init(&registry, &s, 7, 3));
    assert_eq!(post.path, "ct_init/7/3");
    assert_eq!(init_reply(&mut registry, post.ctn, post.pn, &Transport::Delivered("0".to_string())), Status::OK);

    let command = [0xAAu8];
    let (mut dad, mut sad, mut lenr) = (0u8, 0u8, 2u16);
    let mut response = [0u8; 2];
    let step = data(&registry, &s, 7, Some(dad), Some(sad), Some(&command[..]), Some(lenr), Some(&response[..]));
    let post = expect_post(step);
    assert_eq!(post.path, "ct_data/7/3");
    assert_eq!(
        post.body.as_deref(),
        Some("{\"dad\":0,\"sad\":0,\"lenc\":1,\"command\":\"qg==\",\"lenr\":2}")
    );
    let status = data_reply(&answer(1, 1, 1, "qg==", 0), &mut dad, &mut sad, &mut lenr, &mut response);
    assert_eq!(status, Status::OK);
    assert_eq!(response[..lenr as usize], [0xAA]);
    assert_eq!((dad, sad), (1, 1));

    let post = expect_post(close(&registry, &s, 7));
    assert_eq!(post.path, "ct_close/7/3");
    assert_eq!(close_reply(&mut registry, post.ctn, &Transport::Delivered("0".to_string())), Status::OK);
    assert_eq!(registry.len(), 0);
}
