use jell_debrid::device_flow::{
    device_code_request, normalize_token_body, token_request, DeviceCodeGrant, DeviceFlow,
    FlowStep, TokenEndpointReply,
};
use jell_debrid::errors::Error;
use jell_debrid::http::encode_form;

fn grant() -> DeviceCodeGrant {
    DeviceCodeGrant {
        device_code: "dev".to_string(),
        user_code: "USER1".to_string(),
        verification_url: "https://trakt.tv/activate".to_string(),
        expires_in: 600,
        interval: 5,
    }
}

fn pending() -> TokenEndpointReply {
    TokenEndpointReply {
        error: Some("authorization_pending".to_string()),
        access_token: None,
        refresh_token: None,
        expires_in: None,
    }
}

fn granted() -> TokenEndpointReply {
    TokenEndpointReply {
        error: None,
        access_token: Some("at".to_string()),
        refresh_token: Some("rt".to_string()),
        expires_in: Some(7200),
    }
}

fn reply_with_error(word: &str) -> TokenEndpointReply {
    TokenEndpointReply {
        error: Some(word.to_string()),
        access_token: None,
        refresh_token: None,
        expires_in: None,
    }
}

#[test]
fn begin_fails_fatally_without_a_code() {
    let r = DeviceFlow::begin(Err(Error::TransportError("refused".to_string())));
    assert!(matches!(r, Err(Error::TransportError(_))));
}

#[test]
fn approval_prompt_names_url_and_code() {
    let flow = DeviceFlow::begin(Ok(grant())).ok().unwrap();
    assert_eq!(
        flow.approval_prompt(),
        "Open this URL in your browser:\nhttps://trakt.tv/activate\nand enter the code: USER1"
    );
}

#[test]
fn three_pending_replies_then_success_yield_the_token() {
    let mut flow = DeviceFlow::begin(Ok(grant())).ok().unwrap();
    let replies = vec![pending(), pending(), pending(), granted()];
    let outcome = flow.run_polling(&replies);
    match outcome {
        Some(FlowStep::Success(token)) => {
            assert_eq!(token.access_token, "at");
            assert_eq!(token.refresh_token, "rt");
            assert_eq!(token.expires_in, Some(7200));
        },
        _ => panic!("the flow should have captured the token"),
    }
}

#[test]
fn pending_alone_keeps_the_flow_polling() {
    let mut flow = DeviceFlow::begin(Ok(grant())).ok().unwrap();
    let replies = vec![pending(), pending()];
    assert!(flow.run_polling(&replies).is_none());
}

#[test]
fn empty_token_body_reads_as_pending() {
    assert_eq!(
        normalize_token_body(String::new()),
        "{\"error\": \"authorization_pending\"}"
    );
    assert_eq!(normalize_token_body("{\"x\":1}".to_string()), "{\"x\":1}");
}

#[test]
fn the_validity_window_bounds_the_polling() {
    let short = DeviceCodeGrant { expires_in: 12, interval: 5, ..grant() };
    let mut flow = DeviceFlow::begin(Ok(short)).ok().unwrap();
    // waited 5, then 10; the next wait would reach 15 >= 12: expired.
    let replies = vec![pending(), pending(), pending()];
    match flow.run_polling(&replies) {
        Some(FlowStep::Failed(Error::ProtocolError(_))) => {},
        _ => panic!("the flow should have expired"),
    }
}

#[test]
fn a_denied_reply_is_terminal() {
    let mut flow = DeviceFlow::begin(Ok(grant())).ok().unwrap();
    let step = flow.poll_step(&reply_with_error("access_denied"));
    assert!(matches!(step, FlowStep::Failed(Error::ProtocolError(_))));
}

#[test]
fn an_expired_token_reply_is_terminal() {
    let mut flow = DeviceFlow::begin(Ok(grant())).ok().unwrap();
    let step = flow.poll_step(&reply_with_error("expired_token"));
    assert!(matches!(step, FlowStep::Failed(Error::ProtocolError(_))));
}

#[test]
fn a_token_without_refresh_token_is_a_protocol_error() {
    let mut flow = DeviceFlow::begin(Ok(grant())).ok().unwrap();
    let reply = TokenEndpointReply { refresh_token: None, ..granted() };
    let step = flow.poll_step(&reply);
    assert!(matches!(step, FlowStep::Failed(Error::ProtocolError(_))));
}

#[test]
fn an_unrecognizable_reply_is_a_decode_error() {
    let mut flow = DeviceFlow::begin(Ok(grant())).ok().unwrap();
    let reply = TokenEndpointReply {
        error: None,
        access_token: None,
        refresh_token: None,
        expires_in: None,
    };
    let step = flow.poll_step(&reply);
    assert!(matches!(step, FlowStep::Failed(Error::DecodeError(_))));
}

#[test]
fn the_flow_form_bodies_carry_the_protocol_fields() {
    let issue = encode_form(&device_code_request(&"cid".to_string()));
    assert_eq!(issue, "client_id=cid");
    let exchange = encode_form(&token_request(
        &"cid".to_string(),
        &"sec".to_string(),
        &"dev".to_string(),
    ));
    assert_eq!(
        exchange,
        "client_id=cid&client_secret=sec&code=dev&grant_type=urn%3Aietf%3Aparams%3Aoauth%3Agrant-type%3Adevice_code"
    );
}
