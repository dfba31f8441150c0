use agent_client_protocol::schema::v1::CreateElicitationRequest;
use agent_client_protocol::schema::v1::CreateElicitationResponse;
use agent_client_protocol::schema::v1::ElicitationAction;
use agent_client_protocol::schema::v1::ElicitationFormMode;
use agent_client_protocol::schema::v1::ElicitationSchema;
use agent_client_protocol::schema::v1::ElicitationSessionScope;
use goose_acp::messages::CreateElicitationRequestMessage;
use goose_acp::messages::CreateElicitationResponseMessage;
use serde_json::Value;

fn request() -> CreateElicitationRequest {
    CreateElicitationRequest::new(
        ElicitationFormMode::new(
            ElicitationSessionScope::new("session-1".to_string()),
            ElicitationSchema::new().string("direction", true),
        ),
        "Choose a direction",
    )
}

#[test]
fn only_the_create_method_matches() {
    assert!(CreateElicitationRequestMessage::matches_method(
        "elicitation/create"
    ));
    for method in ["", "elicitation/complete", "elicitation/creat", "Elicitation/create"] {
        assert!(!CreateElicitationRequestMessage::matches_method(method));
    }
    assert_eq!(
        CreateElicitationRequestMessage(request()).method(),
        "elicitation/create"
    );
}

#[test]
fn a_request_message_carries_its_request() {
    let untyped = CreateElicitationRequestMessage(request())
        .to_untyped_message()
        .unwrap();
    assert_eq!(untyped.method, "elicitation/create");
    assert_eq!(untyped.params["mode"], "form");
    assert_eq!(untyped.params["sessionId"], "session-1");
    assert_eq!(untyped.params["message"], "Choose a direction");

    let parsed =
        CreateElicitationRequestMessage::parse_message(&untyped.method, &untyped.params);
    assert!(parsed.is_ok_and(|message| message.0 == request()));
}

#[test]
fn another_method_is_not_found() {
    let error = match CreateElicitationRequestMessage::parse_message("session/new", &Value::Null) {
        Ok(_) => panic!("expected an error"),
        Err(error) => error,
    };
    assert_eq!(i32::from(error.code), -32601);
    assert_eq!(error.message, "Method not found");
    assert_eq!(error.data, None);
}

#[test]
fn unreadable_parameters_are_invalid() {
    let error =
        match CreateElicitationRequestMessage::parse_message("elicitation/create", &Value::Null) {
            Ok(_) => panic!("expected an error"),
            Err(error) => error,
        };
    assert_eq!(i32::from(error.code), -32602);
}

#[test]
fn a_response_message_carries_its_response() {
    let response = CreateElicitationResponse::new(ElicitationAction::Decline);
    let value = CreateElicitationResponseMessage(response.clone())
        .into_json("elicitation/create")
        .unwrap();
    assert_eq!(value["action"], "decline");
    let parsed = CreateElicitationResponseMessage::from_value("elicitation/create", value);
    assert!(parsed.is_ok_and(|message| message.0 == response));
}

#[test]
fn an_unreadable_response_is_a_parse_error() {
    let error = match CreateElicitationResponseMessage::from_value("elicitation/create", Value::Null)
    {
        Ok(_) => panic!("expected an error"),
        Err(error) => error,
    };
    assert_eq!(i32::from(error.code), -32700);
}
