use std::collections::BTreeMap;

use agent_client_protocol::schema::v1::ClientCapabilities;
use agent_client_protocol::schema::v1::CreateElicitationResponse;
use agent_client_protocol::schema::v1::ElicitationAcceptAction;
use agent_client_protocol::schema::v1::ElicitationAction;
use agent_client_protocol::schema::v1::ElicitationCapabilities;
use agent_client_protocol::schema::v1::ElicitationContentValue;
use agent_client_protocol::schema::v1::ElicitationFormCapabilities;
use agent_client_protocol::schema::v1::ElicitationMode;
use agent_client_protocol::schema::v1::ElicitationPropertySchema;
use agent_client_protocol::schema::v1::ElicitationSchema;
use agent_client_protocol::schema::v1::ElicitationScope;
use agent_client_protocol::schema::v1::ElicitationUrlCapabilities;
use agent_client_protocol::schema::v1::InitializeRequest;
use agent_client_protocol::schema::v1::Meta;
use agent_client_protocol::schema::v1::OtherElicitationAction;
use agent_client_protocol::schema::v1::SessionId;
use agent_client_protocol::schema::v1::StringPropertySchema;
use agent_client_protocol::schema::ProtocolVersion;
use goose_acp::elicitation::add_elicitation_meta;
use goose_acp::elicitation::cancel_form_elicitation;
use goose_acp::elicitation::client_supports_form_elicitation;
use goose_acp::elicitation::declares_form;
use goose_acp::elicitation::elicitation_response_from_acp;
use goose_acp::elicitation::finish_form_elicitation;
use goose_acp::elicitation::handle_form_elicitation;
use goose_acp::elicitation::outcome_from_reply;
use goose_acp::elicitation::send_form_elicitation;
use goose_acp::elicitation::AwaitedReply;
use goose_acp::elicitation::ElicitationOutcome;
use goose_acp::elicitation::FollowUp;
use goose_acp::elicitation::FormElicitation;
use goose_acp::elicitation::FormStep;
use goose_acp::elicitation::FormSubmission;
use goose_acp::protocol::Reply;
use serde_json::Value;

fn text(value: &str) -> Value {
    Value::String(value.to_string())
}

fn object<const N: usize>(members: [(&str, Value); N]) -> Value {
    Value::Object(serde_json::Map::from_iter(
        members.map(|(name, value)| (name.to_string(), value)),
    ))
}

fn form_schema() -> Value {
    object([
        ("type", text("object")),
        (
            "properties",
            object([("direction", object([("type", text("string"))]))]),
        ),
        ("required", Value::Array(vec![text("direction")])),
    ])
}

fn elicitation(requested_schema: Value, recovered: bool) -> FormElicitation {
    FormElicitation::new(
        SessionId::new("session-1"),
        "question-1".to_string(),
        "Choose a direction".to_string(),
        requested_schema,
        Meta::from_iter([("trace".to_string(), text("t-1"))]),
        recovered,
    )
}

fn assert_cancels(submission: &FormSubmission, recovered: bool) {
    assert_eq!(submission.session_id, "session-1");
    assert_eq!(submission.elicitation_id, "question-1");
    assert!(matches!(submission.outcome, ElicitationOutcome::Cancel));
    assert_eq!(submission.recovered, recovered);
}

#[test]
fn recovered_elicitation_metadata_declares_prompt_continuation() {
    let mut meta = Meta::new();
    add_elicitation_meta(&mut meta, "acp-provider:question-1", true, "prompt");

    assert_eq!(
        meta.get("goose"),
        Some(&object([
            ("elicitationId", text("acp-provider:question-1")),
            ("recovered", Value::Bool(true)),
            ("continuation", text("prompt")),
        ]))
    );
}

#[test]
fn elicitation_metadata_preserves_existing_goose_fields() {
    let mut meta = Meta::from_iter([(
        "goose".to_string(),
        object([("messageId", text("message-1"))]),
    )]);
    add_elicitation_meta(&mut meta, "question-1", false, "response");

    assert_eq!(meta["goose"]["messageId"], "message-1");
    assert_eq!(meta["goose"]["elicitationId"], "question-1");
    assert_eq!(meta["goose"]["recovered"], false);
    assert_eq!(meta["goose"]["continuation"], "response");
}

#[test]
fn metadata_around_the_goose_object_is_untouched() {
    let mut meta = Meta::from_iter([
        ("trace".to_string(), text("t-1")),
        ("goose".to_string(), object([])),
        ("elicitationId".to_string(), text("outside")),
    ]);
    add_elicitation_meta(&mut meta, "q", true, "prompt");
    assert_eq!(meta.len(), 3);
    assert_eq!(meta["trace"], "t-1");
    assert_eq!(meta["elicitationId"], "outside");
    assert_eq!(meta["goose"]["elicitationId"], "q");
}

#[test]
fn a_goose_value_that_is_no_object_is_replaced() {
    for value in [text("taken"), Value::Null, Value::Array(vec![text("a")])] {
        let mut meta = Meta::from_iter([("goose".to_string(), value)]);
        add_elicitation_meta(&mut meta, "q", false, "response");
        assert_eq!(
            meta["goose"],
            object([
                ("elicitationId", text("q")),
                ("recovered", Value::Bool(false)),
                ("continuation", text("response")),
            ])
        );
    }
}

#[test]
fn the_last_annotation_counts() {
    let start = Meta::from_iter([("goose".to_string(), object([("messageId", text("m"))]))]);
    let mut twice = start.clone();
    add_elicitation_meta(&mut twice, "first", true, "prompt");
    add_elicitation_meta(&mut twice, "second", false, "response");
    let mut once = start;
    add_elicitation_meta(&mut once, "second", false, "response");
    assert_eq!(twice, once);
}

#[test]
fn a_client_without_forms_gets_a_cancelled_elicitation() {
    for recovered in [false, true] {
        let step = handle_form_elicitation(false, elicitation(form_schema(), recovered));
        let FormStep::Finish { submission, error } = step else {
            panic!("expected a submission");
        };
        assert_cancels(&submission, recovered);
        assert!(error.is_none());
    }
}

#[test]
fn a_url_elicitation_is_cancelled() {
    let schema = object([("url", text("https://example.com"))]);
    let FormStep::Finish { submission, error } =
        handle_form_elicitation(true, elicitation(schema, true))
    else {
        panic!("expected a submission");
    };
    assert_cancels(&submission, true);
    assert!(error.is_none());
}

#[test]
fn a_url_that_is_no_text_is_no_url_elicitation() {
    let schema = object([("url", Value::Bool(true))]);
    assert!(matches!(
        send_form_elicitation(elicitation(schema, false)),
        FormStep::FindWaiter(_)
    ));
}

#[test]
fn an_unreadable_schema_is_cancelled_and_reported() {
    let schema = object([("properties", text("none"))]);
    let fault = serde_json::from_value::<ElicitationSchema>(schema.clone()).unwrap_err();
    let FormStep::Finish { submission, error } =
        handle_form_elicitation(true, elicitation(schema, false))
    else {
        panic!("expected a submission");
    };
    assert_cancels(&submission, false);
    let error = error.unwrap();
    assert_eq!(i32::from(error.code), -32603);
    assert_eq!(error.message, "Internal error");
    assert_eq!(
        error.data,
        Some(Value::String(format!(
            "Failed to parse ACP elicitation schema: {fault}"
        )))
    );
}

#[test]
fn a_form_is_sent_with_its_metadata() {
    for (has_live_waiter, continuation) in [(true, "response"), (false, "prompt")] {
        let FormStep::FindWaiter(pending) =
            handle_form_elicitation(true, elicitation(form_schema(), true))
        else {
            panic!("expected a form to send");
        };
        assert_eq!(pending.prompt.session_id, "session-1");
        let (request, awaited) = pending.to_request(has_live_waiter);
        assert_eq!(request.message, "Choose a direction");
        let ElicitationMode::Form(form) = request.mode else {
            panic!("expected form elicitation");
        };
        assert_eq!(
            form.requested_schema,
            ElicitationSchema::new().property(
                "direction",
                ElicitationPropertySchema::String(StringPropertySchema::new()),
                true
            )
        );
        let ElicitationScope::Session(scope) = form.scope else {
            panic!("expected session scope");
        };
        assert_eq!(scope.session_id.0.as_ref(), "session-1");
        let meta = request.meta.unwrap();
        assert_eq!(meta["trace"], "t-1");
        assert_eq!(meta["goose"]["elicitationId"], "question-1");
        assert_eq!(meta["goose"]["recovered"], true);
        assert_eq!(meta["goose"]["continuation"], continuation);
        assert_eq!(awaited.session_id, "session-1");
        assert_eq!(awaited.elicitation_id, "question-1");
        assert!(awaited.recovered);
    }
}

#[test]
fn the_reply_is_submitted_for_the_elicitation_that_was_sent() {
    let FormStep::FindWaiter(pending) =
        handle_form_elicitation(true, elicitation(form_schema(), false))
    else {
        panic!("expected a form to send");
    };
    let (_, awaited) = pending.to_request(true);
    let response = CreateElicitationResponse::new(ElicitationAction::Accept(
        ElicitationAcceptAction::new().content(BTreeMap::from([(
            "direction".to_string(),
            ElicitationContentValue::String("local".to_string()),
        )])),
    ));
    let submission = awaited.receive(Ok::<_, ()>(response)).unwrap();
    assert_eq!(submission.session_id, "session-1");
    assert_eq!(submission.elicitation_id, "question-1");
    assert!(!submission.recovered);
    let ElicitationOutcome::Accept(content) = submission.outcome else {
        panic!("expected an accepted outcome");
    };
    assert_eq!(content, object([("direction", text("local"))]));
}

#[test]
fn a_failed_request_leaves_the_elicitation_open() {
    let awaited = AwaitedReply {
        session_id: "s".to_string(),
        elicitation_id: "q".to_string(),
        recovered: true,
    };
    assert!(awaited.receive(Err("disconnected")).is_none());
}

#[test]
fn accepted_content_keeps_every_kind_of_value() {
    let response = CreateElicitationResponse::new(ElicitationAction::Accept(
        ElicitationAcceptAction::new().content(BTreeMap::from([
            (
                "text".to_string(),
                ElicitationContentValue::String("a".to_string()),
            ),
            (
                "list".to_string(),
                ElicitationContentValue::StringArray(vec!["b".to_string(), "c".to_string()]),
            ),
            ("integer".to_string(), ElicitationContentValue::Integer(-3)),
            ("number".to_string(), ElicitationContentValue::Number(0.5)),
            ("endless".to_string(), ElicitationContentValue::Number(f64::INFINITY)),
            ("flag".to_string(), ElicitationContentValue::Boolean(true)),
        ])),
    ));
    let ElicitationOutcome::Accept(content) = elicitation_response_from_acp(response) else {
        panic!("expected an accepted outcome");
    };
    assert_eq!(
        content,
        object([
            ("text", text("a")),
            ("list", Value::Array(vec![text("b"), text("c")])),
            ("integer", Value::from(-3)),
            ("number", Value::from(0.5)),
            ("endless", Value::Null),
            ("flag", Value::Bool(true)),
        ])
    );
}

#[test]
fn accepted_numbers_stay_under_their_own_names() {
    let numbers = BTreeMap::from([
        ("low".to_string(), ElicitationContentValue::Number(-0.25)),
        ("high".to_string(), ElicitationContentValue::Number(12.5)),
        ("whole".to_string(), ElicitationContentValue::Number(3.0)),
    ]);
    let ElicitationOutcome::Accept(content) = outcome_from_reply(Reply::Accept(Some(numbers)))
    else {
        panic!("expected an accepted outcome");
    };
    assert_eq!(
        content,
        object([
            ("low", Value::from(-0.25)),
            ("high", Value::from(12.5)),
            ("whole", Value::from(3.0)),
        ])
    );
    assert!(content["whole"].is_f64());
}

#[test]
fn accepted_without_content_is_an_empty_object() {
    let response = CreateElicitationResponse::new(ElicitationAction::Accept(
        ElicitationAcceptAction::new(),
    ));
    let ElicitationOutcome::Accept(content) = elicitation_response_from_acp(response) else {
        panic!("expected an accepted outcome");
    };
    assert_eq!(content, object([]));
    assert!(matches!(
        outcome_from_reply(Reply::Accept(None)),
        ElicitationOutcome::Accept(_)
    ));
}

#[test]
fn other_actions_have_their_outcomes() {
    let outcome =
        |action: ElicitationAction| elicitation_response_from_acp(CreateElicitationResponse::new(action));
    assert!(matches!(
        outcome(ElicitationAction::Decline),
        ElicitationOutcome::Decline
    ));
    assert!(matches!(
        outcome(ElicitationAction::Cancel),
        ElicitationOutcome::Cancel
    ));
    assert!(matches!(
        outcome(ElicitationAction::Other(OtherElicitationAction::new(
            "_later",
            BTreeMap::new()
        ))),
        ElicitationOutcome::Cancel
    ));
}

#[test]
fn a_submission_is_followed_up_by_what_the_agent_says() {
    let submission = |recovered| cancel_form_elicitation("session-1", "question-1", recovered);
    for recovered in [false, true] {
        assert!(matches!(
            finish_form_elicitation(submission(recovered), Ok::<_, ()>(true)),
            FollowUp::Done
        ));
        assert!(matches!(
            finish_form_elicitation(submission(recovered), Err("fault")),
            FollowUp::Failed("fault")
        ));
    }
    assert!(matches!(
        finish_form_elicitation(submission(false), Ok::<_, ()>(false)),
        FollowUp::NoWaiter
    ));
    let FollowUp::Record(recorded) = finish_form_elicitation(submission(true), Ok::<_, ()>(false))
    else {
        panic!("expected a response to record");
    };
    assert_cancels(&recorded, true);
}

#[test]
fn form_support_is_what_the_client_declares() {
    let client = |elicitation: Option<ElicitationCapabilities>| {
        client_supports_form_elicitation(
            &InitializeRequest::new(ProtocolVersion::V1)
                .client_capabilities(ClientCapabilities::new().elicitation(elicitation)),
        )
    };
    assert!(!client(None));
    assert!(!client(Some(ElicitationCapabilities::new())));
    assert!(!client(Some(
        ElicitationCapabilities::new().url(ElicitationUrlCapabilities::new())
    )));
    assert!(client(Some(
        ElicitationCapabilities::new().form(ElicitationFormCapabilities::new())
    )));
    assert!(!declares_form(&None));
    assert!(!declares_form(&Some(None)));
    assert!(declares_form(&Some(Some(ElicitationFormCapabilities::new()))));
}
