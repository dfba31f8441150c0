use std::collections::BTreeMap;

use agent_client_protocol::schema::v1::CreateElicitationRequest;
use agent_client_protocol::schema::v1::CreateElicitationResponse;
use agent_client_protocol::schema::v1::ElicitationAcceptAction;
use agent_client_protocol::schema::v1::ElicitationAction;
use agent_client_protocol::schema::v1::ElicitationContentValue;
use agent_client_protocol::schema::v1::ElicitationFormMode;
use agent_client_protocol::schema::v1::ElicitationMode;
use agent_client_protocol::schema::v1::ElicitationPropertySchema;
use agent_client_protocol::schema::v1::ElicitationSchema;
use agent_client_protocol::schema::v1::ElicitationScope;
use agent_client_protocol::schema::v1::ElicitationSessionScope;
use agent_client_protocol::schema::v1::EnumOption;
use agent_client_protocol::schema::v1::MultiSelectItems;
use agent_client_protocol::schema::v1::MultiSelectPropertySchema;
use agent_client_protocol::schema::v1::OtherElicitationAction;
use agent_client_protocol::schema::v1::StringPropertySchema;
use goose_acp::cursor::CursorAskQuestionOutcome;
use goose_acp::cursor::CursorAskQuestionRequest;
use goose_acp::cursor::CursorAskQuestionResponse;
use goose_acp::cursor::CursorQuestion;
use goose_acp::cursor::CursorQuestionAnswer;
use goose_acp::cursor::CursorQuestionOption;
use goose_acp::protocol::Reply;

fn request() -> CursorAskQuestionRequest {
    CursorAskQuestionRequest {
        tool_call_id: "tool-1".to_string(),
        title: Some("Shape the implementation".to_string()),
        questions: vec![
            CursorQuestion {
                id: "direction".to_string(),
                prompt: "Which direction?".to_string(),
                options: vec![
                    CursorQuestionOption {
                        id: "native".to_string(),
                        label: "Native ACP".to_string(),
                    },
                    CursorQuestionOption {
                        id: "prose".to_string(),
                        label: "Prose".to_string(),
                    },
                ],
                allow_multiple: false,
            },
            CursorQuestion {
                id: "priorities".to_string(),
                prompt: "What matters?".to_string(),
                options: vec![
                    CursorQuestionOption {
                        id: "quality".to_string(),
                        label: "Quality".to_string(),
                    },
                    CursorQuestionOption {
                        id: "speed".to_string(),
                        label: "Speed".to_string(),
                    },
                ],
                allow_multiple: true,
            },
        ],
    }
}

fn accept(content: BTreeMap<String, ElicitationContentValue>) -> CreateElicitationResponse {
    CreateElicitationResponse::new(ElicitationAction::Accept(
        ElicitationAcceptAction::new().content(content),
    ))
}

fn text(value: &str) -> ElicitationContentValue {
    ElicitationContentValue::String(value.to_string())
}

fn list(values: &[&str]) -> ElicitationContentValue {
    ElicitationContentValue::StringArray(values.iter().map(|value| value.to_string()).collect())
}

#[test]
fn converts_multiple_questions_without_inventing_options() {
    let request = request();
    let elicitation = request.to_elicitation_request("cursor-session").unwrap();
    let ElicitationFormMode {
        requested_schema, ..
    } = match elicitation.mode {
        ElicitationMode::Form(form) => form,
        _ => panic!("expected form elicitation"),
    };

    let ElicitationPropertySchema::String(direction) = &requested_schema.properties["direction"]
    else {
        panic!("expected single-select property");
    };
    assert_eq!(
        direction
            .one_of
            .as_ref()
            .unwrap()
            .iter()
            .map(|option| option.value.as_str())
            .collect::<Vec<_>>(),
        vec!["native", "prose"]
    );

    let ElicitationPropertySchema::Array(priorities) = &requested_schema.properties["priorities"]
    else {
        panic!("expected multi-select property");
    };
    let MultiSelectItems::Titled(items) = &priorities.items else {
        panic!("expected titled multi-select items");
    };
    assert_eq!(
        items
            .options
            .iter()
            .map(|option| option.value.as_str())
            .collect::<Vec<_>>(),
        vec!["quality", "speed"]
    );
}

#[test]
fn maps_accepted_values_back_to_cursor_ids_in_question_order() {
    let request = request();
    let response = CreateElicitationResponse::new(ElicitationAction::Accept(
        ElicitationAcceptAction::new().content(BTreeMap::from([
            (
                "priorities".to_string(),
                ElicitationContentValue::StringArray(vec![
                    "quality".to_string(),
                    "speed".to_string(),
                ]),
            ),
            (
                "direction".to_string(),
                ElicitationContentValue::String("native".to_string()),
            ),
        ])),
    ));

    assert_eq!(
        request.response_from_elicitation(response).outcome,
        CursorAskQuestionOutcome::Answered {
            answers: vec![
                CursorQuestionAnswer {
                    question_id: "direction".to_string(),
                    selected_option_ids: vec!["native".to_string()],
                },
                CursorQuestionAnswer {
                    question_id: "priorities".to_string(),
                    selected_option_ids: vec!["quality".to_string(), "speed".to_string()],
                },
            ],
        }
    );
}

#[test]
fn rejects_ambiguous_question_and_option_ids() {
    let mut duplicate_questions = request();
    duplicate_questions.questions[1].id = "direction".to_string();
    assert!(duplicate_questions
        .to_elicitation_request("cursor-session")
        .is_none());

    let mut duplicate_options = request();
    duplicate_options.questions[0].options[1].id = "native".to_string();
    assert!(duplicate_options
        .to_elicitation_request("cursor-session")
        .is_none());
}

#[test]
fn maps_decline_and_cancel_to_cursor_outcomes() {
    let request = request();
    assert_eq!(
        request
            .response_from_elicitation(CreateElicitationResponse::new(ElicitationAction::Decline))
            .outcome,
        CursorAskQuestionOutcome::Skipped
    );
    assert_eq!(
        request
            .response_from_elicitation(CreateElicitationResponse::new(ElicitationAction::Cancel))
            .outcome,
        CursorAskQuestionOutcome::Cancelled
    );
}

#[test]
fn the_whole_request_is_built_from_the_questions() {
    let schema = ElicitationSchema::new()
        .title("Shape the implementation".to_string())
        .property(
            "direction",
            StringPropertySchema::new()
                .title("Which direction?".to_string())
                .one_of(vec![
                    EnumOption::new("native", "Native ACP"),
                    EnumOption::new("prose", "Prose"),
                ]),
            true,
        )
        .property(
            "priorities",
            MultiSelectPropertySchema::titled(vec![
                EnumOption::new("quality", "Quality"),
                EnumOption::new("speed", "Speed"),
            ])
            .title("What matters?".to_string()),
            true,
        );
    assert_eq!(
        request().to_elicitation_request("cursor-session"),
        Some(CreateElicitationRequest::new(
            ElicitationFormMode::new(
                ElicitationSessionScope::new("cursor-session".to_string()),
                schema
            ),
            "Shape the implementation",
        ))
    );
}

#[test]
fn every_question_is_required_in_order() {
    let elicitation = request().to_elicitation_request("cursor-session").unwrap();
    let ElicitationMode::Form(form) = elicitation.mode else {
        panic!("expected form elicitation");
    };
    assert_eq!(
        form.requested_schema.required,
        Some(vec!["direction".to_string(), "priorities".to_string()])
    );
    assert_eq!(
        form.requested_schema.title.as_deref(),
        Some("Shape the implementation")
    );
    let ElicitationScope::Session(scope) = form.scope else {
        panic!("expected session scope");
    };
    assert_eq!(scope.session_id.0.as_ref(), "cursor-session");
    assert!(scope.tool_call_id.is_none());
    assert!(elicitation.meta.is_none());
}

#[test]
fn the_message_falls_back_on_the_number_of_questions() {
    let mut several = request();
    several.title = None;
    let mut single = several.clone();
    single.questions.truncate(1);
    assert_eq!(
        several.to_elicitation_request("s").unwrap().message,
        "Cursor has a few questions"
    );
    assert_eq!(
        single.to_elicitation_request("s").unwrap().message,
        "Cursor has a question"
    );
    assert_eq!(
        request().to_elicitation_request("s").unwrap().message,
        "Shape the implementation"
    );
}

#[test]
fn rejects_missing_questions_ids_and_options() {
    let mut no_questions = request();
    no_questions.questions.clear();
    assert!(no_questions.to_elicitation_request("s").is_none());

    let mut no_id = request();
    no_id.questions[1].id = String::new();
    assert!(no_id.to_elicitation_request("s").is_none());

    let mut no_options = request();
    no_options.questions[0].options.clear();
    assert!(no_options.to_elicitation_request("s").is_none());
}

#[test]
fn an_empty_option_id_and_a_shared_one_are_no_ambiguity() {
    let mut request = request();
    request.questions[0].options[0].id = String::new();
    request.questions[1].options[0].id = "prose".to_string();
    assert!(request.to_elicitation_request("s").is_some());
}

#[test]
fn an_open_question_cancels_all_answers() {
    let request = request();
    let missing = BTreeMap::from([("direction".to_string(), text("native"))]);
    assert_eq!(
        request.response_from_elicitation(accept(missing)).outcome,
        CursorAskQuestionOutcome::Cancelled
    );
    let empty = CreateElicitationResponse::new(ElicitationAction::Accept(
        ElicitationAcceptAction::new(),
    ));
    assert_eq!(
        request.response_from_elicitation(empty).outcome,
        CursorAskQuestionOutcome::Cancelled
    );
}

#[test]
fn a_value_of_the_wrong_kind_cancels_all_answers() {
    let request = request();
    for (direction, priorities) in [
        (list(&["native"]), list(&["speed"])),
        (text("native"), text("speed")),
        (ElicitationContentValue::Integer(1), list(&["speed"])),
        (ElicitationContentValue::Boolean(true), list(&["speed"])),
        (ElicitationContentValue::Number(1.5), list(&["speed"])),
    ] {
        let content = BTreeMap::from([
            ("direction".to_string(), direction),
            ("priorities".to_string(), priorities),
        ]);
        assert!(request.answers_from_content(&content).is_none());
        assert_eq!(
            request.response_from_elicitation(accept(content)).outcome,
            CursorAskQuestionOutcome::Cancelled
        );
    }
}

#[test]
fn content_of_no_question_is_ignored() {
    let request = request();
    let content = BTreeMap::from([
        ("direction".to_string(), text("prose")),
        ("priorities".to_string(), list(&[])),
    ]);
    let mut more = content.clone();
    more.insert("aside".to_string(), text("unasked"));
    let answers = request.answers_from_content(&content);
    assert_eq!(answers, request.answers_from_content(&more));
    assert_eq!(
        answers,
        Some(vec![
            CursorQuestionAnswer {
                question_id: "direction".to_string(),
                selected_option_ids: vec!["prose".to_string()],
            },
            CursorQuestionAnswer {
                question_id: "priorities".to_string(),
                selected_option_ids: Vec::new(),
            },
        ])
    );
}

#[test]
fn a_filled_form_is_answered_with_options_of_its_questions() {
    let request = request();
    let elicitation = request.to_elicitation_request("s").unwrap();
    let ElicitationMode::Form(form) = elicitation.mode else {
        panic!("expected form elicitation");
    };
    let mut content = BTreeMap::new();
    for name in form.requested_schema.required.unwrap() {
        let value = match &form.requested_schema.properties[&name] {
            ElicitationPropertySchema::String(property) => {
                text(&property.one_of.as_ref().unwrap()[1].value)
            }
            ElicitationPropertySchema::Array(property) => match &property.items {
                MultiSelectItems::Titled(items) => list(&[items.options[0].value.as_str()]),
                _ => panic!("expected titled multi-select items"),
            },
            _ => panic!("expected a choice"),
        };
        content.insert(name, value);
    }
    let CursorAskQuestionOutcome::Answered { answers } =
        request.response_from_elicitation(accept(content)).outcome
    else {
        panic!("expected answers");
    };
    assert_eq!(answers.len(), request.questions.len());
    for (answer, question) in answers.iter().zip(&request.questions) {
        assert_eq!(answer.question_id, question.id);
        assert_eq!(answer.selected_option_ids.len(), 1);
        for id in &answer.selected_option_ids {
            assert!(question.options.iter().any(|option| &option.id == id));
        }
    }
}

#[test]
fn an_unknown_action_is_cancelled() {
    let other = CreateElicitationResponse::new(ElicitationAction::Other(
        OtherElicitationAction::new("_later", BTreeMap::new()),
    ));
    assert_eq!(
        request().response_from_elicitation(other).outcome,
        CursorAskQuestionOutcome::Cancelled
    );
    assert_eq!(
        request().response_from_reply(Reply::Other).outcome,
        CursorAskQuestionOutcome::Cancelled
    );
    assert_eq!(
        CursorAskQuestionResponse::cancelled().outcome,
        CursorAskQuestionOutcome::Cancelled
    );
}
