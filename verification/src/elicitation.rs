//! Form elicitations that a server puts to its client: what is asked of the agent and of the client
//! at each point, from the elicitation to the outcome.
//!
//! The functions here decide and build; the server performs what they return and hands back what
//! came of it. An elicitation goes through [`handle_form_elicitation`] first. A [`FormStep::Finish`]
//! is submitted to the agent. A [`FormStep::FindWaiter`] becomes a request with
//! [`PendingForm::to_request`] once the agent has said whether somebody still waits for the answer,
//! and the reply to that request becomes a submission with [`AwaitedReply::receive`]. What the agent
//! says to a submission goes to [`finish_form_elicitation`].

use std::collections::BTreeMap;

use vstd::prelude::*;
use vstd::string::StringExecFns;

use agent_client_protocol::schema::v1::CreateElicitationRequest;
use agent_client_protocol::schema::v1::CreateElicitationResponse;
use agent_client_protocol::schema::v1::ElicitationContentValue;
use agent_client_protocol::schema::v1::ElicitationFormCapabilities;
use agent_client_protocol::schema::v1::ElicitationSchema;
use agent_client_protocol::schema::v1::InitializeRequest;
use agent_client_protocol::schema::v1::Meta;
use agent_client_protocol::schema::v1::SessionId;

use crate::json;
use crate::json::Json;
use crate::protocol;
use crate::protocol::AnswerModel;
use crate::protocol::Mode;
use crate::protocol::Reply;
use crate::protocol::Request;

verus! {

/// A form elicitation that waits to be put to the client.
pub struct FormElicitation {
    pub session_id: SessionId,
    pub elicitation_id: String,
    pub message: String,
    pub requested_schema: serde_json::Value,
    pub meta: Meta,
    /// Whether the elicitation was recovered from a stored session.
    pub recovered: bool,
}

/// How an elicitation ended.
#[derive(Debug)]
pub enum ElicitationOutcome {
    /// The user accepted, with the content as a JSON object.
    Accept(serde_json::Value),
    /// The user declined.
    Decline,
    /// The elicitation was cancelled.
    Cancel,
}

/// An outcome to submit to the agent.
pub struct FormSubmission {
    pub session_id: String,
    pub elicitation_id: String,
    pub outcome: ElicitationOutcome,
    pub recovered: bool,
}

/// What the client is told of a form elicitation besides its schema.
pub struct FormPrompt {
    pub session_id: String,
    pub elicitation_id: String,
    pub message: String,
    pub meta: Meta,
    pub recovered: bool,
}

/// A form elicitation with a readable schema, which can be sent.
pub struct PendingForm {
    pub prompt: FormPrompt,
    pub requested_schema: ElicitationSchema,
}

/// What to do with a form elicitation.
pub enum FormStep {
    /// Submit this outcome, then report the error if there is one.
    Finish { submission: FormSubmission, error: Option<agent_client_protocol::Error> },
    /// Ask the agent whether somebody waits for the answer, then send the form.
    FindWaiter(PendingForm),
}

/// An elicitation whose request was sent.
pub struct AwaitedReply {
    pub session_id: String,
    pub elicitation_id: String,
    pub recovered: bool,
}

/// What to do once the agent has taken a submission or not.
pub enum FollowUp<E> {
    /// Nothing: the submission reached somebody who waited for it.
    Done,
    /// Record the response of the recovered elicitation.
    Record(FormSubmission),
    /// Nothing: nobody waits for the response any more.
    NoWaiter,
    /// Nothing: the submission failed.
    Failed(E),
}

/// The members of the `goose` object in metadata; none where there is no such object.
pub open spec fn goose_members(meta: Map<Seq<char>, serde_json::Value>) -> Map<
    Seq<char>,
    serde_json::Value,
> {
    if meta.contains_key("goose"@) {
        match json::json(meta["goose"@]) {
            Json::Object(members) => members,
            _ => Map::empty(),
        }
    } else {
        Map::empty()
    }
}

/// Whether metadata was annotated for an elicitation: its `goose` object names the elicitation, says
/// whether it was recovered and how it continues. Everything else is as before, in that object and
/// around it.
pub open spec fn annotated(
    before: Map<Seq<char>, serde_json::Value>,
    after: Map<Seq<char>, serde_json::Value>,
    elicitation_id: Seq<char>,
    recovered: bool,
    continuation: Seq<char>,
) -> bool {
    &&& after.contains_key("goose"@)
    &&& after.remove("goose"@) == before.remove("goose"@)
    &&& json::json(after["goose"@]) matches Json::Object(members)
    &&& members.dom() == goose_members(before).dom().insert("elicitationId"@).insert(
        "recovered"@,
    ).insert("continuation"@)
    &&& forall|name: Seq<char>| #[trigger]
        goose_members(before).contains_key(name) && name != "elicitationId"@ && name
            != "recovered"@ && name != "continuation"@ ==> members[name] == goose_members(
            before,
        )[name]
    &&& json::json(members["elicitationId"@]) == Json::Text(elicitation_id)
    &&& json::json(members["recovered"@]) == Json::Flag(recovered)
    &&& json::json(members["continuation"@]) == Json::Text(continuation)
}

/// How a session continues after the elicitation: `response` where the provider call still waits, so
/// that the response resumes it; `prompt` where only the question survived, so that the client has to
/// continue with a new prompt.
pub open spec fn continuation(has_live_waiter: bool) -> Seq<char> {
    if has_live_waiter {
        "response"@
    } else {
        "prompt"@
    }
}

/// Whether an outcome is the one that a reply of the user stands for. The content of an accepted form
/// is kept, as an object that is empty where there is none; an unknown action counts as cancelled.
pub open spec fn concludes(outcome: ElicitationOutcome, reply: Reply) -> bool {
    match reply {
        Reply::Accept(content) => {
            &&& outcome matches ElicitationOutcome::Accept(value)
            &&& protocol::says_all(
                value,
                match content {
                    Some(content) => protocol::content_entries(content@),
                    None => Map::empty(),
                },
            )
        },
        Reply::Decline => outcome is Decline,
        Reply::Cancel => outcome is Cancel,
        Reply::Other => outcome is Cancel,
    }
}

/// Whether an error reports that a schema could not be read.
pub open spec fn reports(
    error: Option<agent_client_protocol::Error>,
    fault: serde_json::Error,
) -> bool {
    &&& error matches Some(error)
    &&& protocol::is_internal(
        protocol::failure(error),
        "Failed to parse ACP elicitation schema: "@ + json::error_text(fault),
    )
}

impl FormElicitation {
    /// A form elicitation of these parts.
    pub fn new(
        session_id: SessionId,
        elicitation_id: String,
        message: String,
        requested_schema: serde_json::Value,
        meta: Meta,
        recovered: bool,
    ) -> (elicitation: Self)
        ensures
            elicitation == (FormElicitation {
                session_id,
                elicitation_id,
                message,
                requested_schema,
                meta,
                recovered,
            }),
    {
        FormElicitation { session_id, elicitation_id, message, requested_schema, meta, recovered }
    }

    /// Whether the elicitation asks the user to open a URL: its schema has a text as `url`.
    pub open spec fn asks_for_url(self) -> bool {
        json::member(self.requested_schema, "url"@) matches Some(url) && json::json(url) is Text
    }

    /// Whether a prompt says the same as the elicitation.
    pub open spec fn prompted_by(self, prompt: FormPrompt) -> bool {
        &&& prompt.session_id@ == protocol::session_text(self.session_id)
        &&& prompt.elicitation_id == self.elicitation_id
        &&& prompt.message == self.message
        &&& prompt.meta == self.meta
        &&& prompt.recovered == self.recovered
    }

    /// Whether a step cancels the elicitation and reports no error.
    pub open spec fn cancelled_by(self, step: FormStep) -> bool {
        &&& step matches FormStep::Finish { submission, error }
        &&& submission.cancels(
            protocol::session_text(self.session_id),
            self.elicitation_id@,
            self.recovered,
        )
        &&& error is None
    }

    /// Whether a step is what is to be done with the elicitation, for a client that takes forms or
    /// not. A client that takes none and an elicitation that asks for a URL are cancelled. Else an
    /// elicitation with a readable schema is sent; one without is cancelled and the fault reported.
    pub open spec fn handled_by(self, step: FormStep, supports_form: bool) -> bool {
        if !supports_form || self.asks_for_url() {
            self.cancelled_by(step)
        } else {
            match protocol::schema_from_json(self.requested_schema) {
                Ok(schema) => {
                    &&& step matches FormStep::FindWaiter(pending)
                    &&& self.prompted_by(pending.prompt)
                    &&& pending.requested_schema == schema
                },
                Err(fault) => {
                    &&& step matches FormStep::Finish { submission, error }
                    &&& submission.cancels(
                        protocol::session_text(self.session_id),
                        self.elicitation_id@,
                        self.recovered,
                    )
                    &&& reports(error, fault)
                },
            }
        }
    }
}

impl FormSubmission {
    /// Whether the submission cancels this elicitation.
    pub open spec fn cancels(
        self,
        session_id: Seq<char>,
        elicitation_id: Seq<char>,
        recovered: bool,
    ) -> bool {
        &&& self.session_id@ == session_id
        &&& self.elicitation_id@ == elicitation_id
        &&& self.outcome is Cancel
        &&& self.recovered == recovered
    }
}

impl FormPrompt {
    /// Whether a step is what is to be done once the schema was read or not: an elicitation with a
    /// schema is sent, one without is cancelled and the fault reported.
    pub open spec fn continued_by(
        self,
        step: FormStep,
        parsed: Result<ElicitationSchema, serde_json::Error>,
    ) -> bool {
        match parsed {
            Ok(schema) => step == FormStep::FindWaiter(
                PendingForm { prompt: self, requested_schema: schema },
            ),
            Err(fault) => {
                &&& step matches FormStep::Finish { submission, error }
                &&& submission.cancels(self.session_id@, self.elicitation_id@, self.recovered)
                &&& reports(error, fault)
            },
        }
    }

    /// The step that follows once the schema was read or not.
    pub fn after_parsing(self, parsed: Result<ElicitationSchema, serde_json::Error>) -> (step:
        FormStep)
        ensures
            self.continued_by(step, parsed),
    {
        match parsed {
            Ok(requested_schema) => FormStep::FindWaiter(
                PendingForm { prompt: self, requested_schema },
            ),
            Err(fault) => {
                let text = "Failed to parse ACP elicitation schema: ".to_string().concat(
                    json::describe(&fault).as_str(),
                );
                FormStep::Finish {
                    submission: cancel_form_elicitation(
                        self.session_id.as_str(),
                        self.elicitation_id.as_str(),
                        self.recovered,
                    ),
                    error: Some(
                        protocol::with_data(protocol::internal_error(), json::text_value(text)),
                    ),
                }
            },
        }
    }
}

/// The first step of a form elicitation, for a client that takes forms or not.
pub fn handle_form_elicitation(supports_form: bool, elicitation: FormElicitation) -> (step:
    FormStep)
    ensures
        elicitation.handled_by(step, supports_form),
{
    if supports_form {
        send_form_elicitation(elicitation)
    } else {
        let session_id = protocol::read_session_id(&elicitation.session_id);
        FormStep::Finish {
            submission: cancel_form_elicitation(
                session_id.as_str(),
                elicitation.elicitation_id.as_str(),
                elicitation.recovered,
            ),
            error: None,
        }
    }
}

/// The first step of a form elicitation, for a client that takes forms.
pub fn send_form_elicitation(elicitation: FormElicitation) -> (step: FormStep)
    ensures
        elicitation.handled_by(step, true),
{
    let session_id = protocol::read_session_id(&elicitation.session_id);
    let asks_for_url = match json::get(&elicitation.requested_schema, "url") {
        Some(url) => json::as_str(url).is_some(),
        None => false,
    };
    if asks_for_url {
        return FormStep::Finish {
            submission: cancel_form_elicitation(
                session_id.as_str(),
                elicitation.elicitation_id.as_str(),
                elicitation.recovered,
            ),
            error: None,
        };
    }
    let parsed = protocol::parse_schema(elicitation.requested_schema);
    let prompt = FormPrompt {
        session_id,
        elicitation_id: elicitation.elicitation_id,
        message: elicitation.message,
        meta: elicitation.meta,
        recovered: elicitation.recovered,
    };
    prompt.after_parsing(parsed)
}

/// The submission that cancels an elicitation.
pub fn cancel_form_elicitation(session_id: &str, elicitation_id: &str, recovered: bool) -> (submission:
    FormSubmission)
    ensures
        submission.cancels(session_id@, elicitation_id@, recovered),
{
    FormSubmission {
        session_id: session_id.to_string(),
        elicitation_id: elicitation_id.to_string(),
        outcome: ElicitationOutcome::Cancel,
        recovered,
    }
}

impl PendingForm {
    /// Whether a request puts the form to the client: the message and the schema in the session,
    /// with the metadata annotated.
    pub open spec fn sent_by(self, request: Request, has_live_waiter: bool) -> bool {
        &&& request.asks_in(self.prompt.session_id@, self.requested_schema)
        &&& request.message == self.prompt.message@
        &&& request.meta matches Some(meta)
        &&& annotated(
            json::entries(self.prompt.meta),
            json::entries(meta),
            self.prompt.elicitation_id@,
            self.prompt.recovered,
            continuation(has_live_waiter),
        )
    }

    /// The request that puts the form to the client, and what to keep until the reply is there.
    pub fn to_request(self, has_live_waiter: bool) -> (r: (CreateElicitationRequest, AwaitedReply))
        ensures
            self.sent_by(protocol::request(r.0), has_live_waiter),
            r.1 == (AwaitedReply {
                session_id: self.prompt.session_id,
                elicitation_id: self.prompt.elicitation_id,
                recovered: self.prompt.recovered,
            }),
    {
        let PendingForm { prompt, requested_schema } = self;
        let FormPrompt { session_id, elicitation_id, message, meta, recovered } = prompt;
        let mut meta = meta;
        let continuation = if has_live_waiter {
            "response"
        } else {
            "prompt"
        };
        add_elicitation_meta(&mut meta, elicitation_id.as_str(), recovered, continuation);
        let mode = protocol::new_form_mode(
            protocol::new_session_scope(session_id.clone()),
            requested_schema,
        );
        let created = protocol::with_meta(protocol::new_request(mode, message), meta);
        (created, AwaitedReply { session_id, elicitation_id, recovered })
    }
}

impl AwaitedReply {
    /// Whether a submission hands in what the user replied to this elicitation.
    pub open spec fn answered_by(self, submission: FormSubmission, reply: Reply) -> bool {
        &&& submission.session_id == self.session_id
        &&& submission.elicitation_id == self.elicitation_id
        &&& submission.recovered == self.recovered
        &&& concludes(submission.outcome, reply)
    }

    /// The submission once the client has replied. Where the request failed there is none: the
    /// elicitation stays open.
    pub fn receive<E>(self, result: Result<CreateElicitationResponse, E>) -> (submission: Option<
        FormSubmission,
    >)
        ensures
            submission is Some <==> result is Ok,
            submission matches Some(submission) ==> self.answered_by(
                submission,
                protocol::reply(result->Ok_0),
            ),
    {
        match result {
            Ok(response) => Some(
                FormSubmission {
                    session_id: self.session_id,
                    elicitation_id: self.elicitation_id,
                    outcome: elicitation_response_from_acp(response),
                    recovered: self.recovered,
                },
            ),
            Err(_) => None,
        }
    }
}

/// The outcome that a response of the client stands for.
pub fn elicitation_response_from_acp(response: CreateElicitationResponse) -> (outcome:
    ElicitationOutcome)
    ensures
        concludes(outcome, protocol::reply(response)),
{
    outcome_from_reply(protocol::read_reply(response))
}

/// The outcome that a reply of the user stands for.
pub fn outcome_from_reply(reply: Reply) -> (outcome: ElicitationOutcome)
    ensures
        concludes(outcome, reply),
{
    match reply {
        Reply::Accept(content) => {
            let content = match content {
                Some(content) => content,
                None => {
                    let none: BTreeMap<String, ElicitationContentValue> = BTreeMap::new();
                    assert(protocol::content_entries(none@) =~= Map::empty());
                    none
                },
            };
            match protocol::content_to_json(content) {
                Ok(value) => ElicitationOutcome::Accept(value),
                Err(_) => ElicitationOutcome::Accept(json::empty_object()),
            }
        },
        Reply::Decline => ElicitationOutcome::Decline,
        Reply::Cancel => ElicitationOutcome::Cancel,
        Reply::Other => ElicitationOutcome::Cancel,
    }
}

/// What to do after a submission: `submitted` is whether the agent found somebody who waited for
/// it, or its error.
pub fn finish_form_elicitation<E>(submission: FormSubmission, submitted: Result<bool, E>) -> (next:
    FollowUp<E>)
    ensures
        match submitted {
            Ok(true) => next is Done,
            Ok(false) => next == if submission.recovered {
                FollowUp::<E>::Record(submission)
            } else {
                FollowUp::<E>::NoWaiter
            },
            Err(error) => next == FollowUp::<E>::Failed(error),
        },
{
    match submitted {
        Ok(true) => FollowUp::Done,
        Ok(false) => if submission.recovered {
            FollowUp::Record(submission)
        } else {
            FollowUp::NoWaiter
        },
        Err(error) => FollowUp::Failed(error),
    }
}

/// Whether the client of a connection takes form elicitations.
pub fn client_supports_form_elicitation(args: &InitializeRequest) -> (supported: bool)
    ensures
        supported == (protocol::form_capability(*args) matches Some(Some(_))),
{
    declares_form(&protocol::read_form_capability(args))
}

/// Whether a form capability is declared.
pub fn declares_form(capability: &Option<Option<ElicitationFormCapabilities>>) -> (declared: bool)
    ensures
        declared == (*capability matches Some(Some(_))),
{
    match capability {
        Some(form) => form.is_some(),
        None => false,
    }
}

/// Marks metadata with the elicitation that it belongs to.
pub fn add_elicitation_meta(
    meta: &mut Meta,
    elicitation_id: &str,
    recovered: bool,
    continuation: &str,
)
    ensures
        annotated(
            json::entries(*old(meta)),
            json::entries(*final(meta)),
            elicitation_id@,
            recovered,
            continuation@,
        ),
{
    let ghost before = json::entries(*meta);
    proof {
        lemma_member_names();
    }
    let goose = json::entry_or_insert(meta, "goose".to_string(), json::empty_object());
    if !json::is_object(goose) {
        *goose = json::empty_object();
    }
    assert(json::json(*goose) == Json::Object(goose_members(before)));
    if let Some(goose) = json::as_object_mut(goose) {
        json::insert(
            goose,
            "elicitationId".to_string(),
            json::text_value(elicitation_id.to_string()),
        );
        json::insert(goose, "recovered".to_string(), json::flag_value(recovered));
        json::insert(
            goose,
            "continuation".to_string(),
            json::text_value(continuation.to_string()),
        );
    }
    proof {
        let after = json::entries(*meta);
        assert(after.remove("goose"@) =~= before.remove("goose"@));
        let members = json::json(after["goose"@])->Object_0;
        assert(members.dom() =~= goose_members(before).dom().insert("elicitationId"@).insert(
            "recovered"@,
        ).insert("continuation"@));
    }
}

/// The three names that an annotation sets are different.
proof fn lemma_member_names()
    ensures
        "elicitationId"@ != "recovered"@,
        "elicitationId"@ != "continuation"@,
        "recovered"@ != "continuation"@,
{
    reveal_strlit("elicitationId");
    reveal_strlit("recovered");
    reveal_strlit("continuation");
    assert("elicitationId"@.len() == 13);
    assert("recovered"@.len() == 9);
    assert("continuation"@.len() == 12);
}

/// What metadata held before is still there after an annotation: every name besides `goose` with its
/// value, and every member of the `goose` object that the annotation does not set.
pub proof fn law_annotation_preserves_the_rest(
    before: Map<Seq<char>, serde_json::Value>,
    after: Map<Seq<char>, serde_json::Value>,
    elicitation_id: Seq<char>,
    recovered: bool,
    continuation: Seq<char>,
    name: Seq<char>,
)
    requires
        annotated(before, after, elicitation_id, recovered, continuation),
    ensures
        name != "goose"@ ==> (before.contains_key(name) <==> after.contains_key(name)),
        name != "goose"@ && before.contains_key(name) ==> after[name] == before[name],
        goose_members(before).contains_key(name) ==> goose_members(after).contains_key(name),
        goose_members(before).contains_key(name) && name != "elicitationId"@ && name
            != "recovered"@ && name != "continuation"@ ==> goose_members(after)[name]
            == goose_members(before)[name],
{
    if name != "goose"@ {
        assert(before.remove("goose"@).contains_key(name) <==> before.contains_key(name));
        assert(after.remove("goose"@).contains_key(name) <==> after.contains_key(name));
        if before.contains_key(name) {
            assert(before.remove("goose"@)[name] == before[name]);
            assert(after.remove("goose"@)[name] == after[name]);
        }
    }
}

/// The last annotation counts: annotating a second time leads to what the second annotation alone
/// would have led to.
pub proof fn law_last_annotation_counts(
    before: Map<Seq<char>, serde_json::Value>,
    between: Map<Seq<char>, serde_json::Value>,
    after: Map<Seq<char>, serde_json::Value>,
    elicitation_id: Seq<char>,
    recovered: bool,
    continuation: Seq<char>,
    last_elicitation_id: Seq<char>,
    last_recovered: bool,
    last_continuation: Seq<char>,
)
    requires
        annotated(before, between, elicitation_id, recovered, continuation),
        annotated(between, after, last_elicitation_id, last_recovered, last_continuation),
    ensures
        annotated(before, after, last_elicitation_id, last_recovered, last_continuation),
{
    let members = json::json(after["goose"@])->Object_0;
    assert(members.dom() =~= goose_members(before).dom().insert("elicitationId"@).insert(
        "recovered"@,
    ).insert("continuation"@));
    assert forall|name: Seq<char>| #[trigger]
        goose_members(before).contains_key(name) && name != "elicitationId"@ && name
            != "recovered"@ && name != "continuation"@ implies members[name] == goose_members(
        before,
    )[name] by {
        assert(goose_members(between).contains_key(name));
    }
}

/// A form reaches the client only if the client takes forms, the elicitation asks for no URL and its
/// schema can be read. Every other elicitation is submitted as cancelled at once.
pub proof fn law_unsendable_forms_are_cancelled(
    elicitation: FormElicitation,
    supports_form: bool,
    step: FormStep,
)
    requires
        elicitation.handled_by(step, supports_form),
    ensures
        step is FindWaiter <==> supports_form && !elicitation.asks_for_url()
            && protocol::schema_from_json(elicitation.requested_schema) is Ok,
        step matches FormStep::Finish { submission, .. } ==> submission.cancels(
            protocol::session_text(elicitation.session_id),
            elicitation.elicitation_id@,
            elicitation.recovered,
        ),
{
}

/// An answer comes back to where the question came from: the request goes to the session of the
/// elicitation, and its metadata names the elicitation, says whether it was recovered and how the
/// session continues; what the client replies is submitted under the same session and elicitation.
pub proof fn law_answers_reach_their_elicitation(
    elicitation: FormElicitation,
    pending: PendingForm,
    request: Request,
    has_live_waiter: bool,
    awaited: AwaitedReply,
    submission: FormSubmission,
    reply: Reply,
)
    requires
        elicitation.handled_by(FormStep::FindWaiter(pending), true),
        pending.sent_by(request, has_live_waiter),
        awaited == (AwaitedReply {
            session_id: pending.prompt.session_id,
            elicitation_id: pending.prompt.elicitation_id,
            recovered: pending.prompt.recovered,
        }),
        awaited.answered_by(submission, reply),
    ensures
        request.asks_in(
            protocol::session_text(elicitation.session_id),
            pending.requested_schema,
        ),
        request.meta matches Some(meta) && json::json(
            goose_members(json::entries(meta))["elicitationId"@],
        ) == Json::Text(elicitation.elicitation_id@) && json::json(
            goose_members(json::entries(meta))["recovered"@],
        ) == Json::Flag(elicitation.recovered) && json::json(
            goose_members(json::entries(meta))["continuation"@],
        ) == Json::Text(continuation(has_live_waiter)),
        submission.session_id@ == protocol::session_text(elicitation.session_id),
        submission.elicitation_id == elicitation.elicitation_id,
        submission.recovered == elicitation.recovered,
{
}

/// Nothing that the user entered is lost, renamed or exchanged: the outcome of an accepted form has
/// exactly the names of its content, each with the JSON value of the answer under that name.
pub proof fn law_accepted_answers_are_kept(
    outcome: ElicitationOutcome,
    content: BTreeMap<String, ElicitationContentValue>,
    name: Seq<char>,
)
    requires
        concludes(outcome, Reply::Accept(Some(content))),
    ensures
        outcome matches ElicitationOutcome::Accept(value) && json::json(value) is Object
            && json::member(value, name) == if protocol::content_entries(
            content@,
        ).contains_key(name) {
            Some(protocol::content_value(protocol::content_entries(content@)[name]))
        } else {
            None
        },
{
    let members = json::json(outcome->Accept_0)->Object_0;
    assert(members.dom().contains(name) <==> protocol::content_entries(content@).dom().contains(
        name,
    ));
}

/// Only a user who accepts leads to an accepted outcome, and only one who declines to a declined one.
pub proof fn law_outcome_tells_the_reply(outcome: ElicitationOutcome, reply: Reply)
    requires
        concludes(outcome, reply),
    ensures
        outcome is Accept <==> reply is Accept,
        outcome is Decline <==> reply is Decline,
{
}

/// What happens to an elicitation at first depends on the client and on the schema alone. It is
/// cancelled without an error where the client takes no forms or the schema is an object with a text
/// as `url`, whatever else the elicitation holds. Else it is sent with what it holds where the schema
/// can be read, and cancelled with an internal error that quotes the fault where it cannot.
pub proof fn law_first_step_of_an_elicitation(
    elicitation: FormElicitation,
    supports_form: bool,
    step: FormStep,
)
    requires
        call_ensures(handle_form_elicitation, (supports_form, elicitation), step) || (supports_form
            && call_ensures(send_form_elicitation, (elicitation,), step)),
    ensures
        !supports_form || (json::json(elicitation.requested_schema) matches Json::Object(members)
            && members.contains_key("url"@) && json::json(members["url"@]) is Text) ==> (
        step matches FormStep::Finish { submission, error } && error is None
            && submission.outcome is Cancel && submission.session_id@ == protocol::session_text(
            elicitation.session_id,
        ) && submission.elicitation_id@ == elicitation.elicitation_id@ && submission.recovered
            == elicitation.recovered),
        supports_form && !(json::json(elicitation.requested_schema) matches Json::Object(members)
            && members.contains_key("url"@) && json::json(members["url"@]) is Text) ==> match (
            protocol::schema_from_json(elicitation.requested_schema),
            step,
        ) {
            (Ok(schema), FormStep::FindWaiter(pending)) => {
                &&& pending.requested_schema == schema
                &&& pending.prompt.session_id@ == protocol::session_text(elicitation.session_id)
                &&& pending.prompt.elicitation_id@ == elicitation.elicitation_id@
                &&& pending.prompt.message@ == elicitation.message@
                &&& pending.prompt.meta == elicitation.meta
                &&& pending.prompt.recovered == elicitation.recovered
            },
            (Err(fault), FormStep::Finish { submission, error: Some(error) }) => {
                &&& submission.outcome is Cancel
                &&& submission.session_id@ == protocol::session_text(elicitation.session_id)
                &&& submission.elicitation_id@ == elicitation.elicitation_id@
                &&& submission.recovered == elicitation.recovered
                &&& protocol::failure(error).code == -32603
                &&& protocol::failure(error).message == "Internal error"@
                &&& protocol::failure(error).data matches Some(data)
                &&& json::json(data) == Json::Text(
                    "Failed to parse ACP elicitation schema: "@ + json::error_text(fault),
                )
            },
            _ => false,
        },
{
}

/// Once the schema was read, the prompt waits to be sent with it, unchanged. Where it could not be
/// read, the elicitation of the prompt is cancelled with an internal error that quotes the fault.
pub proof fn law_step_after_parsing(
    prompt: FormPrompt,
    parsed: Result<ElicitationSchema, serde_json::Error>,
    step: FormStep,
)
    requires
        call_ensures(FormPrompt::after_parsing, (prompt, parsed), step),
    ensures
        match (parsed, step) {
            (Ok(schema), FormStep::FindWaiter(pending)) => pending.prompt == prompt
                && pending.requested_schema == schema,
            (Err(fault), FormStep::Finish { submission, error: Some(error) }) => {
                &&& submission.outcome is Cancel
                &&& submission.session_id@ == prompt.session_id@
                &&& submission.elicitation_id@ == prompt.elicitation_id@
                &&& submission.recovered == prompt.recovered
                &&& protocol::failure(error).code == -32603
                &&& protocol::failure(error).message == "Internal error"@
                &&& protocol::failure(error).data matches Some(data)
                &&& json::json(data) == Json::Text(
                    "Failed to parse ACP elicitation schema: "@ + json::error_text(fault),
                )
            },
            _ => false,
        },
{
}

/// A cancellation names the elicitation that it was made for.
pub proof fn law_cancellation_names_its_elicitation(
    session_id: &str,
    elicitation_id: &str,
    recovered: bool,
    submission: FormSubmission,
)
    requires
        call_ensures(
            cancel_form_elicitation,
            (session_id, elicitation_id, recovered),
            submission,
        ),
    ensures
        submission.outcome is Cancel,
        submission.session_id@ == session_id@,
        submission.elicitation_id@ == elicitation_id@,
        submission.recovered == recovered,
{
}

/// The client is asked what the elicitation asks: its message and its schema, in its session and
/// outside any tool call. What is kept for the reply names the same elicitation.
pub proof fn law_request_asks_what_the_form_asks(
    pending: PendingForm,
    has_live_waiter: bool,
    created: CreateElicitationRequest,
    awaited: AwaitedReply,
)
    requires
        call_ensures(PendingForm::to_request, (pending, has_live_waiter), (created, awaited)),
    ensures
        ({
            &&& protocol::request(created).mode matches Mode::Form(mode)
            &&& mode.schema == pending.requested_schema
            &&& mode.scope matches Some(scope)
            &&& scope.session_id == pending.prompt.session_id@
            &&& !scope.in_tool_call
        }),
        protocol::request(created).message == pending.prompt.message@,
        awaited.session_id@ == pending.prompt.session_id@,
        awaited.elicitation_id@ == pending.prompt.elicitation_id@,
        awaited.recovered == pending.prompt.recovered,
{
}

/// The client is told which elicitation it answers, whether it was recovered, and whether its answer
/// resumes a call that still waits (`response`) or the session needs a new prompt (`prompt`).
pub proof fn law_request_tells_its_elicitation(
    pending: PendingForm,
    has_live_waiter: bool,
    created: CreateElicitationRequest,
    awaited: AwaitedReply,
)
    requires
        call_ensures(PendingForm::to_request, (pending, has_live_waiter), (created, awaited)),
    ensures
        ({
            &&& protocol::request(created).meta matches Some(meta)
            &&& json::entries(meta).contains_key("goose"@)
            &&& json::json(json::entries(meta)["goose"@]) matches Json::Object(members)
            &&& members.contains_key("elicitationId"@)
            &&& json::json(members["elicitationId"@]) == Json::Text(pending.prompt.elicitation_id@)
            &&& members.contains_key("recovered"@)
            &&& json::json(members["recovered"@]) == Json::Flag(pending.prompt.recovered)
            &&& members.contains_key("continuation"@)
            &&& has_live_waiter ==> json::json(members["continuation"@]) == Json::Text("response"@)
            &&& !has_live_waiter ==> json::json(members["continuation"@]) == Json::Text("prompt"@)
        }),
{
}

/// The metadata of the elicitation reaches the client: every entry besides `goose` as it was, and in
/// the `goose` object every member besides the three that tell the elicitation. Nothing else is
/// added.
pub proof fn law_request_keeps_the_metadata(
    pending: PendingForm,
    has_live_waiter: bool,
    created: CreateElicitationRequest,
    awaited: AwaitedReply,
    meta: Meta,
    name: Seq<char>,
)
    requires
        call_ensures(PendingForm::to_request, (pending, has_live_waiter), (created, awaited)),
        protocol::request(created).meta == Some(meta),
    ensures
        name != "goose"@ ==> (json::entries(meta).contains_key(name) <==> json::entries(
            pending.prompt.meta,
        ).contains_key(name)),
        name != "goose"@ && json::entries(pending.prompt.meta).contains_key(name) ==> json::entries(
            meta,
        )[name] == json::entries(pending.prompt.meta)[name],
        json::json(json::entries(meta)["goose"@]) matches Json::Object(members) && (name
            != "elicitationId"@ && name != "recovered"@ && name != "continuation"@ ==> (
        if json::entries(pending.prompt.meta).contains_key("goose"@) {
            match json::json(json::entries(pending.prompt.meta)["goose"@]) {
                Json::Object(before) => {
                    &&& members.contains_key(name) <==> before.contains_key(name)
                    &&& before.contains_key(name) ==> members[name] == before[name]
                },
                _ => !members.contains_key(name),
            }
        } else {
            !members.contains_key(name)
        })),
{
    law_annotation_preserves_the_rest(
        json::entries(pending.prompt.meta),
        json::entries(meta),
        pending.prompt.elicitation_id@,
        pending.prompt.recovered,
        continuation(has_live_waiter),
        name,
    );
}

/// Marked metadata has a `goose` object that names the elicitation, whether it was recovered and how
/// it continues. What was in the metadata before is as it was, in that object and around it, but for
/// these three; where `goose` was no object, nothing of it is left. Nothing else is added.
pub proof fn law_annotation_marks_and_keeps(
    meta: &mut Meta,
    elicitation_id: &str,
    recovered: bool,
    continuation: &str,
    name: Seq<char>,
)
    requires
        call_ensures(
            add_elicitation_meta,
            (meta, elicitation_id, recovered, continuation),
            (),
        ),
    ensures
        ({
            &&& json::entries(*final(meta)).contains_key("goose"@)
            &&& json::json(json::entries(*final(meta))["goose"@]) matches Json::Object(members)
            &&& members.contains_key("elicitationId"@)
            &&& json::json(members["elicitationId"@]) == Json::Text(elicitation_id@)
            &&& members.contains_key("recovered"@)
            &&& json::json(members["recovered"@]) == Json::Flag(recovered)
            &&& members.contains_key("continuation"@)
            &&& json::json(members["continuation"@]) == Json::Text(continuation@)
        }),
        name != "goose"@ ==> (json::entries(*final(meta)).contains_key(name) <==> json::entries(
            *old(meta),
        ).contains_key(name)),
        name != "goose"@ && json::entries(*old(meta)).contains_key(name) ==> json::entries(
            *final(meta),
        )[name] == json::entries(*old(meta))[name],
        json::json(json::entries(*final(meta))["goose"@]) matches Json::Object(members) && (name
            != "elicitationId"@ && name != "recovered"@ && name != "continuation"@ ==> (
        if json::entries(*old(meta)).contains_key("goose"@) {
            match json::json(json::entries(*old(meta))["goose"@]) {
                Json::Object(former) => {
                    &&& members.contains_key(name) <==> former.contains_key(name)
                    &&& former.contains_key(name) ==> members[name] == former[name]
                },
                _ => !members.contains_key(name),
            }
        } else {
            !members.contains_key(name)
        })),
{
    law_annotation_preserves_the_rest(
        json::entries(*old(meta)),
        json::entries(*final(meta)),
        elicitation_id@,
        recovered,
        continuation@,
        name,
    );
}

/// A reply is submitted for the elicitation that it answers; a request that failed submits nothing.
pub proof fn law_reply_is_submitted_for_its_elicitation<E>(
    awaited: AwaitedReply,
    result: Result<CreateElicitationResponse, E>,
    submission: Option<FormSubmission>,
)
    requires
        call_ensures(AwaitedReply::receive::<E>, (awaited, result), submission),
    ensures
        submission is None <==> result is Err,
        submission matches Some(submission) ==> submission.session_id@ == awaited.session_id@
            && submission.elicitation_id@ == awaited.elicitation_id@ && submission.recovered
            == awaited.recovered,
{
}

/// The outcome is what the user did, wherever it is told from: accepted exactly if the user accepted,
/// declined exactly if the user declined, and cancelled in every other case. An accepted outcome is
/// an object with exactly the names of the content, so an empty one where there is none.
pub proof fn law_outcome_is_what_the_user_did<E>(
    awaited: AwaitedReply,
    response: CreateElicitationResponse,
    reply: Reply,
    submission: FormSubmission,
    outcome: ElicitationOutcome,
    name: Seq<char>,
)
    requires
        call_ensures(outcome_from_reply, (reply,), outcome) || (reply == protocol::reply(response)
            && (call_ensures(elicitation_response_from_acp, (response,), outcome) || (outcome
            == submission.outcome && call_ensures(
            AwaitedReply::receive::<E>,
            (awaited, Ok::<CreateElicitationResponse, E>(response)),
            Some(submission),
        )))),
    ensures
        outcome is Accept <==> reply is Accept,
        outcome is Decline <==> reply is Decline,
        reply matches Reply::Accept(content) ==> (outcome matches ElicitationOutcome::Accept(value)
            && json::json(value) matches Json::Object(members) && (members.contains_key(name) <==> (
        content matches Some(content) && protocol::content_entries(content@).contains_key(name)))),
{
    if let Reply::Accept(content) = reply {
        let members = json::json(outcome->Accept_0)->Object_0;
        let answers = match content {
            Some(content) => protocol::content_entries(content@),
            None => Map::empty(),
        };
        assert(members.dom().contains(name) <==> answers.dom().contains(name));
    }
}

/// An accepted outcome says what the user entered, wherever it is told from: under each name of the
/// content stands the JSON value of the answer under that name, a text, a list of texts, an integer
/// or a boolean as it was entered.
pub proof fn law_outcome_says_what_the_user_entered<E>(
    awaited: AwaitedReply,
    response: CreateElicitationResponse,
    content: BTreeMap<String, ElicitationContentValue>,
    submission: FormSubmission,
    outcome: ElicitationOutcome,
    name: Seq<char>,
)
    requires
        call_ensures(outcome_from_reply, (Reply::Accept(Some(content)),), outcome) || (
        protocol::reply(response) == Reply::Accept(Some(content)) && (call_ensures(
            elicitation_response_from_acp,
            (response,),
            outcome,
        ) || (outcome == submission.outcome && call_ensures(
            AwaitedReply::receive::<E>,
            (awaited, Ok::<CreateElicitationResponse, E>(response)),
            Some(submission),
        )))),
        protocol::content_entries(content@).contains_key(name),
    ensures
        ({
            &&& outcome matches ElicitationOutcome::Accept(value)
            &&& json::json(value) matches Json::Object(members)
            &&& members.contains_key(name)
            &&& members[name] == protocol::content_value(protocol::content_entries(content@)[name])
            &&& match protocol::content(protocol::content_entries(content@)[name]) {
                AnswerModel::Text(text) => json::json(members[name]) == Json::Text(text),
                AnswerModel::Texts(list) => {
                    &&& json::json(members[name]) matches Json::Array(items)
                    &&& items.len() == list.len()
                    &&& forall|k: int|
                        0 <= k < list.len() ==> json::json(#[trigger] items[k]) == Json::Text(list[k])
                },
                AnswerModel::Integer(number) => json::json(members[name]) == Json::Integer(number),
                AnswerModel::Flag(flag) => json::json(members[name]) == Json::Flag(flag),
                AnswerModel::Other => json::json(members[name]) is Other,
            }
        }),
{
    let members = json::json(outcome->Accept_0)->Object_0;
    assert(members.dom().contains(name));
}

/// A response is recorded exactly if it belongs to a recovered elicitation and the agent took the
/// submission without finding anybody who waited; it is recorded as it was submitted. An error of the
/// agent is handed on.
pub proof fn law_only_unclaimed_recovered_responses_are_recorded<E>(
    submission: FormSubmission,
    submitted: Result<bool, E>,
    next: FollowUp<E>,
)
    requires
        call_ensures(finish_form_elicitation::<E>, (submission, submitted), next),
    ensures
        next is Record <==> (submitted matches Ok(found) && !found && submission.recovered),
        next matches FollowUp::Record(recorded) ==> recorded == submission,
        next is NoWaiter <==> (submitted matches Ok(found) && !found && !submission.recovered),
        next is Done <==> (submitted matches Ok(found) && found),
        next is Failed <==> submitted is Err,
        submitted matches Err(error) ==> next == FollowUp::<E>::Failed(error),
{
}

/// A client takes forms exactly if it declares the elicitation capability and, in it, that for forms.
pub proof fn law_forms_go_to_clients_that_declare_them(args: InitializeRequest, supported: bool)
    requires
        call_ensures(client_supports_form_elicitation, (&args,), supported),
    ensures
        protocol::form_capability(args) is None ==> !supported,
        protocol::form_capability(args) matches Some(forms) ==> (supported <==> forms is Some),
{
}

} // verus!
