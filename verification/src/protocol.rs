//! What this crate takes from `agent_client_protocol`: the protocol types, and the functions of the
//! library that it calls. Every executable function here is trusted, as its comment says.

use std::collections::BTreeMap;

use vstd::prelude::*;

use agent_client_protocol::schema::v1::CreateElicitationRequest;
use agent_client_protocol::schema::v1::CreateElicitationResponse;
use agent_client_protocol::schema::v1::ElicitationAction;
use agent_client_protocol::schema::v1::ElicitationContentValue;
use agent_client_protocol::schema::v1::ElicitationFormCapabilities;
use agent_client_protocol::schema::v1::ElicitationFormMode;
use agent_client_protocol::schema::v1::ElicitationPropertySchema;
use agent_client_protocol::schema::v1::ElicitationSchema;
use agent_client_protocol::schema::v1::ElicitationSessionScope;
use agent_client_protocol::schema::v1::EnumOption;
use agent_client_protocol::schema::v1::InitializeRequest;
use agent_client_protocol::schema::v1::Meta;
use agent_client_protocol::schema::v1::MultiSelectPropertySchema;
use agent_client_protocol::schema::v1::SessionId;
use agent_client_protocol::schema::v1::StringPropertySchema;
use agent_client_protocol::schema::v1::CLIENT_METHOD_NAMES;
use agent_client_protocol::UntypedMessage;

use crate::json;
use crate::json::Json;

verus! {

/// `EnumOption`, an opaque type. What an option holds is [`choice`].
#[verifier::external_type_specification]
#[verifier::external_body]
pub struct ExEnumOption(EnumOption);

/// `StringPropertySchema`, an opaque type. What a string property asks for is [`string_property`].
#[verifier::external_type_specification]
#[verifier::external_body]
pub struct ExStringPropertySchema(StringPropertySchema);

/// `MultiSelectPropertySchema`, an opaque type. What an array property asks for is
/// [`multi_select_property`].
#[verifier::external_type_specification]
#[verifier::external_body]
pub struct ExMultiSelectPropertySchema(MultiSelectPropertySchema);

/// `ElicitationPropertySchema`, an opaque type. What a property asks for is [`property`].
#[verifier::external_type_specification]
#[verifier::external_body]
pub struct ExElicitationPropertySchema(ElicitationPropertySchema);

/// `ElicitationSchema`, an opaque type. What a schema holds is [`form`].
#[verifier::external_type_specification]
#[verifier::external_body]
pub struct ExElicitationSchema(ElicitationSchema);

/// `ElicitationSessionScope`, an opaque type. What a scope holds is [`session_scope`].
#[verifier::external_type_specification]
#[verifier::external_body]
pub struct ExElicitationSessionScope(ElicitationSessionScope);

/// `ElicitationFormMode`, an opaque type. What a mode holds is [`form_mode`].
#[verifier::external_type_specification]
#[verifier::external_body]
pub struct ExElicitationFormMode(ElicitationFormMode);

/// `CreateElicitationRequest`, an opaque type. What a request holds is [`request`].
#[verifier::external_type_specification]
#[verifier::external_body]
pub struct ExCreateElicitationRequest(CreateElicitationRequest);

/// `CreateElicitationResponse`, an opaque type. What the user did is [`reply`].
#[verifier::external_type_specification]
#[verifier::external_body]
pub struct ExCreateElicitationResponse(CreateElicitationResponse);

/// `ElicitationContentValue`, an opaque type. What a value holds is [`content`].
#[verifier::external_type_specification]
#[verifier::external_body]
pub struct ExElicitationContentValue(ElicitationContentValue);

/// `ElicitationFormCapabilities`, an opaque type.
#[verifier::external_type_specification]
#[verifier::external_body]
pub struct ExElicitationFormCapabilities(ElicitationFormCapabilities);

/// `InitializeRequest`, an opaque type. What it declares of forms is [`form_capability`].
#[verifier::external_type_specification]
#[verifier::external_body]
pub struct ExInitializeRequest(InitializeRequest);

/// `SessionId`, an opaque type. Its text is [`session_text`].
#[verifier::external_type_specification]
#[verifier::external_body]
pub struct ExSessionId(SessionId);

/// `UntypedMessage`, an opaque type. What a message holds is [`message_parts`].
#[verifier::external_type_specification]
#[verifier::external_body]
pub struct ExUntypedMessage(UntypedMessage);

/// `agent_client_protocol::Error`, an opaque type. What an error says is [`failure`].
#[verifier::external_type_specification]
#[verifier::external_body]
pub struct ExProtocolError(agent_client_protocol::Error);

/// The contents of an `EnumOption`.
pub struct Choice {
    /// The value that stands for the option in an answer.
    pub value: Seq<char>,
    /// The name that the user sees.
    pub title: Seq<char>,
    /// The longer description, if any.
    pub description: Option<Seq<char>>,
    /// The attached metadata, if any.
    pub meta: Option<Meta>,
}

/// The contents of a `StringPropertySchema`.
pub struct StringProperty {
    /// The title of the property, if any.
    pub title: Option<Seq<char>>,
    /// The titled options to select one of, if any.
    pub choices: Option<Seq<Choice>>,
    /// Whether no other field is set.
    pub plain: bool,
}

/// The contents of a `MultiSelectPropertySchema`.
pub struct MultiSelectProperty {
    /// The title of the property, if any.
    pub title: Option<Seq<char>>,
    /// The titled options to select any number of; none where the items are not titled options.
    pub choices: Option<Seq<Choice>>,
    /// Whether no other field is set.
    pub plain: bool,
}

/// What one property of a form asks for.
pub enum Property {
    /// A string.
    Text(StringProperty),
    /// A list of strings.
    Texts(MultiSelectProperty),
    /// Anything else.
    Other,
}

/// The contents of an `ElicitationSchema`.
pub struct Form {
    /// The title of the form, if any.
    pub title: Option<Seq<char>>,
    /// The properties by name.
    pub properties: Map<Seq<char>, Property>,
    /// The names of the properties that have to be answered, in order, if any.
    pub required: Option<Seq<Seq<char>>>,
    /// The description of the form, if any.
    pub description: Option<Seq<char>>,
    /// The attached metadata, if any.
    pub meta: Option<Meta>,
}

/// The contents of an `ElicitationSessionScope`.
pub struct SessionScope {
    /// The session that the elicitation belongs to.
    pub session_id: Seq<char>,
    /// Whether it belongs to a tool call of that session.
    pub in_tool_call: bool,
}

/// The contents of an `ElicitationFormMode`.
pub struct FormMode {
    /// The scope, if it is a session.
    pub scope: Option<SessionScope>,
    /// The schema of the form.
    pub schema: ElicitationSchema,
}

/// How an elicitation request collects the answer.
pub enum Mode {
    /// A form.
    Form(FormMode),
    /// Anything else.
    Other,
}

/// The contents of a `CreateElicitationRequest`.
pub struct Request {
    /// The mode, with what belongs to it.
    pub mode: Mode,
    /// The message to the user.
    pub message: Seq<char>,
    /// The attached metadata, if any.
    pub meta: Option<Meta>,
}

/// What the user did with an elicitation request.
pub enum Reply {
    /// The user accepted, with the content of the form if there is any.
    Accept(Option<BTreeMap<String, ElicitationContentValue>>),
    /// The user declined.
    Decline,
    /// The request was cancelled.
    Cancel,
    /// An action that this crate does not know.
    Other,
}

/// A value of the content of an accepted form.
pub enum Answer {
    /// A string.
    Text(String),
    /// A list of strings.
    Texts(Vec<String>),
    /// An integer.
    Integer(i64),
    /// A boolean.
    Flag(bool),
    /// A floating-point number, or a kind of value that this crate does not know.
    Other,
}

/// The contents of an [`Answer`].
pub enum AnswerModel {
    Text(Seq<char>),
    Texts(Seq<Seq<char>>),
    Integer(int),
    Flag(bool),
    Other,
}

/// The contents of an `agent_client_protocol::Error`.
pub struct Failure {
    /// The JSON-RPC error code.
    pub code: int,
    /// The short description.
    pub message: Seq<char>,
    /// The attached data, if any.
    pub data: Option<serde_json::Value>,
}

/// What an `EnumOption` holds.
pub uninterp spec fn choice(option: EnumOption) -> Choice;

/// What a `StringPropertySchema` holds.
pub uninterp spec fn string_property(schema: StringPropertySchema) -> StringProperty;

/// What a `MultiSelectPropertySchema` holds.
pub uninterp spec fn multi_select_property(schema: MultiSelectPropertySchema) -> MultiSelectProperty;

/// What an `ElicitationPropertySchema` asks for.
pub uninterp spec fn property(schema: ElicitationPropertySchema) -> Property;

/// What an `ElicitationSchema` holds.
pub uninterp spec fn form(schema: ElicitationSchema) -> Form;

/// What an `ElicitationSessionScope` holds.
pub uninterp spec fn session_scope(scope: ElicitationSessionScope) -> SessionScope;

/// What an `ElicitationFormMode` holds.
pub uninterp spec fn form_mode(mode: ElicitationFormMode) -> FormMode;

/// What a `CreateElicitationRequest` holds.
pub uninterp spec fn request(request: CreateElicitationRequest) -> Request;

/// What a `CreateElicitationResponse` says that the user did.
pub uninterp spec fn reply(response: CreateElicitationResponse) -> Reply;

/// What an `ElicitationContentValue` holds.
pub uninterp spec fn content(value: ElicitationContentValue) -> AnswerModel;

/// The form capability of an `InitializeRequest`: none where the client declares no elicitation
/// capability at all, and none inside where it declares one without forms.
pub uninterp spec fn form_capability(args: InitializeRequest) -> Option<
    Option<ElicitationFormCapabilities>,
>;

/// The text of a `SessionId`.
pub uninterp spec fn session_text(id: SessionId) -> Seq<char>;

/// The method and the parameters of an `UntypedMessage`.
pub uninterp spec fn message_parts(message: UntypedMessage) -> (Seq<char>, serde_json::Value);

/// What an `agent_client_protocol::Error` says.
pub uninterp spec fn failure(error: agent_client_protocol::Error) -> Failure;

/// What `serde_json::to_value` makes of an `ElicitationContentValue`.
pub uninterp spec fn content_value(value: ElicitationContentValue) -> serde_json::Value;

/// What `serde_json::from_value` makes of a JSON value that is read as an `ElicitationSchema`.
pub uninterp spec fn schema_from_json(value: serde_json::Value) -> Result<
    ElicitationSchema,
    serde_json::Error,
>;

/// What `UntypedMessage::new` makes of a `CreateElicitationRequest` that is given as parameters.
pub uninterp spec fn request_to_params(request: CreateElicitationRequest) -> Result<
    serde_json::Value,
    agent_client_protocol::Error,
>;

/// What `json_cast_params` makes of parameters that are read as a `CreateElicitationRequest`.
pub uninterp spec fn request_from_params(params: serde_json::Value) -> Result<
    CreateElicitationRequest,
    agent_client_protocol::Error,
>;

/// What `serde_json::to_value` makes of a `CreateElicitationResponse`.
pub uninterp spec fn response_to_json(response: CreateElicitationResponse) -> Result<
    serde_json::Value,
    serde_json::Error,
>;

/// What `json_cast` makes of a JSON value that is read as a `CreateElicitationResponse`.
pub uninterp spec fn response_from_json(value: serde_json::Value) -> Result<
    CreateElicitationResponse,
    agent_client_protocol::Error,
>;

/// The contents of an optional text.
pub open spec fn optional_text(text: Option<String>) -> Option<Seq<char>> {
    match text {
        Some(text) => Some(text@),
        None => None,
    }
}

impl Request {
    /// Whether the request asks for the form of this schema in this session, outside any tool call.
    pub open spec fn asks_in(self, session_id: Seq<char>, schema: ElicitationSchema) -> bool {
        self.mode == Mode::Form(
            FormMode { scope: Some(SessionScope { session_id, in_tool_call: false }), schema },
        )
    }
}

/// The contents of a sequence of texts.
pub open spec fn texts(list: Seq<String>) -> Seq<Seq<char>> {
    Seq::new(list.len(), |i: int| list[i]@)
}

/// The contents of a sequence of options.
pub open spec fn choices(options: Seq<EnumOption>) -> Seq<Choice> {
    Seq::new(options.len(), |i: int| choice(options[i]))
}

/// The values of an accepted form by name.
pub open spec fn content_entries(
    content: Map<String, ElicitationContentValue>,
) -> Map<Seq<char>, ElicitationContentValue> {
    Map::new(
        |name: Seq<char>| exists|key: String| content.contains_key(key) && #[trigger] key@ == name,
        |name: Seq<char>|
            content[choose|key: String| content.contains_key(key) && #[trigger] key@ == name],
    )
}

impl Answer {
    /// The contents of the answer.
    pub open spec fn model(self) -> AnswerModel {
        match self {
            Answer::Text(text) => AnswerModel::Text(text@),
            Answer::Texts(list) => AnswerModel::Texts(texts(list@)),
            Answer::Integer(number) => AnswerModel::Integer(number as int),
            Answer::Flag(flag) => AnswerModel::Flag(flag),
            Answer::Other => AnswerModel::Other,
        }
    }
}

/// Whether a JSON value says the same as an answer, as far as the model of the answer goes: a
/// floating-point number is only told apart from the other kinds.
pub open spec fn says(value: serde_json::Value, answer: AnswerModel) -> bool {
    match answer {
        AnswerModel::Text(text) => json::json(value) == Json::Text(text),
        AnswerModel::Texts(list) => {
            &&& json::json(value) matches Json::Array(items)
            &&& items.len() == list.len()
            &&& forall|i: int|
                0 <= i < list.len() ==> json::json(#[trigger] items[i]) == Json::Text(list[i])
        },
        AnswerModel::Integer(number) => json::json(value) == Json::Integer(number),
        AnswerModel::Flag(flag) => json::json(value) == Json::Flag(flag),
        AnswerModel::Other => json::json(value) is Other,
    }
}

/// Whether a JSON value is the object of the values of an accepted form: the same names, each with
/// the JSON value of its own answer, which says what was answered.
pub open spec fn says_all(
    value: serde_json::Value,
    answers: Map<Seq<char>, ElicitationContentValue>,
) -> bool {
    &&& json::json(value) matches Json::Object(members)
    &&& members.dom() == answers.dom()
    &&& forall|name: Seq<char>| #[trigger]
        answers.contains_key(name) ==> {
            &&& members[name] == content_value(answers[name])
            &&& says(members[name], content(answers[name]))
        }
}

/// Whether a failure is an internal fault with this text as its data.
pub open spec fn is_internal(failure: Failure, text: Seq<char>) -> bool {
    &&& failure.code == -32603
    &&& failure.message == "Internal error"@
    &&& failure.data matches Some(data)
    &&& json::json(data) == Json::Text(text)
}

/// The list of required names after a property of that name was added.
pub open spec fn require_name(
    names: Option<Seq<Seq<char>>>,
    name: Seq<char>,
    required: bool,
) -> Option<Seq<Seq<char>>> {
    let before = match names {
        Some(names) => names,
        None => Seq::empty(),
    };
    if required {
        Some(
            if before.contains(name) {
                before
            } else {
                before.push(name)
            },
        )
    } else {
        let rest = before.filter(|other: Seq<char>| other != name);
        if names is None || rest.len() == 0 {
            None
        } else {
            Some(rest)
        }
    }
}

/// Calls `EnumOption::new`: an option with this value and title, without description or metadata.
#[verifier::external_body]
pub(crate) fn new_option(value: String, title: String) -> (option: EnumOption)
    ensures
        choice(option) == (Choice { value: value@, title: title@, description: None, meta: None }),
{
    EnumOption::new(value, title)
}

/// Calls `StringPropertySchema::new`: a string property with no field set.
#[verifier::external_body]
pub(crate) fn new_string_property() -> (schema: StringPropertySchema)
    ensures
        string_property(schema) == (StringProperty { title: None, choices: None, plain: true }),
{
    StringPropertySchema::new()
}

/// Calls `StringPropertySchema::title`: the property with this title.
#[verifier::external_body]
pub(crate) fn title_string_property(schema: StringPropertySchema, title: String) -> (titled:
    StringPropertySchema)
    ensures
        string_property(titled) == (StringProperty {
            title: Some(title@),
            ..string_property(schema)
        }),
{
    schema.title(title)
}

/// Calls `StringPropertySchema::one_of`: the property with these options to select one of.
#[verifier::external_body]
pub(crate) fn offer_one_of(schema: StringPropertySchema, options: Vec<EnumOption>) -> (extended:
    StringPropertySchema)
    ensures
        string_property(extended) == (StringProperty {
            choices: Some(choices(options@)),
            ..string_property(schema)
        }),
{
    schema.one_of(options)
}

/// Calls `MultiSelectPropertySchema::titled`: an array property of these options, with no other field
/// set.
#[verifier::external_body]
pub(crate) fn new_multi_select_property(options: Vec<EnumOption>) -> (schema:
    MultiSelectPropertySchema)
    ensures
        multi_select_property(schema) == (MultiSelectProperty {
            title: None,
            choices: Some(choices(options@)),
            plain: true,
        }),
{
    MultiSelectPropertySchema::titled(options)
}

/// Calls `MultiSelectPropertySchema::title`: the property with this title.
#[verifier::external_body]
pub(crate) fn title_multi_select_property(
    schema: MultiSelectPropertySchema,
    title: String,
) -> (titled: MultiSelectPropertySchema)
    ensures
        multi_select_property(titled) == (MultiSelectProperty {
            title: Some(title@),
            ..multi_select_property(schema)
        }),
{
    schema.title(title)
}

/// Calls `ElicitationPropertySchema::from` on a `StringPropertySchema`: the same property.
#[verifier::external_body]
pub(crate) fn string_to_property(schema: StringPropertySchema) -> (converted:
    ElicitationPropertySchema)
    ensures
        property(converted) == Property::Text(string_property(schema)),
{
    ElicitationPropertySchema::from(schema)
}

/// Calls `ElicitationPropertySchema::from` on a `MultiSelectPropertySchema`: the same property.
#[verifier::external_body]
pub(crate) fn multi_select_to_property(schema: MultiSelectPropertySchema) -> (converted:
    ElicitationPropertySchema)
    ensures
        property(converted) == Property::Texts(multi_select_property(schema)),
{
    ElicitationPropertySchema::from(schema)
}

/// Calls `ElicitationSchema::new`: a schema without title, properties, description or metadata.
#[verifier::external_body]
pub(crate) fn new_schema() -> (schema: ElicitationSchema)
    ensures
        form(schema) == (Form {
            title: None,
            properties: Map::empty(),
            required: None,
            description: None,
            meta: None,
        }),
{
    ElicitationSchema::new()
}

/// Calls `ElicitationSchema::title`: the schema with this title, or without one.
#[verifier::external_body]
pub(crate) fn title_schema(schema: ElicitationSchema, title: Option<String>) -> (titled:
    ElicitationSchema)
    ensures
        form(titled) == (Form { title: optional_text(title), ..form(schema) }),
{
    schema.title(title)
}

/// Calls `ElicitationSchema::property`: the schema with the property added under `name`, in place
/// of one that was there, and with `name` among the required names exactly if it is `required`.
#[verifier::external_body]
pub(crate) fn add_property(
    schema: ElicitationSchema,
    name: String,
    added: ElicitationPropertySchema,
    required: bool,
) -> (extended: ElicitationSchema)
    ensures
        form(extended) == (Form {
            properties: form(schema).properties.insert(name@, property(added)),
            required: require_name(form(schema).required, name@, required),
            ..form(schema)
        }),
{
    schema.property(name, added, required)
}

/// Calls `ElicitationSessionScope::new`: the scope of this session, outside any tool call.
#[verifier::external_body]
pub(crate) fn new_session_scope(session_id: String) -> (scope: ElicitationSessionScope)
    ensures
        session_scope(scope) == (SessionScope { session_id: session_id@, in_tool_call: false }),
{
    ElicitationSessionScope::new(session_id)
}

/// Calls `ElicitationFormMode::new` with a session scope: the form of this schema in that scope.
#[verifier::external_body]
pub(crate) fn new_form_mode(scope: ElicitationSessionScope, schema: ElicitationSchema) -> (mode:
    ElicitationFormMode)
    ensures
        form_mode(mode) == (FormMode { scope: Some(session_scope(scope)), schema }),
{
    ElicitationFormMode::new(scope, schema)
}

/// Calls `CreateElicitationRequest::new` with a form: a request for that form with this message and
/// without metadata.
#[verifier::external_body]
pub(crate) fn new_request(mode: ElicitationFormMode, message: String) -> (created:
    CreateElicitationRequest)
    ensures
        request(created) == (Request {
            mode: Mode::Form(form_mode(mode)),
            message: message@,
            meta: None,
        }),
{
    CreateElicitationRequest::new(mode, message)
}

/// Calls `CreateElicitationRequest::meta`: the request with this metadata.
#[verifier::external_body]
pub(crate) fn with_meta(created: CreateElicitationRequest, meta: Meta) -> (extended:
    CreateElicitationRequest)
    ensures
        request(extended) == (Request { meta: Some(meta), ..request(created) }),
{
    created.meta(meta)
}

/// Takes the action out of a `CreateElicitationResponse`.
#[verifier::external_body]
pub(crate) fn read_reply(response: CreateElicitationResponse) -> (action: Reply)
    ensures
        action == reply(response),
{
    match response.action {
        ElicitationAction::Accept(accept) => Reply::Accept(accept.content),
        ElicitationAction::Decline => Reply::Decline,
        ElicitationAction::Cancel => Reply::Cancel,
        _ => Reply::Other,
    }
}

/// Takes a copy of what an `ElicitationContentValue` holds.
#[verifier::external_body]
pub(crate) fn read_content(value: &ElicitationContentValue) -> (answer: Answer)
    ensures
        answer.model() == content(*value),
{
    match value {
        ElicitationContentValue::String(text) => Answer::Text(text.clone()),
        ElicitationContentValue::StringArray(list) => Answer::Texts(list.clone()),
        ElicitationContentValue::Integer(number) => Answer::Integer(*number),
        ElicitationContentValue::Boolean(flag) => Answer::Flag(*flag),
        _ => Answer::Other,
    }
}

/// Calls `BTreeMap::get`: the value under this name, if there is one.
#[verifier::external_body]
pub(crate) fn find_content<'a>(
    values: &'a BTreeMap<String, ElicitationContentValue>,
    name: &String,
) -> (found: Option<&'a ElicitationContentValue>)
    ensures
        match found {
            Some(found) => content_entries(values@).contains_key(name@) && *found
                == content_entries(values@)[name@],
            None => !content_entries(values@).contains_key(name@),
        },
{
    values.get(name)
}

/// Calls `serde_json::to_value` on the content of an accepted form: an object with the same names,
/// each with what `serde_json::to_value` makes of its value, which is [`content_value`]. A string, a
/// list of strings, an integer and a boolean keep what they hold; of a floating-point number comes
/// neither of these.
#[verifier::external_body]
pub(crate) fn content_to_json(values: BTreeMap<String, ElicitationContentValue>) -> (value: Result<
    serde_json::Value,
    serde_json::Error,
>)
    ensures
        value matches Ok(value) && says_all(value, content_entries(values@)),
        forall|name: Seq<char>| #[trigger]
            content_entries(values@).contains_key(name) ==> json::member(value->Ok_0, name) == Some(
                content_value(content_entries(values@)[name]),
            ),
{
    serde_json::to_value(values)
}

/// Takes a copy of the form capability out of an `InitializeRequest`.
#[verifier::external_body]
pub(crate) fn read_form_capability(args: &InitializeRequest) -> (capability: Option<
    Option<ElicitationFormCapabilities>,
>)
    ensures
        capability == form_capability(*args),
{
    args.client_capabilities.elicitation.as_ref().map(|elicitation| elicitation.form.clone())
}

/// Takes a copy of the text of a `SessionId`.
#[verifier::external_body]
pub(crate) fn read_session_id(id: &SessionId) -> (text: String)
    ensures
        text@ == session_text(*id),
{
    id.0.to_string()
}

/// Reads `CLIENT_METHOD_NAMES.elicitation_create`: the name of the method that creates an
/// elicitation.
#[verifier::external_body]
pub(crate) fn create_method() -> (name: &'static str)
    ensures
        name@ == "elicitation/create"@,
{
    CLIENT_METHOD_NAMES.elicitation_create
}

/// Calls `serde_json::from_value` for an `ElicitationSchema`. Its result is
/// [`schema_from_json`].
#[verifier::external_body]
pub(crate) fn parse_schema(value: serde_json::Value) -> (schema: Result<
    ElicitationSchema,
    serde_json::Error,
>)
    ensures
        schema == schema_from_json(value),
{
    serde_json::from_value(value)
}

/// Calls `UntypedMessage::new` with a request as parameters: a message with this method and the
/// parameters of [`request_to_params`], or the error there, which has the code for invalid
/// parameters.
#[verifier::external_body]
pub(crate) fn new_untyped(method: &str, created: &CreateElicitationRequest) -> (message: Result<
    UntypedMessage,
    agent_client_protocol::Error,
>)
    ensures
        match message {
            Ok(message) => message_parts(message).0 == method@ && request_to_params(*created) == Ok::<
                serde_json::Value,
                agent_client_protocol::Error,
            >(message_parts(message).1),
            Err(error) => request_to_params(*created) == Err::<
                serde_json::Value,
                agent_client_protocol::Error,
            >(error) && failure(error).code == -32602,
        },
{
    UntypedMessage::new(method, created)
}

/// Calls `agent_client_protocol::util::json_cast_params` for a `CreateElicitationRequest`. Its
/// result is [`request_from_params`]; an error has the code for invalid parameters.
#[verifier::external_body]
pub(crate) fn parse_params(params: &serde_json::Value) -> (parsed: Result<
    CreateElicitationRequest,
    agent_client_protocol::Error,
>)
    ensures
        parsed == request_from_params(*params),
        parsed matches Err(error) ==> failure(error).code == -32602,
{
    agent_client_protocol::util::json_cast_params(params)
}

/// Calls `serde_json::to_value` on a `CreateElicitationResponse`. Its result is
/// [`response_to_json`].
#[verifier::external_body]
pub(crate) fn write_response(response: CreateElicitationResponse) -> (value: Result<
    serde_json::Value,
    serde_json::Error,
>)
    ensures
        value == response_to_json(response),
{
    serde_json::to_value(response)
}

/// Calls `agent_client_protocol::util::json_cast` for a `CreateElicitationResponse`. Its result is
/// [`response_from_json`]; an error has the code for a parse error.
#[verifier::external_body]
pub(crate) fn parse_response(value: &serde_json::Value) -> (parsed: Result<
    CreateElicitationResponse,
    agent_client_protocol::Error,
>)
    ensures
        parsed == response_from_json(*value),
        parsed matches Err(error) ==> failure(error).code == -32700,
{
    agent_client_protocol::util::json_cast(value)
}

/// Calls `agent_client_protocol::Error::method_not_found`: the error for an unknown method, without
/// data.
#[verifier::external_body]
pub(crate) fn method_not_found() -> (error: agent_client_protocol::Error)
    ensures
        failure(error) == (Failure { code: -32601, message: "Method not found"@, data: None }),
{
    agent_client_protocol::Error::method_not_found()
}

/// Calls `agent_client_protocol::Error::internal_error`: the error for an internal fault, without
/// data.
#[verifier::external_body]
pub(crate) fn internal_error() -> (error: agent_client_protocol::Error)
    ensures
        failure(error) == (Failure { code: -32603, message: "Internal error"@, data: None }),
{
    agent_client_protocol::Error::internal_error()
}

/// Calls `agent_client_protocol::Error::data` with a JSON value: the error with that value as its
/// data.
#[verifier::external_body]
pub(crate) fn with_data(error: agent_client_protocol::Error, data: serde_json::Value) -> (extended:
    agent_client_protocol::Error)
    ensures
        failure(extended) == (Failure { data: Some(data), ..failure(error) }),
{
    error.data(data)
}

/// The entries of an accepted form are its values by the text of their key: every key leads to an
/// entry, and every entry comes from a key with that text.
pub proof fn law_entries_are_the_values_by_name(
    values: BTreeMap<String, ElicitationContentValue>,
    key: String,
    name: Seq<char>,
)
    ensures
        values@.contains_key(key) ==> content_entries(values@).contains_key(key@),
        content_entries(values@).contains_key(name) ==> exists|from: String|
            values@.contains_key(from) && #[trigger] from@ == name && values@[from]
                == content_entries(values@)[name],
{
    if content_entries(values@).contains_key(name) {
        let content = values@;
        let at = |name: Seq<char>|
            content[choose|key: String| content.contains_key(key) && #[trigger] key@ == name];
        assert(content_entries(content)[name] == at(name));
        assert(exists|from: String|
            content.contains_key(from) && #[trigger] from@ == name && content[from] == at(name));
    }
}

} // verus!
