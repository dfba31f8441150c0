//! The JSON-RPC messages that carry an elicitation to the client and its response back.

use vstd::prelude::*;

use agent_client_protocol::schema::v1::CreateElicitationRequest;
use agent_client_protocol::schema::v1::CreateElicitationResponse;
use agent_client_protocol::UntypedMessage;

use crate::json;
use crate::json::Json;
use crate::protocol;
use crate::protocol::Failure;

verus! {

/// The message that creates an elicitation.
pub struct CreateElicitationRequestMessage(pub CreateElicitationRequest);

/// The response to a [`CreateElicitationRequestMessage`].
pub struct CreateElicitationResponseMessage(pub CreateElicitationResponse);

impl CreateElicitationRequestMessage {
    /// Whether a method is the one that creates an elicitation.
    pub fn matches_method(method: &str) -> (matched: bool)
        ensures
            matched == (method@ == "elicitation/create"@),
    {
        method.to_string() == protocol::create_method().to_string()
    }

    /// The method of the message.
    pub fn method(&self) -> (method: &str)
        ensures
            method@ == "elicitation/create"@,
    {
        protocol::create_method()
    }

    /// The message with its request as JSON parameters.
    pub fn to_untyped_message(&self) -> (message: Result<
        UntypedMessage,
        agent_client_protocol::Error,
    >)
        ensures
            match message {
                Ok(message) => protocol::message_parts(message).0 == "elicitation/create"@
                    && protocol::request_to_params(self.0) == Ok::<
                    serde_json::Value,
                    agent_client_protocol::Error,
                >(protocol::message_parts(message).1),
                Err(error) => protocol::request_to_params(self.0) == Err::<
                    serde_json::Value,
                    agent_client_protocol::Error,
                >(error) && protocol::failure(error).code == -32602,
            },
    {
        protocol::new_untyped(protocol::create_method(), &self.0)
    }

    /// The message that a method and its parameters stand for. Another method is refused before the
    /// parameters are read.
    pub fn parse_message(method: &str, params: &serde_json::Value) -> (parsed: Result<
        Self,
        agent_client_protocol::Error,
    >)
        ensures
            method@ != "elicitation/create"@ ==> (parsed matches Err(error) && protocol::failure(
                error,
            ) == (Failure { code: -32601, message: "Method not found"@, data: None })),
            method@ == "elicitation/create"@ ==> match parsed {
                Ok(message) => protocol::request_from_params(*params) == Ok::<
                    CreateElicitationRequest,
                    agent_client_protocol::Error,
                >(message.0),
                Err(error) => protocol::request_from_params(*params) == Err::<
                    CreateElicitationRequest,
                    agent_client_protocol::Error,
                >(error) && protocol::failure(error).code == -32602,
            },
    {
        if !Self::matches_method(method) {
            return Err(protocol::method_not_found());
        }
        match protocol::parse_params(params) {
            Ok(created) => Ok(CreateElicitationRequestMessage(created)),
            Err(error) => Err(error),
        }
    }
}

impl CreateElicitationResponseMessage {
    /// The response as JSON.
    pub fn into_json(self, _method: &str) -> (value: Result<serde_json::Value, agent_client_protocol::Error>)
        ensures
            match protocol::response_to_json(self.0) {
                Ok(written) => value == Ok::<serde_json::Value, agent_client_protocol::Error>(
                    written,
                ),
                Err(fault) => value matches Err(error) && protocol::is_internal(
                    protocol::failure(error),
                    json::error_text(fault),
                ),
            },
    {
        match protocol::write_response(self.0) {
            Ok(value) => Ok(value),
            Err(fault) => Err(
                protocol::with_data(
                    protocol::internal_error(),
                    json::text_value(json::describe(&fault)),
                ),
            ),
        }
    }

    /// The response that a JSON value stands for.
    pub fn from_value(_method: &str, value: serde_json::Value) -> (parsed: Result<
        Self,
        agent_client_protocol::Error,
    >)
        ensures
            match parsed {
                Ok(message) => protocol::response_from_json(value) == Ok::<
                    CreateElicitationResponse,
                    agent_client_protocol::Error,
                >(message.0),
                Err(error) => protocol::response_from_json(value) == Err::<
                    CreateElicitationResponse,
                    agent_client_protocol::Error,
                >(error) && protocol::failure(error).code == -32700,
            },
    {
        match protocol::parse_response(&value) {
            Ok(response) => Ok(CreateElicitationResponseMessage(response)),
            Err(error) => Err(error),
        }
    }
}

/// A message that was written is recognised when it comes back: it goes under the method that it
/// names, that method is its own, and reading it under that method comes down to reading the
/// parameters.
pub proof fn law_written_messages_are_recognised(
    message: CreateElicitationRequestMessage,
    written: UntypedMessage,
    named: &str,
    method: &str,
    matched: bool,
    params: serde_json::Value,
    parsed: Result<CreateElicitationRequestMessage, agent_client_protocol::Error>,
)
    requires
        call_ensures(
            CreateElicitationRequestMessage::to_untyped_message,
            (&message,),
            Ok(written),
        ),
        call_ensures(CreateElicitationRequestMessage::method, (&message,), named),
        protocol::message_parts(written) == (method@, params),
        call_ensures(CreateElicitationRequestMessage::matches_method, (method,), matched),
        call_ensures(
            CreateElicitationRequestMessage::parse_message,
            (method, &params),
            parsed,
        ),
    ensures
        matched,
        named@ == method@,
        match parsed {
            Ok(read) => protocol::request_from_params(params) == Ok::<
                CreateElicitationRequest,
                agent_client_protocol::Error,
            >(read.0),
            Err(error) => protocol::request_from_params(params) == Err::<
                CreateElicitationRequest,
                agent_client_protocol::Error,
            >(error),
        },
{
}

/// A method is read exactly if it matches; every other one is refused as unknown, whatever the
/// parameters are.
pub proof fn law_other_methods_are_refused(
    method: &str,
    matched: bool,
    params: serde_json::Value,
    parsed: Result<CreateElicitationRequestMessage, agent_client_protocol::Error>,
)
    requires
        call_ensures(CreateElicitationRequestMessage::matches_method, (method,), matched),
        call_ensures(
            CreateElicitationRequestMessage::parse_message,
            (method, &params),
            parsed,
        ),
    ensures
        matched <==> method@ == "elicitation/create"@,
        !matched ==> (parsed matches Err(error) && protocol::failure(error).code == -32601
            && protocol::failure(error).message == "Method not found"@ && protocol::failure(
            error,
        ).data is None),
        matched ==> (parsed is Ok <==> protocol::request_from_params(params) is Ok),
{
}

/// A response is written as `serde_json` writes it. One that cannot be written is reported as an
/// internal error that quotes the fault.
pub proof fn law_responses_are_written_or_reported(
    message: CreateElicitationResponseMessage,
    method: &str,
    value: Result<serde_json::Value, agent_client_protocol::Error>,
)
    requires
        call_ensures(CreateElicitationResponseMessage::into_json, (message, method), value),
    ensures
        match (protocol::response_to_json(message.0), value) {
            (Ok(written), Ok(value)) => value == written,
            (Err(fault), Err(error)) => {
                &&& protocol::failure(error).code == -32603
                &&& protocol::failure(error).message == "Internal error"@
                &&& protocol::failure(error).data matches Some(data)
                &&& json::json(data) == Json::Text(json::error_text(fault))
            },
            _ => false,
        },
{
}

/// A request is written as its method with the parameters that `UntypedMessage` makes of it; one of
/// which it makes none is reported as invalid parameters.
pub proof fn law_requests_are_written_or_reported(
    message: CreateElicitationRequestMessage,
    written: Result<UntypedMessage, agent_client_protocol::Error>,
)
    requires
        call_ensures(
            CreateElicitationRequestMessage::to_untyped_message,
            (&message,),
            written,
        ),
    ensures
        match (protocol::request_to_params(message.0), written) {
            (Ok(params), Ok(written)) => protocol::message_parts(written) == (
                "elicitation/create"@,
                params,
            ),
            (Err(fault), Err(error)) => error == fault && protocol::failure(error).code == -32602,
            _ => false,
        },
{
}

/// A response is read from the value alone, whatever the method is; one that cannot be read is
/// reported as a parse error.
pub proof fn law_responses_are_read_or_reported(
    method: &str,
    value: serde_json::Value,
    parsed: Result<CreateElicitationResponseMessage, agent_client_protocol::Error>,
)
    requires
        call_ensures(CreateElicitationResponseMessage::from_value, (method, value), parsed),
    ensures
        match (protocol::response_from_json(value), parsed) {
            (Ok(response), Ok(message)) => message.0 == response,
            (Err(fault), Err(error)) => error == fault && protocol::failure(error).code == -32700,
            _ => false,
        },
{
}

} // verus!
