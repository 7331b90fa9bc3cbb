use vstd::prelude::*;

use crate::config::{config_build_views, config_echo, request_roles_usable, temperature_of, Config};
use crate::error::ChatError;
use crate::message::{estimate_of, estimate_sat, Message, msg_views, MAX_TOKENS};
use crate::wire::{
    error_message_of, extract_error_message, extract_reply_content, reply_content_of,
};

verus! {

/// The outbound payload of one request: model, message sequence, the
/// optional temperature (in hundredths) and the streaming flag. The
/// unverified rim serializes it onto the wire unchanged.
#[derive(Debug)]
pub struct RequestPayload {
    pub model: String,
    pub messages: Vec<Message>,
    pub temperature: Option<u32>,
    pub stream: bool,
}

/// What the dispatcher decided for an input: echo it (dry run, no
/// network call may be attempted), or send the validated payload.
#[derive(Debug)]
pub enum RequestAction {
    Echo(String),
    Dispatch(RequestPayload),
}

/// Decides one request: short-circuits to an echo under dry run, and
/// otherwise builds the payload, validated against the token budget
/// before anything may reach the network layer.
pub fn prepare_request(config: &Config, input: &str, stream: bool) -> (r: Result<
    RequestAction,
    ChatError,
>)
    requires
        !config.dry_run ==> request_roles_usable(*config),
    ensures
        config.dry_run ==> (r matches Ok(RequestAction::Echo(e)) && e@ == config_echo(
            *config,
            input@,
        )),
        !config.dry_run ==> {
            &&& (r is Ok <==> estimate_of(config_build_views(*config, input@)) <= MAX_TOKENS)
            &&& (r matches Ok(a) ==> (a matches RequestAction::Dispatch(p) && msg_views(
                p.messages@,
            ) == config_build_views(*config, input@) && p.model@ == "gpt-3.5-turbo"@
                && p.temperature == temperature_of(*config) && p.stream == stream))
            &&& (r is Err ==> r == Err::<RequestAction, ChatError>(ChatError::ExceedsLimit {
                estimated: estimate_sat(config_build_views(*config, input@)) as u64,
                limit: MAX_TOKENS,
            }))
        },
{
    if config.dry_run {
        return Ok(RequestAction::Echo(config.echo_messages(input)));
    }
    match config.build_messages(input) {
        Err(e) => Err(e),
        Ok(messages) => Ok(
            RequestAction::Dispatch(
                RequestPayload {
                    model: "gpt-3.5-turbo".to_owned(),
                    messages,
                    temperature: config.get_temperature(),
                    stream,
                },
            ),
        ),
    }
}

/// Interprets a non-streaming response body: an API-reported error
/// field wins, then the expected content field, and anything else is a
/// malformed response.
pub fn interpret_reply(body: &str) -> (r: Result<String, ChatError>)
    ensures
        error_message_of(body@) matches Some(m) ==> (r matches Err(ChatError::ApiError(t)) && t@
            == m),
        error_message_of(body@) is None ==> match reply_content_of(body@) {
            Some(c) => r matches Ok(t) && t@ == c,
            None => r == Err::<String, ChatError>(ChatError::MalformedResponse),
        },
{
    match extract_error_message(body) {
        Some(msg) => Err(ChatError::ApiError(msg)),
        None => match extract_reply_content(body) {
            Some(content) => Ok(content),
            None => Err(ChatError::MalformedResponse),
        },
    }
}

} // verus!
