//! The synchronous part of a command: check the shared secret, find the
//! permalink, and queue the star request.

use vstd::prelude::*;
use vstd::string::*;
use crate::link::{extract_timestamp, permalink_timestamp};
use crate::queue::{enqueued, WorkQueue};
use crate::request::{Config, SlashCommandPayload, StarRequest, StarRequestView};

verus! {

/// Why a command was turned away before anything was queued.
#[derive(Debug, Clone, Copy, PartialEq, Eq, Structural)]
pub enum CommandError {
    /// The command's token is not the configured verification token.
    AuthError,
    /// The command's text holds no message permalink.
    MalformedLink,
}

impl CommandError {
    /// The HTTP status that answers the command: 403 for a bad token, 400 for
    /// a missing permalink.
    pub fn status(&self) -> (code: u16)
        ensures
            code == match *self {
                CommandError::AuthError => 403u16,
                CommandError::MalformedLink => 400u16,
            },
    {
        match self {
            CommandError::AuthError => 403,
            CommandError::MalformedLink => 400,
        }
    }

    /// The body that answers the command.
    pub fn message(&self) -> (body: String)
        ensures
            body@ == match *self {
                CommandError::AuthError => "Bad verification token."@,
                CommandError::MalformedLink => "Bad Request: Usage /quoth <link to message>"@,
            },
    {
        match self {
            CommandError::AuthError => String::from_str("Bad verification token."),
            CommandError::MalformedLink => String::from_str(
                "Bad Request: Usage /quoth <link to message>",
            ),
        }
    }
}

/// Whether `token` is, character for character, the configured secret.
pub fn verify_token(token: &String, secret: &String) -> (ok: bool)
    ensures
        ok == (token@ == secret@),
{
    *token == *secret
}

/// The star request that a command with the given timestamp asks for.
pub open spec fn request_for(payload: SlashCommandPayload, timestamp: Seq<char>) -> StarRequestView {
    StarRequestView {
        user_id: payload.user_id@,
        message_timestamp: timestamp,
        channel_id: payload.channel_id@,
        response_url: payload.response_url@,
    }
}

/// Handles one command. The token is checked first: a command whose token is
/// not the configured secret is refused with `AuthError`. Then the text is
/// searched: a command without a permalink is refused with `MalformedLink`.
/// A refused command leaves the queue as it was. Any other command puts
/// exactly one star request, for the first permalink in its text, behind
/// everything that already waits.
pub fn handle_command(payload: SlashCommandPayload, config: &Config, queue: &mut WorkQueue) -> (r:
    Result<(), CommandError>)
    requires
        old(queue).wf(),
    ensures
        final(queue).wf(),
        payload.token@ != config.verification_token@ ==> {
            &&& r == Err::<(), CommandError>(CommandError::AuthError)
            &&& final(queue)@ == old(queue)@
        },
        payload.token@ == config.verification_token@ ==> match permalink_timestamp(
            payload.text@,
        ) {
            Some(timestamp) => {
                &&& r.is_ok()
                &&& final(queue)@ == enqueued(old(queue)@, request_for(payload, timestamp))
            },
            None => {
                &&& r == Err::<(), CommandError>(CommandError::MalformedLink)
                &&& final(queue)@ == old(queue)@
            },
        },
{
    if !verify_token(&payload.token, &config.verification_token) {
        return Err(CommandError::AuthError);
    }
    match extract_timestamp(payload.text.as_str()) {
        Ok(message_timestamp) => {
            let request = StarRequest {
                user_id: payload.user_id,
                message_timestamp,
                channel_id: payload.channel_id,
                response_url: payload.response_url,
            };
            queue.enqueue(request);
            Ok(())
        },
        Err(_) => Err(CommandError::MalformedLink),
    }
}

} // verus!
