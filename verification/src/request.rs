//! The values that travel through the pipeline: the inbound command, the
//! queued star request, and the process configuration.

use vstd::prelude::*;
use crate::link::is_timestamp;

verus! {

/// The form fields of one slash-command invocation, as received.
#[derive(Debug, Clone, PartialEq, Eq)]
pub struct SlashCommandPayload {
    pub token: String,
    pub team_id: String,
    pub team_domain: String,
    pub channel_id: String,
    pub channel_name: String,
    pub user_id: String,
    pub user_name: String,
    pub command: String,
    pub text: String,
    pub response_url: String,
}

/// What the process is configured with at startup; read-only afterwards.
#[derive(Debug, Clone, PartialEq, Eq)]
pub struct Config {
    /// The token that authorises calls to the chat platform.
    pub slack_token: String,
    /// The shared secret that every inbound command must carry.
    pub verification_token: String,
}

/// One message to star, and where to report the outcome.
#[derive(Debug, Clone, PartialEq, Eq)]
pub struct StarRequest {
    pub user_id: String,
    pub message_timestamp: String,
    pub channel_id: String,
    pub response_url: String,
}

/// A star request as plain character sequences.
pub struct StarRequestView {
    pub user_id: Seq<char>,
    pub message_timestamp: Seq<char>,
    pub channel_id: Seq<char>,
    pub response_url: Seq<char>,
}

impl View for StarRequest {
    type V = StarRequestView;

    open spec fn view(&self) -> StarRequestView {
        StarRequestView {
            user_id: self.user_id@,
            message_timestamp: self.message_timestamp@,
            channel_id: self.channel_id@,
            response_url: self.response_url@,
        }
    }
}

impl StarRequestView {
    /// The timestamp has the canonical shape `<10 digits>.<6 digits>`.
    pub open spec fn wf(self) -> bool {
        is_timestamp(self.message_timestamp)
    }
}

impl StarRequest {
    /// The timestamp has the canonical shape `<10 digits>.<6 digits>`.
    pub open spec fn wf(&self) -> bool {
        self@.wf()
    }
}

} // verus!
