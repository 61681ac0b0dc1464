//! The reply that the invoking user receives: its wording and its JSON body.

use vstd::prelude::*;
use vstd::string::*;

verus! {

/// The reply posted to a command's callback address.
#[derive(Debug, Clone, PartialEq, Eq)]
pub struct SlashCommandResponse {
    pub response_type: String,
    pub text: String,
}

/// A reply as plain character sequences.
pub struct SlashCommandResponseView {
    pub response_type: Seq<char>,
    pub text: Seq<char>,
}

impl View for SlashCommandResponse {
    type V = SlashCommandResponseView;

    open spec fn view(&self) -> SlashCommandResponseView {
        SlashCommandResponseView { response_type: self.response_type@, text: self.text@ }
    }
}

/// The reply, visible to the invoking user only, that says `text`.
pub open spec fn ephemeral_response(text: Seq<char>) -> SlashCommandResponseView {
    SlashCommandResponseView { response_type: "ephemeral"@, text }
}

/// What is said when the message could not be fetched.
pub open spec fn unavailable_text() -> Seq<char> {
    "Couldn't retrieve that message."@
}

/// What is said when the fetched message is not an ordinary text message.
pub open spec fn unexpected_text() -> Seq<char> {
    "Unexpected message."@
}

/// What is said when the message with the given text is starred.
pub open spec fn penned_text(text: Seq<char>) -> Seq<char> {
    "Penned \""@ + text + "\" into the book of stars.... \u{f0}\u{178}\u{bc}"@
}

/// What is said when the message with the given text could not be starred.
pub open spec fn apology_text(text: Seq<char>) -> Seq<char> {
    "Alack! Could not pen \""@ + text
        + "\" into the book of stars....\nBother perhaps the foolish sqrl? \u{f0}\u{178}\u{bf}"@
}

/// The wording for a message that was starred.
pub fn penned_reply(text: &str) -> (reply: String)
    ensures
        reply@ == penned_text(text@),
{
    let mut reply = String::from_str("Penned \"");
    reply.append(text);
    reply.append("\" into the book of stars.... \u{f0}\u{178}\u{bc}");
    reply
}

/// The wording for a message that could not be starred.
pub fn apology_reply(text: &str) -> (reply: String)
    ensures
        reply@ == apology_text(text@),
{
    let mut reply = String::from_str("Alack! Could not pen \"");
    reply.append(text);
    reply.append(
        "\" into the book of stars....\nBother perhaps the foolish sqrl? \u{f0}\u{178}\u{bf}",
    );
    reply
}

/// The JSON string literal that encodes `text`: quoted, with quotes,
/// backslashes and control characters escaped. `None` if the encoder fails.
pub uninterp spec fn json_string(text: Seq<char>) -> Option<Seq<char>>;

/// Calls `rustc_serialize::json::encode` on a string.
///
/// Trusted: the result is the encoder's output for this string, which
/// `json_string` names; an encoder error becomes `None`.
#[verifier::external_body]
fn encode_json_string(text: &String) -> (r: Option<String>)
    ensures
        match r {
            Some(encoded) => json_string(text@) == Some(encoded@),
            None => json_string(text@).is_none(),
        },
{
    rustc_serialize::json::encode(text).ok()
}

/// The compact JSON object with the two members `response_type` and `text`,
/// in this order, given the encoded value of each.
pub open spec fn json_object(response_type_json: Seq<char>, text_json: Seq<char>) -> Seq<char> {
    "{\"response_type\":"@ + response_type_json + ",\"text\":"@ + text_json + "}"@
}

/// The JSON body of a reply, if both of its strings can be encoded.
pub open spec fn response_json(response: SlashCommandResponseView) -> Option<Seq<char>> {
    match (json_string(response.response_type), json_string(response.text)) {
        (Some(response_type_json), Some(text_json)) => Some(
            json_object(response_type_json, text_json),
        ),
        _ => None,
    }
}

/// Frames two encoded values as the JSON object of a reply.
pub fn frame_response(response_type_json: &str, text_json: &str) -> (body: String)
    ensures
        body@ == json_object(response_type_json@, text_json@),
{
    let mut body = String::from_str("{\"response_type\":");
    body.append(response_type_json);
    body.append(",\"text\":");
    body.append(text_json);
    body.append("}");
    body
}

impl SlashCommandResponse {
    /// The reply, visible to the invoking user only, that says `text`.
    pub fn ephemeral(text: String) -> (response: SlashCommandResponse)
        ensures
            response@ == ephemeral_response(text@),
    {
        SlashCommandResponse { response_type: String::from_str("ephemeral"), text }
    }

    /// The JSON body to post for this reply.
    pub fn to_json(&self) -> (body: Option<String>)
        ensures
            match body {
                Some(json) => response_json(self@) == Some(json@),
                None => response_json(self@).is_none(),
            },
    {
        match encode_json_string(&self.response_type) {
            Some(response_type_json) => match encode_json_string(&self.text) {
                Some(text_json) => Some(
                    frame_response(response_type_json.as_str(), text_json.as_str()),
                ),
                None => None,
            },
            None => None,
        }
    }
}

} // verus!
