use starlord::reply::{apology_reply, frame_response, penned_reply, SlashCommandResponse};

#[test]
fn penned_reply_wording() {
    assert_eq!(
        penned_reply("hello"),
        "Penned \"hello\" into the book of stars.... \u{f0}\u{178}\u{bc}"
    );
    assert!(penned_reply("hello").starts_with("Penned \"hello\" into the book of stars...."));
}

#[test]
fn penned_reply_of_empty_text() {
    assert_eq!(penned_reply(""), "Penned \"\" into the book of stars.... \u{f0}\u{178}\u{bc}");
}

#[test]
fn apology_reply_wording() {
    assert_eq!(
        apology_reply("hello"),
        "Alack! Could not pen \"hello\" into the book of stars....\nBother perhaps the foolish sqrl? \u{f0}\u{178}\u{bf}"
    );
}

#[test]
fn ephemeral_response_fields() {
    let r = SlashCommandResponse::ephemeral("hi".to_string());
    assert_eq!(r.response_type, "ephemeral");
    assert_eq!(r.text, "hi");
}

#[test]
fn json_body_of_plain_text() {
    let r = SlashCommandResponse::ephemeral("Unexpected message.".to_string());
    assert_eq!(
        r.to_json(),
        Some("{\"response_type\":\"ephemeral\",\"text\":\"Unexpected message.\"}".to_string())
    );
}

#[test]
fn json_body_escapes_quotes_and_line_breaks() {
    let r = SlashCommandResponse::ephemeral("say \"hi\"\nback\\slash".to_string());
    assert_eq!(
        r.to_json(),
        Some(
            "{\"response_type\":\"ephemeral\",\"text\":\"say \\\"hi\\\"\\nback\\\\slash\"}"
                .to_string()
        )
    );
}

#[test]
fn json_body_of_empty_text() {
    let r = SlashCommandResponse::ephemeral(String::new());
    assert_eq!(r.to_json(), Some("{\"response_type\":\"ephemeral\",\"text\":\"\"}".to_string()));
}

#[test]
fn json_body_encodes_the_response_type_too() {
    let r = SlashCommandResponse { response_type: "in\"channel".to_string(), text: "x".to_string() };
    assert_eq!(
        r.to_json(),
        Some("{\"response_type\":\"in\\\"channel\",\"text\":\"x\"}".to_string())
    );
}

#[test]
fn frame_puts_members_in_order() {
    assert_eq!(frame_response("1", "2"), "{\"response_type\":1,\"text\":2}");
    assert_eq!(frame_response("", ""), "{\"response_type\":,\"text\":}");
}
