use fast_dbc_to_c::dbc::{Comment, Database, MessageId};
use fast_dbc_to_c::properties::{extract_value_from_comments, UNKNOWN};

fn note(id: MessageId, text: &str) -> Comment {
    Comment::Message { message_id: id, comment: text.to_string() }
}

fn with_comments(comments: Vec<Comment>) -> Database {
    Database { messages: vec![], comments }
}

#[test]
fn missing_vehicle_name_is_unknown() {
    let dbc = with_comments(vec![
        note(MessageId::Standard(0), "IC_VEHICLE_VERSION:1.2"),
        note(MessageId::Standard(0), "just a remark"),
    ]);
    assert_eq!(extract_value_from_comments(&dbc, "VEHICLE_NAME"), "UNKNOWN");
    assert_eq!(UNKNOWN, "UNKNOWN");
}

#[test]
fn no_comments_at_all_is_unknown() {
    assert_eq!(extract_value_from_comments(&with_comments(vec![]), "VEHICLE_NAME"), "UNKNOWN");
}

#[test]
fn value_is_what_follows_the_prefix() {
    let dbc = with_comments(vec![note(MessageId::Standard(0), "IC_VEHICLE_NAME:Roadster Mk II")]);
    assert_eq!(extract_value_from_comments(&dbc, "VEHICLE_NAME"), "Roadster Mk II");
}

#[test]
fn empty_value_stays_empty() {
    let dbc = with_comments(vec![note(MessageId::Standard(0), "IC_VEHICLE_NAME:")]);
    assert_eq!(extract_value_from_comments(&dbc, "VEHICLE_NAME"), "");
}

#[test]
fn only_the_leading_prefix_is_taken_off() {
    let dbc = with_comments(
        vec![note(MessageId::Standard(0), "IC_VEHICLE_NAME:see IC_VEHICLE_NAME: above")],
    );
    assert_eq!(extract_value_from_comments(&dbc, "VEHICLE_NAME"), "see IC_VEHICLE_NAME: above");
}

#[test]
fn first_of_several_statements_wins() {
    let dbc = with_comments(vec![
        note(MessageId::Standard(0), "IC_VEHICLE_NAME:First"),
        note(MessageId::Standard(0), "IC_VEHICLE_NAME:Second"),
    ]);
    assert_eq!(extract_value_from_comments(&dbc, "VEHICLE_NAME"), "First");
}

#[test]
fn comments_on_other_messages_do_not_count() {
    let dbc = with_comments(vec![
        note(MessageId::Standard(1), "IC_VEHICLE_NAME:Other"),
        note(MessageId::Extended(0x100), "IC_VEHICLE_NAME:Another"),
        Comment::Other,
    ]);
    assert_eq!(extract_value_from_comments(&dbc, "VEHICLE_NAME"), "UNKNOWN");
}

#[test]
fn extended_identifier_zero_counts() {
    let dbc = with_comments(vec![
        note(MessageId::Standard(7), "IC_VEHICLE_NAME:Other"),
        note(MessageId::Extended(0), "IC_VEHICLE_NAME:Extended"),
    ]);
    assert_eq!(extract_value_from_comments(&dbc, "VEHICLE_NAME"), "Extended");
}

#[test]
fn prefix_has_to_stand_at_the_start() {
    let dbc = with_comments(vec![
        note(MessageId::Standard(0), " IC_VEHICLE_NAME:Indented"),
        note(MessageId::Standard(0), "IC_VEHICLE_NAME Missing colon"),
        note(MessageId::Standard(0), "ic_vehicle_name:lower"),
    ]);
    assert_eq!(extract_value_from_comments(&dbc, "VEHICLE_NAME"), "UNKNOWN");
}

#[test]
fn token_is_matched_as_a_whole() {
    let dbc = with_comments(vec![note(MessageId::Standard(0), "IC_VEHICLE_NAME_LONG:x")]);
    assert_eq!(extract_value_from_comments(&dbc, "VEHICLE_NAME"), "UNKNOWN");
    assert_eq!(extract_value_from_comments(&dbc, "VEHICLE_NAME_LONG"), "x");
}
