//! Vehicle properties. A database carries them as comments on the message with
//! identifier 0, each written as `IC_`, the property's token, a colon and the
//! value.

use vstd::prelude::*;
use crate::dbc::{Comment, CommentView, Database};
use crate::text::strip_prefix;

verus! {

/// The value of a property that the database does not state.
pub const UNKNOWN: &'static str = "UNKNOWN";

/// What the comment that states the property `token` starts with.
pub open spec fn annotation_prefix(token: Seq<char>) -> Seq<char> {
    "IC_"@ + token + ":"@
}

/// Whether a comment states the property `token`: it is attached to the message
/// with identifier 0, standard or extended, and starts with the property's
/// prefix.
pub open spec fn annotates(comment: CommentView, token: Seq<char>) -> bool {
    comment matches CommentView::Message { message_id, comment: text } && message_id.number() == 0
        && annotation_prefix(token).is_prefix_of(text)
}

/// The value of the property `token`: what follows the prefix in the first
/// comment that states the property, and `UNKNOWN` where no comment does.
pub open spec fn extracted(comments: Seq<CommentView>, token: Seq<char>) -> Seq<char>
    decreases comments.len(),
{
    if comments.len() == 0 {
        UNKNOWN@
    } else if annotates(comments.first(), token) {
        comments.first()->comment.skip(annotation_prefix(token).len() as int)
    } else {
        extracted(comments.drop_first(), token)
    }
}

/// Reads the value of the property `token` from the comments of the database.
/// Of several comments that state the property the first one counts.
pub fn extract_value_from_comments(dbc: &Database, token: &str) -> (r: String)
    ensures
        r@ == extracted(dbc@.comments, token@),
{
    let mut prefix = String::from_str("IC_");
    prefix.append(token);
    prefix.append(":");
    let mut i: usize = 0;
    assert(dbc@.comments.skip(0) =~= dbc@.comments);
    while i < dbc.comments.len()
        invariant
            i <= dbc.comments.len(),
            prefix@ == annotation_prefix(token@),
            extracted(dbc@.comments, token@) == extracted(dbc@.comments.skip(i as int), token@),
        decreases dbc.comments.len() - i,
    {
        let ghost rest = dbc@.comments.skip(i as int);
        assert(rest.drop_first() =~= dbc@.comments.skip(i as int + 1));
        match &dbc.comments[i] {
            Comment::Message { message_id, comment } => {
                if message_id.normalized() == 0 {
                    match strip_prefix(comment.as_str(), prefix.as_str()) {
                        Some(value) => {
                            return String::from_str(value);
                        },
                        None => {},
                    }
                }
            },
            Comment::Other => {},
        }
        i += 1;
    }
    String::from_str(UNKNOWN)
}

/// A property that no comment states has the value `UNKNOWN`.
pub proof fn unstated_property_is_unknown(comments: Seq<CommentView>, token: Seq<char>)
    requires
        forall|i: int| 0 <= i < comments.len() ==> !annotates(#[trigger] comments[i], token),
    ensures
        extracted(comments, token) == UNKNOWN@,
    decreases comments.len(),
{
    if comments.len() > 0 {
        unstated_property_is_unknown(comments.drop_first(), token);
    }
}

/// A property that some comment states has the value of the first comment
/// that states it.
pub proof fn first_statement_wins(comments: Seq<CommentView>, token: Seq<char>, first: int)
    requires
        0 <= first < comments.len(),
        annotates(comments[first], token),
        forall|i: int| 0 <= i < first ==> !annotates(#[trigger] comments[i], token),
    ensures
        extracted(comments, token) == comments[first]->comment.skip(
            annotation_prefix(token).len() as int,
        ),
    decreases first,
{
    if first > 0 {
        first_statement_wins(comments.drop_first(), token, first - 1);
    }
}

} // verus!
