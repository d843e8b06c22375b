//! The boundary to `serde_json`: its value and error types, names for what its
//! functions return, and one wrapper for each of its functions that the
//! library calls.
//!
//! Nothing in this file is proved. Each contract restates what the source of
//! `serde_json` shows, and everything else in the library is proved from them.
//! The contracts are written for the crate as it is built here: objects keep
//! their members in the order of their names (no `preserve_order`), numbers
//! are `u64`, `i64` or `f64` (no `arbitrary_precision`), and a number with a
//! fraction is read back to the value it was written from (`float_roundtrip`).

use vstd::prelude::*;

verus! {

/// `serde_json::Value`, a JSON value of any kind. Verus sees nothing inside.
#[verifier::external_type_specification]
#[verifier::external_body]
pub struct ExValue(serde_json::Value);

/// `serde_json::Error`, which `serde_json::from_str` returns for text that is
/// not JSON.
#[verifier::external_type_specification]
#[verifier::external_body]
pub struct ExError(serde_json::Error);

/// What a member of a JSON object holds, as far as the library looks into it.
pub enum JsonMember {
    /// A number that `serde_json::Value::as_i64` returns as this integer.
    Integer(i64),
    /// Any other value; what is kept of it is its compact JSON text.
    Other(Seq<char>),
}

/// How deep `serde_json::from_str` goes into arrays and objects: it refuses a
/// text in which this many of them stand inside one another.
pub const JSON_DEPTH_LIMIT: usize = 128;

/// What a JSON value holds when it stands as a member of an object.
pub uninterp spec fn json_member(value: serde_json::Value) -> JsonMember;

/// The members of a JSON value: for an object, what each member's name
/// stands for; for a value of any other kind, no member at all.
pub uninterp spec fn json_members(doc: serde_json::Value) -> Map<Seq<char>, JsonMember>;

/// How many arrays and objects stand inside one another in a JSON value: none
/// in a value that is neither, and one more than in the deepest of its
/// elements or members in an array or an object.
pub uninterp spec fn json_depth(doc: serde_json::Value) -> nat;

/// The words of a `serde_json::Error`, as its `to_string` writes them.
pub uninterp spec fn json_error_words(error: serde_json::Error) -> Seq<char>;

/// What `serde_json::from_str` makes of a text: the words of the error where
/// it reports one, else the members of the value that it returns.
pub uninterp spec fn json_parsed(text: Seq<char>) -> Result<Map<Seq<char>, JsonMember>, Seq<char>>;

/// The compact text that `serde_json::Value::to_string` gives for an object
/// with these members.
pub uninterp spec fn json_rendered(members: Map<Seq<char>, JsonMember>) -> Seq<char>;

/// The integer that stands under `key` in `members`, if one does.
pub open spec fn integer_member(members: Map<Seq<char>, JsonMember>, key: Seq<char>) -> Option<
    i64,
> {
    if members.contains_key(key) {
        match members[key] {
            JsonMember::Integer(n) => Some(n),
            JsonMember::Other(_) => None,
        }
    } else {
        None
    }
}

/// Calls `serde_json::from_str` for a `serde_json::Value`.
///
/// Trusted: the outcome depends on the text alone, so it is the one that
/// `json_parsed` names; and a value that is returned stays below
/// [`JSON_DEPTH_LIMIT`], because the parser counts the arrays and objects
/// that it is inside of and gives up at the limit.
#[verifier::external_body]
pub(crate) fn parse(text: &str) -> (res: Result<serde_json::Value, serde_json::Error>)
    ensures
        match res {
            Ok(doc) => {
                &&& json_parsed(text@) is Ok
                &&& json_parsed(text@)->Ok_0 == json_members(doc)
                &&& json_depth(doc) < JSON_DEPTH_LIMIT
            },
            Err(error) => {
                &&& json_parsed(text@) is Err
                &&& json_parsed(text@)->Err_0 == json_error_words(error)
            },
        },
{
    serde_json::from_str::<serde_json::Value>(text)
}

/// Calls `to_string` on a `serde_json::Error`, which writes the parser's
/// message and, where it knows them, the line and the column.
///
/// Trusted: the text depends on the error alone, so it is the one that
/// `json_error_words` names.
#[verifier::external_body]
pub(crate) fn error_text(error: &serde_json::Error) -> (text: String)
    ensures
        text@ == json_error_words(*error),
{
    error.to_string()
}

/// Indexes a `serde_json::Value` by a member's name, through its `Index`.
///
/// Trusted: the result is the member of that name where the value is an
/// object that has one. Everywhere else it is JSON's null, which is no
/// integer.
#[verifier::external_body]
pub(crate) fn member<'a>(doc: &'a serde_json::Value, key: &str) -> (value: &'a serde_json::Value)
    ensures
        json_members(*doc).contains_key(key@) ==> json_member(*value) == json_members(*doc)[key@],
        !json_members(*doc).contains_key(key@) ==> json_member(*value) is Other,
{
    &doc[key]
}

/// Calls `serde_json::Value::as_i64`.
///
/// Trusted: the result is the integer for a number that is one and fits
/// `i64`, and `None` for every other value.
#[verifier::external_body]
pub(crate) fn as_integer(value: &serde_json::Value) -> (res: Option<i64>)
    ensures
        res == match json_member(*value) {
            JsonMember::Integer(n) => Some(n),
            JsonMember::Other(_) => None,
        },
{
    value.as_i64()
}

/// Calls `serde_json::Value::from` on an `i64`.
///
/// Trusted: the result is a number that `as_i64` returns as `n`; a number
/// is neither an array nor an object.
#[verifier::external_body]
pub(crate) fn integer_value(n: i64) -> (value: serde_json::Value)
    ensures
        json_member(value) == JsonMember::Integer(n),
        json_depth(value) == 0,
{
    serde_json::Value::from(n)
}

/// Assigns `value` to the member `key` of an object, through the `IndexMut`
/// of `serde_json::Value`.
///
/// Trusted: on an object that has the member, the assignment replaces what
/// the member holds and touches no other member, so the object is then no
/// deeper than it was, or one deeper than the new member. `IndexMut` panics
/// on an array, a string, a number or a boolean, which have no members:
/// `requires` leaves them out.
#[verifier::external_body]
pub(crate) fn set_member(doc: &mut serde_json::Value, key: &str, value: serde_json::Value)
    requires
        json_members(*old(doc)).contains_key(key@),
    ensures
        json_members(*final(doc)) == json_members(*old(doc)).insert(key@, json_member(value)),
        json_depth(*final(doc)) <= json_depth(*old(doc)) || json_depth(*final(doc))
            <= json_depth(value) + 1,
{
    doc[key] = value;
}

/// Calls `to_string` on a `serde_json::Value`, which writes it as compact JSON.
///
/// Trusted: for an object with at least one member the text depends on the
/// members alone, so it is the one that `json_rendered` names; and where the
/// value stays below [`JSON_DEPTH_LIMIT`], `serde_json::from_str` reads the
/// text back to a value with the same members. Of a deeper value the text is
/// written all the same, and the parser refuses it.
#[verifier::external_body]
pub(crate) fn render(doc: &serde_json::Value) -> (text: String)
    ensures
        (exists|key: Seq<char>| json_members(*doc).contains_key(key)) ==> text@ == json_rendered(
            json_members(*doc),
        ),
        json_depth(*doc) < JSON_DEPTH_LIMIT ==> json_parsed(text@) is Ok,
        json_depth(*doc) < JSON_DEPTH_LIMIT ==> json_parsed(text@)->Ok_0 == json_members(*doc),
{
    doc.to_string()
}

} // verus!
