//! Reading trade messages of a market data stream: each message is a JSON
//! object whose member `"p"` holds the trade price as a string.
use vstd::prelude::*;

verus! {

#[verifier::external_type_specification]
#[verifier::external_body]
pub struct ExJsonError(serde_json::Error);

/// What `serde_json` reads of member `key` in `text`: `None` when `text` is
/// not JSON; else `Some(Some(s))` when `text` holds an object whose member
/// `key` is the string `s`, and `Some(None)` otherwise.
pub uninterp spec fn json_string_member(text: Seq<char>, key: Seq<char>) -> Option<Option<Seq<char>>>;

/// Parses `text` with `serde_json::from_str` into a `serde_json::Value`,
/// indexes it by `key` and takes the member with `Value::as_str`. The result
/// is named, not described.
#[verifier::external_body]
fn json_string_field(text: &str, key: &str) -> (r: Result<Option<String>, serde_json::Error>)
    ensures
        r is Err ==> json_string_member(text@, key@) is None,
        r matches Ok(None) ==> json_string_member(text@, key@) == Some(None::<Seq<char>>),
        r matches Ok(Some(s)) ==> json_string_member(text@, key@) == Some(Some(s@)),
{
    match serde_json::from_str::<serde_json::Value>(text) {
        Ok(value) => Ok(value[key].as_str().map(str::to_owned)),
        Err(e) => Err(e),
    }
}

/// Why a trade message could not be read.
pub enum TradeMessageError {
    /// The message is not JSON.
    NotJson,
}

/// The price text of a trade message: the string member `"p"`, `None` when
/// the message has no such string member, an error when it is not JSON.
pub fn trade_price_text(message: &str) -> (r: Result<Option<String>, TradeMessageError>)
    ensures
        r is Err <==> json_string_member(message@, "p"@) is None,
        r matches Ok(None) ==> json_string_member(message@, "p"@) == Some(None::<Seq<char>>),
        r matches Ok(Some(s)) ==> json_string_member(message@, "p"@) == Some(Some(s@)),
{
    match json_string_field(message, "p") {
        Ok(field) => Ok(field),
        Err(_) => Err(TradeMessageError::NotJson),
    }
}

} // verus!
