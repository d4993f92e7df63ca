use vstd::prelude::*;

verus! {

/// The JSON text of the object `{"command": command, "is_read_only": is_read_only,
/// "is_risky": is_risky, "uses_pager": uses_pager}` as serde_json writes it.
pub uninterp spec fn shell_command_arguments_json(
    command: Seq<char>,
    is_read_only: bool,
    is_risky: bool,
    uses_pager: bool,
) -> Seq<char>;

/// The string member `key` of the JSON object that `text` holds, if `text` parses as JSON and
/// the member exists and is a string.
pub uninterp spec fn json_member_str(text: Seq<char>, key: Seq<char>) -> Option<Seq<char>>;

/// The boolean member `key` of the JSON object that `text` holds, if `text` parses as JSON and
/// the member exists and is a boolean.
pub uninterp spec fn json_member_bool(text: Seq<char>, key: Seq<char>) -> Option<bool>;

/// The characters of an optional string.
pub open spec fn opt_string_view(o: Option<String>) -> Option<Seq<char>> {
    match o {
        Some(s) => Some(s@),
        None => None,
    }
}

/// Writes the arguments of a shell command tool call as a JSON object: builds a
/// `serde_json::Map` with the four members and renders `Value::Object` of it with
/// `Value::to_string`.
///
/// Claimed of the outside code: the text is a function of the four arguments, and serde_json
/// reads each member back from it unchanged (its string escaping and boolean literals round
/// trip through `serde_json::from_str`).
#[verifier::external_body]
pub(crate) fn run_shell_command_arguments(
    command: &str,
    is_read_only: bool,
    is_risky: bool,
    uses_pager: bool,
) -> (text: String)
    ensures
        text@ == shell_command_arguments_json(command@, is_read_only, is_risky, uses_pager),
        json_member_str(text@, "command"@) == Some(command@),
        json_member_bool(text@, "is_read_only"@) == Some(is_read_only),
        json_member_bool(text@, "is_risky"@) == Some(is_risky),
        json_member_bool(text@, "uses_pager"@) == Some(uses_pager),
{
    let mut map = serde_json::Map::new();
    map.insert("command".to_string(), serde_json::Value::String(command.to_string()));
    map.insert("is_read_only".to_string(), serde_json::Value::Bool(is_read_only));
    map.insert("is_risky".to_string(), serde_json::Value::Bool(is_risky));
    map.insert("uses_pager".to_string(), serde_json::Value::Bool(uses_pager));
    serde_json::Value::Object(map).to_string()
}

/// Reads a string member of a JSON object: parses `text` with
/// `serde_json::from_str::<serde_json::Value>`, then takes `Value::get(key)` and
/// `Value::as_str`. Invalid JSON, a missing member and a member of another kind all give `None`.
#[verifier::external_body]
pub(crate) fn read_json_member_str(text: &str, key: &str) -> (member: Option<String>)
    ensures
        opt_string_view(member) == json_member_str(text@, key@),
{
    let value = serde_json::from_str::<serde_json::Value>(text).unwrap_or_default();
    value.get(key).and_then(|m| m.as_str()).map(|s| s.to_string())
}

/// Reads a boolean member of a JSON object: parses `text` with
/// `serde_json::from_str::<serde_json::Value>`, then takes `Value::get(key)` and
/// `Value::as_bool`. Invalid JSON, a missing member and a member of another kind all give `None`.
#[verifier::external_body]
pub(crate) fn read_json_member_bool(text: &str, key: &str) -> (member: Option<bool>)
    ensures
        member == json_member_bool(text@, key@),
{
    let value = serde_json::from_str::<serde_json::Value>(text).unwrap_or_default();
    value.get(key).and_then(|m| m.as_bool())
}

} // verus!
