use vstd::prelude::*;
use crate::params::{Params, lookup};
use crate::save::{key_tool_name, key_args, key_result, tool_name_key, args_key, result_key};

verus! {

pub open spec fn tool_call_text(name: Seq<char>, args: Seq<char>) -> Seq<char> {
    "Tool called: "@ + name + " with args: "@ + args
}

pub open spec fn tool_result_text(name: Seq<char>, result: Seq<char>) -> Seq<char> {
    "Tool result: "@ + name + " returned: "@ + result
}

/// The console line for a tool call; `None` when the payload lacks a tool
/// name or arguments.
pub fn tool_call_line(params: &Params) -> (r: Option<String>)
    ensures
        r is Some <==> (lookup(params@, key_tool_name()) is Some && lookup(params@, key_args()) is Some),
        r matches Some(line) ==> line@ == tool_call_text(
            lookup(params@, key_tool_name()).unwrap(),
            lookup(params@, key_args()).unwrap(),
        ),
{
    match (params.get(tool_name_key()), params.get(args_key())) {
        (Some(name), Some(args)) => Some(
            String::from_str("Tool called: ").concat(name.as_str()).concat(" with args: ").concat(
                args.as_str(),
            ),
        ),
        _ => None,
    }
}

/// The console line for a tool result; `None` when the payload lacks a tool
/// name or a result.
pub fn tool_result_line(params: &Params) -> (r: Option<String>)
    ensures
        r is Some <==> (lookup(params@, key_tool_name()) is Some && lookup(params@, key_result())
            is Some),
        r matches Some(line) ==> line@ == tool_result_text(
            lookup(params@, key_tool_name()).unwrap(),
            lookup(params@, key_result()).unwrap(),
        ),
{
    match (params.get(tool_name_key()), params.get(result_key())) {
        (Some(name), Some(result)) => Some(
            String::from_str("Tool result: ").concat(name.as_str()).concat(" returned: ").concat(
                result.as_str(),
            ),
        ),
        _ => None,
    }
}

} // verus!
