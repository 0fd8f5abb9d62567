use vstd::prelude::*;
use crate::message::Timestamp;
use crate::params::{Params, lookup};

verus! {

/// Whether a path holds a dot anywhere.
pub open spec fn has_dot(p: Seq<char>) -> bool {
    exists|i: int| 0 <= i < p.len() && p[i] == '.'
}

/// `file` placed beneath `dir`, with one separator between them.
pub open spec fn joined(dir: Seq<char>, file: Seq<char>) -> Seq<char> {
    if dir.len() == 0 {
        file
    } else if dir.last() == '/' {
        dir + file
    } else {
        dir + seq!['/'] + file
    }
}

/// Where a log writer given `path` writes: beneath it, under `file`, when it
/// names a directory; a path without a dot is taken for one.
pub open spec fn log_location(path: Seq<char>, is_dir: bool, file: Seq<char>) -> Seq<char> {
    if is_dir || !has_dot(path) {
        joined(path, file)
    } else {
        path
    }
}

fn contains_dot(p: &str) -> (r: bool)
    ensures
        r == has_dot(p@),
{
    let n = p.unicode_len();
    let mut i: usize = 0;
    while i < n
        invariant
            n == p@.len(),
            i <= n,
            forall|j: int| 0 <= j < i ==> p@[j] != '.',
        decreases n - i,
    {
        if p.get_char(i) == '.' {
            return true;
        }
        i = i + 1;
    }
    false
}

/// `file` placed beneath `dir`.
pub fn join_path(dir: &str, file: &str) -> (r: String)
    ensures
        r@ == joined(dir@, file@),
{
    let n = dir.unicode_len();
    if n == 0 {
        file.to_owned()
    } else if dir.get_char(n - 1) == '/' {
        dir.to_owned().concat(file)
    } else {
        let r = dir.to_owned().concat("/").concat(file);
        proof {
            reveal_strlit("/");
        }
        r
    }
}

fn resolve_location(path: &str, is_dir: bool, file: &str) -> (r: String)
    ensures
        r@ == log_location(path@, is_dir, file@),
{
    if is_dir || !contains_dot(path) {
        join_path(path, file)
    } else {
        path.to_owned()
    }
}

/// The name of the tool-call log file.
pub open spec fn tool_log_file() -> Seq<char> {
    seq!['t', 'o', 'o', 'l', '.', 'l', 'o', 'g']
}

/// The name of the tool-result log file.
pub open spec fn tool_result_log_file() -> Seq<char> {
    seq!['t', 'o', 'o', 'l', '_', 'r', 'e', 's', 'u', 'l', 't', '.', 'l', 'o', 'g']
}

pub open spec fn key_tool_name() -> Seq<char> {
    seq!['t', 'o', 'o', 'l', '_', 'n', 'a', 'm', 'e']
}

pub open spec fn key_args() -> Seq<char> {
    seq!['a', 'r', 'g', 's']
}

pub open spec fn key_result() -> Seq<char> {
    seq!['r', 'e', 's', 'u', 'l', 't']
}

fn tool_log_name() -> (r: &'static str)
    ensures
        r@ == tool_log_file(),
{
    proof {
        reveal_strlit("tool.log");
    }
    "tool.log"
}

fn tool_result_log_name() -> (r: &'static str)
    ensures
        r@ == tool_result_log_file(),
{
    proof {
        reveal_strlit("tool_result.log");
    }
    "tool_result.log"
}

pub(crate) fn tool_name_key() -> (r: &'static str)
    ensures
        r@ == key_tool_name(),
{
    proof {
        reveal_strlit("tool_name");
    }
    "tool_name"
}

pub(crate) fn args_key() -> (r: &'static str)
    ensures
        r@ == key_args(),
{
    proof {
        reveal_strlit("args");
    }
    "args"
}

pub(crate) fn result_key() -> (r: &'static str)
    ensures
        r@ == key_result(),
{
    proof {
        reveal_strlit("result");
    }
    "result"
}

/// One entry of the tool-call log.
#[derive(Debug)]
pub struct ToolLog {
    pub name: String,
    pub args: String,
    pub timestamp: Timestamp,
}

impl ToolLog {
    pub fn new(name: String, args: String, timestamp: Timestamp) -> (r: Self)
        ensures
            r.name == name,
            r.args == args,
            r.timestamp == timestamp,
    {
        ToolLog { name, args, timestamp }
    }
}

/// One entry of the tool-result log.
#[derive(Debug)]
pub struct ToolResultLog {
    pub name: String,
    pub args: String,
    pub result: String,
    pub timestamp: Timestamp,
}

impl ToolResultLog {
    pub fn new(name: String, args: String, result: String, timestamp: Timestamp) -> (r: Self)
        ensures
            r.name == name,
            r.args == args,
            r.result == result,
            r.timestamp == timestamp,
    {
        ToolResultLog { name, args, result, timestamp }
    }
}

/// A log kept as one list of entries, read whole and rewritten whole; a
/// missing or unreadable log counts as empty.
pub open spec fn loaded<T>(existing: Option<Vec<T>>) -> Seq<T> {
    match existing {
        Some(v) => v@,
        None => Seq::empty(),
    }
}

/// The durable log of tool calls.
#[derive(Debug)]
pub struct WriteToolLogToFile {
    pub path: String,
}

impl Clone for WriteToolLogToFile {
    fn clone(&self) -> (r: Self)
        ensures
            r == *self,
    {
        WriteToolLogToFile { path: self.path.clone() }
    }
}

impl WriteToolLogToFile {
    /// A writer for `path`, decided by the text alone: a path without a dot
    /// is a directory, and the log goes beneath it.
    pub fn new(path: &str) -> (r: Self)
        ensures
            r.path@ == log_location(path@, false, tool_log_file()),
    {
        WriteToolLogToFile { path: resolve_location(path, false, tool_log_name()) }
    }

    /// A writer whose log goes beneath the directory `path`.
    pub fn new_in_directory(path: &str) -> (r: Self)
        ensures
            r.path@ == log_location(path@, true, tool_log_file()),
    {
        WriteToolLogToFile { path: resolve_location(path, true, tool_log_name()) }
    }

    /// The log after a tool-call event with payload `params`, written at
    /// `now`; `None` when the payload lacks a tool name or arguments, and then
    /// nothing is written.
    pub fn next_log(existing: Option<Vec<ToolLog>>, params: &Params, now: Timestamp) -> (r:
        Option<Vec<ToolLog>>)
        ensures
            r is Some <==> (lookup(params@, key_tool_name()) is Some && lookup(
                params@,
                key_args(),
            ) is Some),
            r matches Some(v) ==> {
                &&& v@.len() == loaded(existing).len() + 1
                &&& v@.subrange(0, v@.len() - 1) == loaded(existing)
                &&& Some(v@.last().name@) == lookup(params@, key_tool_name())
                &&& Some(v@.last().args@) == lookup(params@, key_args())
                &&& v@.last().timestamp == now
            },
    {
        let ghost before = loaded(existing);
        let name = params.get(tool_name_key());
        let args = params.get(args_key());
        match (name, args) {
            (Some(name), Some(args)) => {
                let mut logs = match existing {
                    Some(v) => v,
                    None => Vec::new(),
                };
                logs.push(ToolLog::new(name, args, now));
                assert(logs@.subrange(0, logs@.len() - 1) =~= before);
                Some(logs)
            },
            _ => None,
        }
    }
}

/// The durable log of tool results.
#[derive(Debug)]
pub struct WriteToolResultToFile {
    pub path: String,
}

impl Clone for WriteToolResultToFile {
    fn clone(&self) -> (r: Self)
        ensures
            r == *self,
    {
        WriteToolResultToFile { path: self.path.clone() }
    }
}

impl WriteToolResultToFile {
    /// A writer for `path`, decided by the text alone: a path without a dot
    /// is a directory, and the log goes beneath it.
    pub fn new(path: &str) -> (r: Self)
        ensures
            r.path@ == log_location(path@, false, tool_result_log_file()),
    {
        WriteToolResultToFile { path: resolve_location(path, false, tool_result_log_name()) }
    }

    /// A writer whose log goes beneath the directory `path`.
    pub fn new_in_directory(path: &str) -> (r: Self)
        ensures
            r.path@ == log_location(path@, true, tool_result_log_file()),
    {
        WriteToolResultToFile { path: resolve_location(path, true, tool_result_log_name()) }
    }

    /// The log after a tool-result event with payload `params`, written at
    /// `now`; `None` when the payload lacks a tool name, arguments or a
    /// result, and then nothing is written.
    pub fn next_log(existing: Option<Vec<ToolResultLog>>, params: &Params, now: Timestamp) -> (r:
        Option<Vec<ToolResultLog>>)
        ensures
            r is Some <==> (lookup(params@, key_tool_name()) is Some && lookup(
                params@,
                key_args(),
            ) is Some && lookup(params@, key_result()) is Some),
            r matches Some(v) ==> {
                &&& v@.len() == loaded(existing).len() + 1
                &&& v@.subrange(0, v@.len() - 1) == loaded(existing)
                &&& Some(v@.last().name@) == lookup(params@, key_tool_name())
                &&& Some(v@.last().args@) == lookup(params@, key_args())
                &&& Some(v@.last().result@) == lookup(params@, key_result())
                &&& v@.last().timestamp == now
            },
    {
        let ghost before = loaded(existing);
        let name = params.get(tool_name_key());
        let args = params.get(args_key());
        let result = params.get(result_key());
        match (name, args, result) {
            (Some(name), Some(args), Some(result)) => {
                let mut logs = match existing {
                    Some(v) => v,
                    None => Vec::new(),
                };
                logs.push(ToolResultLog::new(name, args, result, now));
                assert(logs@.subrange(0, logs@.len() - 1) =~= before);
                Some(logs)
            },
            _ => None,
        }
    }
}

} // verus!
