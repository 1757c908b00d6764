//! Decisions around the two external programs: the search arguments, whether
//! to start at all, and what the selector's answer means.
use vstd::prelude::*;
use vstd::utf8::{decode_utf8, valid_utf8};
use crate::config::Settings;

verus! {

/// The program that lists entries.
pub const SEARCH_PROGRAM: &'static str = "fd";

/// The interactive program that picks one of them.
pub const SELECTOR_PROGRAM: &'static str = "fzf";

/// The search program's flag for hidden entries.
pub open spec fn hidden_flag(hidden: bool) -> Seq<char> {
    if hidden {
        "--hidden"@
    } else {
        "--no-hidden"@
    }
}

/// Arguments of the search program: every entry under the root, of the
/// chosen type, down to the chosen depth, hidden ones as chosen.
pub open spec fn search_args_for(s: Settings) -> Seq<Seq<char>> {
    seq![
        "."@,
        "--type"@,
        s.fd_type@,
        "--max-depth"@,
        s.depth@,
        hidden_flag(s.hidden),
        s.root@,
    ]
}

/// A sequence of strings, as sequences of chars.
pub open spec fn strings_view(v: Seq<String>) -> Seq<Seq<char>> {
    v.map_values(|a: String| a@)
}

/// The diagnostic for a root path that does not exist.
pub open spec fn missing_root_message(root: Seq<char>) -> Seq<char> {
    "The directory does not exist: "@ + root
}

/// The diagnostic for a selection that was cancelled.
pub open spec fn cancel_message(status: Seq<char>) -> Seq<char> {
    "The command failed: "@ + status
}

/// The arguments handed to the search program.
pub fn search_args(s: &Settings) -> (r: Vec<String>)
    ensures
        strings_view(r@) == search_args_for(*s),
{
    let mut r: Vec<String> = Vec::new();
    r.push(String::from_str("."));
    r.push(String::from_str("--type"));
    r.push(s.fd_type.clone());
    r.push(String::from_str("--max-depth"));
    r.push(s.depth.clone());
    if s.hidden {
        r.push(String::from_str("--hidden"));
    } else {
        r.push(String::from_str("--no-hidden"));
    }
    r.push(s.root.clone());
    assert(strings_view(r@) =~= search_args_for(*s));
    r
}

/// How a run begins.
pub enum Start {
    /// The root path does not exist: report this and start nothing.
    MissingRoot(String),
    /// Start the search program with these arguments, piped into the selector.
    Run(Vec<String>),
}

/// Decides how a run begins, given whether the root path exists.
pub fn start(s: &Settings, root_exists: bool) -> (r: Start)
    ensures
        match r {
            Start::MissingRoot(m) => !root_exists && m@ == missing_root_message(s.root@),
            Start::Run(args) => root_exists && strings_view(args@) == search_args_for(*s),
        },
{
    if root_exists {
        Start::Run(search_args(s))
    } else {
        let m = String::from_str("The directory does not exist: ").concat(s.root.as_str());
        Start::MissingRoot(m)
    }
}

/// What the selector's answer amounts to.
pub enum Selection {
    /// The user picked this text; it goes to the output as it is.
    Chosen(String),
    /// The user cancelled: nothing is printed.
    Cancelled,
    /// The selector printed bytes that are not UTF-8.
    Undecodable,
}

/// Relies on String::from_utf8: it fails exactly on bytes that are not
/// UTF-8, and otherwise holds the characters they encode.
#[verifier::external_body]
fn utf8_to_string(bytes: Vec<u8>) -> (r: Option<String>)
    ensures
        r is Some <==> valid_utf8(bytes@),
        r matches Some(s) ==> s@ == decode_utf8(bytes@),
{
    String::from_utf8(bytes).ok()
}

/// Interprets the selector's exit and the bytes it wrote.
pub fn selection(success: bool, output: Vec<u8>) -> (r: Selection)
    ensures
        !success ==> r is Cancelled,
        success && !valid_utf8(output@) ==> r is Undecodable,
        success && valid_utf8(output@) ==> (r matches Selection::Chosen(t) && t@ == decode_utf8(
            output@,
        )),
{
    if !success {
        return Selection::Cancelled;
    }
    match utf8_to_string(output) {
        Some(t) => Selection::Chosen(t),
        None => Selection::Undecodable,
    }
}

/// The diagnostic for a cancelled selection: none when cancelling is quiet,
/// otherwise one that names the selector's exit status.
pub fn cancel_notice(quiet_cancel: bool, status: &str) -> (r: Option<String>)
    ensures
        quiet_cancel ==> r is None,
        !quiet_cancel ==> (r matches Some(m) && m@ == cancel_message(status@)),
{
    if quiet_cancel {
        None
    } else {
        Some(String::from_str("The command failed: ").concat(status))
    }
}

} // verus!
