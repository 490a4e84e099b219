//! The choices the accessibility commands make around the native calls.

use vstd::prelude::*;
use vstd::string::*;
use crate::text::has_prefix;

verus! {

/// The path the caller asked to dump to: a given, non-empty path is used as
/// it is; an absent or empty one means the default path.
pub open spec fn spec_requested_dump_path(path: Option<String>) -> Option<String> {
    match path {
        Some(p) => if p@.len() > 0 {
            Some(p)
        } else {
            None
        },
        None => None,
    }
}

/// Picks the dump path the caller gave, or `None` when the default path is to
/// be used.
pub fn requested_dump_path(path: Option<String>) -> (r: Option<String>)
    ensures
        r == spec_requested_dump_path(path),
        path matches Some(p) && p@.len() > 0 ==> r == path,
        r is None <==> (path is None || path->0@.len() == 0),
{
    match path {
        Some(p) => if p.as_str().is_empty() {
            None
        } else {
            Some(p)
        },
        None => None,
    }
}

/// The name of the file that dumps go to by default.
pub open spec fn dump_file_name() -> Seq<char> {
    "frontmost_ax_ui.xml"@
}

/// The file `dump_file_name()` inside the directory `dir`: a separator is put
/// between them unless `dir` is empty or already ends with one.
pub open spec fn spec_dump_path_in(dir: Seq<char>) -> Seq<char> {
    if dir.len() == 0 || dir.last() == '/' {
        dir + dump_file_name()
    } else {
        dir + seq!['/'] + dump_file_name()
    }
}

/// The default dump path inside the documents directory `dir`.
pub fn dump_path_in(dir: &str) -> (r: String)
    ensures
        r@ == spec_dump_path_in(dir@),
        has_prefix(r@, dir@),
        r@.skip(r@.len() - "frontmost_ax_ui.xml"@.len()) == "frontmost_ax_ui.xml"@,
        dir@.len() > 0 && dir@.last() != '/' ==> r@[dir@.len() as int] == '/' && r@.len()
            == dir@.len() + 1 + "frontmost_ax_ui.xml"@.len(),
        dir@.len() == 0 || dir@.last() == '/' ==> r@.len() == dir@.len()
            + "frontmost_ax_ui.xml"@.len(),
{
    let n = dir.unicode_len();
    let mut s = String::from_str(dir);
    if n > 0 && dir.get_char(n - 1) != '/' {
        s.append("/");
        proof {
            reveal_strlit("/");
        }
    }
    s.append("frontmost_ax_ui.xml");
    proof {
        lemma_dump_path_in_directory(dir@);
        assert(s@ == spec_dump_path_in(dir@));
        assert(has_prefix(s@, dir@));
    }
    s
}

/// The default dump path lies in the given directory: it is the directory's
/// own text, then exactly one separator unless the directory is empty or
/// already ends with one, then the dump file's name.
pub proof fn lemma_dump_path_in_directory(dir: Seq<char>)
    ensures
        ({
            let p = spec_dump_path_in(dir);
            let name = "frontmost_ax_ui.xml"@;
            &&& has_prefix(p, dir)
            &&& p.skip(p.len() - name.len()) == name
            &&& (dir.len() > 0 && dir.last() != '/' ==> p[dir.len() as int] == '/' && p.len()
                == dir.len() + 1 + name.len())
            &&& (dir.len() == 0 || dir.last() == '/' ==> p.len() == dir.len() + name.len())
        }),
{
    let p = spec_dump_path_in(dir);
    let name = "frontmost_ax_ui.xml"@;
    assert(p.subrange(0, dir.len() as int) =~= dir);
    assert(p.skip(p.len() - name.len()) =~= name);
}

/// A dump path the caller gives is used whenever it is not empty, and the
/// default is used only for an absent or empty path.
pub proof fn lemma_given_dump_path_used(path: Option<String>)
    ensures
        path matches Some(p) && p@.len() > 0 ==> spec_requested_dump_path(path) == path,
        spec_requested_dump_path(path) is None <==> (path is None || path->0@.len() == 0),
{
}

/// The answer when the process lacks the accessibility permission.
pub open spec fn permission_required_message() -> Seq<char> {
    "Accessibility permission required. Enable in System Settings → Privacy & Security → Accessibility."@
}

/// Monitoring may start only with the accessibility permission: `Ok` when the
/// process is trusted, the permission message otherwise.
pub fn check_monitor_permission(trusted: bool) -> (r: Result<(), String>)
    ensures
        trusted <==> r is Ok,
        r matches Err(m) ==> m@ == permission_required_message(),
{
    if trusted {
        Ok(())
    } else {
        Err(
            String::from_str(
                "Accessibility permission required. Enable in System Settings → Privacy & Security → Accessibility.",
            ),
        )
    }
}

/// The lead of the message when the tree JSON does not parse.
pub open spec fn parse_failure_lead() -> Seq<char> {
    "Failed to parse AX tree JSON: "@
}

/// The message for a tree JSON that did not parse, with the parser's own
/// description of the fault after the lead.
pub fn tree_parse_error(detail: &str) -> (r: String)
    ensures
        r@ == parse_failure_lead() + detail@,
{
    let mut s = String::from_str("Failed to parse AX tree JSON: ");
    s.append(detail);
    s
}

} // verus!
