//! Decoding of the string replies of the native accessibility layer.
//!
//! The native layer answers every request with one string. A failure is the
//! message behind the tag `error:`; a successful file dump is the written path
//! behind the tag `ok:`; a successful tree request is the JSON text itself.

use vstd::prelude::*;
use vstd::string::*;
use crate::text::{has_prefix, starts_with, suffix_from};

verus! {

/// The tag in front of a failure message.
pub open spec fn error_tag() -> Seq<char> {
    seq!['e', 'r', 'r', 'o', 'r', ':']
}

/// The tag in front of the path of a successful dump.
pub open spec fn ok_tag() -> Seq<char> {
    seq!['o', 'k', ':']
}

/// A `Result` of strings taken by the views of its payloads.
pub open spec fn result_view(r: Result<String, String>) -> Result<Seq<char>, Seq<char>> {
    match r {
        Ok(s) => Ok(s@),
        Err(e) => Err(e@),
    }
}

/// What a reply to a tree request means: the message behind `error:`, or the
/// JSON text unchanged.
pub open spec fn decoded_tree_reply(reply: Seq<char>) -> Result<Seq<char>, Seq<char>> {
    if has_prefix(reply, error_tag()) {
        Err(reply.skip(error_tag().len() as int))
    } else {
        Ok(reply)
    }
}

/// What a reply to a dump request means: the message behind `error:`, the
/// path behind `ok:`, or any other reply unchanged as the path.
pub open spec fn decoded_dump_reply(reply: Seq<char>) -> Result<Seq<char>, Seq<char>> {
    if has_prefix(reply, error_tag()) {
        Err(reply.skip(error_tag().len() as int))
    } else if has_prefix(reply, ok_tag()) {
        Ok(reply.skip(ok_tag().len() as int))
    } else {
        Ok(reply)
    }
}

fn is_error_reply(reply: &str) -> (b: bool)
    ensures
        b == has_prefix(reply@, error_tag()),
{
    let tag = "error:";
    proof {
        reveal_strlit("error:");
        assert(tag@ =~= error_tag());
    }
    starts_with(reply, tag)
}

fn is_ok_reply(reply: &str) -> (b: bool)
    ensures
        b == has_prefix(reply@, ok_tag()),
{
    let tag = "ok:";
    proof {
        reveal_strlit("ok:");
        assert(tag@ =~= ok_tag());
    }
    starts_with(reply, tag)
}

/// Interprets the reply of the native layer to a request for the
/// accessibility tree as JSON: `Err` with the message when the reply starts
/// with `error:`, otherwise `Ok` with the JSON text as it came.
pub fn get_tree_json(reply: String) -> (r: Result<String, String>)
    ensures
        result_view(r) == decoded_tree_reply(reply@),
{
    if is_error_reply(reply.as_str()) {
        Err(suffix_from(reply.as_str(), 6))
    } else {
        Ok(reply)
    }
}

/// Interprets the reply of the native layer to a request to dump the tree to
/// a file: `Err` with the message behind `error:`, `Ok` with the path behind
/// `ok:`, and `Ok` with the whole reply otherwise.
pub fn dump_to_file(reply: String) -> (r: Result<String, String>)
    ensures
        result_view(r) == decoded_dump_reply(reply@),
{
    if is_error_reply(reply.as_str()) {
        Err(suffix_from(reply.as_str(), 6))
    } else if is_ok_reply(reply.as_str()) {
        Ok(suffix_from(reply.as_str(), 3))
    } else {
        Ok(reply)
    }
}

/// A failure message sent behind the error tag comes back out of both
/// decoders exactly as it was sent.
pub proof fn lemma_error_message_round_trip(message: Seq<char>)
    ensures
        decoded_tree_reply(error_tag() + message) == Err::<Seq<char>, Seq<char>>(message),
        decoded_dump_reply(error_tag() + message) == Err::<Seq<char>, Seq<char>>(message),
{
    let reply = error_tag() + message;
    assert(reply.subrange(0, 6) =~= error_tag());
    assert(reply.skip(6) =~= message);
}

/// A path sent behind the success tag comes back out of the dump decoder
/// exactly as it was sent.
pub proof fn lemma_dump_path_round_trip(path: Seq<char>)
    ensures
        decoded_dump_reply(ok_tag() + path) == Ok::<Seq<char>, Seq<char>>(path),
{
    let reply = ok_tag() + path;
    assert(reply.subrange(0, 3) =~= ok_tag());
    assert(reply.skip(3) =~= path);
    if has_prefix(reply, error_tag()) {
        assert(reply[1] == error_tag()[1]);
    }
}

/// Both decoders fail on exactly the replies that begin with the error tag,
/// and a tree reply that does not fail is handed on unchanged.
pub proof fn lemma_failure_exactly_on_error_tag(reply: Seq<char>)
    ensures
        decoded_tree_reply(reply) is Err <==> has_prefix(reply, error_tag()),
        decoded_dump_reply(reply) is Err <==> has_prefix(reply, error_tag()),
        !has_prefix(reply, error_tag()) ==> decoded_tree_reply(reply) == Ok::<Seq<char>, Seq<char>>(reply),
{
}

} // verus!
