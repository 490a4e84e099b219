//! The script that hands the tooltip text to the tooltip page.

use vstd::prelude::*;
use vstd::string::*;

verus! {

/// The lowercase hexadecimal digits.
pub open spec fn hex_digits() -> Seq<char> {
    seq!['0', '1', '2', '3', '4', '5', '6', '7', '8', '9', 'a', 'b', 'c', 'd', 'e', 'f']
}

/// How one character stands inside a JSON string as `serde_json` writes it:
/// `"` and `\` behind a backslash; backspace, tab, line feed, form feed and
/// carriage return as `\b \t \n \f \r`; the other characters below 0x20
/// as `\u00` and two lowercase hexadecimal digits; every other character
/// as it is.
pub open spec fn json_escape_char(c: char) -> Seq<char> {
    if c == '"' {
        seq!['\\', '"']
    } else if c == '\\' {
        seq!['\\', '\\']
    } else if c == '\u{8}' {
        seq!['\\', 'b']
    } else if c == '\t' {
        seq!['\\', 't']
    } else if c == '\n' {
        seq!['\\', 'n']
    } else if c == '\u{c}' {
        seq!['\\', 'f']
    } else if c == '\r' {
        seq!['\\', 'r']
    } else if (c as int) < 0x20 {
        seq!['\\', 'u', '0', '0', hex_digits()[(c as int) / 16], hex_digits()[(c as int) % 16]]
    } else {
        seq![c]
    }
}

/// The escaped characters of `s`, one after another.
pub open spec fn json_escaped_contents(s: Seq<char>) -> Seq<char>
    decreases s.len(),
{
    if s.len() == 0 {
        Seq::empty()
    } else {
        json_escaped_contents(s.drop_last()) + json_escape_char(s.last())
    }
}

/// The JSON text of a JSON string whose content is `s`: the escaped
/// characters between a pair of double quotes.
pub open spec fn json_string_literal(s: Seq<char>) -> Seq<char> {
    seq!['"'] + json_escaped_contents(s) + seq!['"']
}

/// Calls `Display` of `serde_json::Value` on `Value::String` of `s`, which
/// writes `s` as a JSON string (serde_json's `format_escaped_str` with its
/// escape table). Claimed: the result is `json_string_literal(s@)`.
#[verifier::external_body]
fn json_quote(s: &str) -> (r: String)
    ensures
        r@ == json_string_literal(s@),
{
    serde_json::Value::String(s.to_string()).to_string()
}

/// The text of an optional string, empty when there is none.
pub open spec fn text_or_empty(o: Option<String>) -> Seq<char> {
    match o {
        Some(s) => s@,
        None => Seq::empty(),
    }
}

/// The JSON object handed to the tooltip page, built from the JSON string
/// texts of its three values, with the keys in the order in which
/// `serde_json` writes an object's keys by default.
pub open spec fn payload_from_quoted(
    title_json: Seq<char>,
    description_json: Seq<char>,
    placement_json: Seq<char>,
) -> Seq<char> {
    "{\"description\":"@ + description_json + ",\"placement\":"@ + placement_json + ",\"title\":"@
        + title_json + "}"@
}

/// The JSON object handed to the tooltip page for the given texts.
pub open spec fn tooltip_payload(title: Seq<char>, description: Seq<char>, placement: Seq<char>) -> Seq<
    char,
> {
    payload_from_quoted(
        json_string_literal(title),
        json_string_literal(description),
        json_string_literal(placement),
    )
}

/// The script that applies a payload, guarded for a page whose script has
/// not run yet.
pub open spec fn apply_script(payload: Seq<char>) -> Seq<char> {
    "if (window.__applyTooltip) { window.__applyTooltip("@ + payload + "); }"@
}

fn text_of(o: &Option<String>) -> (s: &str)
    ensures
        s@ == text_or_empty(*o),
{
    match o {
        Some(t) => t.as_str(),
        None => {
            proof {
                reveal_strlit("");
            }
            ""
        },
    }
}

/// Builds the tooltip script from the JSON string texts of the title, the
/// description and the placement name.
pub fn tooltip_script_from_quoted(title_json: &str, description_json: &str, placement_json: &str) -> (r:
    String)
    ensures
        r@ == apply_script(payload_from_quoted(title_json@, description_json@, placement_json@)),
{
    let mut s = String::from_str("if (window.__applyTooltip) { window.__applyTooltip(");
    s.append("{\"description\":");
    s.append(description_json);
    s.append(",\"placement\":");
    s.append(placement_json);
    s.append(",\"title\":");
    s.append(title_json);
    s.append("}");
    s.append("); }");
    s
}

/// Builds the script that shows `title`, `description` (each empty when
/// absent) and the name of the placement in the tooltip page.
pub fn tooltip_script(title: &Option<String>, description: &Option<String>, placement: &str) -> (r:
    String)
    ensures
        r@ == apply_script(
            tooltip_payload(text_or_empty(*title), text_or_empty(*description), placement@),
        ),
        r@ == "if (window.__applyTooltip) { window.__applyTooltip("@ + "{\"description\":"@
            + json_string_literal(text_or_empty(*description)) + ",\"placement\":"@
            + json_string_literal(placement@) + ",\"title\":"@ + json_string_literal(
            text_or_empty(*title),
        ) + "}"@ + "); }"@,
{
    let t = json_quote(text_of(title));
    let d = json_quote(text_of(description));
    let p = json_quote(placement);
    let r = tooltip_script_from_quoted(t.as_str(), d.as_str(), p.as_str());
    proof {
        lemma_tooltip_payload_fields(text_or_empty(*title), text_or_empty(*description), placement@);
    }
    r
}

/// The payload carries each text under its own key, quoted on its own: the
/// description's JSON string after `"description":`, the placement's after
/// `"placement":`, the title's after `"title":`, none depending on the
/// others.
pub proof fn lemma_tooltip_payload_fields(title: Seq<char>, description: Seq<char>, placement: Seq<
    char,
>)
    ensures
        tooltip_payload(title, description, placement) == "{\"description\":"@
            + json_string_literal(description) + ",\"placement\":"@ + json_string_literal(
            placement,
        ) + ",\"title\":"@ + json_string_literal(title) + "}"@,
        apply_script(tooltip_payload(title, description, placement))
            == "if (window.__applyTooltip) { window.__applyTooltip("@ + "{\"description\":"@
            + json_string_literal(description) + ",\"placement\":"@ + json_string_literal(
            placement,
        ) + ",\"title\":"@ + json_string_literal(title) + "}"@ + "); }"@,
{
}

} // verus!

verus! {

proof fn lemma_plain_contents(s: Seq<char>)
    requires
        forall|i: int|
            0 <= i < s.len() ==> (s[i] as int) >= 0x20 && s[i] != '"' && s[i] != '\\',
    ensures
        json_escaped_contents(s) == s,
    decreases s.len(),
{
    if s.len() > 0 {
        let init = s.drop_last();
        assert forall|i: int| 0 <= i < init.len() implies (init[i] as int) >= 0x20 && init[i]
            != '"' && init[i] != '\\' by {
            assert(init[i] == s[i]);
        }
        lemma_plain_contents(init);
        let c = s[s.len() - 1];
        assert(json_escape_char(c) == seq![c]);
        assert(json_escaped_contents(s) =~= s);
    } else {
        assert(json_escaped_contents(s) =~= s);
    }
}

/// Quoting leaves a string without quotes, backslashes or control
/// characters unchanged between its pair of double quotes.
pub proof fn lemma_plain_text_quoted_verbatim(s: Seq<char>)
    requires
        forall|i: int|
            0 <= i < s.len() ==> (s[i] as int) >= 0x20 && s[i] != '"' && s[i] != '\\',
    ensures
        json_string_literal(s) == seq!['"'] + s + seq!['"'],
{
    lemma_plain_contents(s);
}

} // verus!
