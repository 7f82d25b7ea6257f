//! Reading the payload out of the portal's callback-wrapped replies.
//!
//! The portal wraps its JSON as `callback(...)`. A template such as
//! `ctbox\({}\)` names the wrapper, with `{}` where the payload stands; the
//! template is split at `{}` and the two halves frame a lazy capture of the
//! payload.
use vstd::prelude::*;
use crate::text::text_of;

verus! {

/// What the regular expression `pattern`, run on `haystack`, captures in
/// the group called `group` at its first match. `None` when the pattern
/// does not compile, nothing matches, or the group takes no part in the match.
pub uninterp spec fn regex_capture(pattern: Seq<char>, haystack: Seq<char>, group: Seq<char>) -> Option<Seq<char>>;

/// Runs `pattern` over `haystack` and returns the text of the named group.
///
/// Calls `regex::Regex::new` on the pattern (an invalid pattern gives
/// `None`), then `Regex::captures` on the haystack, `Captures::name` for the
/// group and `Match::as_str`. The contract only names the result: it is
/// whatever the `regex` crate computes for these three arguments.
#[verifier::external_body]
fn named_capture(pattern: &str, haystack: &str, group: &str) -> (r: Option<String>)
    ensures
        text_of(r) == regex_capture(pattern@, haystack@, group@),
{
    let re = regex::Regex::new(pattern).ok()?;
    let caps = re.captures(haystack)?;
    caps.name(group).map(|m| m.as_str().to_string())
}

/// The pattern that splits a template at its first `{}`.
pub open spec fn template_split() -> Seq<char> {
    r"^(?P<head>.*?)(?P<_>\{})(?P<tail>.*?)$"@
}

/// The part of `template` called `part` (`head` or `tail`).
pub open spec fn template_part(template: Seq<char>, part: Seq<char>) -> Option<Seq<char>> {
    regex_capture(template_split(), template, part)
}

/// The pattern that captures, as `content`, the shortest text between
/// `head` and `tail`.
pub open spec fn payload_pattern(head: Seq<char>, tail: Seq<char>) -> Seq<char> {
    "("@ + head + r")(?P<content>[\s\S]*?)("@ + tail + ")"@
}

/// The payload that `template` frames in `source`, if the template splits
/// and the framed text is found.
pub open spec fn callback_payload(source: Seq<char>, template: Seq<char>) -> Option<Seq<char>> {
    match (template_part(template, "head"@), template_part(template, "tail"@)) {
        (Some(head), Some(tail)) => regex_capture(
            payload_pattern(head, tail),
            source,
            "content"@,
        ),
        _ => None,
    }
}

/// The pattern that captures the payload framed by `template`.
fn generate_regex(template: &str) -> (r: String)
    requires
        template_part(template@, "head"@) is Some,
        template_part(template@, "tail"@) is Some,
    ensures
        r@ == payload_pattern(
            template_part(template@, "head"@).unwrap(),
            template_part(template@, "tail"@).unwrap(),
        ),
{
    let split = r"^(?P<head>.*?)(?P<_>\{})(?P<tail>.*?)$";
    let head = named_capture(split, template, "head");
    let tail = named_capture(split, template, "tail");
    let head = head.unwrap();
    let tail = tail.unwrap();
    let mut r = String::new();
    r.append("(");
    r.append(head.as_str());
    r.append(r")(?P<content>[\s\S]*?)(");
    r.append(tail.as_str());
    r.append(")");
    r
}

/// The payload that `template` frames in `source`.
pub fn fuck_cnu_api(source: &str, template: &str) -> (r: String)
    requires
        callback_payload(source@, template@) is Some,
    ensures
        r@ == callback_payload(source@, template@).unwrap(),
{
    let pattern = generate_regex(template);
    let content = named_capture(pattern.as_str(), source, "content");
    content.unwrap()
}

/// Whether `template` frames a payload in `source`.
pub fn has_payload(source: &str, template: &str) -> (b: bool)
    ensures
        b == (callback_payload(source@, template@) is Some),
{
    let split = r"^(?P<head>.*?)(?P<_>\{})(?P<tail>.*?)$";
    let head = named_capture(split, template, "head");
    let tail = named_capture(split, template, "tail");
    if head.is_none() || tail.is_none() {
        return false;
    }
    let pattern = generate_regex(template);
    named_capture(pattern.as_str(), source, "content").is_some()
}

/// The payload that `template` frames in `source`, or `None` where there is none.
pub fn extract_payload(source: &str, template: &str) -> (r: Option<String>)
    ensures
        text_of(r) == callback_payload(source@, template@),
        // The template is split at its first `{}` into a head and a tail; the
        // payload is the shortest run of any characters (`[\s\S]`) between them.
        text_of(r) == match (
            regex_capture(r"^(?P<head>.*?)(?P<_>\{})(?P<tail>.*?)$"@, template@, "head"@),
            regex_capture(r"^(?P<head>.*?)(?P<_>\{})(?P<tail>.*?)$"@, template@, "tail"@),
        ) {
            (Some(head), Some(tail)) => regex_capture(
                "("@ + head + r")(?P<content>[\s\S]*?)("@ + tail + ")"@,
                source@,
                "content"@,
            ),
            _ => None,
        },
{
    proof {
        law_payload_between_head_and_tail(source@, template@);
    }
    if has_payload(source, template) {
        Some(fuck_cnu_api(source, template))
    } else {
        None
    }
}

/// The payload of a reply is what the regular expression
/// `(<head>)(?P<content>[\s\S]*?)(<tail>)` captures as `content`, where head
/// and tail are the parts of the template before and after its first `{}`:
/// the shortest run of characters of any kind, line breaks and non-ASCII
/// included, between the head and the tail.
pub proof fn law_payload_between_head_and_tail(source: Seq<char>, template: Seq<char>)
    ensures
        callback_payload(source, template) == match (
            regex_capture(r"^(?P<head>.*?)(?P<_>\{})(?P<tail>.*?)$"@, template, "head"@),
            regex_capture(r"^(?P<head>.*?)(?P<_>\{})(?P<tail>.*?)$"@, template, "tail"@),
        ) {
            (Some(head), Some(tail)) => regex_capture(
                "("@ + head + r")(?P<content>[\s\S]*?)("@ + tail + ")"@,
                source,
                "content"@,
            ),
            _ => None,
        },
{
}

/// Whether a probe of the portal's entrance shows it reachable: the request
/// went through (`Some`) and was answered with status 200.
pub fn entrance_reachable(status: Option<u16>) -> (b: bool)
    ensures
        b == (status == Some(200u16)),
{
    match status {
        Some(s) => s == 200,
        None => false,
    }
}

} // verus!
