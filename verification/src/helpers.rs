//! Small helpers shared by the Subscription providers: capitalising a name,
//! reading a configuration value, and the diagnostics of a keychain lookup.

use vstd::prelude::*;
use crate::issue::{SubscriptionIssue, SubscriptionIssueCode};
use crate::strings::{chars_of, owned, push_all, push_char, string_from_range};

verus! {

broadcast use vstd::string::group_string_axioms;

/// What `char::to_uppercase` yields for a character.
pub uninterp spec fn uppercase_of(ch: char) -> Seq<char>;

/// `char::to_uppercase`, collected. For `a` to `z` std yields the one
/// matching capital letter; other characters' mappings (some expand to
/// several characters) are Unicode's and left unsaid.
#[verifier::external_body]
fn char_to_uppercase(ch: char) -> (r: String)
    ensures
        r@ == uppercase_of(ch),
        'a' <= ch <= 'z' ==> r@ == seq![((ch as u32) - 32) as char],
{
    ch.to_uppercase().collect()
}

/// A white-space character in Unicode's sense (`char::is_whitespace`).
pub open spec fn is_white_space(ch: char) -> bool {
    ('\u{9}' <= ch && ch <= '\u{d}') || ch == ' ' || ch == '\u{85}' || ch == '\u{a0}'
        || ch == '\u{1680}' || ('\u{2000}' <= ch && ch <= '\u{200a}') || ch == '\u{2028}'
        || ch == '\u{2029}' || ch == '\u{202f}' || ch == '\u{205f}' || ch == '\u{3000}'
}

/// `text` without its leading white space.
pub open spec fn trim_start_spec(text: Seq<char>) -> Seq<char>
    decreases text.len(),
{
    if text.len() > 0 && is_white_space(text[0]) {
        trim_start_spec(text.drop_first())
    } else {
        text
    }
}

/// Trimming the start twice trims nothing more.
pub proof fn lemma_trim_start_idempotent(text: Seq<char>)
    ensures
        trim_start_spec(trim_start_spec(text)) == trim_start_spec(text),
        trim_start_spec(text).len() > 0 ==> !is_white_space(trim_start_spec(text)[0]),
    decreases text.len(),
{
    if text.len() > 0 && is_white_space(text[0]) {
        lemma_trim_start_idempotent(text.drop_first());
    }
}

/// `text` without its trailing white space.
pub open spec fn trim_end_spec(text: Seq<char>) -> Seq<char>
    decreases text.len(),
{
    if text.len() > 0 && is_white_space(text.last()) {
        trim_end_spec(text.drop_last())
    } else {
        text
    }
}

/// `str::trim`: leading and trailing white space removed.
#[verifier::external_body]
pub(crate) fn str_trim(text: &str) -> (r: &str)
    ensures
        r@ == trim_end_spec(trim_start_spec(text@)),
{
    text.trim()
}

/// `str::trim_start`: leading white space removed.
#[verifier::external_body]
pub(crate) fn str_trim_start(text: &str) -> (r: &str)
    ensures
        r@ == trim_start_spec(text@),
{
    text.trim_start()
}

/// `str::trim_end`: trailing white space removed.
#[verifier::external_body]
fn str_trim_end(text: &str) -> (r: &str)
    ensures
        r@ == trim_end_spec(text@),
{
    text.trim_end()
}

/// `ch` upper-cased: `a` to `z` become the matching capital letter; other
/// characters follow Unicode's mappings.
pub open spec fn uppercased(ch: char) -> Seq<char> {
    if 'a' <= ch && ch <= 'z' {
        seq![((ch as u32) - 32) as char]
    } else {
        uppercase_of(ch)
    }
}

/// `s` with its first character upper-cased.
pub open spec fn capitalized(s: Seq<char>) -> Seq<char> {
    if s.len() == 0 {
        s
    } else {
        uppercased(s[0]) + s.drop_first()
    }
}

/// Upper-cases the first character of `s`, keeping the rest.
pub fn capitalize(s: &str) -> (r: String)
    ensures
        r@ == capitalized(s@),
{
    let chars = chars_of(s);
    if chars.len() == 0 {
        return owned(s);
    }
    let mut out = char_to_uppercase(chars[0]);
    let rest = string_from_range(&chars, 1, chars.len());
    assert(chars@.subrange(1, chars@.len() as int) =~= s@.drop_first());
    push_all(&mut out, rest.as_str());
    out
}

/// A configuration value as read from the environment: trimmed, and absent
/// when nothing but white space is left.
pub fn env_value(raw: &str) -> (r: Option<String>)
    ensures
        match r {
            Some(v) => v@ == trim_end_spec(trim_start_spec(raw@)) && v@.len() > 0,
            None => trim_end_spec(trim_start_spec(raw@)).len() == 0,
        },
{
    let trimmed = str_trim(raw);
    if trimmed.is_empty() {
        None
    } else {
        Some(owned(trimmed))
    }
}

/// The secret a successful keychain lookup printed, without the trailing
/// newline and other white space.
pub fn keychain_secret(stdout: &str) -> (r: String)
    ensures
        r@ == trim_end_spec(stdout@),
{
    owned(str_trim_end(stdout))
}

/// The diagnostic for a keychain lookup on a system without one.
pub fn keychain_unavailable_issue() -> (r: SubscriptionIssue)
    ensures
        r.spec_code() == SubscriptionIssueCode::KeychainMacOnly,
        r.spec_message() == "Keychain lookup is only available on macOS"@,
        r.spec_fields() == Seq::<(Seq<char>, Seq<char>)>::empty(),
{
    SubscriptionIssue::new(SubscriptionIssueCode::KeychainMacOnly, "Keychain lookup is only available on macOS")
}

/// The message of a failed keychain lookup for `service`.
pub open spec fn lookup_failed_message(service: Seq<char>) -> Seq<char> {
    "Keychain lookup failed for service '"@ + service + seq!['\'']
}

/// The diagnostic for a keychain lookup of `service` that failed; the
/// service is recorded as a field for presentation.
pub fn keychain_lookup_failed_issue(service: &str) -> (r: SubscriptionIssue)
    ensures
        r.spec_code() == SubscriptionIssueCode::KeychainLookupFailed,
        r.spec_message() == lookup_failed_message(service@),
        r.spec_fields() == seq![("service"@, service@)],
{
    let mut message = owned("Keychain lookup failed for service '");
    push_all(&mut message, service);
    push_char(&mut message, '\'');
    let issue = SubscriptionIssue::new(SubscriptionIssueCode::KeychainLookupFailed, message.as_str());
    let r = issue.with_field("service", service);
    assert(r.spec_fields() =~= seq![("service"@, service@)]);
    r
}

} // verus!
