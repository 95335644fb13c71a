//! Pricing lookup presentation: how a pricing source is named.

use vstd::prelude::*;
use crate::order::{id_views, is_permutation, sorted_by_id, sorted_positions};
use crate::strings::{owned, str_eq};

verus! {

/// What `str::to_lowercase` yields for a string.
pub uninterp spec fn lowercase_of(s: Seq<char>) -> Seq<char>;

/// Every character of `s` is ASCII.
pub open spec fn is_ascii_text(s: Seq<char>) -> bool {
    forall|i: int| 0 <= i < s.len() ==> #[trigger] s[i] <= '\u{7f}'
}

/// `ch` with an ASCII capital letter made small.
pub open spec fn ascii_lower(ch: char) -> char {
    if 'A' <= ch && ch <= 'Z' {
        ((ch as u32) + 32) as char
    } else {
        ch
    }
}

/// `s` with each ASCII capital letter made small.
pub open spec fn ascii_lowercase(s: Seq<char>) -> Seq<char> {
    s.map_values(|ch: char| ascii_lower(ch))
}

/// `s` lower-cased: letter by letter for ASCII text, by Unicode's case
/// mappings otherwise.
pub open spec fn lowercased(s: Seq<char>) -> Seq<char> {
    if is_ascii_text(s) {
        ascii_lowercase(s)
    } else {
        lowercase_of(s)
    }
}

/// `str::to_lowercase`. On ASCII text std maps `A` to `Z` onto `a` to `z`
/// and keeps every other character; other characters' mappings are
/// Unicode's and left unsaid.
#[verifier::external_body]
fn str_to_lowercase(s: &str) -> (r: String)
    ensures
        r@ == lowercase_of(s@),
        is_ascii_text(s@) ==> r@ == ascii_lowercase(s@),
{
    s.to_lowercase()
}

/// A pricing source filter as matched: lower-cased.
pub fn normalize_pricing_source(source: &str) -> (r: String)
    ensures
        r@ == lowercased(source@),
{
    str_to_lowercase(source)
}

/// How a pricing source is named in the lookup report.
#[derive(Debug, PartialEq, Eq)]
pub enum PricingSourceLabel {
    /// The user's own overrides, named through this catalog entry.
    Custom(&'static str),
    /// A public catalogue, under its proper name.
    Named(&'static str),
    /// Any other source, as recorded.
    Verbatim(String),
}

/// The name of `source`, matched without regard to case.
pub open spec fn source_label(source: Seq<char>) -> (u8, Seq<char>) {
    let lower = lowercased(source);
    if lower == "custom"@ {
        (0, "commands.pricing.source_custom"@)
    } else if lower == "litellm"@ {
        (1, "LiteLLM"@)
    } else if lower == "openrouter"@ {
        (1, "OpenRouter"@)
    } else if lower == "models.dev"@ {
        (1, "Models.dev"@)
    } else {
        (2, source)
    }
}

/// Names a pricing source for the lookup report.
pub fn pricing_source_label(source: &str) -> (r: PricingSourceLabel)
    ensures
        match r {
            PricingSourceLabel::Custom(k) => source_label(source@) == (0u8, k@),
            PricingSourceLabel::Named(n) => source_label(source@) == (1u8, n@),
            PricingSourceLabel::Verbatim(v) => source_label(source@) == (2u8, v@),
        },
{
    let lower = str_to_lowercase(source);
    if str_eq(lower.as_str(), "custom") {
        PricingSourceLabel::Custom("commands.pricing.source_custom")
    } else if str_eq(lower.as_str(), "litellm") {
        PricingSourceLabel::Named("LiteLLM")
    } else if str_eq(lower.as_str(), "openrouter") {
        PricingSourceLabel::Named("OpenRouter")
    } else if str_eq(lower.as_str(), "models.dev") {
        PricingSourceLabel::Named("Models.dev")
    } else {
        PricingSourceLabel::Verbatim(owned(source))
    }
}

/// The order in which the pricing overrides are listed: by model id, a
/// stable sort of the positions of `model_ids`.
pub fn override_order(model_ids: &Vec<String>) -> (r: Vec<usize>)
    ensures
        is_permutation(r@, model_ids@.len() as int),
        sorted_by_id(id_views(model_ids@), r@),
{
    sorted_positions(model_ids)
}

} // verus!
