//! Terminal-cell-aware text measurement and fitting.
//!
//! Every measurement goes through the display width that `unicode-width`
//! assigns, so wide (CJK) and zero-width (combining) characters follow one
//! rule across the interface.

use vstd::prelude::*;
use unicode_width::UnicodeWidthChar;
use unicode_width::UnicodeWidthStr;
use crate::strings::{chars_of, push_all, push_char, push_spaces, spaces, string_from_chars};

verus! {

broadcast use vstd::string::group_string_axioms;

/// The display width `unicode-width` assigns to a whole string.
pub uninterp spec fn str_display_width(text: Seq<char>) -> usize;

/// The display width `unicode-width` assigns to one character
/// (`None` for control characters).
pub uninterp spec fn char_display_width(ch: char) -> Option<usize>;

/// A printable ASCII character (space through tilde).
pub open spec fn is_printable_ascii(ch: char) -> bool {
    ' ' <= ch && ch <= '~'
}

/// Every character of `text` is printable ASCII.
pub open spec fn all_printable_ascii(text: Seq<char>) -> bool {
    forall|i: int| 0 <= i < text.len() ==> is_printable_ascii(#[trigger] text[i])
}

/// The characters of `text` from `k` on are all spaces.
pub open spec fn spaces_from(text: Seq<char>, k: int) -> bool {
    forall|j: int| k <= j < text.len() ==> #[trigger] text[j] == ' '
}

/// The characters of `text` before `k` are all spaces.
pub open spec fn spaces_before(text: Seq<char>, k: int) -> bool {
    forall|j: int| 0 <= j < k ==> #[trigger] text[j] == ' '
}

/// `UnicodeWidthStr::width`: the string's display width. The crate's
/// source gives each printable ASCII character one cell with no context
/// effects, so a string of such characters is as wide as it is long. It
/// folds from the last character to the first, and a space is one cell
/// that never joins a sequence with its neighbours: spaces at either end
/// each add one cell to the width of the rest (where the sum fits, as the
/// fold wraps). Nothing more about other strings is claimed here.
#[verifier::external_body]
fn unicode_str_width(text: &str) -> (w: usize)
    ensures
        w == str_display_width(text@),
        all_printable_ascii(text@) ==> w == text@.len(),
        forall|k: int|
            0 <= k <= text@.len() && spaces_from(text@, k)
                && #[trigger] str_display_width(text@.take(k)) + (text@.len() - k) <= usize::MAX
                ==> w == str_display_width(text@.take(k)) + (text@.len() - k),
        forall|k: int|
            0 <= k <= text@.len() && spaces_before(text@, k)
                && #[trigger] str_display_width(text@.skip(k)) + k <= usize::MAX
                ==> w == str_display_width(text@.skip(k)) + k,
{
    UnicodeWidthStr::width(text)
}

/// `UnicodeWidthChar::width`: one character's display width. The crate's
/// source answers `Some(1)` for printable ASCII and `None` for the C0 and C1
/// control ranges; the table values of other characters are left unsaid.
#[verifier::external_body]
fn unicode_char_width(ch: char) -> (w: Option<usize>)
    ensures
        w == char_display_width(ch),
        is_printable_ascii(ch) ==> w == Some(1usize),
        (ch < ' ' || ('\u{7f}' <= ch && ch < '\u{a0}')) ==> w is None,
{
    UnicodeWidthChar::width(ch)
}

/// Cells taken by one character when measured on its own: control characters
/// take none.
pub open spec fn cell_width(ch: char) -> nat {
    match char_display_width(ch) {
        Some(w) => w as nat,
        None => 0,
    }
}

/// Sum of the per-character cell widths of `text`.
pub open spec fn cells(text: Seq<char>) -> nat
    decreases text.len(),
{
    if text.len() == 0 {
        0
    } else {
        cell_width(text[0]) + cells(text.drop_first())
    }
}

/// The longest prefix of `text` whose characters, added one by one, stay
/// within `budget` cells.
pub open spec fn fitting_prefix(text: Seq<char>, budget: int) -> Seq<char>
    decreases text.len(),
{
    if text.len() == 0 {
        text
    } else if cell_width(text[0]) > budget {
        Seq::empty()
    } else {
        seq![text[0]] + fitting_prefix(text.drop_first(), budget - cell_width(text[0]))
    }
}

/// What `truncate` yields: the text unchanged when it already fits, else its
/// longest fitting prefix.
pub open spec fn truncated(text: Seq<char>, max_width: int) -> Seq<char> {
    if str_display_width(text) <= max_width {
        text
    } else {
        fitting_prefix(text, max_width)
    }
}

/// What `truncate_with_suffix` yields.
pub open spec fn truncated_with_suffix(text: Seq<char>, max_width: int, suffix: Seq<char>) -> Seq<char> {
    if str_display_width(text) <= max_width {
        text
    } else if max_width == 0 {
        Seq::empty()
    } else if max_width <= str_display_width(suffix) {
        fitting_prefix(text, max_width)
    } else {
        fitting_prefix(text, max_width - str_display_width(suffix)) + suffix
    }
}

/// The number of padding cells needed to reach `target` (none when the text
/// is already as wide).
pub open spec fn padding_for(text: Seq<char>, target: int) -> nat {
    if target > str_display_width(text) {
        (target - str_display_width(text)) as nat
    } else {
        0
    }
}

/// The number of terminal cells occupied by `text`.
pub fn width(text: &str) -> (w: usize)
    ensures
        w == str_display_width(text@),
{
    unicode_str_width(text)
}

/// The terminal-cell width of one character; control characters count as
/// zero.
pub fn char_width(ch: char) -> (w: usize)
    ensures
        w == cell_width(ch),
{
    match unicode_char_width(ch) {
        Some(w) => w,
        None => 0,
    }
}

/// The width of `text`, saturated to `u16` for layout geometry.
pub fn width_u16(text: &str) -> (w: u16)
    ensures
        w as int == if str_display_width(text@) <= u16::MAX { str_display_width(text@) as int } else { u16::MAX as int },
{
    let w = width(text);
    if w <= 65535 {
        w as u16
    } else {
        65535u16
    }
}

/// One step of `fitting_prefix` at position `i`.
proof fn lemma_fitting_prefix_step(text: Seq<char>, i: int, budget: int)
    requires
        0 <= i < text.len(),
    ensures
        cell_width(text[i]) > budget ==> fitting_prefix(text.skip(i), budget) == Seq::<char>::empty(),
        cell_width(text[i]) <= budget ==> fitting_prefix(text.skip(i), budget)
            == seq![text[i]] + fitting_prefix(text.skip(i + 1), budget - cell_width(text[i])),
{
    let rest = text.skip(i);
    assert(rest.len() > 0);
    assert(rest[0] == text[i]);
    assert(rest.drop_first() =~= text.skip(i + 1));
}

/// Truncates without splitting a character so the result fits `max_width`.
pub fn truncate(text: &str, max_width: usize) -> (r: String)
    ensures
        r@ == truncated(text@, max_width as int),
{
    if width(text) <= max_width {
        return text.to_string();
    }
    let chars = chars_of(text);
    let mut used: usize = 0;
    let mut i: usize = 0;
    let ghost s = text@;
    assert(s.skip(0) =~= s);
    if chars.len() == 0 {
        assert(s.take(0) + Seq::<char>::empty() =~= s.take(0));
    }
    while i < chars.len()
        invariant
            chars@ == s,
            i <= s.len(),
            used <= max_width,
            fitting_prefix(s, max_width as int)
                == s.take(i as int) + fitting_prefix(s.skip(i as int), max_width - used),
        ensures
            i <= s.len(),
            chars@ == s,
            fitting_prefix(s, max_width as int) == s.take(i as int),
        decreases s.len() - i,
    {
        let w = char_width(chars[i]);
        proof {
            lemma_fitting_prefix_step(s, i as int, max_width - used);
        }
        if w > max_width - used {
            assert(fitting_prefix(s.skip(i as int), max_width - used) =~= Seq::<char>::empty());
            assert(s.take(i as int) + Seq::<char>::empty() =~= s.take(i as int));
            break;
        }
        used = used + w;
        assert(s.take(i as int + 1) =~= s.take(i as int) + seq![s[i as int]]);
        assert(s.take(i as int) + (seq![s[i as int]] + fitting_prefix(s.skip(i + 1), max_width - used))
            =~= s.take(i as int + 1) + fitting_prefix(s.skip(i + 1), max_width - used));
        i = i + 1;
        if i == chars.len() {
            assert(s.skip(i as int) =~= Seq::<char>::empty());
            assert(s.take(i as int) + Seq::<char>::empty() =~= s.take(i as int));
        }
    }
    let head = chars.as_slice();
    let mut out: Vec<char> = Vec::new();
    let mut k: usize = 0;
    while k < i
        invariant
            k <= i <= head@.len(),
            head@ == s,
            out@ == s.take(k as int),
        decreases i - k,
    {
        out.push(head[k]);
        k = k + 1;
        assert(s.take(k as int) =~= s.take(k as int - 1).push(s[k as int - 1]));
    }
    string_from_chars(out.as_slice())
}

/// Truncates to `max_width`, keeping one cell for an ellipsis when cutting.
pub fn truncate_with_ellipsis(text: &str, max_width: usize) -> (r: String)
    ensures
        r@ == truncated_with_suffix(text@, max_width as int, seq!['…']),
{
    let ellipsis = "…";
    proof {
        reveal_strlit("…");
    }
    assert(ellipsis@ =~= seq!['…']);
    truncate_with_suffix(text, max_width, ellipsis)
}

/// Truncates to `max_width`, appending `suffix` when cutting and the suffix
/// fits.
pub fn truncate_with_suffix(text: &str, max_width: usize, suffix: &str) -> (r: String)
    ensures
        r@ == truncated_with_suffix(text@, max_width as int, suffix@),
{
    if width(text) <= max_width {
        return text.to_string();
    }
    if max_width == 0 {
        return String::new();
    }
    let suffix_width = width(suffix);
    if max_width <= suffix_width {
        return truncate(text, max_width);
    }
    let mut fitted = truncate(text, max_width - suffix_width);
    push_all(&mut fitted, suffix);
    fitted
}

/// The width that padding to `target` reaches: `target`, or the text's own
/// width when that is already larger.
pub open spec fn padded_width(text: Seq<char>, target: int) -> int {
    if target > str_display_width(text) {
        target
    } else {
        str_display_width(text) as int
    }
}

/// Right-pads `text` with spaces to `target_width` cells, never truncating.
pub fn pad_right(text: &str, target_width: usize) -> (r: String)
    ensures
        r@ == text@ + spaces(padding_for(text@, target_width as int)),
        str_display_width(r@) == padded_width(text@, target_width as int),
{
    let w = width(text);
    let padding = if target_width > w { target_width - w } else { 0 };
    let mut out = text.to_string();
    push_spaces(&mut out, padding);
    // The padded text is measured again: the width contract relates it to
    // the width of `text`.
    let _ = unicode_str_width(out.as_str());
    proof {
        let k = text@.len() as int;
        assert(out@.take(k) =~= text@);
        assert(spaces_from(out@, k));
        assert(str_display_width(out@.take(k)) + (out@.len() - k) <= usize::MAX);
    }
    out
}

/// Left-pads `text` with spaces to `target_width` cells, never truncating.
pub fn pad_left(text: &str, target_width: usize) -> (r: String)
    ensures
        r@ == spaces(padding_for(text@, target_width as int)) + text@,
        str_display_width(r@) == padded_width(text@, target_width as int),
{
    let w = width(text);
    let padding = if target_width > w { target_width - w } else { 0 };
    let mut out = String::new();
    push_spaces(&mut out, padding);
    push_all(&mut out, text);
    assert(Seq::<char>::empty() + spaces(padding as nat) =~= spaces(padding as nat));
    // The padded text is measured again: the width contract relates it to
    // the width of `text`.
    let _ = unicode_str_width(out.as_str());
    proof {
        let k = padding as int;
        assert(out@.skip(k) =~= text@);
        assert(spaces_before(out@, k));
        assert(str_display_width(out@.skip(k)) + k <= usize::MAX);
    }
    out
}

/// Truncation keeps a prefix of the text: no character is changed, moved or
/// split, and when the text is cut, the characters kept take at most the
/// budget in cells while the first character dropped would not have fit.
pub proof fn law_truncation_keeps_a_fitting_prefix(text: Seq<char>, max_width: nat)
    ensures
        truncated(text, max_width as int).len() <= text.len(),
        truncated(text, max_width as int) == text.take(truncated(text, max_width as int).len() as int),
        str_display_width(text) > max_width ==> cells(truncated(text, max_width as int)) <= max_width,
        str_display_width(text) > max_width && truncated(text, max_width as int).len() < text.len()
            ==> cells(truncated(text, max_width as int))
                + cell_width(text[truncated(text, max_width as int).len() as int]) > max_width,
{
    lemma_fitting_prefix(text, max_width as int);
    assert(text.take(text.len() as int) =~= text);
}

/// `fitting_prefix` is a prefix, within budget, and maximal.
proof fn lemma_fitting_prefix(text: Seq<char>, budget: int)
    requires
        budget >= 0,
    ensures
        fitting_prefix(text, budget).len() <= text.len(),
        fitting_prefix(text, budget) == text.take(fitting_prefix(text, budget).len() as int),
        cells(fitting_prefix(text, budget)) <= budget,
        fitting_prefix(text, budget).len() < text.len() ==> cells(fitting_prefix(text, budget))
            + cell_width(text[fitting_prefix(text, budget).len() as int]) > budget,
    decreases text.len(),
{
    if text.len() == 0 {
        assert(text.take(0) =~= text);
    } else if cell_width(text[0]) > budget {
        assert(text.take(0) =~= Seq::<char>::empty());
    } else {
        let rest = text.drop_first();
        let b = budget - cell_width(text[0]);
        lemma_fitting_prefix(rest, b);
        let p = fitting_prefix(rest, b);
        let whole = seq![text[0]] + p;
        assert(whole.len() == p.len() + 1);
        assert(whole =~= text.take(whole.len() as int));
        assert(whole.drop_first() =~= p);
        assert(whole[0] == text[0]);
        assert(cells(whole) == cell_width(text[0]) + cells(p));
        if whole.len() < text.len() {
            assert(text[whole.len() as int] == rest[p.len() as int]);
        }
    }
}

/// Padding never shortens: the padded text starts with the original text,
/// followed only by spaces, and text already at least `target_width` wide
/// is returned unchanged.
pub proof fn law_padding_only_adds_spaces(text: Seq<char>, target_width: nat)
    ensures
        (text + spaces(padding_for(text, target_width as int))).take(text.len() as int) == text,
        str_display_width(text) >= target_width ==> text + spaces(padding_for(text, target_width as int)) == text,
        str_display_width(text) < target_width ==> padding_for(text, target_width as int)
            + str_display_width(text) == target_width,
{
    assert((text + spaces(padding_for(text, target_width as int))).take(text.len() as int) =~= text);
    if str_display_width(text) >= target_width {
        assert(text + spaces(0) =~= text);
    }
}

} // verus!
