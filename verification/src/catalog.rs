//! Locale catalogs: the line format of a catalog file, the interpolations a
//! message names, and the checks that keep every locale in step with the
//! English source.
//!
//! A catalog is a YAML subset: `key:` lines nest the lines indented below
//! them by two spaces, `key: text` lines are messages, and `%{name}` in a
//! message interpolates an argument. Reading the files happens at the edge.

use vstd::prelude::*;
use crate::order::{id_le, id_views, is_permutation, lemma_id_le_total, sorted_by_id, sorted_positions};
use crate::helpers::{lemma_trim_start_idempotent, str_trim, str_trim_start, trim_end_spec, trim_start_spec};
use crate::strings::{chars_of, owned, push_all, push_char, str_eq, string_from_range};

verus! {

/// The first position at or after `from` where `%{` starts.
pub open spec fn first_open(s: Seq<char>, from: int) -> Option<int>
    decreases s.len() - from,
{
    if from < 0 || from + 1 >= s.len() {
        None
    } else if s[from] == '%' && s[from + 1] == '{' {
        Some(from)
    } else {
        first_open(s, from + 1)
    }
}

/// The first position at or after `from` holding `c`.
pub open spec fn first_of(s: Seq<char>, from: int, c: char) -> Option<int>
    decreases s.len() - from,
{
    if from < 0 || from >= s.len() {
        None
    } else if s[from] == c {
        Some(from)
    } else {
        first_of(s, from + 1, c)
    }
}

/// An ASCII letter or digit.
pub open spec fn is_ascii_alphanumeric(ch: char) -> bool {
    ('0' <= ch && ch <= '9') || ('a' <= ch && ch <= 'z') || ('A' <= ch && ch <= 'Z')
}

/// A well-formed interpolation name: ASCII letters, digits and underscores,
/// at least one.
pub open spec fn is_placeholder_name(name: Seq<char>) -> bool {
    &&& name.len() > 0
    &&& forall|i: int| 0 <= i < name.len() ==> is_ascii_alphanumeric(#[trigger] name[i]) || name[i] == '_'
}

/// A problem with an interpolation in a message.
#[derive(Debug, PartialEq, Eq)]
pub enum PlaceholderError {
    /// A `%{` with no closing `}`.
    Unterminated,
    /// A `%{...}` whose name is empty or holds other characters.
    Invalid(String),
}

/// The abstract form of a `PlaceholderError`.
pub enum PlaceholderErrorView {
    Unterminated,
    Invalid(Seq<char>),
}

/// The abstract form of a placeholder problem.
pub open spec fn placeholder_error_view(e: PlaceholderError) -> PlaceholderErrorView {
    match e {
        PlaceholderError::Unterminated => PlaceholderErrorView::Unterminated,
        PlaceholderError::Invalid(n) => PlaceholderErrorView::Invalid(n@),
    }
}

/// The interpolations of `s` from position `from` on, scanning `%{`…`}` pairs
/// left to right: the well-formed names, and a problem for each malformed
/// name; an unterminated `%{` ends the scan.
pub open spec fn scan_placeholders(s: Seq<char>, from: int) -> (Seq<Seq<char>>, Seq<PlaceholderErrorView>)
    decreases s.len() - from,
{
    match first_open(s, from) {
        None => (Seq::empty(), Seq::empty()),
        Some(open) => match first_of(s, open + 2, '}') {
            None => (Seq::empty(), seq![PlaceholderErrorView::Unterminated]),
            Some(close) => {
                proof {
                    lemma_first_open_bounds(s, from);
                    lemma_first_of_bounds(s, open + 2, '}');
                }
                let name = s.subrange(open + 2, close);
                let rest = scan_placeholders(s, close + 1);
                if is_placeholder_name(name) {
                    (seq![name] + rest.0, rest.1)
                } else {
                    (rest.0, seq![PlaceholderErrorView::Invalid(name)] + rest.1)
                }
            },
        },
    }
}

/// Where `first_open` finds `%{`.
pub proof fn lemma_first_open_bounds(s: Seq<char>, from: int)
    ensures
        first_open(s, from) matches Some(p) ==> from <= p && p + 1 < s.len() && s[p] == '%' && s[p + 1] == '{',
    decreases s.len() - from,
{
    if !(from < 0 || from + 1 >= s.len()) && !(s[from] == '%' && s[from + 1] == '{') {
        lemma_first_open_bounds(s, from + 1);
    }
}

/// Where `first_of` finds its character.
pub proof fn lemma_first_of_bounds(s: Seq<char>, from: int, c: char)
    ensures
        first_of(s, from, c) matches Some(p) ==> from <= p < s.len() && s[p] == c,
    decreases s.len() - from,
{
    if !(from < 0 || from >= s.len()) && s[from] != c {
        lemma_first_of_bounds(s, from + 1, c);
    }
}

/// Where the next `%{` starts, at or after `from`.
fn find_open(s: &Vec<char>, from: usize) -> (r: Option<usize>)
    requires
        from <= s@.len(),
    ensures
        match r {
            Some(p) => first_open(s@, from as int) == Some(p as int),
            None => first_open(s@, from as int) is None,
        },
{
    let mut i = from;
    while s.len() - i >= 2
        invariant
            from <= i <= s@.len(),
            first_open(s@, from as int) == first_open(s@, i as int),
        decreases s@.len() - i,
    {
        if s[i] == '%' && s[i + 1] == '{' {
            return Some(i);
        }
        i = i + 1;
    }
    None
}

/// Where the next `c` is, at or after `from`.
fn find_char(s: &Vec<char>, from: usize, c: char) -> (r: Option<usize>)
    requires
        from <= s@.len(),
    ensures
        match r {
            Some(p) => first_of(s@, from as int, c) == Some(p as int),
            None => first_of(s@, from as int, c) is None,
        },
{
    let mut i = from;
    while i < s.len()
        invariant
            from <= i <= s@.len(),
            first_of(s@, from as int, c) == first_of(s@, i as int, c),
        decreases s@.len() - i,
    {
        if s[i] == c {
            return Some(i);
        }
        i = i + 1;
    }
    None
}

/// Whether `name` is a well-formed interpolation name.
fn placeholder_name_ok(name: &Vec<char>) -> (r: bool)
    ensures
        r == is_placeholder_name(name@),
{
    if name.len() == 0 {
        return false;
    }
    let mut i: usize = 0;
    while i < name.len()
        invariant
            i <= name@.len(),
            forall|j: int| 0 <= j < i ==> is_ascii_alphanumeric(#[trigger] name@[j]) || name@[j] == '_',
        decreases name@.len() - i,
    {
        let ch = name[i];
        let ok = ('0' <= ch && ch <= '9') || ('a' <= ch && ch <= 'z') || ('A' <= ch && ch <= 'Z') || ch == '_';
        if !ok {
            return false;
        }
        i = i + 1;
    }
    true
}

/// The interpolations a message names, with the problems found on the way.
pub fn extract_placeholders(value: &str) -> (r: (Vec<String>, Vec<PlaceholderError>))
    ensures
        r.0@.map_values(|n: String| n@) == scan_placeholders(value@, 0).0,
        r.1@.map_values(|e: PlaceholderError| placeholder_error_view(e)) == scan_placeholders(value@, 0).1,
{
    let s = chars_of(value);
    let ghost text = value@;
    let mut names: Vec<String> = Vec::new();
    let mut errors: Vec<PlaceholderError> = Vec::new();
    let mut pos: usize = 0;
    assert(names@.map_values(|n: String| n@) + scan_placeholders(text, 0).0 =~= scan_placeholders(text, 0).0);
    assert(errors@.map_values(|e: PlaceholderError| placeholder_error_view(e)) + scan_placeholders(text, 0).1
        =~= scan_placeholders(text, 0).1);
    loop
        invariant_except_break
            names@.map_values(|n: String| n@) + scan_placeholders(text, pos as int).0 == scan_placeholders(text, 0).0,
            errors@.map_values(|e: PlaceholderError| placeholder_error_view(e)) + scan_placeholders(text, pos as int).1
                == scan_placeholders(text, 0).1,
        invariant
            s@ == text,
            pos <= s@.len(),
        ensures
            names@.map_values(|n: String| n@) == scan_placeholders(text, 0).0,
            errors@.map_values(|e: PlaceholderError| placeholder_error_view(e)) == scan_placeholders(text, 0).1,
        decreases s@.len() - pos,
    {
        let ghost before_names = names@;
        let ghost before_errors = errors@;
        let open = match find_open(&s, pos) {
            Some(p) => p,
            None => {
                assert(names@.map_values(|n: String| n@) =~= names@.map_values(|n: String| n@) + Seq::<Seq<char>>::empty());
                assert(errors@.map_values(|e: PlaceholderError| placeholder_error_view(e))
                    =~= errors@.map_values(|e: PlaceholderError| placeholder_error_view(e)) + Seq::<PlaceholderErrorView>::empty());
                break;
            },
        };
        proof {
            lemma_first_open_bounds(text, pos as int);
        }
        let len = s.len();
        assert(open + 2 <= len);
        let close = match find_char(&s, open + 2, '}') {
            Some(c) => c,
            None => {
                errors.push(PlaceholderError::Unterminated);
                assert(names@.map_values(|n: String| n@) =~= names@.map_values(|n: String| n@) + Seq::<Seq<char>>::empty());
                assert(errors@.map_values(|e: PlaceholderError| placeholder_error_view(e))
                    =~= before_errors.map_values(|e: PlaceholderError| placeholder_error_view(e))
                        + seq![PlaceholderErrorView::Unterminated]);
                break;
            },
        };
        proof {
            lemma_first_of_bounds(text, open as int + 2, '}');
        }
        assert(close < len);
        let name = string_from_range(&s, open + 2, close);
        let name_chars = chars_of(name.as_str());
        let ghost name_view = text.subrange(open as int + 2, close as int);
        let ghost rest = scan_placeholders(text, close as int + 1);
        if placeholder_name_ok(&name_chars) {
            names.push(name);
            assert(names@.map_values(|n: String| n@) =~= before_names.map_values(|n: String| n@) + seq![name_view]);
            assert(names@.map_values(|n: String| n@) + rest.0
                =~= before_names.map_values(|n: String| n@) + (seq![name_view] + rest.0));
        } else {
            errors.push(PlaceholderError::Invalid(name));
            assert(errors@.map_values(|e: PlaceholderError| placeholder_error_view(e))
                =~= before_errors.map_values(|e: PlaceholderError| placeholder_error_view(e))
                    + seq![PlaceholderErrorView::Invalid(name_view)]);
            assert(errors@.map_values(|e: PlaceholderError| placeholder_error_view(e)) + rest.1
                =~= before_errors.map_values(|e: PlaceholderError| placeholder_error_view(e))
                    + (seq![PlaceholderErrorView::Invalid(name_view)] + rest.1));
        }
        pos = close + 1;
    }
    (names, errors)
}

/// `line` without a carriage return right at its end.
pub open spec fn without_cr(line: Seq<char>) -> Seq<char> {
    if line.len() > 0 && line.last() == '\r' {
        line.drop_last()
    } else {
        line
    }
}

/// The lines of `s` from position `from` on, as `str::lines` gives them:
/// split at each line feed, a carriage return right before it dropped, and
/// nothing after a final line feed.
pub open spec fn lines_from(s: Seq<char>, from: int) -> Seq<Seq<char>>
    decreases s.len() - from,
{
    if from < 0 || from >= s.len() {
        Seq::empty()
    } else {
        match first_of(s, from, '\n') {
            None => seq![s.subrange(from, s.len() as int)],
            Some(nl) => {
                proof {
                    lemma_first_of_bounds(s, from, '\n');
                }
                seq![without_cr(s.subrange(from, nl))] + lines_from(s, nl + 1)
            },
        }
    }
}

/// Splits `content` into lines (see `lines_from`).
pub fn split_lines(content: &str) -> (r: Vec<String>)
    ensures
        r@.map_values(|l: String| l@) == lines_from(content@, 0),
{
    let s = chars_of(content);
    let ghost text = content@;
    let mut lines: Vec<String> = Vec::new();
    let mut pos: usize = 0;
    assert(lines@.map_values(|l: String| l@) + lines_from(text, 0) =~= lines_from(text, 0));
    while pos < s.len()
        invariant
            s@ == text,
            pos <= s@.len(),
            lines@.map_values(|l: String| l@) + lines_from(text, pos as int) == lines_from(text, 0),
        decreases s@.len() - pos,
    {
        let ghost before = lines@;
        let len = s.len();
        match find_char(&s, pos, '\n') {
            None => {
                lines.push(string_from_range(&s, pos, len));
                assert(lines@.map_values(|l: String| l@) =~= before.map_values(|l: String| l@) + lines_from(text, pos as int));
                pos = len;
                assert(lines_from(text, pos as int) =~= Seq::<Seq<char>>::empty());
                assert(lines@.map_values(|l: String| l@) + lines_from(text, pos as int) =~= lines@.map_values(|l: String| l@));
            },
            Some(nl) => {
                proof {
                    lemma_first_of_bounds(text, pos as int, '\n');
                }
                let end = if nl > pos && s[nl - 1] == '\r' { nl - 1 } else { nl };
                let line = string_from_range(&s, pos, end);
                assert(line@ =~= without_cr(text.subrange(pos as int, nl as int)));
                lines.push(line);
                assert(lines@.map_values(|l: String| l@) + lines_from(text, nl as int + 1)
                    =~= before.map_values(|l: String| l@) + lines_from(text, pos as int));
                pos = nl + 1;
            },
        }
    }
    assert(lines_from(text, pos as int) =~= Seq::<Seq<char>>::empty());
    assert(lines@.map_values(|l: String| l@) =~= lines@.map_values(|l: String| l@) + lines_from(text, pos as int));
    lines
}

/// The number of spaces `line` starts with.
pub open spec fn leading_spaces(line: Seq<char>) -> nat
    decreases line.len(),
{
    if line.len() > 0 && line[0] == ' ' {
        1 + leading_spaces(line.drop_first())
    } else {
        0
    }
}

/// A well-formed key: ASCII letters, digits, underscores and hyphens, at
/// least one.
pub open spec fn is_catalog_key(key: Seq<char>) -> bool {
    &&& key.len() > 0
    &&& forall|i: int| 0 <= i < key.len() ==> is_ascii_alphanumeric(#[trigger] key[i]) || key[i] == '_' || key[i] == '-'
}

/// What one line of a catalog holds.
#[derive(Debug, PartialEq, Eq)]
pub enum LineShape {
    /// Blank, or a comment.
    Skip,
    /// A line with a tab in it.
    Tab,
    /// No `:` after the indentation; `odd` when indented by an odd number of spaces.
    NoColon { odd: bool },
    /// A key with other characters than letters, digits, `_` and `-`.
    BadKey { odd: bool, key: String },
    /// `key: value`, indented by `indent` spaces.
    Entry { indent: usize, odd: bool, key: String, value: String },
}

/// The abstract form of a `LineShape`.
pub enum LineShapeView {
    Skip,
    Tab,
    NoColon { odd: bool },
    BadKey { odd: bool, key: Seq<char> },
    Entry { indent: nat, odd: bool, key: Seq<char>, value: Seq<char> },
}

/// The abstract form of a line's shape.
pub open spec fn line_shape_view(l: LineShape) -> LineShapeView {
    match l {
        LineShape::Skip => LineShapeView::Skip,
        LineShape::Tab => LineShapeView::Tab,
        LineShape::NoColon { odd } => LineShapeView::NoColon { odd },
        LineShape::BadKey { odd, key } => LineShapeView::BadKey { odd, key: key@ },
        LineShape::Entry { indent, odd, key, value } => LineShapeView::Entry { indent: indent as nat, odd, key: key@, value: value@ },
    }
}

/// What `line` holds: blank lines and comments are skipped; a tab anywhere
/// is refused; otherwise the indentation is counted in spaces and the text
/// after it is split at its first `:` into a key (trimmed) and a value.
pub open spec fn shape_of(line: Seq<char>) -> LineShapeView {
    let t = trim_start_spec(line);
    if trim_end_spec(t).len() == 0 || t[0] == '#' {
        LineShapeView::Skip
    } else if line.contains('\t') {
        LineShapeView::Tab
    } else {
        let indent = leading_spaces(line);
        let odd = indent % 2 != 0;
        match first_of(t, 0, ':') {
            None => LineShapeView::NoColon { odd },
            Some(colon) => {
                let key = trim_end_spec(trim_start_spec(t.take(colon)));
                if is_catalog_key(key) {
                    LineShapeView::Entry { indent, odd, key, value: t.skip(colon + 1) }
                } else {
                    LineShapeView::BadKey { odd, key }
                }
            },
        }
    }
}

/// Counts the spaces `line` starts with.
fn count_leading_spaces(line: &Vec<char>) -> (r: usize)
    ensures
        r == leading_spaces(line@),
{
    let mut i: usize = 0;
    assert(line@.skip(0) =~= line@);
    while i < line.len() && line[i] == ' '
        invariant
            i <= line@.len(),
            leading_spaces(line@) == i + leading_spaces(line@.skip(i as int)),
        decreases line@.len() - i,
    {
        assert(line@.skip(i as int).drop_first() =~= line@.skip(i as int + 1));
        i = i + 1;
    }
    if i < line.len() {
        assert(line@.skip(i as int)[0] == line@[i as int]);
    } else {
        assert(line@.skip(i as int) =~= Seq::<char>::empty());
    }
    i
}

/// Whether `line` holds `c`.
fn contains_char(line: &Vec<char>, c: char) -> (r: bool)
    ensures
        r == line@.contains(c),
{
    let mut i: usize = 0;
    while i < line.len()
        invariant
            i <= line@.len(),
            forall|j: int| 0 <= j < i ==> line@[j] != c,
        decreases line@.len() - i,
    {
        if line[i] == c {
            return true;
        }
        i = i + 1;
    }
    false
}

/// Whether `key` is a well-formed key.
fn catalog_key_ok(key: &Vec<char>) -> (r: bool)
    ensures
        r == is_catalog_key(key@),
{
    if key.len() == 0 {
        return false;
    }
    let mut i: usize = 0;
    while i < key.len()
        invariant
            i <= key@.len(),
            forall|j: int| 0 <= j < i ==> is_ascii_alphanumeric(#[trigger] key@[j]) || key@[j] == '_' || key@[j] == '-',
        decreases key@.len() - i,
    {
        let ch = key[i];
        let ok = ('0' <= ch && ch <= '9') || ('a' <= ch && ch <= 'z') || ('A' <= ch && ch <= 'Z') || ch == '_' || ch == '-';
        if !ok {
            return false;
        }
        i = i + 1;
    }
    true
}

/// Reads what one line of a catalog holds.
pub fn line_shape(line: &str) -> (r: LineShape)
    ensures
        line_shape_view(r) == shape_of(line@),
{
    let t = str_trim_start(line);
    let t_chars = chars_of(t);
    if str_trim(t).is_empty() || (t_chars.len() > 0 && t_chars[0] == '#') {
        proof {
            lemma_trim_start_idempotent(line@);
        }
        return LineShape::Skip;
    }
    proof {
        lemma_trim_start_idempotent(line@);
    }
    let chars = chars_of(line);
    if contains_char(&chars, '\t') {
        return LineShape::Tab;
    }
    let indent = count_leading_spaces(&chars);
    let odd = indent % 2 != 0;
    match find_char(&t_chars, 0, ':') {
        None => LineShape::NoColon { odd },
        Some(colon) => {
            proof {
                lemma_first_of_bounds(t_chars@, 0, ':');
            }
            let raw_key = string_from_range(&t_chars, 0, colon);
            let key_text = str_trim(raw_key.as_str());
            let key_chars = chars_of(key_text);
            let len = t_chars.len();
            assert(raw_key@ =~= t@.take(colon as int));
            if catalog_key_ok(&key_chars) {
                let value = string_from_range(&t_chars, colon + 1, len);
                assert(value@ =~= t@.skip(colon as int + 1));
                LineShape::Entry { indent, odd, key: owned(key_text), value }
            } else {
                LineShape::BadKey { odd, key: owned(key_text) }
            }
        },
    }
}

/// A problem found in a catalog; `line` numbers count from 1.
#[derive(Debug, PartialEq, Eq)]
pub enum CatalogIssue {
    /// A tab in the line.
    Tab { line: usize },
    /// Indentation that is not a whole number of two-space levels.
    OddIndent { line: usize },
    /// No `key:` in the line.
    NoColon { line: usize },
    /// A key with characters other than letters, digits, `_` and `-`.
    BadKey { line: usize, key: String },
    /// A malformed interpolation in a message.
    Placeholder { line: usize, error: PlaceholderError },
    /// A message whose full key an earlier line already defined.
    DuplicateKey { line: usize, key: String },
    /// A catalog with no message at all.
    NoLeaves,
}

/// The abstract form of a `CatalogIssue`.
pub enum CatalogIssueView {
    Tab { line: nat },
    OddIndent { line: nat },
    NoColon { line: nat },
    BadKey { line: nat, key: Seq<char> },
    Placeholder { line: nat, error: PlaceholderErrorView },
    DuplicateKey { line: nat, key: Seq<char> },
    NoLeaves,
}

/// The abstract form of a catalog problem.
pub open spec fn issue_view(i: CatalogIssue) -> CatalogIssueView {
    match i {
        CatalogIssue::Tab { line } => CatalogIssueView::Tab { line: line as nat },
        CatalogIssue::OddIndent { line } => CatalogIssueView::OddIndent { line: line as nat },
        CatalogIssue::NoColon { line } => CatalogIssueView::NoColon { line: line as nat },
        CatalogIssue::BadKey { line, key } => CatalogIssueView::BadKey { line: line as nat, key: key@ },
        CatalogIssue::Placeholder { line, error } => CatalogIssueView::Placeholder { line: line as nat, error: placeholder_error_view(error) },
        CatalogIssue::DuplicateKey { line, key } => CatalogIssueView::DuplicateKey { line: line as nat, key: key@ },
        CatalogIssue::NoLeaves => CatalogIssueView::NoLeaves,
    }
}

/// The issues of a list, viewed.
pub open spec fn issues_view(issues: Seq<CatalogIssue>) -> Seq<CatalogIssueView> {
    issues.map_values(|i: CatalogIssue| issue_view(i))
}

/// The keys that enclose the next line, each with its indentation.
pub open spec fn parents_view(parents: Seq<(usize, String)>) -> Seq<(nat, Seq<char>)> {
    parents.map_values(|p: (usize, String)| (p.0 as nat, p.1@))
}

/// Messages by full key, each with its interpolation names.
pub open spec fn leaves_view(leaves: Seq<(String, Vec<String>)>) -> Seq<(Seq<char>, Seq<Seq<char>>)> {
    leaves.map_values(|l: (String, Vec<String>)| (l.0@, l.1@.map_values(|n: String| n@)))
}

/// What reading a catalog line by line has gathered.
pub struct CatalogState {
    pub parents: Seq<(nat, Seq<char>)>,
    pub leaves: Seq<(Seq<char>, Seq<Seq<char>>)>,
    pub issues: Seq<CatalogIssueView>,
}

/// The enclosing keys left for a line indented by `indent`: those indented
/// less.
pub open spec fn popped(parents: Seq<(nat, Seq<char>)>, indent: nat) -> Seq<(nat, Seq<char>)>
    decreases parents.len(),
{
    if parents.len() > 0 && parents.last().0 >= indent {
        popped(parents.drop_last(), indent)
    } else {
        parents
    }
}

/// The full key of `key` under `parents`: all the keys joined by dots.
pub open spec fn dotted(parents: Seq<(nat, Seq<char>)>, key: Seq<char>) -> Seq<char>
    decreases parents.len(),
{
    if parents.len() == 0 {
        key
    } else {
        parents[0].1 + seq!['.'] + dotted(parents.drop_first(), key)
    }
}

/// Where the message `key` is, if it is defined.
pub open spec fn leaf_position(leaves: Seq<(Seq<char>, Seq<Seq<char>>)>, key: Seq<char>) -> Option<int>
    decreases leaves.len(),
{
    if leaves.len() == 0 {
        None
    } else if leaves.last().0 == key {
        Some(leaves.len() - 1)
    } else {
        leaf_position(leaves.drop_last(), key)
    }
}

/// Where `leaf_position` finds a message, it is.
proof fn lemma_leaf_position(leaves: Seq<(Seq<char>, Seq<Seq<char>>)>, key: Seq<char>)
    ensures
        leaf_position(leaves, key) matches Some(i) ==> 0 <= i < leaves.len() && leaves[i].0 == key,
        leaf_position(leaves, key) is None ==> forall|i: int| 0 <= i < leaves.len() ==> #[trigger] leaves[i].0 != key,
    decreases leaves.len(),
{
    if leaves.len() > 0 && leaves.last().0 != key {
        lemma_leaf_position(leaves.drop_last(), key);
        assert forall|i: int| 0 <= i < leaves.len() - 1 implies #[trigger] leaves[i] == leaves.drop_last()[i] by {}
    }
}

/// The messages with `key` defined as `names`, replacing an earlier
/// definition in place.
pub open spec fn with_leaf(leaves: Seq<(Seq<char>, Seq<Seq<char>>)>, key: Seq<char>, names: Seq<Seq<char>>)
    -> Seq<(Seq<char>, Seq<Seq<char>>)>
{
    match leaf_position(leaves, key) {
        Some(i) => leaves.update(i, (key, names)),
        None => leaves.push((key, names)),
    }
}

/// The odd-indentation problem of line `line`, if it has one.
pub open spec fn odd_issue(odd: bool, line: nat) -> Seq<CatalogIssueView> {
    if odd { seq![CatalogIssueView::OddIndent { line }] } else { Seq::empty() }
}

/// Reading line number `line`, of shape `shape`, after `state`.
pub open spec fn read_line(state: CatalogState, shape: LineShapeView, line: nat) -> CatalogState {
    match shape {
        LineShapeView::Skip => state,
        LineShapeView::Tab => CatalogState { issues: state.issues.push(CatalogIssueView::Tab { line }), ..state },
        LineShapeView::NoColon { odd } => CatalogState {
            issues: state.issues + odd_issue(odd, line) + seq![CatalogIssueView::NoColon { line }],
            ..state
        },
        LineShapeView::BadKey { odd, key } => CatalogState {
            issues: state.issues + odd_issue(odd, line) + seq![CatalogIssueView::BadKey { line, key }],
            ..state
        },
        LineShapeView::Entry { indent, odd, key, value } => {
            let issues = state.issues + odd_issue(odd, line);
            let parents = popped(state.parents, indent);
            let full = dotted(parents, key);
            if trim_end_spec(trim_start_spec(value)).len() == 0 {
                CatalogState { parents: parents.push((indent, key)), leaves: state.leaves, issues }
            } else {
                let found = scan_placeholders(value, 0);
                let issues = issues + found.1.map_values(|e: PlaceholderErrorView| CatalogIssueView::Placeholder { line, error: e });
                CatalogState {
                    parents,
                    leaves: with_leaf(state.leaves, full, found.0),
                    issues: if leaf_position(state.leaves, full) is Some {
                        issues.push(CatalogIssueView::DuplicateKey { line, key: full })
                    } else {
                        issues
                    },
                }
            }
        },
    }
}

/// The state after reading the first `n` of `lines`.
pub open spec fn read_lines(lines: Seq<Seq<char>>, n: int) -> CatalogState
    decreases n,
{
    if n <= 0 {
        CatalogState { parents: Seq::empty(), leaves: Seq::empty(), issues: Seq::empty() }
    } else {
        read_line(read_lines(lines, n - 1), shape_of(lines[n - 1]), n as nat)
    }
}

/// What a catalog's text yields: its messages by full key, or every problem
/// found (a catalog without messages is one).
pub open spec fn catalog_outcome(content: Seq<char>) -> Result<Seq<(Seq<char>, Seq<Seq<char>>)>, Seq<CatalogIssueView>> {
    let lines = lines_from(content, 0);
    let state = read_lines(lines, lines.len() as int);
    let issues = if state.leaves.len() == 0 { state.issues.push(CatalogIssueView::NoLeaves) } else { state.issues };
    if issues.len() == 0 {
        Ok(state.leaves)
    } else {
        Err(issues)
    }
}

/// Drops the enclosing keys indented at least as deep as `indent`.
fn pop_enclosing(parents: &mut Vec<(usize, String)>, indent: usize)
    ensures
        parents_view(final(parents)@) == popped(parents_view(old(parents)@), indent as nat),
{
    let ghost start = parents_view(parents@);
    while parents.len() > 0 && parents[parents.len() - 1].0 >= indent
        invariant
            popped(parents_view(parents@), indent as nat) == popped(start, indent as nat),
        decreases parents@.len(),
    {
        let ghost before = parents@;
        let _ = parents.pop();
        proof {
            assert(parents_view(before).drop_last() =~= parents_view(parents@));
        }
    }
}

/// The full key of `key` under `parents`.
fn full_key(parents: &Vec<(usize, String)>, key: &str) -> (r: String)
    ensures
        r@ == dotted(parents_view(parents@), key@),
{
    let ghost view = parents_view(parents@);
    let mut out = String::new();
    let mut i: usize = 0;
    assert(view.skip(0) =~= view);
    while i < parents.len()
        invariant
            i <= parents@.len(),
            view == parents_view(parents@),
            out@ + dotted(view.skip(i as int), key@) == dotted(view, key@),
        decreases parents@.len() - i,
    {
        let ghost before = out@;
        push_all(&mut out, parents[i].1.as_str());
        push_char(&mut out, '.');
        proof {
            assert(view.skip(i as int).drop_first() =~= view.skip(i as int + 1));
            assert(view.skip(i as int)[0] == view[i as int]);
            assert(out@ + dotted(view.skip(i as int + 1), key@)
                =~= before + (view[i as int].1 + seq!['.'] + dotted(view.skip(i as int + 1), key@)));
        }
        i = i + 1;
    }
    assert(view.skip(i as int) =~= Seq::<(nat, Seq<char>)>::empty());
    push_all(&mut out, key);
    out
}

/// Where the message `key` is defined, if it is.
fn find_leaf(leaves: &Vec<(String, Vec<String>)>, key: &str) -> (r: Option<usize>)
    ensures
        match r {
            Some(i) => leaf_position(leaves_view(leaves@), key@) == Some(i as int),
            None => leaf_position(leaves_view(leaves@), key@) is None,
        },
{
    let ghost view = leaves_view(leaves@);
    let mut n: usize = leaves.len();
    assert(view.take(n as int) =~= view);
    while n > 0
        invariant
            n <= leaves@.len(),
            view == leaves_view(leaves@),
            leaf_position(view, key@) == leaf_position(view.take(n as int), key@),
        decreases n,
    {
        assert(view.take(n as int).last() == view[n - 1]);
        if str_eq(leaves[n - 1].0.as_str(), key) {
            return Some(n - 1);
        }
        assert(view.take(n as int).drop_last() =~= view.take(n - 1));
        n = n - 1;
    }
    None
}

/// A copy of a placeholder problem.
fn copy_placeholder_error(e: &PlaceholderError) -> (r: PlaceholderError)
    ensures
        placeholder_error_view(r) == placeholder_error_view(*e),
{
    match e {
        PlaceholderError::Unterminated => PlaceholderError::Unterminated,
        PlaceholderError::Invalid(n) => PlaceholderError::Invalid(owned(n.as_str())),
    }
}

/// Reads one line (of shape `shape`, numbered `line`) into the state.
fn read_line_into(
    parents: &mut Vec<(usize, String)>,
    leaves: &mut Vec<(String, Vec<String>)>,
    issues: &mut Vec<CatalogIssue>,
    shape: LineShape,
    line: usize,
)
    ensures
        (CatalogState {
            parents: parents_view(final(parents)@),
            leaves: leaves_view(final(leaves)@),
            issues: issues_view(final(issues)@),
        }) == read_line(
            CatalogState {
                parents: parents_view(old(parents)@),
                leaves: leaves_view(old(leaves)@),
                issues: issues_view(old(issues)@),
            },
            line_shape_view(shape),
            line as nat,
        ),
{
    let ghost before = issues_view(issues@);
    match shape {
        LineShape::Skip => {},
        LineShape::Tab => {
            issues.push(CatalogIssue::Tab { line });
            assert(issues_view(issues@) =~= before.push(CatalogIssueView::Tab { line: line as nat }));
        },
        LineShape::NoColon { odd } => {
            if odd {
                issues.push(CatalogIssue::OddIndent { line });
            }
            issues.push(CatalogIssue::NoColon { line });
            assert(issues_view(issues@) =~= before + odd_issue(odd, line as nat) + seq![CatalogIssueView::NoColon { line: line as nat }]);
        },
        LineShape::BadKey { odd, key } => {
            let ghost key_view = key@;
            if odd {
                issues.push(CatalogIssue::OddIndent { line });
            }
            issues.push(CatalogIssue::BadKey { line, key });
            assert(issues_view(issues@) =~= before + odd_issue(odd, line as nat) + seq![CatalogIssueView::BadKey { line: line as nat, key: key_view }]);
        },
        LineShape::Entry { indent, odd, key, value } => {
            if odd {
                issues.push(CatalogIssue::OddIndent { line });
            }
            let ghost with_odd = issues_view(issues@);
            assert(with_odd =~= before + odd_issue(odd, line as nat));
            pop_enclosing(parents, indent);
            let full = full_key(parents, key.as_str());
            if str_trim(value.as_str()).is_empty() {
                parents.push((indent, key));
                assert(parents_view(parents@) =~= popped(parents_view(old(parents)@), indent as nat).push((indent as nat, key@)));
            } else {
                let (names, errors) = extract_placeholders(value.as_str());
                let ghost found = scan_placeholders(value@, 0);
                let mut k: usize = 0;
                while k < errors.len()
                    invariant
                        k <= errors@.len(),
                        errors@.map_values(|e: PlaceholderError| placeholder_error_view(e)) == found.1,
                        issues_view(issues@) == with_odd + found.1.take(k as int).map_values(
                            |e: PlaceholderErrorView| CatalogIssueView::Placeholder { line: line as nat, error: e },
                        ),
                    decreases errors@.len() - k,
                {
                    let ghost prior = issues_view(issues@);
                    let error = copy_placeholder_error(&errors[k]);
                    issues.push(CatalogIssue::Placeholder { line, error });
                    proof {
                        assert(found.1[k as int] == placeholder_error_view(errors@[k as int]));
                        assert(found.1.take(k as int + 1) =~= found.1.take(k as int).push(found.1[k as int]));
                        assert(issues_view(issues@) =~= prior.push(CatalogIssueView::Placeholder { line: line as nat, error: found.1[k as int] }));
                        assert(found.1.take(k as int + 1).map_values(|e: PlaceholderErrorView| CatalogIssueView::Placeholder { line: line as nat, error: e })
                            =~= found.1.take(k as int).map_values(|e: PlaceholderErrorView| CatalogIssueView::Placeholder { line: line as nat, error: e })
                                .push(CatalogIssueView::Placeholder { line: line as nat, error: found.1[k as int] }));
                    }
                    k = k + 1;
                }
                assert(found.1.take(errors@.len() as int) =~= found.1);
                let ghost with_placeholders = issues_view(issues@);
                assert(with_placeholders == with_odd + found.1.map_values(
                    |e: PlaceholderErrorView| CatalogIssueView::Placeholder { line: line as nat, error: e },
                ));
                let ghost leaves_before = leaves_view(leaves@);
                let ghost full_view = full@;
                let ghost names_view = names@.map_values(|n: String| n@);
                match find_leaf(leaves, full.as_str()) {
                    Some(i) => {
                        proof {
                            lemma_leaf_position(leaves_before, full_view);
                        }
                        let full_copy = owned(full.as_str());
                        leaves.set(i, (full_copy, names));
                        issues.push(CatalogIssue::DuplicateKey { line, key: full });
                        proof {
                            assert(issues_view(issues@) =~= with_placeholders.push(
                                CatalogIssueView::DuplicateKey { line: line as nat, key: full_view },
                            ));
                            assert(leaves_view(leaves@) =~= leaves_before.update(i as int, (full_view, names_view)));
                        }
                    },
                    None => {
                        leaves.push((full, names));
                        proof {
                            assert(leaves_view(leaves@) =~= leaves_before.push((full_view, names_view)));
                        }
                    },
                }
            }
        },
    }
}

/// Defining a message keeps every key defined once.
proof fn lemma_with_leaf_distinct(leaves: Seq<(Seq<char>, Seq<Seq<char>>)>, key: Seq<char>, names: Seq<Seq<char>>)
    requires
        distinct_keys(leaves),
    ensures
        distinct_keys(with_leaf(leaves, key, names)),
{
    lemma_leaf_position(leaves, key);
    let r = with_leaf(leaves, key, names);
    assert forall|i: int, j: int| 0 <= i < j < r.len() implies #[trigger] r[i].0 != #[trigger] r[j].0 by {
        match leaf_position(leaves, key) {
            Some(p) => {
                if i != p && j != p {
                    assert(r[i] == leaves[i] && r[j] == leaves[j]);
                } else if i == p {
                    assert(r[j] == leaves[j]);
                } else {
                    assert(r[i] == leaves[i]);
                }
            },
            None => {
                if j == leaves.len() {
                    assert(r[i] == leaves[i]);
                } else {
                    assert(r[i] == leaves[i] && r[j] == leaves[j]);
                }
            },
        }
    }
}

/// Reading lines keeps every key defined once.
proof fn lemma_read_lines_distinct(lines: Seq<Seq<char>>, n: int)
    ensures
        distinct_keys(read_lines(lines, n).leaves),
    decreases n,
{
    if n > 0 {
        lemma_read_lines_distinct(lines, n - 1);
        let state = read_lines(lines, n - 1);
        match shape_of(lines[n - 1]) {
            LineShapeView::Entry { indent, odd, key, value } => {
                let parents = popped(state.parents, indent);
                let found = scan_placeholders(value, 0);
                lemma_with_leaf_distinct(state.leaves, dotted(parents, key), found.0);
            },
            _ => {},
        }
    }
}

/// The view of a parse result.
pub open spec fn outcome_view(r: Result<Vec<(String, Vec<String>)>, Vec<CatalogIssue>>)
    -> Result<Seq<(Seq<char>, Seq<Seq<char>>)>, Seq<CatalogIssueView>>
{
    match r {
        Ok(leaves) => Ok(leaves_view(leaves@)),
        Err(issues) => Err(issues_view(issues@)),
    }
}

/// Reads a catalog's text: its messages by full key with their
/// interpolation names, or every problem found.
pub fn parse_catalog_text(content: &str) -> (r: Result<Vec<(String, Vec<String>)>, Vec<CatalogIssue>>)
    ensures
        outcome_view(r) == catalog_outcome(content@),
        r matches Ok(leaves) ==> distinct_keys(leaves_view(leaves@)),
{
    let lines = split_lines(content);
    let ghost line_views = lines@.map_values(|l: String| l@);
    let mut parents: Vec<(usize, String)> = Vec::new();
    let mut leaves: Vec<(String, Vec<String>)> = Vec::new();
    let mut issues: Vec<CatalogIssue> = Vec::new();
    let mut i: usize = 0;
    assert(parents_view(parents@) =~= Seq::<(nat, Seq<char>)>::empty());
    assert(leaves_view(leaves@) =~= Seq::<(Seq<char>, Seq<Seq<char>>)>::empty());
    assert(issues_view(issues@) =~= Seq::<CatalogIssueView>::empty());
    while i < lines.len()
        invariant
            i <= lines@.len(),
            line_views == lines@.map_values(|l: String| l@),
            line_views == lines_from(content@, 0),
            (CatalogState {
                parents: parents_view(parents@),
                leaves: leaves_view(leaves@),
                issues: issues_view(issues@),
            }) == read_lines(line_views, i as int),
        decreases lines@.len() - i,
    {
        let shape = line_shape(lines[i].as_str());
        read_line_into(&mut parents, &mut leaves, &mut issues, shape, i + 1);
        i = i + 1;
    }
    proof {
        lemma_read_lines_distinct(line_views, i as int);
    }
    if leaves.len() == 0 {
        let ghost before = issues_view(issues@);
        issues.push(CatalogIssue::NoLeaves);
        assert(issues_view(issues@) =~= before.push(CatalogIssueView::NoLeaves));
    }
    if issues.len() == 0 {
        Ok(leaves)
    } else {
        Err(issues)
    }
}

/// Each key is defined once.
pub open spec fn distinct_keys(leaves: Seq<(Seq<char>, Seq<Seq<char>>)>) -> bool {
    forall|i: int, j: int| 0 <= i < j < leaves.len() ==> #[trigger] leaves[i].0 != #[trigger] leaves[j].0
}

/// The keys of a catalog.
pub open spec fn key_set(leaves: Seq<(Seq<char>, Seq<Seq<char>>)>) -> Set<Seq<char>> {
    leaves.map_values(|l: (Seq<char>, Seq<Seq<char>>)| l.0).to_set()
}

/// Strictly ascending in the order of `str`'s comparison.
pub open spec fn ascending(s: Seq<Seq<char>>) -> bool {
    forall|i: int, j: int| 0 <= i < j < s.len() ==> id_le(#[trigger] s[i], #[trigger] s[j]) && s[i] != s[j]
}

/// The keys of a catalog as owned strings, in ascending order.
fn sorted_keys(leaves: &Vec<(String, Vec<String>)>) -> (r: Vec<String>)
    requires
        distinct_keys(leaves_view(leaves@)),
    ensures
        ascending(id_views(r@)),
        id_views(r@).to_set() == key_set(leaves_view(leaves@)),
{
    let ghost view = leaves_view(leaves@);
    let mut keys: Vec<String> = Vec::new();
    let mut i: usize = 0;
    while i < leaves.len()
        invariant
            i <= leaves@.len(),
            view == leaves_view(leaves@),
            keys@.len() == i,
            forall|k: int| 0 <= k < i ==> (#[trigger] keys@[k])@ == view[k].0,
        decreases leaves@.len() - i,
    {
        keys.push(owned(leaves[i].0.as_str()));
        i = i + 1;
    }
    let order = sorted_positions(&keys);
    let ghost kv = id_views(keys@);
    assert(kv =~= view.map_values(|l: (Seq<char>, Seq<Seq<char>>)| l.0));
    let mut out: Vec<String> = Vec::new();
    let mut t: usize = 0;
    while t < order.len()
        invariant
            t <= order@.len(),
            is_permutation(order@, keys@.len() as int),
            sorted_by_id(kv, order@),
            kv == id_views(keys@),
            out@.len() == t,
            forall|m: int| 0 <= m < t ==> (#[trigger] out@[m])@ == kv[order@[m] as int],
        decreases order@.len() - t,
    {
        out.push(owned(keys[order[t]].as_str()));
        t = t + 1;
    }
    let ghost ov = id_views(out@);
    assert forall|a: int, b: int| 0 <= a < b < ov.len() implies id_le(#[trigger] ov[a], #[trigger] ov[b]) && ov[a] != ov[b] by {
        assert(ov[a] == kv[order@[a] as int] && ov[b] == kv[order@[b] as int]);
        assert(order@[a] != order@[b]);
        if order@[a] < order@[b] {
            assert(view[order@[a] as int].0 != view[order@[b] as int].0);
        } else {
            assert(view[order@[b] as int].0 != view[order@[a] as int].0);
        }
    }
    assert forall|k: Seq<char>| ov.to_set().contains(k) <==> key_set(view).contains(k) by {
        if ov.to_set().contains(k) {
            let m = choose|m: int| 0 <= m < ov.len() && ov[m] == k;
            assert(kv[order@[m] as int] == k);
            assert(view.map_values(|l: (Seq<char>, Seq<Seq<char>>)| l.0)[order@[m] as int] == k);
        }
        if key_set(view).contains(k) {
            let keys_view = view.map_values(|l: (Seq<char>, Seq<Seq<char>>)| l.0);
            let i = choose|i: int| 0 <= i < keys_view.len() && keys_view[i] == k;
            assert(order@.contains(i as usize));
            let m = choose|m: int| 0 <= m < order@.len() && order@[m] == i as usize;
            assert(ov[m] == k);
        }
    }
    assert(ov.to_set() =~= key_set(view));
    out
}

/// The positions whose flag is set, in increasing order.
fn set_positions(flags: &Vec<bool>) -> (r: Vec<usize>)
    ensures
        forall|a: int, b: int| 0 <= a < b < r@.len() ==> #[trigger] r@[a] < #[trigger] r@[b],
        forall|m: int| 0 <= m < r@.len() ==> (#[trigger] r@[m]) < flags@.len() && flags@[r@[m] as int],
        forall|t: usize| t < flags@.len() && flags@[t as int] ==> #[trigger] r@.contains(t),
{
    let mut r: Vec<usize> = Vec::new();
    let mut t: usize = 0;
    while t < flags.len()
        invariant
            t <= flags@.len(),
            forall|a: int, b: int| 0 <= a < b < r@.len() ==> #[trigger] r@[a] < #[trigger] r@[b],
            forall|m: int| 0 <= m < r@.len() ==> (#[trigger] r@[m]) < t && flags@[r@[m] as int],
            forall|u: usize| u < t && flags@[u as int] ==> #[trigger] r@.contains(u),
        decreases flags@.len() - t,
    {
        if flags[t] {
            let ghost before = r@;
            r.push(t);
            assert(r@ == before.push(t));
            assert forall|u: usize| u < t + 1 && flags@[u as int] implies #[trigger] r@.contains(u) by {
                if u == t {
                    assert(r@[r@.len() - 1] == t);
                } else {
                    assert(before.contains(u));
                    let m = choose|m: int| 0 <= m < before.len() && before[m] == u;
                    assert(r@[m] == u);
                }
            }
        } else {
            assert forall|u: usize| u < t + 1 && flags@[u as int] implies #[trigger] r@.contains(u) by {}
        }
        t = t + 1;
    }
    r
}

/// Picking the flagged entries of an ascending list, in order, keeps it
/// ascending and picks exactly the flagged keys.
proof fn lemma_picked(sv: Seq<Seq<char>>, flags: Seq<bool>, pos: Seq<usize>, out: Seq<Seq<char>>)
    requires
        ascending(sv),
        sv.len() <= usize::MAX,
        flags.len() == sv.len(),
        forall|a: int, b: int| 0 <= a < b < pos.len() ==> #[trigger] pos[a] < #[trigger] pos[b],
        forall|m: int| 0 <= m < pos.len() ==> (#[trigger] pos[m]) < flags.len() && flags[pos[m] as int],
        forall|t: usize| t < flags.len() && flags[t as int] ==> #[trigger] pos.contains(t),
        out.len() == pos.len(),
        forall|m: int| 0 <= m < out.len() ==> #[trigger] out[m] == sv[pos[m] as int],
    ensures
        ascending(out),
        forall|k: Seq<char>| out.to_set().contains(k) <==> exists|t: int| 0 <= t < sv.len() && flags[t] && #[trigger] sv[t] == k,
{
    assert forall|a: int, b: int| 0 <= a < b < out.len() implies id_le(#[trigger] out[a], #[trigger] out[b]) && out[a] != out[b] by {
        assert(pos[a] < pos[b]);
        assert(out[a] == sv[pos[a] as int] && out[b] == sv[pos[b] as int]);
    }
    assert forall|k: Seq<char>| out.to_set().contains(k) <==> exists|t: int| 0 <= t < sv.len() && flags[t] && #[trigger] sv[t] == k by {
        if out.to_set().contains(k) {
            let m = choose|m: int| 0 <= m < out.len() && out[m] == k;
            assert(sv[pos[m] as int] == k);
        }
        if exists|t: int| 0 <= t < sv.len() && flags[t] && #[trigger] sv[t] == k {
            let t = choose|t: int| 0 <= t < sv.len() && flags[t] && #[trigger] sv[t] == k;
            let tu = t as usize;
            assert(tu as int == t);
            assert(tu < flags.len() && flags[tu as int]);
            assert(pos.contains(tu));
            let m = choose|m: int| 0 <= m < pos.len() && pos[m] == tu;
            assert(out[m] == sv[pos[m] as int]);
            assert(out[m] == k);
        }
    }
}

/// Copies of the entries of `keys` at `pos`, in order.
fn copies_at(keys: &Vec<String>, pos: &Vec<usize>) -> (r: Vec<String>)
    requires
        forall|m: int| 0 <= m < pos@.len() ==> (#[trigger] pos@[m]) < keys@.len(),
    ensures
        r@.len() == pos@.len(),
        forall|m: int| 0 <= m < r@.len() ==> (#[trigger] id_views(r@)[m]) == id_views(keys@)[pos@[m] as int],
{
    let mut r: Vec<String> = Vec::new();
    let mut m: usize = 0;
    while m < pos.len()
        invariant
            m <= pos@.len(),
            forall|j: int| 0 <= j < pos@.len() ==> (#[trigger] pos@[j]) < keys@.len(),
            r@.len() == m,
            forall|j: int| 0 <= j < m ==> (#[trigger] r@[j])@ == keys@[pos@[j] as int]@,
        decreases pos@.len() - m,
    {
        r.push(owned(keys[pos[m]].as_str()));
        m = m + 1;
    }
    r
}

/// Whether `name` is among `names`.
fn has_name(names: &Vec<String>, name: &str) -> (r: bool)
    ensures
        r == id_views(names@).contains(name@),
{
    let mut i: usize = 0;
    while i < names.len()
        invariant
            i <= names@.len(),
            forall|j: int| 0 <= j < i ==> (#[trigger] names@[j])@ != name@,
        decreases names@.len() - i,
    {
        if str_eq(names[i].as_str(), name) {
            assert(id_views(names@)[i as int] == name@);
            return true;
        }
        i = i + 1;
    }
    assert forall|j: int| 0 <= j < id_views(names@).len() implies #[trigger] id_views(names@)[j] != name@ by {
        assert(id_views(names@)[j] == names@[j]@);
    }
    false
}

/// Whether every name of `a` is among `b`.
fn names_within(a: &Vec<String>, b: &Vec<String>) -> (r: bool)
    ensures
        r == id_views(a@).to_set().subset_of(id_views(b@).to_set()),
{
    let mut i: usize = 0;
    while i < a.len()
        invariant
            i <= a@.len(),
            forall|j: int| 0 <= j < i ==> id_views(b@).contains(#[trigger] id_views(a@)[j]),
        decreases a@.len() - i,
    {
        if !has_name(b, a[i].as_str()) {
            assert(id_views(a@).to_set().contains(id_views(a@)[i as int]));
            return false;
        }
        i = i + 1;
    }
    assert forall|k: Seq<char>| id_views(a@).to_set().contains(k) implies id_views(b@).to_set().contains(k) by {
        let j = choose|j: int| 0 <= j < id_views(a@).len() && id_views(a@)[j] == k;
    }
    true
}

/// The interpolation names of message `key`.
pub open spec fn names_of(leaves: Seq<(Seq<char>, Seq<Seq<char>>)>, key: Seq<char>) -> Seq<Seq<char>> {
    match leaf_position(leaves, key) {
        Some(i) => leaves[i].1,
        None => Seq::empty(),
    }
}

/// `key` interpolates different names in the two catalogs.
pub open spec fn interpolations_differ(source: Seq<(Seq<char>, Seq<Seq<char>>)>, translated: Seq<(Seq<char>, Seq<Seq<char>>)>, key: Seq<char>) -> bool {
    names_of(source, key).to_set() != names_of(translated, key).to_set()
}

/// How a translated catalog departs from its English source.
pub struct ParityReport {
    /// Source keys the translation lacks, ascending.
    pub missing: Vec<String>,
    /// Translation keys the source lacks, ascending.
    pub extra: Vec<String>,
    /// Keys of both whose interpolation names differ, ascending, each with
    /// the source's names and the translation's.
    pub differing: Vec<(String, Vec<String>, Vec<String>)>,
}

/// `r` reports exactly how `translated` departs from `source`: the keys it
/// lacks, the keys it adds, and the keys whose interpolation names differ
/// (with both catalogs' names), each list in ascending key order.
pub open spec fn is_parity_report(
    r: ParityReport,
    source: Seq<(Seq<char>, Seq<Seq<char>>)>,
    translated: Seq<(Seq<char>, Seq<Seq<char>>)>,
) -> bool {
    &&& ascending(id_views(r.missing@))
    &&& id_views(r.missing@).to_set() == key_set(source).difference(key_set(translated))
    &&& ascending(id_views(r.extra@))
    &&& id_views(r.extra@).to_set() == key_set(translated).difference(key_set(source))
    &&& ascending(r.differing@.map_values(|d: (String, Vec<String>, Vec<String>)| d.0@))
    &&& r.differing@.map_values(|d: (String, Vec<String>, Vec<String>)| d.0@).to_set()
        == key_set(source).intersect(key_set(translated)).filter(|k: Seq<char>| interpolations_differ(source, translated, k))
    &&& forall|m: int| 0 <= m < r.differing@.len() ==> {
        &&& id_views((#[trigger] r.differing@[m]).1@) == names_of(source, r.differing@[m].0@)
        &&& id_views(r.differing@[m].2@) == names_of(translated, r.differing@[m].0@)
    }
}

/// Where the message `key` is in `leaves`, and whether it is there.
proof fn lemma_key_set_position(leaves: Seq<(Seq<char>, Seq<Seq<char>>)>, key: Seq<char>)
    ensures
        key_set(leaves).contains(key) <==> leaf_position(leaves, key) is Some,
{
    lemma_leaf_position(leaves, key);
    let ks = leaves.map_values(|l: (Seq<char>, Seq<Seq<char>>)| l.0);
    if let Some(i) = leaf_position(leaves, key) {
        assert(ks[i] == key);
    }
    if key_set(leaves).contains(key) {
        let i = choose|i: int| 0 <= i < ks.len() && ks[i] == key;
        assert(leaves[i].0 == key);
    }
}

/// Compares a translated catalog with its English source.
pub fn verify_parity(source: &Vec<(String, Vec<String>)>, translated: &Vec<(String, Vec<String>)>) -> (r: ParityReport)
    requires
        distinct_keys(leaves_view(source@)),
        distinct_keys(leaves_view(translated@)),
    ensures
        is_parity_report(r, leaves_view(source@), leaves_view(translated@)),
{
    let ghost src = leaves_view(source@);
    let ghost tr = leaves_view(translated@);
    let source_keys = sorted_keys(source);
    let translated_keys = sorted_keys(translated);
    let ghost sv = id_views(source_keys@);
    let ghost tv = id_views(translated_keys@);

    // Flags over the sorted source keys: missing from the translation, and
    // present in both with different names.
    let mut missing_flags: Vec<bool> = Vec::new();
    let mut differ_flags: Vec<bool> = Vec::new();
    let mut t: usize = 0;
    while t < source_keys.len()
        invariant
            t <= source_keys@.len(),
            sv == id_views(source_keys@),
            src == leaves_view(source@),
            tr == leaves_view(translated@),
            sv.to_set() == key_set(src),
            missing_flags@.len() == t,
            differ_flags@.len() == t,
            forall|u: int| 0 <= u < t ==> #[trigger] missing_flags@[u] == !key_set(tr).contains(sv[u]),
            forall|u: int| 0 <= u < t ==> #[trigger] differ_flags@[u]
                == (key_set(tr).contains(sv[u]) && interpolations_differ(src, tr, sv[u])),
        decreases source_keys@.len() - t,
    {
        let key = source_keys[t].as_str();
        proof {
            lemma_key_set_position(tr, key@);
        }
        match find_leaf(translated, key) {
            None => {
                missing_flags.push(true);
                differ_flags.push(false);
            },
            Some(j) => {
                proof {
                    lemma_leaf_position(tr, key@);
                    assert(sv.to_set().contains(key@)) by {
                        assert(sv[t as int] == key@);
                    }
                    lemma_key_set_position(src, key@);
                    lemma_leaf_position(src, key@);
                }
                let i = match find_leaf(source, key) {
                    Some(i) => i,
                    // Unreachable: every sorted key is one of the source's.
                    None => 0,
                };
                let same = names_within(&source[i].1, &translated[j].1) && names_within(&translated[j].1, &source[i].1);
                proof {
                    let a = id_views(source@[i as int].1@);
                    let b = id_views(translated@[j as int].1@);
                    assert(a == src[i as int].1);
                    assert(b == tr[j as int].1);
                    if a.to_set().subset_of(b.to_set()) && b.to_set().subset_of(a.to_set()) {
                        assert(a.to_set() =~= b.to_set());
                    }
                }
                missing_flags.push(false);
                differ_flags.push(!same);
            },
        }
        t = t + 1;
    }
    let missing_positions = set_positions(&missing_flags);
    let differ_positions = set_positions(&differ_flags);
    let missing = copies_at(&source_keys, &missing_positions);
    // The lists' lengths fit a `usize`, as the picking lemma needs.
    let source_count = source_keys.len();
    let translated_count = translated_keys.len();
    proof {
        lemma_picked(sv, missing_flags@, missing_positions@, id_views(missing@));
        assert forall|k: Seq<char>| id_views(missing@).to_set().contains(k)
            <==> key_set(src).difference(key_set(tr)).contains(k) by {
            if key_set(src).contains(k) && !key_set(tr).contains(k) {
                assert(sv.to_set().contains(k));
                let u = choose|u: int| 0 <= u < sv.len() && sv[u] == k;
                assert(missing_flags@[u]);
            }
            if id_views(missing@).to_set().contains(k) {
                let u = choose|u: int| 0 <= u < sv.len() && missing_flags@[u] && #[trigger] sv[u] == k;
                assert(sv.to_set().contains(sv[u]));
            }
        }
        assert(id_views(missing@).to_set() =~= key_set(src).difference(key_set(tr)));
    }

    let mut differing: Vec<(String, Vec<String>, Vec<String>)> = Vec::new();
    let mut m: usize = 0;
    while m < differ_positions.len()
        invariant
            m <= differ_positions@.len(),
            sv == id_views(source_keys@),
            src == leaves_view(source@),
            tr == leaves_view(translated@),
            sv.to_set() == key_set(src),
            distinct_keys(src),
            distinct_keys(tr),
            forall|j: int| 0 <= j < differ_positions@.len() ==> (#[trigger] differ_positions@[j]) < differ_flags@.len()
                && differ_flags@[differ_positions@[j] as int],
            differ_flags@.len() == source_keys@.len(),
            forall|u: int| 0 <= u < differ_flags@.len() ==> #[trigger] differ_flags@[u]
                == (key_set(tr).contains(sv[u]) && interpolations_differ(src, tr, sv[u])),
            differing@.len() == m,
            forall|j: int| 0 <= j < m ==> {
                &&& (#[trigger] differing@[j]).0@ == sv[differ_positions@[j] as int]
                &&& id_views(differing@[j].1@) == names_of(src, differing@[j].0@)
                &&& id_views(differing@[j].2@) == names_of(tr, differing@[j].0@)
            },
        decreases differ_positions@.len() - m,
    {
        let key = source_keys[differ_positions[m]].as_str();
        proof {
            let u = differ_positions@[m as int] as int;
            assert(key@ == sv[u]);
            assert(sv.to_set().contains(key@));
            lemma_key_set_position(src, key@);
            lemma_key_set_position(tr, key@);
            lemma_leaf_position(src, key@);
            lemma_leaf_position(tr, key@);
        }
        let i = match find_leaf(source, key) {
            Some(i) => i,
            // Unreachable: every sorted key is one of the source's.
            None => 0,
        };
        let j = match find_leaf(translated, key) {
            Some(j) => j,
            // Unreachable: only keys of both catalogs are flagged.
            None => 0,
        };
        let source_names = copies_all(&source[i].1);
        let translated_names = copies_all(&translated[j].1);
        differing.push((owned(key), source_names, translated_names));
        m = m + 1;
    }
    let ghost dk = differing@.map_values(|d: (String, Vec<String>, Vec<String>)| d.0@);
    proof {
        lemma_picked(sv, differ_flags@, differ_positions@, dk);
        assert forall|k: Seq<char>| dk.to_set().contains(k)
            <==> key_set(src).intersect(key_set(tr)).filter(|k: Seq<char>| interpolations_differ(src, tr, k)).contains(k) by {
            if key_set(src).contains(k) && key_set(tr).contains(k) && interpolations_differ(src, tr, k) {
                assert(sv.to_set().contains(k));
                let u = choose|u: int| 0 <= u < sv.len() && sv[u] == k;
                assert(differ_flags@[u]);
            }
            if dk.to_set().contains(k) {
                let u = choose|u: int| 0 <= u < sv.len() && differ_flags@[u] && #[trigger] sv[u] == k;
                assert(sv.to_set().contains(sv[u]));
            }
        }
        assert(dk.to_set() =~= key_set(src).intersect(key_set(tr)).filter(|k: Seq<char>| interpolations_differ(src, tr, k)));
    }

    let mut extra_flags: Vec<bool> = Vec::new();
    let mut t: usize = 0;
    while t < translated_keys.len()
        invariant
            t <= translated_keys@.len(),
            tv == id_views(translated_keys@),
            src == leaves_view(source@),
            extra_flags@.len() == t,
            forall|u: int| 0 <= u < t ==> #[trigger] extra_flags@[u] == !key_set(src).contains(tv[u]),
        decreases translated_keys@.len() - t,
    {
        proof {
            lemma_key_set_position(src, tv[t as int]);
        }
        let present = find_leaf(source, translated_keys[t].as_str()).is_some();
        extra_flags.push(!present);
        t = t + 1;
    }
    let extra_positions = set_positions(&extra_flags);
    let extra = copies_at(&translated_keys, &extra_positions);
    proof {
        lemma_picked(tv, extra_flags@, extra_positions@, id_views(extra@));
        assert forall|k: Seq<char>| id_views(extra@).to_set().contains(k)
            <==> key_set(tr).difference(key_set(src)).contains(k) by {
            if key_set(tr).contains(k) && !key_set(src).contains(k) {
                assert(tv.to_set().contains(k));
                let u = choose|u: int| 0 <= u < tv.len() && tv[u] == k;
                assert(extra_flags@[u]);
            }
            if id_views(extra@).to_set().contains(k) {
                let u = choose|u: int| 0 <= u < tv.len() && extra_flags@[u] && #[trigger] tv[u] == k;
                assert(tv.to_set().contains(tv[u]));
            }
        }
        assert(id_views(extra@).to_set() =~= key_set(tr).difference(key_set(src)));
    }
    ParityReport { missing, extra, differing }
}

/// Copies of all of `names`.
fn copies_all(names: &Vec<String>) -> (r: Vec<String>)
    ensures
        id_views(r@) == id_views(names@),
{
    let mut r: Vec<String> = Vec::new();
    let mut i: usize = 0;
    while i < names.len()
        invariant
            i <= names@.len(),
            r@.len() == i,
            forall|j: int| 0 <= j < i ==> (#[trigger] r@[j])@ == names@[j]@,
        decreases names@.len() - i,
    {
        r.push(owned(names[i].as_str()));
        i = i + 1;
    }
    assert(id_views(r@) =~= id_views(names@));
    r
}

/// `s` with every leading repetition of `p` removed (`trim_start_matches`).
pub open spec fn strip_repeated(s: Seq<char>, p: Seq<char>) -> Seq<char>
    decreases s.len(),
{
    if p.len() > 0 && s.len() >= p.len() && s.take(p.len() as int) == p {
        strip_repeated(s.skip(p.len() as int), p)
    } else {
        s
    }
}

/// `s` with every hyphen replaced by an underscore.
pub open spec fn underscored(s: Seq<char>) -> Seq<char> {
    s.map_values(|c: char| if c == '-' { '_' } else { c })
}

/// `s` starts with `p`.
pub open spec fn begins_with(s: Seq<char>, p: Seq<char>) -> bool {
    s.len() >= p.len() && s.take(p.len() as int) == p
}

/// The key prefixes a catalog file of scope `scope` may define: the fixed
/// lists of the consolidated scopes; otherwise `tui-ui-x` owns `tui.ui.x.`,
/// `tui-x` owns `tui.x.` and any other `x` owns `x.`, hyphens becoming
/// underscores.
pub open spec fn owner_prefix_list(scope: Seq<char>) -> Seq<Seq<char>> {
    if scope == "app-core"@ {
        seq!["cache."@, "main."@, "paths."@, "settings."@, "shared."@, "theme."@]
    } else if scope == "cli-surface"@ {
        seq!["cli."@, "claude_diagnostics."@]
    } else if scope == "tui-ui-chrome"@ {
        seq!["tui.ui.header."@, "tui.ui.footer."@, "tui.ui.loading."@]
    } else if scope == "tui-ui-insights"@ {
        seq!["tui.ui.achievements."@, "tui.ui.bar_chart."@, "tui.ui.portraits."@, "tui.ui.profile."@]
    } else if begins_with(scope, "tui-ui-"@) {
        seq!["tui.ui."@ + underscored(strip_repeated(scope, "tui-ui-"@)) + "."@]
    } else if begins_with(scope, "tui-"@) {
        seq!["tui."@ + underscored(strip_repeated(scope, "tui-"@)) + "."@]
    } else {
        seq![underscored(scope) + "."@]
    }
}

/// Whether `s` starts with `p`.
fn starts_with_chars(s: &Vec<char>, p: &Vec<char>) -> (r: bool)
    ensures
        r == begins_with(s@, p@),
{
    if s.len() < p.len() {
        return false;
    }
    let mut i: usize = 0;
    while i < p.len()
        invariant
            i <= p@.len() <= s@.len(),
            forall|j: int| 0 <= j < i ==> s@[j] == p@[j],
        decreases p@.len() - i,
    {
        if s[i] != p[i] {
            assert(s@.take(p@.len() as int)[i as int] != p@[i as int]);
            return false;
        }
        i = i + 1;
    }
    assert(s@.take(p@.len() as int) =~= p@);
    true
}

/// Removes every leading repetition of `prefix` from `s`.
fn strip_repeated_prefix(s: &str, prefix: &str) -> (r: String)
    ensures
        r@ == strip_repeated(s@, prefix@),
{
    let chars = chars_of(s);
    let p = chars_of(prefix);
    let mut start: usize = 0;
    assert(chars@.skip(0) =~= chars@);
    loop
        invariant
            chars@ == s@,
            p@ == prefix@,
            start <= chars@.len(),
            strip_repeated(chars@.skip(start as int), p@) == strip_repeated(s@, p@),
        decreases chars@.len() - start,
    {
        let rest = string_from_range(&chars, start, chars.len());
        let rest_chars = chars_of(rest.as_str());
        assert(rest_chars@ =~= chars@.skip(start as int));
        if p.len() > 0 && starts_with_chars(&rest_chars, &p) {
            assert(chars@.skip(start as int).skip(p@.len() as int) =~= chars@.skip(start as int + p@.len()));
            start = start + p.len();
        } else {
            return rest;
        }
    }
}

/// `s` with hyphens made underscores.
fn underscore_hyphens(s: &str) -> (r: String)
    ensures
        r@ == underscored(s@),
{
    let chars = chars_of(s);
    let mut out = String::new();
    let mut i: usize = 0;
    while i < chars.len()
        invariant
            chars@ == s@,
            i <= chars@.len(),
            out@ == underscored(s@).take(i as int),
        decreases chars@.len() - i,
    {
        let c = chars[i];
        push_char(&mut out, if c == '-' { '_' } else { c });
        assert(underscored(s@).take(i as int + 1) =~= underscored(s@).take(i as int).push(underscored(s@)[i as int]));
        i = i + 1;
    }
    assert(underscored(s@).take(chars@.len() as int) =~= underscored(s@));
    out
}

/// `head`, then `middle`, then a dot.
fn joined_prefix(head: &str, middle: &str) -> (r: String)
    ensures
        r@ == head@ + middle@ + "."@,
{
    let mut out = owned(head);
    push_all(&mut out, middle);
    push_all(&mut out, ".");
    out
}

/// The key prefixes a catalog file of scope `scope` may define.
pub fn owner_prefixes(scope: &str) -> (r: Vec<String>)
    ensures
        id_views(r@) == owner_prefix_list(scope@),
{
    let list: Vec<&'static str> = if str_eq(scope, "app-core") {
        vec!["cache.", "main.", "paths.", "settings.", "shared.", "theme."]
    } else if str_eq(scope, "cli-surface") {
        vec!["cli.", "claude_diagnostics."]
    } else if str_eq(scope, "tui-ui-chrome") {
        vec!["tui.ui.header.", "tui.ui.footer.", "tui.ui.loading."]
    } else if str_eq(scope, "tui-ui-insights") {
        vec!["tui.ui.achievements.", "tui.ui.bar_chart.", "tui.ui.portraits.", "tui.ui.profile."]
    } else {
        Vec::new()
    };
    if list.len() > 0 {
        let mut r: Vec<String> = Vec::new();
        let mut i: usize = 0;
        while i < list.len()
            invariant
                i <= list@.len(),
                r@.len() == i,
                forall|j: int| 0 <= j < i ==> (#[trigger] r@[j])@ == list@[j]@,
            decreases list@.len() - i,
        {
            r.push(owned(list[i]));
            i = i + 1;
        }
        assert(id_views(r@) =~= owner_prefix_list(scope@));
        return r;
    }
    let scope_chars = chars_of(scope);
    let tui_ui = chars_of("tui-ui-");
    let tui = chars_of("tui-");
    let prefix = if starts_with_chars(&scope_chars, &tui_ui) {
        joined_prefix("tui.ui.", underscore_hyphens(strip_repeated_prefix(scope, "tui-ui-").as_str()).as_str())
    } else if starts_with_chars(&scope_chars, &tui) {
        joined_prefix("tui.", underscore_hyphens(strip_repeated_prefix(scope, "tui-").as_str()).as_str())
    } else {
        joined_prefix("", underscore_hyphens(scope).as_str())
    };
    proof {
        reveal_strlit("");
    }
    let r = vec![prefix];
    assert(id_views(r@) =~= owner_prefix_list(scope@));
    r
}

/// `key` starts with one of `prefixes`.
pub open spec fn owned_by(key: Seq<char>, prefixes: Seq<Seq<char>>) -> bool {
    exists|i: int| 0 <= i < prefixes.len() && begins_with(key, #[trigger] prefixes[i])
}

/// Whether `key` starts with one of `prefixes`.
fn has_owner(key: &str, prefixes: &Vec<String>) -> (r: bool)
    ensures
        r == owned_by(key@, id_views(prefixes@)),
{
    let key_chars = chars_of(key);
    let mut i: usize = 0;
    while i < prefixes.len()
        invariant
            key_chars@ == key@,
            i <= prefixes@.len(),
            forall|j: int| 0 <= j < i ==> !begins_with(key@, #[trigger] id_views(prefixes@)[j]),
        decreases prefixes@.len() - i,
    {
        let p = chars_of(prefixes[i].as_str());
        if starts_with_chars(&key_chars, &p) {
            assert(begins_with(key@, id_views(prefixes@)[i as int]));
            return true;
        }
        i = i + 1;
    }
    false
}

/// `keys` are exactly the keys of `leaves` outside the prefixes `scope`
/// owns, in ascending order.
pub open spec fn is_outside_report(keys: Seq<Seq<char>>, scope: Seq<char>, leaves: Seq<(Seq<char>, Seq<Seq<char>>)>) -> bool {
    &&& ascending(keys)
    &&& keys.to_set() == key_set(leaves).filter(|k: Seq<char>| !owned_by(k, owner_prefix_list(scope)))
}

/// The keys of a catalog of scope `scope` that fall outside the prefixes
/// the scope owns, in ascending order.
pub fn keys_outside_scope(scope: &str, leaves: &Vec<(String, Vec<String>)>) -> (r: Vec<String>)
    requires
        distinct_keys(leaves_view(leaves@)),
    ensures
        is_outside_report(id_views(r@), scope@, leaves_view(leaves@)),
{
    let prefixes = owner_prefixes(scope);
    let keys = sorted_keys(leaves);
    let ghost kv = id_views(keys@);
    let ghost owners = owner_prefix_list(scope@);
    let mut flags: Vec<bool> = Vec::new();
    let mut t: usize = 0;
    while t < keys.len()
        invariant
            t <= keys@.len(),
            kv == id_views(keys@),
            id_views(prefixes@) == owners,
            flags@.len() == t,
            forall|u: int| 0 <= u < t ==> #[trigger] flags@[u] == !owned_by(kv[u], owners),
        decreases keys@.len() - t,
    {
        let owned = has_owner(keys[t].as_str(), &prefixes);
        flags.push(!owned);
        t = t + 1;
    }
    let positions = set_positions(&flags);
    let r = copies_at(&keys, &positions);
    // The list's length fits a `usize`, as the picking lemma needs.
    let count = keys.len();
    proof {
        lemma_picked(kv, flags@, positions@, id_views(r@));
        let wanted = key_set(leaves_view(leaves@)).filter(|k: Seq<char>| !owned_by(k, owners));
        assert forall|k: Seq<char>| id_views(r@).to_set().contains(k) <==> wanted.contains(k) by {
            if wanted.contains(k) {
                assert(kv.to_set().contains(k));
                let u = choose|u: int| 0 <= u < kv.len() && kv[u] == k;
                assert(flags@[u]);
            }
            if id_views(r@).to_set().contains(k) {
                let u = choose|u: int| 0 <= u < kv.len() && flags@[u] && #[trigger] kv[u] == k;
                assert(kv.to_set().contains(kv[u]));
            }
        }
        assert(id_views(r@).to_set() =~= wanted);
    }
    r
}

/// Each distinct name of `names` once, in ascending order.
fn ascending_unique(names: &Vec<String>) -> (r: Vec<String>)
    ensures
        ascending(id_views(r@)),
        id_views(r@).to_set() == id_views(names@).to_set(),
{
    let ghost nv = id_views(names@);
    let order = sorted_positions(names);
    let mut out: Vec<String> = Vec::new();
    let mut t: usize = 0;
    while t < order.len()
        invariant
            t <= order@.len(),
            nv == id_views(names@),
            is_permutation(order@, names@.len() as int),
            sorted_by_id(nv, order@),
            ascending(id_views(out@)),
            t > 0 ==> out@.len() > 0 && id_views(out@).last() == nv[order@[t - 1] as int],
            t == 0 ==> out@.len() == 0,
            forall|m: int| 0 <= m < out@.len() ==> exists|u: int| 0 <= u < t && #[trigger] id_views(out@)[m] == nv[order@[u] as int],
            forall|u: int| 0 <= u < t ==> id_views(out@).contains(#[trigger] nv[order@[u] as int]),
        decreases order@.len() - t,
    {
        let ghost before = id_views(out@);
        let candidate = names[order[t]].as_str();
        let fresh = out.len() == 0 || !str_eq(out[out.len() - 1].as_str(), candidate);
        if fresh {
            out.push(owned(candidate));
            proof {
                assert(id_views(out@) =~= before.push(nv[order@[t as int] as int]));
                if t > 0 {
                    assert(id_le(nv[order@[t - 1] as int], nv[order@[t as int] as int]));
                }
                assert forall|a: int, b: int| 0 <= a < b < id_views(out@).len() implies id_le(#[trigger] id_views(out@)[a], #[trigger] id_views(out@)[b]) && id_views(out@)[a] != id_views(out@)[b] by {
                    if b == id_views(out@).len() - 1 && a < b {
                        // The earlier entry came from an earlier sorted position.
                        let u = choose|u: int| 0 <= u < t && #[trigger] before[a] == nv[order@[u] as int];
                        assert(id_views(out@)[a] == before[a]);
                        assert(id_le(nv[order@[u] as int], nv[order@[t as int] as int]));
                        if a < before.len() - 1 && before[a] == nv[order@[t as int] as int] {
                            // Then the last entry would sit between two equal ones.
                            lemma_id_le_total(before.last(), before[a]);
                        }
                    } else {
                        assert(id_views(out@)[a] == before[a] && id_views(out@)[b] == before[b]);
                    }
                }
            }
        } else {
            proof {
                assert(nv[order@[t as int] as int] == before.last());
            }
        }
        proof {
            assert forall|m: int| 0 <= m < id_views(out@).len() implies exists|u: int| 0 <= u < t + 1 && #[trigger] id_views(out@)[m] == nv[order@[u] as int] by {
                if fresh && m == id_views(out@).len() - 1 {
                    assert(id_views(out@)[m] == nv[order@[t as int] as int]);
                } else {
                    assert(id_views(out@)[m] == before[m]);
                    let u = choose|u: int| 0 <= u < t && #[trigger] before[m] == nv[order@[u] as int];
                }
            }
            assert forall|u: int| 0 <= u < t + 1 implies id_views(out@).contains(#[trigger] nv[order@[u] as int]) by {
                if u == t {
                    assert(id_views(out@).last() == nv[order@[t as int] as int]);
                } else {
                    assert(before.contains(nv[order@[u] as int]));
                    let m = choose|m: int| 0 <= m < before.len() && before[m] == nv[order@[u] as int];
                    assert(id_views(out@)[m] == before[m]);
                }
            }
        }
        t = t + 1;
    }
    proof {
        assert forall|k: Seq<char>| id_views(out@).to_set().contains(k) <==> nv.to_set().contains(k) by {
            if id_views(out@).to_set().contains(k) {
                let m = choose|m: int| 0 <= m < id_views(out@).len() && id_views(out@)[m] == k;
                let u = choose|u: int| 0 <= u < t && #[trigger] id_views(out@)[m] == nv[order@[u] as int];
            }
            if nv.to_set().contains(k) {
                let i = choose|i: int| 0 <= i < nv.len() && nv[i] == k;
                let iu = i as usize;
                assert(order@.contains(iu));
                let u = choose|u: int| 0 <= u < order@.len() && order@[u] == iu;
                assert(id_views(out@).contains(nv[order@[u] as int]));
            }
        }
        assert(id_views(out@).to_set() =~= nv.to_set());
    }
    out
}

/// The last position of `c` in `s`.
pub open spec fn last_of(s: Seq<char>, c: char) -> Option<int>
    decreases s.len(),
{
    if s.len() == 0 {
        None
    } else if s.last() == c {
        Some(s.len() - 1)
    } else {
        last_of(s.drop_last(), c)
    }
}

/// Where `last_of` finds its character.
proof fn lemma_last_of(s: Seq<char>, c: char)
    ensures
        last_of(s, c) matches Some(i) ==> 0 <= i < s.len() && s[i] == c,
    decreases s.len(),
{
    if s.len() > 0 && s.last() != c {
        lemma_last_of(s.drop_last(), c);
    }
}

/// Why a catalog file's name was refused.
#[derive(Debug, Clone, Copy, PartialEq, Eq, Structural)]
pub enum FileNameError {
    /// No `.<locale>` before the extension.
    NoLocale,
    /// An empty scope or locale.
    EmptyPart,
}

/// The scope and locale a file named `<scope>.<locale>.yml` holds, from
/// its name without the extension: split at the last dot, both parts
/// non-empty.
pub open spec fn stem_parts(stem: Seq<char>) -> Result<(Seq<char>, Seq<char>), FileNameError> {
    match last_of(stem, '.') {
        None => Err(FileNameError::NoLocale),
        Some(i) => {
            let scope = stem.take(i);
            let locale = stem.skip(i + 1);
            if scope.len() == 0 || locale.len() == 0 {
                Err(FileNameError::EmptyPart)
            } else {
                Ok((scope, locale))
            }
        },
    }
}

/// Splits a catalog file's name (without `.yml`) into scope and locale.
pub fn split_file_stem(stem: &str) -> (r: Result<(String, String), FileNameError>)
    ensures
        match r {
            Ok((scope, locale)) => stem_parts(stem@) == Ok::<(Seq<char>, Seq<char>), FileNameError>((scope@, locale@)),
            Err(e) => stem_parts(stem@) == Err::<(Seq<char>, Seq<char>), FileNameError>(e),
        },
{
    let chars = chars_of(stem);
    let mut n: usize = chars.len();
    assert(chars@.take(n as int) =~= chars@);
    while n > 0
        invariant
            n <= chars@.len(),
            chars@ == stem@,
            last_of(stem@, '.') == last_of(chars@.take(n as int), '.'),
        ensures
            n <= chars@.len(),
            last_of(stem@, '.') == last_of(chars@.take(n as int), '.'),
            n > 0 ==> chars@[n - 1] == '.',
        decreases n,
    {
        if chars[n - 1] == '.' {
            break;
        }
        assert(chars@.take(n as int).drop_last() =~= chars@.take(n - 1));
        n = n - 1;
    }
    if n == 0 {
        return Err(FileNameError::NoLocale);
    }
    let dot = n - 1;
    assert(chars@.take(n as int).last() == '.');
    assert(last_of(stem@, '.') == Some(dot as int));
    let scope = string_from_range(&chars, 0, dot);
    let locale = string_from_range(&chars, dot + 1, chars.len());
    assert(scope@ =~= stem@.take(dot as int));
    assert(locale@ =~= stem@.skip(dot as int + 1));
    if dot == 0 || dot + 1 == chars.len() {
        return Err(FileNameError::EmptyPart);
    }
    Ok((scope, locale))
}

/// One locale's catalog of one scope.
pub struct LocaleCatalog {
    pub scope: String,
    pub locale: String,
    pub leaves: Vec<(String, Vec<String>)>,
}

/// The abstract form of a list of catalogs.
pub open spec fn catalogs_view(cats: Seq<LocaleCatalog>) -> Seq<(Seq<char>, Seq<char>, Seq<(Seq<char>, Seq<Seq<char>>)>)> {
    cats.map_values(|c: LocaleCatalog| (c.scope@, c.locale@, leaves_view(c.leaves@)))
}

/// Where the catalog of `scope` in `locale` is.
pub open spec fn catalog_position(
    cats: Seq<(Seq<char>, Seq<char>, Seq<(Seq<char>, Seq<Seq<char>>)>)>,
    scope: Seq<char>,
    locale: Seq<char>,
) -> Option<int>
    decreases cats.len(),
{
    if cats.len() == 0 {
        None
    } else if cats.last().0 == scope && cats.last().1 == locale {
        Some(cats.len() - 1)
    } else {
        catalog_position(cats.drop_last(), scope, locale)
    }
}

/// Where `catalog_position` finds a catalog, it is.
proof fn lemma_catalog_position(
    cats: Seq<(Seq<char>, Seq<char>, Seq<(Seq<char>, Seq<Seq<char>>)>)>,
    scope: Seq<char>,
    locale: Seq<char>,
)
    ensures
        catalog_position(cats, scope, locale) matches Some(i) ==> 0 <= i < cats.len() && cats[i].0 == scope && cats[i].1 == locale,
        catalog_position(cats, scope, locale) is None ==> forall|i: int| 0 <= i < cats.len() ==> !(#[trigger] cats[i].0 == scope && cats[i].1 == locale),
    decreases cats.len(),
{
    if cats.len() > 0 && !(cats.last().0 == scope && cats.last().1 == locale) {
        lemma_catalog_position(cats.drop_last(), scope, locale);
        assert forall|i: int| 0 <= i < cats.len() - 1 implies #[trigger] cats[i] == cats.drop_last()[i] by {}
    }
}

/// Where the catalog of `scope` in `locale` is in `cats`.
fn find_catalog(cats: &Vec<LocaleCatalog>, scope: &str, locale: &str) -> (r: Option<usize>)
    ensures
        match r {
            Some(i) => catalog_position(catalogs_view(cats@), scope@, locale@) == Some(i as int),
            None => catalog_position(catalogs_view(cats@), scope@, locale@) is None,
        },
{
    let ghost view = catalogs_view(cats@);
    let mut n: usize = cats.len();
    assert(view.take(n as int) =~= view);
    while n > 0
        invariant
            n <= cats@.len(),
            view == catalogs_view(cats@),
            catalog_position(view, scope@, locale@) == catalog_position(view.take(n as int), scope@, locale@),
        decreases n,
    {
        assert(view.take(n as int).last() == view[n - 1]);
        if str_eq(cats[n - 1].scope.as_str(), scope) && str_eq(cats[n - 1].locale.as_str(), locale) {
            return Some(n - 1);
        }
        assert(view.take(n as int).drop_last() =~= view.take(n - 1));
        n = n - 1;
    }
    None
}

/// Adds a catalog, replacing an earlier one of the same scope and locale;
/// says whether one was replaced.
pub fn insert_catalog(cats: &mut Vec<LocaleCatalog>, catalog: LocaleCatalog) -> (replaced: bool)
    ensures
        replaced == catalog_position(catalogs_view(old(cats)@), catalog.scope@, catalog.locale@) is Some,
        catalogs_view(final(cats)@) == match catalog_position(catalogs_view(old(cats)@), catalog.scope@, catalog.locale@) {
            Some(i) => catalogs_view(old(cats)@).update(i, (catalog.scope@, catalog.locale@, leaves_view(catalog.leaves@))),
            None => catalogs_view(old(cats)@).push((catalog.scope@, catalog.locale@, leaves_view(catalog.leaves@))),
        },
{
    let ghost before = catalogs_view(cats@);
    let ghost entry = (catalog.scope@, catalog.locale@, leaves_view(catalog.leaves@));
    match find_catalog(cats, catalog.scope.as_str(), catalog.locale.as_str()) {
        Some(i) => {
            proof {
                lemma_catalog_position(before, catalog.scope@, catalog.locale@);
            }
            cats.set(i, catalog);
            assert(catalogs_view(cats@) =~= before.update(i as int, entry));
            true
        },
        None => {
            cats.push(catalog);
            assert(catalogs_view(cats@) =~= before.push(entry));
            false
        },
    }
}

/// The scopes of a list of catalogs.
pub open spec fn scope_set(cats: Seq<(Seq<char>, Seq<char>, Seq<(Seq<char>, Seq<Seq<char>>)>)>) -> Set<Seq<char>> {
    cats.map_values(|c: (Seq<char>, Seq<char>, Seq<(Seq<char>, Seq<Seq<char>>)>)| c.0).to_set()
}

/// The locales of a list of catalogs.
pub open spec fn locale_set(cats: Seq<(Seq<char>, Seq<char>, Seq<(Seq<char>, Seq<Seq<char>>)>)>) -> Set<Seq<char>> {
    cats.map_values(|c: (Seq<char>, Seq<char>, Seq<(Seq<char>, Seq<Seq<char>>)>)| c.1).to_set()
}

/// The locales `scope` has a catalog in.
pub open spec fn locales_of(cats: Seq<(Seq<char>, Seq<char>, Seq<(Seq<char>, Seq<Seq<char>>)>)>, scope: Seq<char>) -> Set<Seq<char>> {
    Set::new(|l: Seq<char>| exists|i: int| 0 <= i < cats.len() && #[trigger] cats[i].0 == scope && cats[i].1 == l)
}

/// The messages of `scope` in `locale`.
pub open spec fn leaves_at(
    cats: Seq<(Seq<char>, Seq<char>, Seq<(Seq<char>, Seq<Seq<char>>)>)>,
    scope: Seq<char>,
    locale: Seq<char>,
) -> Seq<(Seq<char>, Seq<Seq<char>>)> {
    match catalog_position(cats, scope, locale) {
        Some(i) => cats[i].2,
        None => Seq::empty(),
    }
}

/// Every catalog defines each key once (as parsed catalogs do).
pub open spec fn catalogs_ok(cats: Seq<(Seq<char>, Seq<char>, Seq<(Seq<char>, Seq<Seq<char>>)>)>) -> bool {
    forall|i: int| 0 <= i < cats.len() ==> distinct_keys(#[trigger] cats[i].2)
}

/// A translation of a scope: how it departs from the English source, and
/// the keys it defines outside the scope.
pub struct TranslationReport {
    pub locale: String,
    pub parity: ParityReport,
    pub outside: Vec<String>,
}

/// The checks of one scope's catalogs.
pub struct ScopeReport {
    pub scope: String,
    /// Locales some scope has and this one lacks, ascending.
    pub missing_locales: Vec<String>,
    /// Whether the scope has its English source.
    pub has_source: bool,
    /// Keys of the English source outside the scope, ascending.
    pub source_outside: Vec<String>,
    /// Every other locale of the scope, ascending, when the source exists.
    pub translations: Vec<TranslationReport>,
}

/// `r` checks its scope against `cats`: the locales it lacks; whether it
/// has English; and with English, the source's keys outside the scope and,
/// for each other locale in ascending order, its parity with the source
/// and its keys outside the scope.
pub open spec fn is_scope_report(r: ScopeReport, cats: Seq<(Seq<char>, Seq<char>, Seq<(Seq<char>, Seq<Seq<char>>)>)>) -> bool {
    let s = r.scope@;
    let source = leaves_at(cats, s, "en"@);
    let locales = r.translations@.map_values(|t: TranslationReport| t.locale@);
    &&& ascending(id_views(r.missing_locales@))
    &&& id_views(r.missing_locales@).to_set() == locale_set(cats).difference(locales_of(cats, s))
    &&& r.has_source == locales_of(cats, s).contains("en"@)
    &&& r.has_source ==> is_outside_report(id_views(r.source_outside@), s, source)
    &&& !r.has_source ==> r.source_outside@.len() == 0 && r.translations@.len() == 0
    &&& r.has_source ==> ascending(locales) && locales.to_set() == locales_of(cats, s).remove("en"@)
    &&& forall|m: int| 0 <= m < r.translations@.len() ==> {
        &&& is_parity_report((#[trigger] r.translations@[m]).parity, source, leaves_at(cats, s, r.translations@[m].locale@))
        &&& is_outside_report(id_views(r.translations@[m].outside@), s, leaves_at(cats, s, r.translations@[m].locale@))
    }
}

/// A locale `scope` has is one with a catalog position.
proof fn lemma_locales_of_position(
    cats: Seq<(Seq<char>, Seq<char>, Seq<(Seq<char>, Seq<Seq<char>>)>)>,
    scope: Seq<char>,
    locale: Seq<char>,
)
    ensures
        locales_of(cats, scope).contains(locale) <==> catalog_position(cats, scope, locale) is Some,
{
    lemma_catalog_position(cats, scope, locale);
    if locales_of(cats, scope).contains(locale) {
        let i = choose|i: int| 0 <= i < cats.len() && #[trigger] cats[i].0 == scope && cats[i].1 == locale;
    }
    if let Some(i) = catalog_position(cats, scope, locale) {
        assert(cats[i].0 == scope && cats[i].1 == locale);
    }
}

/// Copies of the scopes (or locales, with `locales`) of `cats`, in order.
fn names_of_catalogs(cats: &Vec<LocaleCatalog>, locales: bool) -> (r: Vec<String>)
    ensures
        id_views(r@) == if locales {
            catalogs_view(cats@).map_values(|c: (Seq<char>, Seq<char>, Seq<(Seq<char>, Seq<Seq<char>>)>)| c.1)
        } else {
            catalogs_view(cats@).map_values(|c: (Seq<char>, Seq<char>, Seq<(Seq<char>, Seq<Seq<char>>)>)| c.0)
        },
{
    let mut r: Vec<String> = Vec::new();
    let mut i: usize = 0;
    while i < cats.len()
        invariant
            i <= cats@.len(),
            r@.len() == i,
            forall|j: int| 0 <= j < i ==> (#[trigger] r@[j])@ == if locales { cats@[j].locale@ } else { cats@[j].scope@ },
        decreases cats@.len() - i,
    {
        let name = if locales { owned(cats[i].locale.as_str()) } else { owned(cats[i].scope.as_str()) };
        r.push(name);
        i = i + 1;
    }
    proof {
        let want = if locales {
            catalogs_view(cats@).map_values(|c: (Seq<char>, Seq<char>, Seq<(Seq<char>, Seq<Seq<char>>)>)| c.1)
        } else {
            catalogs_view(cats@).map_values(|c: (Seq<char>, Seq<char>, Seq<(Seq<char>, Seq<Seq<char>>)>)| c.0)
        };
        assert(id_views(r@) =~= want);
    }
    r
}

/// The locales `scope` has a catalog in, each once, ascending.
fn scope_locales(cats: &Vec<LocaleCatalog>, scope: &str) -> (r: Vec<String>)
    ensures
        ascending(id_views(r@)),
        id_views(r@).to_set() == locales_of(catalogs_view(cats@), scope@),
{
    let ghost cv = catalogs_view(cats@);
    let mut found: Vec<String> = Vec::new();
    let mut i: usize = 0;
    while i < cats.len()
        invariant
            i <= cats@.len(),
            cv == catalogs_view(cats@),
            forall|l: Seq<char>| id_views(found@).to_set().contains(l)
                <==> exists|j: int| 0 <= j < i && #[trigger] cv[j].0 == scope@ && cv[j].1 == l,
        decreases cats@.len() - i,
    {
        if str_eq(cats[i].scope.as_str(), scope) {
            let ghost before = id_views(found@);
            found.push(owned(cats[i].locale.as_str()));
            proof {
                assert(cv[i as int].0 == cats@[i as int].scope@ && cv[i as int].1 == cats@[i as int].locale@);
                assert(id_views(found@) =~= before.push(cv[i as int].1));
                assert forall|l: Seq<char>| id_views(found@).to_set().contains(l)
                    <==> exists|j: int| 0 <= j < i + 1 && #[trigger] cv[j].0 == scope@ && cv[j].1 == l by {
                    if id_views(found@).to_set().contains(l) && l != cv[i as int].1 {
                        let m = choose|m: int| 0 <= m < id_views(found@).len() && id_views(found@)[m] == l;
                        assert(before[m] == l);
                        assert(before.to_set().contains(l));
                        let j = choose|j: int| 0 <= j < i && #[trigger] cv[j].0 == scope@ && cv[j].1 == l;
                        assert(0 <= j < i + 1);
                    }
                    if l == cv[i as int].1 {
                        assert(cv[i as int].0 == scope@);
                    }
                    if exists|j: int| 0 <= j < i + 1 && #[trigger] cv[j].0 == scope@ && cv[j].1 == l {
                        let j = choose|j: int| 0 <= j < i + 1 && #[trigger] cv[j].0 == scope@ && cv[j].1 == l;
                        if j < i {
                            assert(before.to_set().contains(l));
                            let m = choose|m: int| 0 <= m < before.len() && before[m] == l;
                            assert(id_views(found@)[m] == l);
                        } else {
                            assert(id_views(found@)[before.len() as int] == l);
                        }
                    }
                }
            }
        } else {
            proof {
                assert(cv[i as int].0 == cats@[i as int].scope@);
                assert forall|l: Seq<char>| id_views(found@).to_set().contains(l)
                    <==> exists|j: int| 0 <= j < i + 1 && #[trigger] cv[j].0 == scope@ && cv[j].1 == l by {
                    if exists|j: int| 0 <= j < i + 1 && #[trigger] cv[j].0 == scope@ && cv[j].1 == l {
                        let j = choose|j: int| 0 <= j < i + 1 && #[trigger] cv[j].0 == scope@ && cv[j].1 == l;
                        assert(j < i);
                    }
                    if id_views(found@).to_set().contains(l) {
                        let j = choose|j: int| 0 <= j < i && #[trigger] cv[j].0 == scope@ && cv[j].1 == l;
                        assert(0 <= j < i + 1);
                    }
                }
            }
        }
        i = i + 1;
    }
    let r = ascending_unique(&found);
    assert(id_views(r@).to_set() =~= locales_of(cv, scope@));
    r
}

/// Checks one scope's catalogs; `all_locales` lists every locale of `cats`.
fn scope_report(cats: &Vec<LocaleCatalog>, scope: &str, all_locales: &Vec<String>) -> (r: ScopeReport)
    requires
        catalogs_ok(catalogs_view(cats@)),
        ascending(id_views(all_locales@)),
        id_views(all_locales@).to_set() == locale_set(catalogs_view(cats@)),
    ensures
        r.scope@ == scope@,
        is_scope_report(r, catalogs_view(cats@)),
{
    let ghost cv = catalogs_view(cats@);
    let ghost s = scope@;
    let ghost av = id_views(all_locales@);
    let locales = scope_locales(cats, scope);
    let ghost lv = id_views(locales@);

    // Locales some scope has and this one lacks.
    let mut flags: Vec<bool> = Vec::new();
    let mut t: usize = 0;
    while t < all_locales.len()
        invariant
            t <= all_locales@.len(),
            av == id_views(all_locales@),
            lv == id_views(locales@),
            flags@.len() == t,
            forall|u: int| 0 <= u < t ==> #[trigger] flags@[u] == !lv.contains(av[u]),
        decreases all_locales@.len() - t,
    {
        let present = has_name(&locales, all_locales[t].as_str());
        flags.push(!present);
        t = t + 1;
    }
    let positions = set_positions(&flags);
    let missing_locales = copies_at(all_locales, &positions);
    // The list's length fits a `usize`, as the picking lemma needs.
    let count = all_locales.len();
    proof {
        lemma_picked(av, flags@, positions@, id_views(missing_locales@));
        let wanted = locale_set(cv).difference(locales_of(cv, s));
        assert forall|l: Seq<char>| id_views(missing_locales@).to_set().contains(l) <==> wanted.contains(l) by {
            if wanted.contains(l) {
                assert(av.to_set().contains(l));
                let u = choose|u: int| 0 <= u < av.len() && av[u] == l;
                assert(!lv.to_set().contains(l));
                assert(flags@[u]);
            }
            if id_views(missing_locales@).to_set().contains(l) {
                let u = choose|u: int| 0 <= u < av.len() && flags@[u] && #[trigger] av[u] == l;
                assert(av.to_set().contains(av[u]));
                assert(!lv.contains(l));
            }
        }
        assert(id_views(missing_locales@).to_set() =~= wanted);
    }

    let has_source = has_name(&locales, "en");
    proof {
        assert(has_source == lv.to_set().contains("en"@));
    }
    if !has_source {
        return ScopeReport {
            scope: owned(scope),
            missing_locales,
            has_source,
            source_outside: Vec::new(),
            translations: Vec::new(),
        };
    }
    proof {
        lemma_locales_of_position(cv, s, "en"@);
        lemma_catalog_position(cv, s, "en"@);
    }
    let source_index = match find_catalog(cats, scope, "en") {
        Some(i) => i,
        // Unreachable: the scope has an English catalog.
        None => 0,
    };
    let ghost source = cv[source_index as int].2;
    assert(source == leaves_at(cv, s, "en"@));
    assert(distinct_keys(source));
    let source_outside = keys_outside_scope(scope, &cats[source_index].leaves);

    // Every other locale, in ascending order.
    let mut others: Vec<bool> = Vec::new();
    let mut t: usize = 0;
    while t < locales.len()
        invariant
            t <= locales@.len(),
            lv == id_views(locales@),
            others@.len() == t,
            forall|u: int| 0 <= u < t ==> #[trigger] others@[u] == (lv[u] != "en"@),
        decreases locales@.len() - t,
    {
        let english = str_eq(locales[t].as_str(), "en");
        others.push(!english);
        t = t + 1;
    }
    let other_positions = set_positions(&others);
    let mut translations: Vec<TranslationReport> = Vec::new();
    let mut m: usize = 0;
    while m < other_positions.len()
        invariant
            m <= other_positions@.len(),
            cv == catalogs_view(cats@),
            catalogs_ok(cv),
            lv == id_views(locales@),
            lv.to_set() == locales_of(cv, s),
            s == scope@,
            source_index < cats@.len(),
            source == cv[source_index as int].2,
            source == leaves_at(cv, s, "en"@),
            forall|j: int| 0 <= j < other_positions@.len() ==> (#[trigger] other_positions@[j]) < locales@.len(),
            translations@.len() == m,
            forall|j: int| 0 <= j < m ==> {
                &&& (#[trigger] translations@[j]).locale@ == lv[other_positions@[j] as int]
                &&& is_parity_report(translations@[j].parity, source, leaves_at(cv, s, translations@[j].locale@))
                &&& is_outside_report(id_views(translations@[j].outside@), s, leaves_at(cv, s, translations@[j].locale@))
            },
        decreases other_positions@.len() - m,
    {
        let locale = locales[other_positions[m]].as_str();
        proof {
            assert(lv[other_positions@[m as int] as int] == locale@);
            assert(lv.to_set().contains(locale@));
            lemma_locales_of_position(cv, s, locale@);
            lemma_catalog_position(cv, s, locale@);
        }
        let index = match find_catalog(cats, scope, locale) {
            Some(i) => i,
            // Unreachable: the locale is one of the scope's.
            None => 0,
        };
        assert(cv[index as int].2 == leaves_at(cv, s, locale@));
        assert(distinct_keys(cv[index as int].2));
        let parity = verify_parity(&cats[source_index].leaves, &cats[index].leaves);
        let outside = keys_outside_scope(scope, &cats[index].leaves);
        translations.push(TranslationReport { locale: owned(locale), parity, outside });
        m = m + 1;
    }
    let ghost tl = translations@.map_values(|t: TranslationReport| t.locale@);
    // The list's length fits a `usize`, as the picking lemma needs.
    let locale_count = locales.len();
    proof {
        assert forall|j: int| 0 <= j < tl.len() implies #[trigger] tl[j] == lv[other_positions@[j] as int] by {}
        lemma_picked(lv, others@, other_positions@, tl);
        let wanted = locales_of(cv, s).remove("en"@);
        assert forall|l: Seq<char>| tl.to_set().contains(l) <==> wanted.contains(l) by {
            if wanted.contains(l) {
                assert(lv.to_set().contains(l));
                let u = choose|u: int| 0 <= u < lv.len() && lv[u] == l;
                assert(others@[u]);
            }
            if tl.to_set().contains(l) {
                let u = choose|u: int| 0 <= u < lv.len() && others@[u] && #[trigger] lv[u] == l;
                assert(lv.to_set().contains(lv[u]));
            }
        }
        assert(tl.to_set() =~= wanted);
    }
    ScopeReport { scope: owned(scope), missing_locales, has_source, source_outside, translations }
}

/// Checks a set of catalogs: one report per scope, in ascending order of
/// scope (see `is_scope_report`).
pub fn check_catalogs(cats: &Vec<LocaleCatalog>) -> (r: Vec<ScopeReport>)
    requires
        catalogs_ok(catalogs_view(cats@)),
    ensures
        ascending(r@.map_values(|s: ScopeReport| s.scope@)),
        r@.map_values(|s: ScopeReport| s.scope@).to_set() == scope_set(catalogs_view(cats@)),
        forall|m: int| 0 <= m < r@.len() ==> is_scope_report(#[trigger] r@[m], catalogs_view(cats@)),
{
    let ghost cv = catalogs_view(cats@);
    let scope_names = names_of_catalogs(cats, false);
    let scopes = ascending_unique(&scope_names);
    let locale_names = names_of_catalogs(cats, true);
    let all_locales = ascending_unique(&locale_names);
    let ghost sv = id_views(scopes@);
    let mut reports: Vec<ScopeReport> = Vec::new();
    let mut m: usize = 0;
    while m < scopes.len()
        invariant
            m <= scopes@.len(),
            cv == catalogs_view(cats@),
            catalogs_ok(cv),
            sv == id_views(scopes@),
            ascending(id_views(all_locales@)),
            id_views(all_locales@).to_set() == locale_set(cv),
            reports@.len() == m,
            forall|j: int| 0 <= j < m ==> (#[trigger] reports@[j]).scope@ == sv[j] && is_scope_report(reports@[j], cv),
        decreases scopes@.len() - m,
    {
        let report = scope_report(cats, scopes[m].as_str(), &all_locales);
        reports.push(report);
        m = m + 1;
    }
    assert(reports@.map_values(|s: ScopeReport| s.scope@) =~= sv);
    reports
}

/// An ascending list with no elements in its set is empty.
proof fn lemma_empty_set_seq(s: Seq<Seq<char>>)
    requires
        s.to_set() == Set::<Seq<char>>::empty(),
    ensures
        s.len() == 0,
{
    if s.len() > 0 {
        assert(s.to_set().contains(s[0]));
    }
}

/// A catalog agrees with itself: checked against itself it lacks no key,
/// adds none, and interpolates the same names everywhere.
pub proof fn law_catalog_agrees_with_itself(r: ParityReport, source: Seq<(Seq<char>, Seq<Seq<char>>)>)
    requires
        is_parity_report(r, source, source),
    ensures
        r.missing@.len() == 0,
        r.extra@.len() == 0,
        r.differing@.len() == 0,
{
    assert(key_set(source).difference(key_set(source)) =~= Set::<Seq<char>>::empty());
    assert(key_set(source).intersect(key_set(source)).filter(|k: Seq<char>| interpolations_differ(source, source, k))
        =~= Set::<Seq<char>>::empty());
    lemma_empty_set_seq(id_views(r.missing@));
    lemma_empty_set_seq(id_views(r.extra@));
    lemma_empty_set_seq(r.differing@.map_values(|d: (String, Vec<String>, Vec<String>)| d.0@));
}

/// The consolidated scopes own exactly their listed prefixes: a key belongs
/// to `app-core` when it starts with `cache.`, `main.`, `paths.`,
/// `settings.`, `shared.` or `theme.`; to `cli-surface` with `cli.` or
/// `claude_diagnostics.`; to `tui-ui-chrome` with `tui.ui.header.`,
/// `tui.ui.footer.` or `tui.ui.loading.`; to `tui-ui-insights` with
/// `tui.ui.achievements.`, `tui.ui.bar_chart.`, `tui.ui.portraits.` or
/// `tui.ui.profile.`. Any other key of such a catalog is outside its scope.
pub proof fn law_consolidated_scope_ownership(key: Seq<char>)
    ensures
        owned_by(key, owner_prefix_list("app-core"@)) <==> (begins_with(key, "cache."@) || begins_with(key, "main."@)
            || begins_with(key, "paths."@) || begins_with(key, "settings."@) || begins_with(key, "shared."@)
            || begins_with(key, "theme."@)),
        owned_by(key, owner_prefix_list("cli-surface"@)) <==> (begins_with(key, "cli."@)
            || begins_with(key, "claude_diagnostics."@)),
        owned_by(key, owner_prefix_list("tui-ui-chrome"@)) <==> (begins_with(key, "tui.ui.header."@)
            || begins_with(key, "tui.ui.footer."@) || begins_with(key, "tui.ui.loading."@)),
        owned_by(key, owner_prefix_list("tui-ui-insights"@)) <==> (begins_with(key, "tui.ui.achievements."@)
            || begins_with(key, "tui.ui.bar_chart."@) || begins_with(key, "tui.ui.portraits."@)
            || begins_with(key, "tui.ui.profile."@)),
{
    reveal_strlit("app-core");
    reveal_strlit("cli-surface");
    reveal_strlit("tui-ui-chrome");
    reveal_strlit("tui-ui-insights");
    let a = owner_prefix_list("app-core"@);
    assert(a == seq!["cache."@, "main."@, "paths."@, "settings."@, "shared."@, "theme."@]);
    if begins_with(key, a[0]) || begins_with(key, a[1]) || begins_with(key, a[2]) || begins_with(key, a[3])
        || begins_with(key, a[4]) || begins_with(key, a[5]) {
        assert(owned_by(key, a));
    }
    assert("cli-surface"@ != "app-core"@) by {
        assert("cli-surface"@[0] != "app-core"@[0]);
    }
    let c = owner_prefix_list("cli-surface"@);
    assert(c == seq!["cli."@, "claude_diagnostics."@]);
    if begins_with(key, c[0]) || begins_with(key, c[1]) {
        assert(owned_by(key, c));
    }
    assert("tui-ui-chrome"@ != "app-core"@ && "tui-ui-chrome"@ != "cli-surface"@) by {
        assert("tui-ui-chrome"@[0] != "app-core"@[0] && "tui-ui-chrome"@[0] != "cli-surface"@[0]);
    }
    let h = owner_prefix_list("tui-ui-chrome"@);
    assert(h == seq!["tui.ui.header."@, "tui.ui.footer."@, "tui.ui.loading."@]);
    if begins_with(key, h[0]) || begins_with(key, h[1]) || begins_with(key, h[2]) {
        assert(owned_by(key, h));
    }
    assert("tui-ui-insights"@ != "app-core"@ && "tui-ui-insights"@ != "cli-surface"@
        && "tui-ui-insights"@ != "tui-ui-chrome"@) by {
        assert("tui-ui-insights"@[0] != "app-core"@[0] && "tui-ui-insights"@[0] != "cli-surface"@[0]
            && "tui-ui-insights"@[7] != "tui-ui-chrome"@[7]);
    }
    let n = owner_prefix_list("tui-ui-insights"@);
    assert(n == seq!["tui.ui.achievements."@, "tui.ui.bar_chart."@, "tui.ui.portraits."@, "tui.ui.profile."@]);
    if begins_with(key, n[0]) || begins_with(key, n[1]) || begins_with(key, n[2]) || begins_with(key, n[3]) {
        assert(owned_by(key, n));
    }
}

/// `s` has no hyphen.
pub open spec fn hyphen_free(s: Seq<char>) -> bool {
    forall|i: int| 0 <= i < s.len() ==> #[trigger] s[i] != '-'
}

/// A hyphen-free name stays as it is when hyphens become underscores.
proof fn lemma_underscored_hyphen_free(s: Seq<char>)
    requires
        hyphen_free(s),
    ensures
        underscored(s) == s,
{
    assert(underscored(s) =~= s);
}

/// A key belongs to a single-prefix scope exactly when it starts with that
/// prefix.
proof fn lemma_owned_by_one(key: Seq<char>, prefix: Seq<char>)
    ensures
        owned_by(key, seq![prefix]) <==> begins_with(key, prefix),
{
    if begins_with(key, prefix) {
        assert(seq![prefix][0] == prefix);
    }
}

/// The other scopes own one prefix each, named after them: a scope `x`
/// with no hyphen owns the keys under `x.`, `tui-x` those under `tui.x.`
/// and `tui-ui-x` those under `tui.ui.x.` (`tui-ui-chrome` and
/// `tui-ui-insights` being consolidated scopes).
pub proof fn law_named_scope_ownership(key: Seq<char>, name: Seq<char>)
    requires
        name.len() > 0,
        hyphen_free(name),
    ensures
        owned_by(key, owner_prefix_list(name)) <==> begins_with(key, name + "."@),
        owned_by(key, owner_prefix_list("tui-"@ + name)) <==> begins_with(key, "tui."@ + name + "."@),
        name != "chrome"@ && name != "insights"@ ==> (owned_by(key, owner_prefix_list("tui-ui-"@ + name))
            <==> begins_with(key, "tui.ui."@ + name + "."@)),
{
    reveal_strlit("app-core");
    reveal_strlit("cli-surface");
    reveal_strlit("tui-ui-chrome");
    reveal_strlit("tui-ui-insights");
    reveal_strlit("tui-ui-");
    reveal_strlit("tui-");
    lemma_underscored_hyphen_free(name);
    // A hyphen-free name is none of the consolidated scopes and starts with
    // neither prefix.
    assert(name != "app-core"@ && name != "cli-surface"@ && name != "tui-ui-chrome"@ && name != "tui-ui-insights"@) by {
        if name.len() > 3 {
            assert(name[3] != '-');
        }
        assert("app-core"@[3] == '-' && "cli-surface"@[3] == '-' && "tui-ui-chrome"@[3] == '-'
            && "tui-ui-insights"@[3] == '-');
    }
    assert(!begins_with(name, "tui-ui-"@) && !begins_with(name, "tui-"@)) by {
        if name.len() >= 4 {
            assert(name.take(4)[3] != '-');
        }
    }
    lemma_owned_by_one(key, name + "."@);

    let t = "tui-"@ + name;
    assert(t.take(4) =~= "tui-"@);
    assert(t.skip(4) =~= name);
    assert(!begins_with(t, "tui-ui-"@)) by {
        if t.len() >= 7 {
            assert(t.take(7)[6] == name[2]);
        }
    }
    assert(t != "app-core"@ && t != "cli-surface"@ && t != "tui-ui-chrome"@ && t != "tui-ui-insights"@) by {
        assert(t[0] == 't' && "app-core"@[0] == 'a' && "cli-surface"@[0] == 'c');
        if t.len() >= 7 {
            assert(t[6] == name[2]);
        }
        assert("tui-ui-chrome"@[6] == '-' && "tui-ui-insights"@[6] == '-');
    }
    assert(strip_repeated(t, "tui-"@) == name) by {
        reveal_with_fuel(strip_repeated, 2);
        assert(!(name.len() >= 4 && name.take(4) == "tui-"@)) by {
            if name.len() >= 4 {
                assert(name.take(4)[3] != '-');
            }
        }
    }
    lemma_owned_by_one(key, "tui."@ + name + "."@);

    let u = "tui-ui-"@ + name;
    assert(u.take(7) =~= "tui-ui-"@);
    assert(u.skip(7) =~= name);
    assert(u != "app-core"@ && u != "cli-surface"@) by {
        assert(u[0] == 't');
    }
    if name != "chrome"@ && name != "insights"@ {
        reveal_strlit("chrome");
        reveal_strlit("insights");
        assert(u != "tui-ui-chrome"@) by {
            if u == "tui-ui-chrome"@ {
                assert(u.skip(7) =~= "chrome"@);
            }
        }
        assert(u != "tui-ui-insights"@) by {
            if u == "tui-ui-insights"@ {
                assert(u.skip(7) =~= "insights"@);
            }
        }
    }
    assert(strip_repeated(u, "tui-ui-"@) == name) by {
        reveal_with_fuel(strip_repeated, 2);
        assert(!(name.len() >= 7 && name.take(7) == "tui-ui-"@)) by {
            if name.len() >= 7 {
                assert(name.take(7)[3] != '-');
            }
        }
    }
    lemma_owned_by_one(key, "tui.ui."@ + name + "."@);
}

} // verus!
