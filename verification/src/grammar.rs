use vstd::prelude::*;

use crate::decimal::is_digit;
use crate::version_part::VersionPart;

verus! {

/// Whether `c` may stand in a prerelease or build label: an ASCII letter, an
/// ASCII digit or a dot.
pub open spec fn is_label_char(c: char) -> bool {
    is_digit(c) || ('a' <= c && c <= 'z') || ('A' <= c && c <= 'Z') || c == '.'
}

/// The two character classes of the grammar.
#[derive(Debug, Copy, Clone, PartialEq, Eq, Structural)]
pub enum CharClass {
    /// What a number is made of.
    Digit,
    /// What a label is made of.
    Label,
}

impl CharClass {
    /// Whether `c` belongs to the class.
    pub open spec fn holds(self, c: char) -> bool {
        match self {
            CharClass::Digit => is_digit(c),
            CharClass::Label => is_label_char(c),
        }
    }

    /// Tests whether `c` belongs to the class.
    pub fn contains(&self, c: char) -> (found: bool)
        ensures
            found == self.holds(c),
    {
        let digit = '0' <= c && c <= '9';
        match self {
            CharClass::Digit => digit,
            CharClass::Label => digit || ('a' <= c && c <= 'z') || ('A' <= c && c <= 'Z') || c
                == '.',
        }
    }
}

/// Where the longest run of characters of `class` that starts at `from`
/// ends. The run is empty, and the result `from`, where the character at
/// `from` is of another class or `from` is no index of `text`.
pub open spec fn run_end(text: Seq<char>, from: int, class: CharClass) -> int
    decreases text.len() - from,
{
    if 0 <= from < text.len() && class.holds(text[from]) {
        run_end(text, from + 1, class)
    } else {
        from
    }
}

/// The texts of the five groups of one match. The three numeric groups are
/// present in every match; a label group is present where the match has that
/// label.
pub ghost struct CapturesView {
    pub major: Option<Seq<char>>,
    pub minor: Option<Seq<char>>,
    pub patch: Option<Seq<char>>,
    pub prerelease: Option<Seq<char>>,
    pub build: Option<Seq<char>>,
}

impl CapturesView {
    /// The text of the group that belongs to `part`.
    pub open spec fn group(self, part: VersionPart) -> Option<Seq<char>> {
        match part {
            VersionPart::Major => self.major,
            VersionPart::Minor => self.minor,
            VersionPart::Patch => self.patch,
            VersionPart::Prerelease => self.prerelease,
            VersionPart::Build => self.build,
        }
    }
}

/// Whether `text` has the character `c` at index `at`.
pub open spec fn has_char(text: Seq<char>, at: int, c: char) -> bool {
    0 <= at < text.len() && text[at] == c
}

/// The match of the version grammar that starts at index `start`, if there
/// is one: a `v`; three non-empty runs of digits with a `.` between them;
/// then, if a `-` and at least one label character follow, that label as the
/// prerelease; then, if a `+` and at least one label character follow, that
/// label as the build. Every run is as long as it can be.
pub open spec fn match_at(text: Seq<char>, start: int) -> Option<CapturesView> {
    let major_end = run_end(text, start + 1, CharClass::Digit);
    let minor_end = run_end(text, major_end + 1, CharClass::Digit);
    let patch_end = run_end(text, minor_end + 1, CharClass::Digit);
    let prerelease_end = run_end(text, patch_end + 1, CharClass::Label);
    let has_prerelease = has_char(text, patch_end, '-') && prerelease_end > patch_end + 1;
    let tail = if has_prerelease {
        prerelease_end
    } else {
        patch_end
    };
    let build_end = run_end(text, tail + 1, CharClass::Label);
    let has_build = has_char(text, tail, '+') && build_end > tail + 1;
    if has_char(text, start, 'v') && major_end > start + 1 && has_char(text, major_end, '.')
        && minor_end > major_end + 1 && has_char(text, minor_end, '.') && patch_end > minor_end
        + 1 {
        Some(
            CapturesView {
                major: Some(text.subrange(start + 1, major_end)),
                minor: Some(text.subrange(major_end + 1, minor_end)),
                patch: Some(text.subrange(minor_end + 1, patch_end)),
                prerelease: if has_prerelease {
                    Some(text.subrange(patch_end + 1, prerelease_end))
                } else {
                    None
                },
                build: if has_build {
                    Some(text.subrange(tail + 1, build_end))
                } else {
                    None
                },
            },
        )
    } else {
        None
    }
}

/// The match that starts first among those that start at `from` or later.
pub open spec fn first_match(text: Seq<char>, from: int) -> Option<CapturesView>
    decreases text.len() - from,
{
    if from < 0 || from >= text.len() {
        None
    } else if match_at(text, from) is Some {
        match_at(text, from)
    } else {
        first_match(text, from + 1)
    }
}

/// Whether `start` is the first index from `from` on at which the grammar
/// matches.
pub open spec fn is_leftmost_match(text: Seq<char>, from: int, start: int) -> bool {
    &&& from <= start < text.len()
    &&& match_at(text, start) is Some
    &&& forall|earlier: int| from <= earlier < start ==> (#[trigger] match_at(text, earlier)) is None
}

/// A run holds characters of its class only, and ends at the end of the text
/// or in front of a character of another class.
pub proof fn lemma_run_is_longest(text: Seq<char>, from: int, class: CharClass)
    requires
        0 <= from <= text.len(),
    ensures
        from <= run_end(text, from, class) <= text.len(),
        forall|i: int|
            from <= i < run_end(text, from, class) ==> class.holds(#[trigger] text[i]),
        run_end(text, from, class) < text.len() ==> !class.holds(
            text[run_end(text, from, class)],
        ),
    decreases text.len() - from,
{
    if from < text.len() && class.holds(text[from]) {
        lemma_run_is_longest(text, from + 1, class);
    }
}

/// The search finds the leftmost match: it gives the match at the first
/// index at which the grammar matches, and nothing only where the grammar
/// matches at no index.
pub proof fn lemma_first_match_is_leftmost(text: Seq<char>, from: int)
    requires
        0 <= from,
    ensures
        match first_match(text, from) {
            Some(captures) => exists|start: int| #[trigger]
                is_leftmost_match(text, from, start) && match_at(text, start) == Some(captures),
            None => forall|start: int|
                from <= start < text.len() ==> (#[trigger] match_at(text, start)) is None,
        },
    decreases text.len() - from,
{
    if from < text.len() {
        if match_at(text, from) is Some {
            assert(is_leftmost_match(text, from, from));
        } else {
            lemma_first_match_is_leftmost(text, from + 1);
            if first_match(text, from) is Some {
                let start = choose|start: int| #[trigger]
                    is_leftmost_match(text, from + 1, start) && match_at(text, start)
                        == first_match(text, from);
                assert(is_leftmost_match(text, from, start));
            }
        }
    }
}

/// The groups of one match, as slices of the text that was searched.
#[derive(Debug, Clone, Copy)]
pub struct Captures<'a> {
    pub major: Option<&'a str>,
    pub minor: Option<&'a str>,
    pub patch: Option<&'a str>,
    pub prerelease: Option<&'a str>,
    pub build: Option<&'a str>,
}

/// The characters of an optional slice.
pub open spec fn group_view(group: Option<&str>) -> Option<Seq<char>> {
    match group {
        Some(text) => Some(text@),
        None => None,
    }
}

impl<'a> View for Captures<'a> {
    type V = CapturesView;

    open spec fn view(&self) -> CapturesView {
        CapturesView {
            major: group_view(self.major),
            minor: group_view(self.minor),
            patch: group_view(self.patch),
            prerelease: group_view(self.prerelease),
            build: group_view(self.build),
        }
    }
}

/// The value of a search result.
pub open spec fn found_view(found: Option<Captures<'_>>) -> Option<CapturesView> {
    match found {
        Some(captures) => Some(captures@),
        None => None,
    }
}

/// The characters of `text`, one by one.
fn chars_of(text: &str) -> (chars: Vec<char>)
    ensures
        chars@ == text@,
{
    let mut chars: Vec<char> = Vec::new();
    for c in it: text.chars()
        invariant
            it.seq() == text@,
            chars@ == it.seq().take(it.index() as int),
    {
        chars.push(c);
        assert(chars@ =~= it.seq().take(it.index() + 1));
    }
    assert(chars@ =~= text@);
    chars
}

/// Walks over the run of `class` that starts at `from`.
fn scan_run(chars: &Vec<char>, from: usize, class: CharClass) -> (end: usize)
    requires
        from <= chars.len(),
    ensures
        end == run_end(chars@, from as int, class),
        from <= end <= chars.len(),
{
    let mut end: usize = from;
    while end < chars.len() && class.contains(chars[end])
        invariant
            from <= end <= chars.len(),
            run_end(chars@, from as int, class) == run_end(chars@, end as int, class),
        decreases chars.len() - end,
    {
        end = end + 1;
    }
    end
}

/// Tries the grammar at one index of the text.
fn match_from<'a>(text: &'a str, chars: &Vec<char>, start: usize) -> (found: Option<Captures<'a>>)
    requires
        chars@ == text@,
        start < chars.len(),
    ensures
        found_view(found) == match_at(text@, start as int),
{
    let len = chars.len();
    if chars[start] != 'v' {
        return None;
    }
    let major_end = scan_run(chars, start + 1, CharClass::Digit);
    if major_end == start + 1 || major_end >= len || chars[major_end] != '.' {
        return None;
    }
    let minor_end = scan_run(chars, major_end + 1, CharClass::Digit);
    if minor_end == major_end + 1 || minor_end >= len || chars[minor_end] != '.' {
        return None;
    }
    let patch_end = scan_run(chars, minor_end + 1, CharClass::Digit);
    if patch_end == minor_end + 1 {
        return None;
    }
    let mut tail = patch_end;
    let mut prerelease: Option<&'a str> = None;
    if tail < len && chars[tail] == '-' {
        let end = scan_run(chars, tail + 1, CharClass::Label);
        if end > tail + 1 {
            prerelease = Some(text.substring_char(tail + 1, end));
            tail = end;
        }
    }
    let mut build: Option<&'a str> = None;
    if tail < len && chars[tail] == '+' {
        let end = scan_run(chars, tail + 1, CharClass::Label);
        if end > tail + 1 {
            build = Some(text.substring_char(tail + 1, end));
        }
    }
    Some(
        Captures {
            major: Some(text.substring_char(start + 1, major_end)),
            minor: Some(text.substring_char(major_end + 1, minor_end)),
            patch: Some(text.substring_char(minor_end + 1, patch_end)),
            prerelease,
            build,
        },
    )
}

/// Searches `text` for the version grammar and gives the groups of the
/// match that starts first, or `None` where nothing in `text` matches.
pub fn captures<'a>(text: &'a str) -> (found: Option<Captures<'a>>)
    ensures
        found_view(found) == first_match(text@, 0),
{
    let chars = chars_of(text);
    let mut start: usize = 0;
    while start < chars.len()
        invariant
            chars@ == text@,
            start <= chars.len(),
            first_match(text@, 0) == first_match(text@, start as int),
        decreases chars.len() - start,
    {
        let found = match_from(text, &chars, start);
        if found.is_some() {
            return found;
        }
        start = start + 1;
    }
    None
}

} // verus!
