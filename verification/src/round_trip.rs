use vstd::prelude::*;

use crate::builder::BuilderView;
use crate::decimal::decimal_text;
use crate::decimal::is_digit;
use crate::decimal::lemma_decimal_text_is_decimal;
use crate::decimal::lemma_decimal_value_of_text;
use crate::decimal::parsed_u64;
use crate::decimal::unsigned_digits;
use crate::error::VersionError;
use crate::from_str::captured_number;
use crate::from_str::captured_version;
use crate::from_str::parsed;
use crate::grammar::first_match;
use crate::grammar::has_char;
use crate::grammar::is_label_char;
use crate::grammar::is_leftmost_match;
use crate::grammar::lemma_first_match_is_leftmost;
use crate::grammar::lemma_run_is_longest;
use crate::grammar::match_at;
use crate::grammar::run_end;
use crate::grammar::CapturesView;
use crate::grammar::CharClass;
use crate::version::marked_label;
use crate::version::VersionView;
use crate::version_part::VersionPart;

verus! {

/// Whether `text` can be read back as a label: it is not empty and holds
/// label characters only.
pub open spec fn is_label(text: Seq<char>) -> bool {
    &&& text.len() > 0
    &&& forall|i: int| 0 <= i < text.len() ==> is_label_char(#[trigger] text[i])
}

/// A stretch of characters of one class, with a character of another class
/// or the end of the text behind it, is the run that starts where it starts.
proof fn lemma_run_end(text: Seq<char>, from: int, end: int, class: CharClass)
    requires
        0 <= from <= end <= text.len(),
        forall|i: int| from <= i < end ==> class.holds(#[trigger] text[i]),
        end < text.len() ==> !class.holds(text[end]),
    ensures
        run_end(text, from, class) == end,
    decreases end - from,
{
    if from < end {
        lemma_run_end(text, from + 1, end, class);
    }
}

/// The notation of a number that fits a `u64` parses to that number.
proof fn lemma_parse_decimal_text(n: nat)
    requires
        n <= u64::MAX,
    ensures
        parsed_u64(decimal_text(n)) == Ok::<u64, std::num::ParseIntError>(n as u64),
{
    let text = decimal_text(n);
    lemma_decimal_text_is_decimal(n);
    lemma_decimal_value_of_text(n);
    assert(is_digit(text[0]));
    assert(unsigned_digits(text) == text);
}

/// The canonical text of a version matches the grammar at its start, and
/// the groups of that match are the notations of the three numbers and the
/// two labels.
proof fn lemma_formatted_matches(version: VersionView)
    requires
        version.prerelease matches Some(label) ==> is_label(label),
        version.build matches Some(label) ==> is_label(label),
    ensures
        match_at(version.formatted(), 0) == Some(
            CapturesView {
                major: Some(decimal_text(version.major)),
                minor: Some(decimal_text(version.minor)),
                patch: Some(decimal_text(version.patch)),
                prerelease: version.prerelease,
                build: version.build,
            },
        ),
{
    let major = decimal_text(version.major);
    let minor = decimal_text(version.minor);
    let patch = decimal_text(version.patch);
    let dash = marked_label('-', version.prerelease);
    let plus = marked_label('+', version.build);
    lemma_decimal_text_is_decimal(version.major);
    lemma_decimal_text_is_decimal(version.minor);
    lemma_decimal_text_is_decimal(version.patch);

    let t1 = seq!['v'] + major;
    let t2 = t1 + seq!['.'];
    let t3 = t2 + minor;
    let t4 = t3 + seq!['.'];
    let t5 = t4 + patch;
    let t6 = t5 + dash;
    let text = t6 + plus;
    assert(text == version.formatted());

    let major_end = 1 + major.len() as int;
    let minor_end = major_end + 1 + minor.len();
    let patch_end = minor_end + 1 + patch.len();
    let dash_end = patch_end + dash.len();
    assert(t5.len() == patch_end);
    assert(t6.len() == dash_end);

    assert forall|i: int| 0 <= i < patch_end implies #[trigger] text[i] == t5[i] by {
        assert(t6[i] == t5[i]);
    }
    assert(text[0] == 'v') by {
        assert(t5[0] == t1[0]);
    }
    assert forall|i: int| 1 <= i < major_end implies is_digit(#[trigger] text[i]) && text[i]
        == major[i - 1] by {
        assert(text[i] == t5[i]);
        assert(t5[i] == t1[i]);
    }
    assert(text[major_end] == '.') by {
        assert(text[major_end] == t5[major_end]);
        assert(t5[major_end] == t2[major_end]);
    }
    assert forall|i: int| major_end + 1 <= i < minor_end implies is_digit(#[trigger] text[i])
        && text[i] == minor[i - major_end - 1] by {
        assert(text[i] == t5[i]);
        assert(t5[i] == t3[i]);
    }
    assert(text[minor_end] == '.') by {
        assert(text[minor_end] == t5[minor_end]);
        assert(t5[minor_end] == t4[minor_end]);
    }
    assert forall|i: int| minor_end + 1 <= i < patch_end implies is_digit(#[trigger] text[i])
        && text[i] == patch[i - minor_end - 1] by {
        assert(text[i] == t5[i]);
    }
    assert forall|i: int| patch_end <= i < dash_end implies #[trigger] text[i] == dash[i
        - patch_end] by {
        assert(text[i] == t6[i]);
    }
    assert forall|i: int| dash_end <= i < text.len() implies #[trigger] text[i] == plus[i
        - dash_end] by {}

    assert(!is_digit('.') && !is_digit('-') && !is_digit('+'));
    assert(!is_label_char('+') && !is_label_char('-'));

    lemma_run_end(text, 1, major_end, CharClass::Digit);
    lemma_run_end(text, major_end + 1, minor_end, CharClass::Digit);
    assert(patch_end < text.len() ==> !is_digit(text[patch_end])) by {
        if patch_end < text.len() {
            if dash.len() > 0 {
                assert(text[patch_end] == dash[0]);
            } else {
                assert(text[patch_end] == plus[0]);
            }
        }
    }
    lemma_run_end(text, minor_end + 1, patch_end, CharClass::Digit);

    match version.prerelease {
        Some(label) => {
            assert(text[patch_end] == '-') by {
                assert(text[patch_end] == dash[0]);
            }
            assert forall|i: int| patch_end + 1 <= i < dash_end implies is_label_char(
                #[trigger] text[i],
            ) by {
                assert(text[i] == dash[i - patch_end]);
                assert(dash[i - patch_end] == label[i - patch_end - 1]);
            }
            assert(dash_end < text.len() ==> !is_label_char(text[dash_end])) by {
                if dash_end < text.len() {
                    assert(text[dash_end] == plus[0]);
                }
            }
            lemma_run_end(text, patch_end + 1, dash_end, CharClass::Label);
            assert(text.subrange(patch_end + 1, dash_end) =~= label);
        },
        None => {
            assert(!has_char(text, patch_end, '-')) by {
                if patch_end < text.len() {
                    assert(text[patch_end] == plus[0]);
                }
            }
        },
    }
    match version.build {
        Some(label) => {
            assert(text[dash_end] == '+') by {
                assert(text[dash_end] == plus[0]);
            }
            assert forall|i: int| dash_end + 1 <= i < text.len() implies is_label_char(
                #[trigger] text[i],
            ) by {
                assert(text[i] == plus[i - dash_end]);
                assert(plus[i - dash_end] == label[i - dash_end - 1]);
            }
            lemma_run_end(text, dash_end + 1, text.len() as int, CharClass::Label);
            assert(text.subrange(dash_end + 1, text.len() as int) =~= label);
        },
        None => {
            assert(!has_char(text, dash_end, '+'));
        },
    }
    assert(text.subrange(1, major_end) =~= major);
    assert(text.subrange(major_end + 1, minor_end) =~= minor);
    assert(text.subrange(minor_end + 1, patch_end) =~= patch);
}

/// The labels of a match can be read back as labels.
proof fn lemma_match_has_labels(text: Seq<char>, start: int)
    requires
        match_at(text, start) is Some,
    ensures
        match_at(text, start)->Some_0.prerelease matches Some(label) ==> is_label(label),
        match_at(text, start)->Some_0.build matches Some(label) ==> is_label(label),
{
    let major_end = run_end(text, start + 1, CharClass::Digit);
    let minor_end = run_end(text, major_end + 1, CharClass::Digit);
    let patch_end = run_end(text, minor_end + 1, CharClass::Digit);
    let prerelease_end = run_end(text, patch_end + 1, CharClass::Label);
    let has_prerelease = has_char(text, patch_end, '-') && prerelease_end > patch_end + 1;
    let tail = if has_prerelease {
        prerelease_end
    } else {
        patch_end
    };
    let build_end = run_end(text, tail + 1, CharClass::Label);
    if has_prerelease {
        lemma_run_is_longest(text, patch_end + 1, CharClass::Label);
        let label = text.subrange(patch_end + 1, prerelease_end);
        assert forall|i: int| 0 <= i < label.len() implies is_label_char(#[trigger] label[i]) by {
            assert(label[i] == text[patch_end + 1 + i]);
        }
    }
    if has_char(text, tail, '+') && build_end > tail + 1 {
        lemma_run_is_longest(text, tail + 1, CharClass::Label);
        let label = text.subrange(tail + 1, build_end);
        assert forall|i: int| 0 <= i < label.len() implies is_label_char(#[trigger] label[i]) by {
            assert(label[i] == text[tail + 1 + i]);
        }
    }
}

/// Round trip: a version that is built from three numbers and two optional
/// labels, then formatted, then parsed, comes back as it was built, provided
/// each label that is present can be read back as a label.
pub proof fn lemma_round_trip(
    major: u64,
    minor: u64,
    patch: u64,
    prerelease: Option<Seq<char>>,
    build: Option<Seq<char>>,
)
    requires
        prerelease matches Some(label) ==> is_label(label),
        build matches Some(label) ==> is_label(label),
    ensures
        ({
            let builder = BuilderView {
                major: Some(major as nat),
                minor: Some(minor as nat),
                patch: Some(patch as nat),
                prerelease,
                build,
            };
            &&& builder.built() is Ok
            &&& parsed(builder.built()->Ok_0.formatted()) == builder.built()
        }),
{
    let version = VersionView {
        major: major as nat,
        minor: minor as nat,
        patch: patch as nat,
        prerelease,
        build,
    };
    let text = version.formatted();
    lemma_formatted_matches(version);
    let captures = match_at(text, 0)->Some_0;
    assert(text.len() > 0);
    assert(first_match(text, 0) == Some(captures));
    lemma_parse_decimal_text(major as nat);
    lemma_parse_decimal_text(minor as nat);
    lemma_parse_decimal_text(patch as nat);
    assert(captured_number(VersionPart::Major, captures) == Ok::<u64, VersionError>(major));
    assert(captured_number(VersionPart::Minor, captures) == Ok::<u64, VersionError>(minor));
    assert(captured_number(VersionPart::Patch, captures) == Ok::<u64, VersionError>(patch));
    assert(captured_version(captures) == Ok::<VersionView, VersionError>(version));
}

/// The formatter is the parser's inverse on what the parser produces: the
/// canonical text of a parsed version parses to that version again.
pub proof fn lemma_parsed_formats_back(text: Seq<char>)
    requires
        parsed(text) is Ok,
    ensures
        parsed(parsed(text)->Ok_0.formatted()) == parsed(text),
{
    let version = parsed(text)->Ok_0;
    let captures = first_match(text, 0)->Some_0;
    lemma_first_match_is_leftmost(text, 0);
    let start = choose|start: int| is_leftmost_match(text, 0, start);
    lemma_match_has_labels(text, start);
    let major = captured_number(VersionPart::Major, captures)->Ok_0;
    let minor = captured_number(VersionPart::Minor, captures)->Ok_0;
    let patch = captured_number(VersionPart::Patch, captures)->Ok_0;
    lemma_round_trip(major, minor, patch, captures.prerelease, captures.build);
}

} // verus!
