//! The string rules of the exporter: blank arguments, output stems, file
//! names of the documents, and the clean-up of displayed attribute values.

use vstd::prelude::*;
use vstd::utf8::{decode_utf8, valid_utf8};

verus! {

/// Whether `c` is white space: one of the characters that have the Unicode
/// property `White_Space`. These are the characters that trimming removes.
pub open spec fn white_space(c: char) -> bool {
    let code = c as u32;
    ||| 0x0009 <= code <= 0x000d
    ||| code == 0x0020
    ||| code == 0x0085
    ||| code == 0x00a0
    ||| code == 0x1680
    ||| 0x2000 <= code <= 0x200a
    ||| code == 0x2028
    ||| code == 0x2029
    ||| code == 0x202f
    ||| code == 0x205f
    ||| code == 0x3000
}

/// Tells whether a character is white space.
pub fn is_white_space(c: char) -> (b: bool)
    ensures
        b == white_space(c),
{
    let code: u32 = c as u32;
    (0x0009 <= code && code <= 0x000d) || code == 0x0020 || code == 0x0085 || code == 0x00a0
        || code == 0x1680 || (0x2000 <= code && code <= 0x200a) || code == 0x2028 || code
        == 0x2029 || code == 0x202f || code == 0x205f || code == 0x3000
}

/// Calls `String::push`, which appends one character to the end of the
/// string and leaves the rest as it was.
#[verifier::external_body]
pub(crate) fn push_char(text: &mut String, c: char)
    ensures
        final(text)@ == old(text)@.push(c),
{
    text.push(c)
}

/// Calls `String::from_utf8`, which makes a string of bytes that are valid
/// UTF-8 and reports an error, here `None`, for any others.
#[verifier::external_body]
pub(crate) fn from_utf8(bytes: Vec<u8>) -> (text: Option<String>)
    ensures
        match text {
            Some(decoded) => valid_utf8(bytes@) && decoded@ == decode_utf8(bytes@),
            None => !valid_utf8(bytes@),
        },
{
    String::from_utf8(bytes).ok()
}

/// A text is blank when it holds nothing but white space; the empty text
/// is blank.
pub open spec fn blank(text: Seq<char>) -> bool {
    forall|i: int| 0 <= i < text.len() ==> white_space(#[trigger] text[i])
}

/// A text without the white space at its two ends.
pub open spec fn trimmed(text: Seq<char>) -> Seq<char>
    decreases text.len(),
{
    if text.len() > 0 && white_space(text.first()) {
        trimmed(text.drop_first())
    } else if text.len() > 0 && white_space(text.last()) {
        trimmed(text.drop_last())
    } else {
        text
    }
}

/// The part of a file name before its first `.`; the whole name where it
/// holds none.
pub open spec fn stem_of(name: Seq<char>) -> Seq<char> {
    match name.index_of_first('.') {
        Some(dot) => name.take(dot),
        None => name,
    }
}

/// The name of the document written for an image with the given stem.
pub open spec fn json_name_of(stem: Seq<char>) -> Seq<char> {
    stem + ".json"@
}

/// The characters of an optional string.
pub open spec fn option_text(text: Option<String>) -> Option<Seq<char>> {
    match text {
        Some(t) => Some(t@),
        None => None,
    }
}

/// The characters of each of a sequence of strings.
pub open spec fn strings_view(strings: Seq<String>) -> Seq<Seq<char>> {
    strings.map_values(|s: String| s@)
}

/// A text with every double quote taken out, the other characters in
/// their order.
pub open spec fn without_quotes(text: Seq<char>) -> Seq<char> {
    text.filter(|c: char| c != '"')
}

/// A text is blank exactly when nothing is left of it once it is trimmed.
pub proof fn lemma_blank_is_trimmed_empty(text: Seq<char>)
    ensures
        blank(text) <==> trimmed(text).len() == 0,
    decreases text.len(),
{
    if text.len() > 0 && white_space(text.first()) {
        let rest = text.drop_first();
        lemma_blank_is_trimmed_empty(rest);
        if blank(rest) {
            assert forall|i: int| 0 <= i < text.len() implies white_space(#[trigger] text[i]) by {
                if i > 0 {
                    assert(text[i] == rest[i - 1]);
                }
            }
        }
        if blank(text) {
            assert forall|i: int| 0 <= i < rest.len() implies white_space(#[trigger] rest[i]) by {
                assert(rest[i] == text[i + 1]);
            }
        }
    } else if text.len() > 0 {
        // The text starts with a character that is no white space.
        assert(!white_space(text[0]));
        if white_space(text.last()) {
            lemma_trimmed_keeps_its_start(text.drop_last());
        }
    }
}

/// A text that does not start with white space is not trimmed to nothing.
proof fn lemma_trimmed_keeps_its_start(text: Seq<char>)
    requires
        text.len() > 0,
        !white_space(text.first()),
    ensures
        trimmed(text).len() > 0,
    decreases text.len(),
{
    if white_space(text.last()) {
        // The last character is not the first, so one is left before it.
        assert(text.len() > 1);
        lemma_trimmed_keeps_its_start(text.drop_last());
    }
}

/// The stem is the part of the name before its first `.`: it is a prefix of
/// the name, holds no `.`, and is followed by a `.` unless it is the whole
/// name. A name without `.` is its own stem.
pub proof fn lemma_stem_ends_at_first_dot(name: Seq<char>)
    ensures
        stem_of(name).len() <= name.len(),
        stem_of(name) == name.take(stem_of(name).len() as int),
        !stem_of(name).contains('.'),
        stem_of(name).len() < name.len() ==> name[stem_of(name).len() as int] == '.',
        !name.contains('.') ==> stem_of(name) == name,
{
    name.index_of_first_ensures('.');
    if let Some(dot) = name.index_of_first('.') {
        assert forall|i: int| 0 <= i < dot implies name.take(dot)[i] != '.' by {
            assert(name.take(dot)[i] == name[i]);
        }
    }
}

/// No other text than the stem has the properties that
/// [`lemma_stem_ends_at_first_dot`] states.
pub proof fn lemma_stem_is_unique(name: Seq<char>, prefix: Seq<char>)
    requires
        prefix.len() <= name.len(),
        prefix == name.take(prefix.len() as int),
        !prefix.contains('.'),
        prefix.len() < name.len() ==> name[prefix.len() as int] == '.',
    ensures
        prefix == stem_of(name),
{
    lemma_stem_ends_at_first_dot(name);
    let stem = stem_of(name);
    if prefix.len() < stem.len() {
        // The `.` behind the prefix would stand in the stem.
        assert(stem[prefix.len() as int] == name[prefix.len() as int]);
        assert(stem.contains('.'));
    } else if stem.len() < prefix.len() {
        // The `.` behind the stem would stand in the prefix.
        assert(prefix[stem.len() as int] == name[stem.len() as int]);
        assert(prefix.contains('.'));
    }
}

/// Tells whether `text` is empty once leading and trailing white space is
/// removed.
pub fn is_blank(text: &str) -> (b: bool)
    ensures
        b == blank(text@),
        b == (trimmed(text@).len() == 0),
{
    proof {
        lemma_blank_is_trimmed_empty(text@);
    }
    for c in it: text.chars()
        invariant
            it.seq() == text@,
            forall|i: int| 0 <= i < it.index() ==> white_space(#[trigger] text@[i]),
            blank(text@) <==> trimmed(text@).len() == 0,
    {
        if !is_white_space(c) {
            return false;
        }
    }
    true
}

/// Returns the stem of an image's file name.
pub fn image_stem(full_image_name: &str) -> (stem: String)
    ensures
        stem@ == stem_of(full_image_name@),
{
    let mut stem = String::new();
    for c in it: full_image_name.chars()
        invariant
            it.seq() == full_image_name@,
            stem@ == full_image_name@.take(it.index()),
            forall|i: int| 0 <= i < it.index() ==> #[trigger] full_image_name@[i] != '.',
    {
        if c == '.' {
            proof {
                full_image_name@.index_of_first_ensures('.');
            }
            return stem;
        }
        push_char(&mut stem, c);
    }
    proof {
        full_image_name@.index_of_first_ensures('.');
    }
    stem
}

/// Returns the file name of the document for an image with the given stem.
pub fn json_file_name(image_name: &str) -> (file_name: String)
    ensures
        file_name@ == json_name_of(image_name@),
{
    let mut file_name = image_name.to_owned();
    file_name.append(".json");
    file_name
}

/// Removes every double quote from a displayed value.
pub fn strip_quotes(text: &str) -> (stripped: String)
    ensures
        stripped@ == without_quotes(text@),
{
    let mut stripped = String::new();
    for c in it: text.chars()
        invariant
            it.seq() == text@,
            stripped@ == without_quotes(text@.take(it.index())),
    {
        proof {
            text@.take(it.index()).lemma_filter_push(c, |c: char| c != '"');
            assert(text@.take(it.index() + 1) == text@.take(it.index()).push(c));
        }
        if c != '"' {
            push_char(&mut stripped, c);
        }
    }
    assert(text@.take(text@.len() as int) == text@);
    stripped
}

} // verus!
