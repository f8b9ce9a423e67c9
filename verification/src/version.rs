//! Reading the version out of what `rust-analyzer --version` prints.
//!
//! The output is expected to have the form `<name> <version>\n`. It is taken
//! apart at every space character; the version is the second field, without
//! the line feed that ends it.

use crate::text::{chars_of, decode_text};
use vstd::prelude::*;
use vstd::string::*;
use vstd::utf8::*;

verus! {

/// Why no version could be read from the output of the version query.
#[derive(Debug, Clone, Copy, PartialEq, Eq, Structural)]
pub enum VersionError {
    /// The output is not valid UTF-8.
    NotText,
    /// The output holds no space, so there is no second field.
    NoVersionField,
    /// The second field does not end with a line feed.
    NoLineEnd,
}

/// The index of the first space in `text`, or the length of `text` where it
/// holds none.
pub open spec fn first_space(text: Seq<char>) -> int
    decreases text.len(),
{
    if text.len() == 0 || text[0] == ' ' {
        0
    } else {
        1 + first_space(text.drop_first())
    }
}

/// The fields of `text`: the pieces between its space characters, in order.
/// A field is empty where two spaces meet or a space stands at either end.
pub open spec fn fields(text: Seq<char>) -> Seq<Seq<char>>
    decreases text.len(),
{
    let end = first_space(text);
    if 0 <= end < text.len() {
        seq![text.subrange(0, end)] + fields(text.subrange(end + 1, text.len() as int))
    } else {
        seq![text]
    }
}

/// The version that a text announces: its second field without the final line
/// feed.
pub open spec fn version_in(text: Seq<char>) -> Result<Seq<char>, VersionError> {
    let parts = fields(text);
    if parts.len() < 2 {
        Err(VersionError::NoVersionField)
    } else if parts[1].len() > 0 && parts[1].last() == '\n' {
        Ok(parts[1].drop_last())
    } else {
        Err(VersionError::NoLineEnd)
    }
}

/// The version that the raw output of the version query announces.
pub open spec fn version_in_output(output: Seq<u8>) -> Result<Seq<char>, VersionError> {
    if valid_utf8(output) {
        version_in(decode_utf8(output))
    } else {
        Err(VersionError::NotText)
    }
}

/// `first_space` is the position of the first space: no character before it
/// is a space, and it is either a space or the end of the text.
pub proof fn lemma_first_space(text: Seq<char>)
    ensures
        0 <= first_space(text) <= text.len(),
        first_space(text) < text.len() ==> text[first_space(text)] == ' ',
        forall|k: int| 0 <= k < first_space(text) ==> text[k] != ' ',
    decreases text.len(),
{
    if text.len() == 0 || text[0] == ' ' {
    } else {
        let rest = text.drop_first();
        lemma_first_space(rest);
        assert forall|k: int| 0 <= k < first_space(text) implies text[k] != ' ' by {
            if k > 0 {
                assert(text[k] == rest[k - 1]);
            }
        }
    }
}

/// A text always has a first field, which ends at its first space.
pub proof fn lemma_first_field(text: Seq<char>)
    ensures
        fields(text).len() >= 1,
        fields(text)[0] == text.subrange(0, first_space(text)),
{
    lemma_first_space(text);
    let end = first_space(text);
    if end >= text.len() {
        assert(text.subrange(0, end) =~= text);
    }
}

/// A text has a second field exactly when it holds a space. The second field
/// starts after the first space and ends at the next one.
pub proof fn lemma_second_field(text: Seq<char>)
    ensures
        fields(text).len() >= 2 <==> first_space(text) < text.len(),
        first_space(text) < text.len() ==> fields(text)[1] == {
            let rest = text.subrange(first_space(text) + 1, text.len() as int);
            rest.subrange(0, first_space(rest))
        },
{
    lemma_first_space(text);
    let end = first_space(text);
    if end < text.len() {
        lemma_first_field(text.subrange(end + 1, text.len() as int));
    }
}

/// Returns the index of the first space of `chars` at or after `from`, or the
/// length of `chars` where there is none.
fn find_space(chars: &Vec<char>, from: usize) -> (end: usize)
    requires
        from <= chars.len(),
    ensures
        from <= end <= chars.len(),
        end - from == first_space(chars@.subrange(from as int, chars.len() as int)),
{
    let n: usize = chars.len();
    let mut i: usize = from;
    while i < n && chars[i] != ' '
        invariant
            n == chars.len(),
            from <= i <= n,
            first_space(chars@.subrange(from as int, n as int)) == (i - from) + first_space(
                chars@.subrange(i as int, n as int),
            ),
        decreases n - i,
    {
        proof {
            let here = chars@.subrange(i as int, n as int);
            assert(here.drop_first() =~= chars@.subrange(i + 1, n as int));
        }
        i = i + 1;
    }
    i
}

/// Reads the version out of the decoded output of the version query.
pub fn version_from_text(text: &str) -> (version: Result<String, VersionError>)
    ensures
        match version {
            Ok(v) => version_in(text@) == Ok::<Seq<char>, VersionError>(v@),
            Err(e) => version_in(text@) == Err::<Seq<char>, VersionError>(e),
        },
{
    let chars = chars_of(text);
    let n: usize = chars.len();
    let name_end: usize = find_space(&chars, 0);
    proof {
        assert(chars@.subrange(0, n as int) =~= text@);
        lemma_second_field(text@);
    }
    if name_end >= n {
        return Err(VersionError::NoVersionField);
    }
    let start: usize = name_end + 1;
    let end: usize = find_space(&chars, start);
    proof {
        let rest = text@.subrange(start as int, n as int);
        assert(rest.subrange(0, end - start) =~= text@.subrange(start as int, end as int));
    }
    if end == start || chars[end - 1] != '\n' {
        return Err(VersionError::NoLineEnd);
    }
    proof {
        assert(text@.subrange(start as int, end as int).drop_last() =~= text@.subrange(
            start as int,
            end - 1,
        ));
    }
    Ok(String::from_str(text.substring_char(start, end - 1)))
}

/// Reads the version out of the raw output of `rust-analyzer --version`.
pub fn rust_analyzer_version(output: &[u8]) -> (version: Result<String, VersionError>)
    ensures
        match version {
            Ok(v) => version_in_output(output@) == Ok::<Seq<char>, VersionError>(v@),
            Err(e) => version_in_output(output@) == Err::<Seq<char>, VersionError>(e),
        },
{
    match decode_text(output) {
        Some(text) => version_from_text(text),
        None => Err(VersionError::NotText),
    }
}

} // verus!
