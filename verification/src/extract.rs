//! The field extractor: finds the line that declares an attribute and hands
//! out the raw value written on it.

use vstd::prelude::*;
use vstd::string::*;
use crate::error::{Failure, ParseError};
use crate::text::{chars_of, contains, find_char, occurs_at, occurs_within, offset_of};

verus! {

/// The first line of a text that is not empty: what stands before the first
/// line feed, less a carriage return right in front of that line feed. A
/// carriage return that ends the text without a line feed belongs to the line.
pub open spec fn first_line(text: Seq<char>) -> Seq<char> {
    let end = offset_of(text, '\n');
    if 0 < end < text.len() && text[end - 1] == '\r' {
        text.take(end - 1)
    } else {
        text.take(end)
    }
}

/// What follows the first line and the line feed that ends it.
pub open spec fn after_first_line(text: Seq<char>) -> Seq<char> {
    let end = offset_of(text, '\n');
    if 0 <= end < text.len() {
        text.skip(end + 1)
    } else {
        Seq::empty()
    }
}

/// The lines of a text, in order. A line feed ends a line; it does not begin
/// a further, empty one at the end of the text.
pub open spec fn lines(text: Seq<char>) -> Seq<Seq<char>>
    decreases text.len(),
{
    if text.len() == 0 {
        Seq::empty()
    } else {
        seq![first_line(text)] + lines(after_first_line(text))
    }
}

/// The first of `lines` in which `needle` stands.
pub open spec fn first_with(lines: Seq<Seq<char>>, needle: Seq<char>) -> Option<Seq<char>>
    decreases lines.len(),
{
    if lines.len() == 0 {
        None
    } else if contains(lines[0], needle) {
        Some(lines[0])
    } else {
        first_with(lines.drop_first(), needle)
    }
}

/// What a line declares: all that follows its first `=`. A line without `=`
/// declares nothing.
pub open spec fn declared_value(line: Seq<char>) -> Option<Seq<char>> {
    let eq = offset_of(line, '=');
    if 0 <= eq < line.len() {
        Some(line.skip(eq + 1))
    } else {
        None
    }
}

/// The line of `text` that is read for `name`: the first one in which
/// `name` stands.
///
/// The name is looked for as a substring, not as the whole key: a name that
/// is part of another attribute's key finds that attribute's line if it comes
/// first.
pub open spec fn line_of(text: Seq<char>, name: Seq<char>) -> Option<Seq<char>> {
    first_with(lines(text), name)
}

/// What is said of a line that holds `name` and declares nothing.
pub open spec fn separator_complaint(line: Seq<char>, name: Seq<char>) -> Seq<char> {
    "failed to parse \""@ + line + "\" for \""@ + name + "\", expected the form KEY=VALUE"@
}

/// What looking `name` up in `text` comes to: the value that the line read
/// for `name` declares. No line holds the name: the attribute is not found.
/// The line read for it has no `=`: a value error that cites that line.
pub open spec fn extraction(text: Seq<char>, name: Seq<char>) -> Result<Seq<char>, Failure> {
    match line_of(text, name) {
        None => Err(Failure::AttributeNotFound(name)),
        Some(line) => match declared_value(line) {
            Some(value) => Ok(value),
            None => Err(Failure::ValueError(separator_complaint(line, name))),
        },
    }
}

/// The raw value of the attribute `name` in `text`, where looking it up
/// gives one.
pub open spec fn attribute_value(text: Seq<char>, name: Seq<char>) -> Option<Seq<char>> {
    match extraction(text, name) {
        Ok(value) => Some(value),
        Err(_) => None,
    }
}

/// `first_with` finds the line of least index in which the needle stands,
/// and finds none only where the needle stands in no line.
pub proof fn lemma_first_with(lines: Seq<Seq<char>>, needle: Seq<char>)
    ensures
        match first_with(lines, needle) {
            Some(line) => exists|i: int|
                {
                    &&& 0 <= i < lines.len()
                    &&& #[trigger] lines[i] == line
                    &&& contains(line, needle)
                    &&& forall|j: int| 0 <= j < i ==> !contains(#[trigger] lines[j], needle)
                },
            None => forall|i: int| 0 <= i < lines.len() ==> !contains(#[trigger] lines[i], needle),
        },
    decreases lines.len(),
{
    if lines.len() == 0 {
    } else if contains(lines[0], needle) {
        assert(lines[0] == first_with(lines, needle).unwrap());
    } else {
        let rest = lines.drop_first();
        lemma_first_with(rest, needle);
        assert(forall|i: int| 0 <= i < rest.len() ==> rest[i] == lines[i + 1]);
        match first_with(rest, needle) {
            Some(line) => {
                let i = choose|i: int|
                    {
                        &&& 0 <= i < rest.len()
                        &&& #[trigger] rest[i] == line
                        &&& contains(line, needle)
                        &&& forall|j: int| 0 <= j < i ==> !contains(#[trigger] rest[j], needle)
                    };
                assert(lines[i + 1] == line);
                assert forall|j: int| 0 <= j < i + 1 implies !contains(
                    #[trigger] lines[j],
                    needle,
                ) by {
                    if j > 0 {
                        assert(rest[j - 1] == lines[j]);
                    }
                }
            },
            None => {
                assert forall|i: int| 0 <= i < lines.len() implies !contains(
                    #[trigger] lines[i],
                    needle,
                ) by {
                    if i > 0 {
                        assert(rest[i - 1] == lines[i]);
                    }
                }
            },
        }
    }
}

/// An attribute is not found if and only if its name stands in no line of
/// the text.
pub proof fn lemma_not_found_iff_in_no_line(text: Seq<char>, name: Seq<char>)
    ensures
        extraction(text, name) == Err::<Seq<char>, Failure>(Failure::AttributeNotFound(name))
            <==> forall|i: int|
            0 <= i < lines(text).len() ==> !contains(#[trigger] lines(text)[i], name),
        extraction(text, name) matches Err(Failure::AttributeNotFound(other)) ==> other == name,
{
    lemma_first_with(lines(text), name);
}

/// The message for a line that declares nothing cites the line.
pub proof fn lemma_separator_complaint_cites_line(line: Seq<char>, name: Seq<char>)
    ensures
        contains(separator_complaint(line, name), line),
{
    let at: int = "failed to parse \""@.len() as int;
    let whole = separator_complaint(line, name);
    assert(whole.subrange(at, at + line.len()) =~= line);
    assert(occurs_at(whole, line, at));
}

/// Looking for a line from a line's start on is looking in the rest of the
/// lines once that line does not hold the needle.
proof fn lemma_skip_line(text: Seq<char>, needle: Seq<char>, pos: int, end: int, stop: int)
    requires
        0 <= pos < text.len(),
        pos <= end <= text.len(),
        end == pos + offset_of(text.skip(pos), '\n'),
        stop == if pos < end < text.len() && text[end - 1] == '\r' {
            end - 1
        } else {
            end
        },
    ensures
        first_line(text.skip(pos)) == text.subrange(pos, stop),
        after_first_line(text.skip(pos)) == if end < text.len() {
            text.skip(end + 1)
        } else {
            Seq::empty()
        },
        first_with(lines(text.skip(pos)), needle) == if contains(
            text.subrange(pos, stop),
            needle,
        ) {
            Some(text.subrange(pos, stop))
        } else if end < text.len() {
            first_with(lines(text.skip(end + 1)), needle)
        } else {
            None
        },
{
    let rest = text.skip(pos);
    let line = first_line(rest);
    let tail = after_first_line(rest);
    assert(line =~= text.subrange(pos, stop));
    if end < text.len() {
        assert(tail =~= text.skip(end + 1));
    }
    let all = lines(rest);
    assert(all == seq![line] + lines(tail));
    assert(all[0] == line);
    assert(all.drop_first() =~= lines(tail));
    if end >= text.len() {
        assert(lines(tail) =~= Seq::<Seq<char>>::empty());
    }
}

/// Finds the first line of `haystack` in which `needle` stands and returns
/// what follows that line's first `=`.
///
/// Fails with `AttributeNotFound`, naming `needle`, exactly when no line
/// holds it, and with a `ValueError` that cites the line found when that
/// line has no `=`.
pub fn extract_value_for<'a>(needle: &'a str, haystack: &'a str) -> (r: Result<
    &'a str,
    ParseError,
>)
    ensures
        match extraction(haystack@, needle@) {
            Ok(value) => r matches Ok(raw) && raw@ == value,
            Err(failure) => r matches Err(e) && e@ == failure,
        },
{
    let hay = chars_of(haystack);
    let pat = chars_of(needle);
    let n: usize = hay.len();
    let mut pos: usize = 0;
    assert(hay@.skip(0) =~= hay@);
    while pos < n
        invariant
            pos <= n == hay@.len(),
            hay@ == haystack@,
            pat@ == needle@,
            first_with(lines(hay@), pat@) == first_with(lines(hay@.skip(pos as int)), pat@),
        decreases n - pos,
    {
        let end: usize = find_char(&hay, pos, n, '\n');
        let stop: usize = if pos < end && end < n && hay[end - 1] == '\r' {
            end - 1
        } else {
            end
        };
        proof {
            assert(hay@.subrange(pos as int, n as int) =~= hay@.skip(pos as int));
            lemma_skip_line(hay@, pat@, pos as int, end as int, stop as int);
        }
        if occurs_within(&hay, pos, stop, &pat) {
            let eq: usize = find_char(&hay, pos, stop, '=');
            if eq < stop {
                let raw = haystack.substring_char(eq + 1, stop);
                proof {
                    let line = hay@.subrange(pos as int, stop as int);
                    assert(raw@ =~= line.skip(eq - pos + 1));
                }
                return Ok(raw);
            }
            let mut reason = String::from_str("failed to parse \"");
            reason.append(haystack.substring_char(pos, stop));
            reason.append("\" for \"");
            reason.append(needle);
            reason.append("\", expected the form KEY=VALUE");
            return Err(ParseError::ValueError(reason));
        }
        pos = if end < n {
            end + 1
        } else {
            n
        };
        proof {
            if end >= n {
                assert(lines(hay@.skip(n as int)) =~= Seq::<Seq<char>>::empty());
            }
        }
    }
    Err(ParseError::AttributeNotFound(needle.to_owned()))
}

} // verus!
