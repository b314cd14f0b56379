//! The list file: image names, one per line.

use vstd::prelude::*;
use vstd::utf8::{decode_utf8, valid_utf8};
use crate::text::{from_utf8, strings_view};

verus! {

/// The byte that ends a line.
pub const NEWLINE: u8 = 0x0a;

/// The byte that may stand before the newline and is then no part of the
/// line.
pub const CARRIAGE_RETURN: u8 = 0x0d;

/// A line as it was read, without the carriage return that may stand before
/// its newline.
pub open spec fn without_carriage_return(line: Seq<u8>) -> Seq<u8> {
    if line.len() > 0 && line.last() == CARRIAGE_RETURN {
        line.drop_last()
    } else {
        line
    }
}

/// The lines of a list. What stands before the first newline is a line,
/// less the carriage return before the newline if there is one, and the
/// lines of what follows the newline come after it. Contents without a
/// newline are one line as they stand, unless they are empty.
pub open spec fn lines_of(contents: Seq<u8>) -> Seq<Seq<u8>>
    decreases contents.len(),
{
    match contents.index_of_first(NEWLINE) {
        Some(end) => {
            proof {
                contents.index_of_first_ensures(NEWLINE);
            }
            seq![without_carriage_return(contents.take(end))] + lines_of(contents.skip(end + 1))
        },
        None => if contents.len() > 0 {
            seq![contents]
        } else {
            Seq::empty()
        },
    }
}

/// The texts of those lines that are valid UTF-8, in their order.
pub open spec fn texts_of(lines: Seq<Seq<u8>>) -> Seq<Seq<char>> {
    lines.filter(|line: Seq<u8>| valid_utf8(line)).map_values(|line: Seq<u8>| decode_utf8(line))
}

/// The state of reading a list byte by byte: the lines that a newline has
/// closed, and the bytes of the line that is still open.
spec fn scanned(contents: Seq<u8>) -> (Seq<Seq<u8>>, Seq<u8>)
    decreases contents.len(),
{
    if contents.len() == 0 {
        (Seq::empty(), Seq::empty())
    } else {
        let (closed, open) = scanned(contents.drop_last());
        if contents.last() == NEWLINE {
            (closed.push(without_carriage_return(open)), Seq::empty())
        } else {
            (closed, open.push(contents.last()))
        }
    }
}

/// The lines at the end of reading: the closed ones and, unless it is
/// empty, the open one.
spec fn finished(state: (Seq<Seq<u8>>, Seq<u8>)) -> Seq<Seq<u8>> {
    if state.1.len() > 0 {
        state.0.push(state.1)
    } else {
        state.0
    }
}

/// Contents without a newline are one open line.
proof fn lemma_scanned_without_newline(contents: Seq<u8>)
    requires
        !contents.contains(NEWLINE),
    ensures
        scanned(contents) == (Seq::<Seq<u8>>::empty(), contents),
    decreases contents.len(),
{
    if contents.len() > 0 {
        let front = contents.drop_last();
        lemma_front_without_newline(contents);
        lemma_scanned_without_newline(front);
        assert(contents.last() != NEWLINE);
    }
}

/// Where the only newline that contents may hold is their last byte, what
/// stands before that byte holds none.
proof fn lemma_front_without_newline(contents: Seq<u8>)
    requires
        contents.len() > 0,
        forall|i: int| 0 <= i < contents.len() - 1 ==> contents[i] != NEWLINE,
    ensures
        !contents.drop_last().contains(NEWLINE),
{
    let front = contents.drop_last();
    if front.contains(NEWLINE) {
        let i = choose|i: int| 0 <= i < front.len() && front[i] == NEWLINE;
        assert(contents[i] == NEWLINE);
    }
}

/// Reading contents whose first newline stands at `end` closes the line
/// before it and goes on as if it had started behind it.
proof fn lemma_scanned_from_first_newline(contents: Seq<u8>, end: int)
    requires
        contents.index_of_first(NEWLINE) == Some(end),
    ensures
        0 <= end < contents.len(),
        scanned(contents) == (
            seq![without_carriage_return(contents.take(end))] + scanned(contents.skip(end + 1)).0,
            scanned(contents.skip(end + 1)).1,
        ),
    decreases contents.len(),
{
    contents.index_of_first_ensures(NEWLINE);
    let rest = contents.skip(end + 1);
    let front = contents.drop_last();
    if end == contents.len() - 1 {
        lemma_front_without_newline(contents);
        lemma_scanned_without_newline(front);
    } else {
        front.index_of_first_ensures(NEWLINE);
        assert(front[end] == NEWLINE);
        assert(front.index_of_first(NEWLINE) == Some(end));
        lemma_scanned_from_first_newline(front, end);
        assert(front.take(end) == contents.take(end));
        assert(front.skip(end + 1) == rest.drop_last());
    }
}

/// Reading byte by byte gives the lines of the contents.
proof fn lemma_scanned_gives_lines(contents: Seq<u8>)
    ensures
        finished(scanned(contents)) == lines_of(contents),
    decreases contents.len(),
{
    contents.index_of_first_ensures(NEWLINE);
    match contents.index_of_first(NEWLINE) {
        Some(end) => {
            lemma_scanned_from_first_newline(contents, end);
            lemma_scanned_gives_lines(contents.skip(end + 1));
        },
        None => {
            lemma_scanned_without_newline(contents);
        },
    }
}

/// Appends the text of a line to the lines read so far, unless the line is
/// not valid UTF-8.
fn push_line(lines: &mut Vec<String>, line: Vec<u8>, Ghost(before): Ghost<Seq<Seq<u8>>>)
    requires
        strings_view(old(lines)@) == texts_of(before),
    ensures
        strings_view(final(lines)@) == texts_of(before.push(line@)),
{
    let ghost valid = |line: Seq<u8>| valid_utf8(line);
    let ghost decode = |line: Seq<u8>| decode_utf8(line);
    proof {
        before.lemma_filter_push(line@, valid);
    }
    match from_utf8(line) {
        Some(text) => {
            lines.push(text);
            assert(before.filter(valid).push(line@).map_values(decode) == before.filter(
                valid,
            ).map_values(decode).push(decode_utf8(line@)));
        },
        None => {},
    }
}

/// Reads the contents of a list file as names, one per line. A line that is
/// not valid UTF-8 is left out; an empty line is a name like any other.
pub fn read_text_lines(contents: &[u8]) -> (lines: Vec<String>)
    ensures
        strings_view(lines@) == texts_of(lines_of(contents@)),
{
    let mut lines: Vec<String> = Vec::new();
    let mut line: Vec<u8> = Vec::new();
    let ghost mut closed: Seq<Seq<u8>> = Seq::empty();
    let mut i: usize = 0;
    assert(texts_of(closed) == Seq::<Seq<char>>::empty()) by {
        reveal(Seq::filter);
    }
    while i < contents.len()
        invariant
            i <= contents.len(),
            scanned(contents@.take(i as int)) == (closed, line@),
            strings_view(lines@) == texts_of(closed),
        decreases contents.len() - i,
    {
        let byte: u8 = contents[i];
        proof {
            assert(contents@.take(i + 1).drop_last() == contents@.take(i as int));
        }
        if byte == NEWLINE {
            let length: usize = line.len();
            if length > 0 && line[length - 1] == CARRIAGE_RETURN {
                line.pop();
            }
            let ghost ended = line@;
            push_line(&mut lines, line, Ghost(closed));
            proof {
                closed = closed.push(ended);
            }
            line = Vec::new();
        } else {
            line.push(byte);
        }
        i += 1;
    }
    proof {
        assert(contents@.take(contents@.len() as int) == contents@);
        lemma_scanned_gives_lines(contents@);
    }
    if line.len() > 0 {
        push_line(&mut lines, line, Ghost(closed));
    }
    lines
}

} // verus!
