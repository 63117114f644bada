//! Blocks of text written inside the source with a margin: splitting
//! them into lines and taking the margin off.

use vstd::prelude::*;
use vstd::string::*;

verus! {

/// `String::push` puts one character at the end of the string.
pub assume_specification[ String::push ](text: &mut String, c: char)
    ensures
        final(text)@ == old(text)@.push(c),
;

/// Whether `c` is white space: one of the characters to which Unicode
/// gives the property `White_Space`.
pub open spec fn is_space(c: char) -> bool {
    let code = c as u32;
    ||| 0x09 <= code <= 0x0D
    ||| code == 0x20
    ||| code == 0x85
    ||| code == 0xA0
    ||| code == 0x1680
    ||| 0x2000 <= code <= 0x200A
    ||| code == 0x2028
    ||| code == 0x2029
    ||| code == 0x202F
    ||| code == 0x205F
    ||| code == 0x3000
}

/// Whether a line holds nothing but white space.
pub open spec fn is_blank(line: Seq<char>) -> bool {
    forall|i: int| 0 <= i < line.len() ==> is_space(#[trigger] line[i])
}

/// How many spaces a line starts with.
pub open spec fn leading_spaces(line: Seq<char>) -> nat
    decreases line.len(),
{
    if line.len() > 0 && line[0] == ' ' {
        1 + leading_spaces(line.drop_first())
    } else {
        0
    }
}

/// The bytes a character takes in UTF-8.
pub open spec fn utf8_len(c: char) -> nat {
    let code = c as u32;
    if code < 0x80 {
        1
    } else if code < 0x800 {
        2
    } else if code < 0x10000 {
        3
    } else {
        4
    }
}

/// The bytes a line takes in UTF-8.
pub open spec fn byte_len(line: Seq<char>) -> nat
    decreases line.len(),
{
    if line.len() == 0 {
        0
    } else {
        byte_len(line.drop_last()) + utf8_len(line.last())
    }
}

/// The place of the first line feed in `text`, or the length of `text`
/// where it holds none.
pub open spec fn first_break(text: Seq<char>) -> int
    decreases text.len(),
{
    if text.len() == 0 || text[0] == '\n' {
        0
    } else {
        1 + first_break(text.drop_first())
    }
}

/// A line without the carriage return at its end, if it has one there.
pub open spec fn without_return(line: Seq<char>) -> Seq<char> {
    if line.len() > 0 && line.last() == '\r' {
        line.drop_last()
    } else {
        line
    }
}

/// The lines of `text`. A line ends at a line feed, or at a carriage
/// return followed by one, neither of which belongs to it. What follows
/// the last line feed is a line if it is not empty, carriage return and
/// all.
pub open spec fn lines(text: Seq<char>) -> Seq<Seq<char>>
    decreases text.len(),
{
    if text.len() == 0 {
        Seq::empty()
    } else {
        let n = first_break(text);
        if 0 <= n < text.len() {
            seq![without_return(text.take(n))] + lines(text.skip(n + 1))
        } else {
            seq![text]
        }
    }
}

/// The smallest number of leading spaces among the lines that are not
/// blank, if there is such a line.
pub open spec fn least_indent(lines: Seq<Seq<char>>) -> Option<nat>
    decreases lines.len(),
{
    if lines.len() == 0 {
        None
    } else if is_blank(lines.last()) {
        least_indent(lines.drop_last())
    } else {
        match least_indent(lines.drop_last()) {
            Some(least) if least <= leading_spaces(lines.last()) => Some(least),
            _ => Some(leading_spaces(lines.last())),
        }
    }
}

/// The margin of a block of lines: the smallest number of leading spaces
/// among the lines that are not blank, and zero where all are blank.
pub open spec fn margin_of(lines: Seq<Seq<char>>) -> nat {
    match least_indent(lines) {
        Some(least) => least,
        None => 0,
    }
}

/// A line without its first `margin` characters. A line that takes fewer
/// bytes than `margin` is left as it is; one that takes as many bytes but
/// has fewer characters becomes empty.
pub open spec fn shifted(line: Seq<char>, margin: nat) -> Seq<char> {
    if byte_len(line) < margin {
        line
    } else if line.len() < margin {
        Seq::empty()
    } else {
        line.skip(margin as int)
    }
}

/// The lines put together, with a line feed between one and the next.
pub open spec fn joined(lines: Seq<Seq<char>>) -> Seq<char>
    decreases lines.len(),
{
    if lines.len() == 0 {
        Seq::empty()
    } else if lines.len() == 1 {
        lines[0]
    } else {
        joined(lines.drop_last()) + seq!['\n'] + lines.last()
    }
}

/// The lines between the first and the last.
pub open spec fn inner(lines: Seq<Seq<char>>) -> Seq<Seq<char>> {
    lines.subrange(1, lines.len() - 1)
}

/// A block of text without its margin: the first line and the last are
/// dropped, the margin of the lines between them is taken off each, and
/// they are joined again.
pub open spec fn trimmed(text: Seq<char>) -> Seq<char> {
    let block = inner(lines(text));
    joined(block.map_values(|line: Seq<char>| shifted(line, margin_of(block))))
}

/// The lines held by `rows`, as sequences.
pub open spec fn rows_view(rows: Seq<Vec<char>>) -> Seq<Seq<char>> {
    rows.map_values(|row: Vec<char>| row@)
}

/// Where the first line feed of `text` is: at `n`, if none comes before
/// and one is there or the text ends there.
pub proof fn lemma_first_break(text: Seq<char>, n: int)
    requires
        0 <= n <= text.len(),
        forall|k: int| 0 <= k < n ==> text[k] != '\n',
        n == text.len() || text[n] == '\n',
    ensures
        first_break(text) == n,
    decreases n,
{
    if n > 0 {
        lemma_first_break(text.drop_first(), n - 1);
    }
}

/// The margin of a block is no larger than the leading spaces of any of
/// its lines that is not blank, and where there is such a line, one of
/// them starts with exactly that many spaces.
pub proof fn lemma_margin_is_least(lines: Seq<Seq<char>>)
    ensures
        forall|i: int|
            0 <= i < lines.len() && !is_blank(lines[i]) ==> margin_of(lines) <= leading_spaces(
                #[trigger] lines[i],
            ),
        least_indent(lines) is Some <==> exists|i: int|
            0 <= i < lines.len() && !is_blank(#[trigger] lines[i]),
        least_indent(lines) is Some ==> exists|i: int|
            0 <= i < lines.len() && !is_blank(#[trigger] lines[i]) && leading_spaces(lines[i])
                == margin_of(lines),
    decreases lines.len(),
{
    if lines.len() > 0 {
        let rest = lines.drop_last();
        lemma_margin_is_least(rest);
        let last = lines.len() - 1;
        assert forall|i: int| 0 <= i < lines.len() && !is_blank(lines[i]) implies margin_of(lines)
            <= leading_spaces(#[trigger] lines[i]) by {
            if i < last {
                assert(rest[i] == lines[i]);
            }
        }
        if least_indent(lines) is Some {
            if !is_blank(lines.last()) && margin_of(lines) == leading_spaces(lines.last()) {
                assert(!is_blank(lines[last]) && leading_spaces(lines[last]) == margin_of(lines));
            } else {
                let i = choose|i: int|
                    0 <= i < rest.len() && !is_blank(#[trigger] rest[i]) && leading_spaces(rest[i])
                        == margin_of(rest);
                assert(rest[i] == lines[i]);
                assert(!is_blank(lines[i]) && leading_spaces(lines[i]) == margin_of(lines));
            }
        } else {
            assert forall|i: int| 0 <= i < lines.len() implies is_blank(#[trigger] lines[i]) by {
                if i < last {
                    assert(rest[i] == lines[i]);
                }
            }
        }
        if exists|i: int| 0 <= i < lines.len() && !is_blank(#[trigger] lines[i]) {
            let i = choose|i: int| 0 <= i < lines.len() && !is_blank(#[trigger] lines[i]);
            if i < last {
                assert(rest[i] == lines[i]);
            }
        }
    }
}

/// The characters of a string.
pub fn chars_of(text: &str) -> (chars: Vec<char>)
    ensures
        chars@ == text@,
{
    let mut chars: Vec<char> = Vec::new();
    for c in it: text.chars()
        invariant
            it.seq() == text@,
            chars@ == it.seq().take(it.index() as int),
    {
        chars.push(c);
        assert(chars@ =~= it.seq().take(it.index() + 1));
    }
    assert(chars@ =~= text@);
    chars
}

/// The string made of the given characters.
pub fn string_of(chars: &Vec<char>) -> (text: String)
    ensures
        text@ == chars@,
{
    let mut text: String = String::new();
    let mut i: usize = 0;
    while i < chars.len()
        invariant
            i <= chars.len(),
            text@ == chars@.take(i as int),
        decreases chars.len() - i,
    {
        text.push(chars[i]);
        assert(text@ =~= chars@.take(i + 1));
        i += 1;
    }
    assert(chars@.take(chars.len() as int) =~= chars@);
    text
}

/// Whether `c` is white space.
pub fn is_whitespace(c: char) -> (space: bool)
    ensures
        space == is_space(c),
{
    let code: u32 = c as u32;
    (0x09 <= code && code <= 0x0D) || code == 0x20 || code == 0x85 || code == 0xA0 || code
        == 0x1680 || (0x2000 <= code && code <= 0x200A) || code == 0x2028 || code == 0x2029
        || code == 0x202F || code == 0x205F || code == 0x3000
}

/// Whether a line holds nothing but white space.
pub fn line_is_blank(line: &Vec<char>) -> (blank: bool)
    ensures
        blank == is_blank(line@),
{
    let mut i: usize = 0;
    while i < line.len()
        invariant
            i <= line.len(),
            forall|k: int| 0 <= k < i ==> is_space(#[trigger] line[k]),
        decreases line.len() - i,
    {
        if !is_whitespace(line[i]) {
            return false;
        }
        i += 1;
    }
    true
}

/// How many spaces a line starts with.
pub fn count_leading_spaces(line: &Vec<char>) -> (count: usize)
    ensures
        count == leading_spaces(line@),
        count <= line.len(),
{
    let mut i: usize = 0;
    assert(line@.skip(0) =~= line@);
    while i < line.len() && line[i] == ' '
        invariant
            i <= line.len(),
            leading_spaces(line@) == i + leading_spaces(line@.skip(i as int)),
        decreases line.len() - i,
    {
        proof {
            let rest = line@.skip(i as int);
            assert(rest[0] == ' ');
            assert(rest.drop_first() =~= line@.skip(i + 1));
        }
        i += 1;
    }
    proof {
        let rest = line@.skip(i as int);
        if i < line.len() {
            assert(rest[0] == line@[i as int]);
        }
        assert(line@.skip(0) =~= line@);
    }
    i
}

/// Whether a line takes at least `least` bytes in UTF-8.
pub fn takes_bytes(line: &Vec<char>, least: usize) -> (enough: bool)
    ensures
        enough == (byte_len(line@) >= least),
{
    let mut bytes: u128 = 0;
    let mut i: usize = 0;
    assert(line@.take(0) =~= Seq::<char>::empty());
    while i < line.len()
        invariant
            i <= line.len(),
            bytes == byte_len(line@.take(i as int)),
            bytes <= 4 * i,
        decreases line.len() - i,
    {
        let code: u32 = line[i] as u32;
        let width: u128 = if code < 0x80 {
            1
        } else if code < 0x800 {
            2
        } else if code < 0x10000 {
            3
        } else {
            4
        };
        proof {
            let upto = line@.take(i + 1);
            assert(upto.drop_last() =~= line@.take(i as int));
            assert(upto.last() == line@[i as int]);
        }
        bytes = bytes + width;
        i += 1;
    }
    assert(line@.take(line.len() as int) =~= line@);
    bytes >= least as u128
}

/// Splits a text into its lines.
pub fn split_lines(text: &Vec<char>) -> (rows: Vec<Vec<char>>)
    ensures
        rows_view(rows@) == lines(text@),
{
    let mut rows: Vec<Vec<char>> = Vec::new();
    let mut current: Vec<char> = Vec::new();
    let mut i: usize = 0;
    let ghost mut start: int = 0;
    proof {
        assert(text@.skip(0) =~= text@);
        assert(rows_view(rows@) =~= Seq::<Seq<char>>::empty());
        assert(current@ =~= text@.subrange(0, 0));
    }
    while i < text.len()
        invariant
            0 <= start <= i <= text.len(),
            lines(text@) == rows_view(rows@) + lines(text@.skip(start)),
            current@ == text@.subrange(start, i as int),
            forall|k: int| start <= k < i ==> text[k] != '\n',
        decreases text.len() - i,
    {
        let c: char = text[i];
        if c == '\n' {
            let ghost line = current@;
            let ghost before = rows@;
            proof {
                let rest = text@.skip(start);
                lemma_first_break(rest, i - start);
                assert(rest.take(i - start) =~= line);
                assert(rest.skip(i - start + 1) =~= text@.skip(i + 1));
            }
            if current.len() > 0 && current[current.len() - 1] == '\r' {
                current.pop();
            }
            assert(current@ =~= without_return(line));
            rows.push(current);
            current = Vec::new();
            proof {
                start = i + 1;
                assert(rows_view(rows@) =~= rows_view(before) + seq![without_return(line)]);
                assert(current@ =~= text@.subrange(start, i + 1));
            }
        } else {
            current.push(c);
            assert(current@ =~= text@.subrange(start, i + 1));
        }
        i += 1;
    }
    let ghost before = rows@;
    proof {
        let rest = text@.skip(start);
        assert(rest =~= current@);
        if rest.len() > 0 {
            lemma_first_break(rest, rest.len() as int);
        }
    }
    if current.len() > 0 {
        rows.push(current);
        assert(rows_view(rows@) =~= rows_view(before) + seq![text@.skip(start)]);
    } else {
        assert(rows_view(before) + Seq::<Seq<char>>::empty() =~= rows_view(before));
    }
    rows
}

/// The margin of the rows from `from` up to, but without, `to`.
pub fn block_margin(rows: &Vec<Vec<char>>, from: usize, to: usize) -> (margin: usize)
    requires
        from <= to <= rows.len(),
    ensures
        margin == margin_of(rows_view(rows@).subrange(from as int, to as int)),
{
    let mut least: Option<usize> = None;
    let mut i: usize = from;
    let ghost all = rows_view(rows@);
    assert(all.subrange(from as int, from as int) =~= Seq::<Seq<char>>::empty());
    while i < to
        invariant
            from <= i <= to <= rows.len(),
            all == rows_view(rows@),
            match least {
                Some(n) => least_indent(all.subrange(from as int, i as int)) == Some(n as nat),
                None => least_indent(all.subrange(from as int, i as int)) is None,
            },
        decreases to - i,
    {
        proof {
            let upto = all.subrange(from as int, i + 1);
            assert(upto.drop_last() =~= all.subrange(from as int, i as int));
            assert(upto.last() == rows@[i as int]@);
        }
        if !line_is_blank(&rows[i]) {
            let spaces: usize = count_leading_spaces(&rows[i]);
            least = match least {
                Some(n) => if n <= spaces {
                    Some(n)
                } else {
                    Some(spaces)
                },
                None => Some(spaces),
            };
        }
        i += 1;
    }
    match least {
        Some(n) => n,
        None => 0,
    }
}

/// Puts a line without its first `margin` characters at the end of `out`.
pub fn push_shifted(out: &mut Vec<char>, line: &Vec<char>, margin: usize)
    ensures
        final(out)@ == old(out)@ + shifted(line@, margin as nat),
{
    let mut i: usize = if takes_bytes(line, margin) {
        margin
    } else {
        0
    };
    if i > line.len() {
        i = line.len();
    }
    let ghost first = i as int;
    assert(old(out)@ + line@.subrange(first, first) =~= old(out)@);
    while i < line.len()
        invariant
            0 <= first <= i <= line.len(),
            out@ == old(out)@ + line@.subrange(first, i as int),
        decreases line.len() - i,
    {
        out.push(line[i]);
        assert(out@ =~= old(out)@ + line@.subrange(first, i + 1));
        i += 1;
    }
    assert(line@.subrange(first, line.len() as int) =~= shifted(line@, margin as nat));
}

/// Takes the margin off a block of text: drops the first line and the
/// last, takes off each line between them as many characters as the
/// least indented of those that are not blank starts with spaces, and
/// joins them again. The text must have two lines or more.
pub fn trim_margin(text: &str) -> (block: String)
    requires
        lines(text@).len() >= 2,
    ensures
        block@ == trimmed(text@),
{
    let chars: Vec<char> = chars_of(text);
    let rows: Vec<Vec<char>> = split_lines(&chars);
    assert(rows_view(rows@).len() == rows@.len());
    let last: usize = rows.len() - 1;
    let margin: usize = block_margin(&rows, 1, last);
    let ghost block = inner(lines(text@));
    let ghost moved = block.map_values(|line: Seq<char>| shifted(line, margin_of(block)));
    let mut out: Vec<char> = Vec::new();
    let mut i: usize = 1;
    assert(moved.take(0) =~= Seq::<Seq<char>>::empty());
    while i < last
        invariant
            1 <= i <= last,
            last == rows.len() - 1,
            rows_view(rows@) == lines(text@),
            block == inner(lines(text@)),
            moved == block.map_values(|line: Seq<char>| shifted(line, margin_of(block))),
            margin == margin_of(block),
            out@ == joined(moved.take(i - 1)),
        decreases last - i,
    {
        proof {
            let upto = moved.take(i as int);
            assert(upto.drop_last() =~= moved.take(i - 1));
            assert(block[i - 1] == rows@[i as int]@);
            assert(upto.last() == shifted(rows@[i as int]@, margin as nat));
            assert(joined(moved.take(i - 1)) + Seq::<char>::empty() + upto.last() =~= joined(
                moved.take(i - 1),
            ) + upto.last());
        }
        if i > 1 {
            out.push('\n');
        } else {
            assert(moved.take(0).len() == 0);
            assert(out@ =~= Seq::<char>::empty());
        }
        let ghost sofar = out@;
        push_shifted(&mut out, &rows[i], margin);
        proof {
            let upto = moved.take(i as int);
            if i > 1 {
                assert(out@ =~= joined(upto.drop_last()) + seq!['\n'] + upto.last());
            } else {
                assert(upto.len() == 1);
                assert(out@ =~= upto[0]);
            }
        }
        i += 1;
    }
    assert(moved.take(last - 1) =~= moved);
    string_of(&out)
}

/// Text that can have its margin taken off.
pub trait TrimMargin {
    /// The characters of the text.
    spec fn content(&self) -> Seq<char>;

    /// The text without its first line, its last line and its margin. The
    /// text must have two lines or more.
    fn nice(&self) -> (block: String)
        requires
            lines(self.content()).len() >= 2,
        ensures
            block@ == trimmed(self.content()),
    ;
}

impl TrimMargin for str {
    open spec fn content(&self) -> Seq<char> {
        self@
    }

    fn nice(&self) -> (block: String) {
        trim_margin(self)
    }
}

} // verus!
