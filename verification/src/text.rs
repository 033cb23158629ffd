//! Text as the game needs it: lines without the white space around them, and
//! texts compared letter for letter.

use vstd::prelude::*;
use vstd::std_specs::iter::IteratorSpec;

verus! {

/// `String::push` appends one character at the end of the string and changes
/// nothing before it.
pub assume_specification[ String::push ](s: &mut String, c: char)
    ensures
        final(s)@ == old(s)@.push(c),
;

/// Whether `c` is white space: one of the twenty-five characters to which
/// Unicode gives the property White_Space. Among them are the blank, the tab,
/// the line feed and the carriage return.
pub open spec fn white_space(c: char) -> bool {
    let n = c as u32;
    ||| 0x09 <= n <= 0x0D
    ||| n == 0x20
    ||| n == 0x85
    ||| n == 0xA0
    ||| n == 0x1680
    ||| 0x2000 <= n <= 0x200A
    ||| n == 0x2028
    ||| n == 0x2029
    ||| n == 0x202F
    ||| n == 0x205F
    ||| n == 0x3000
}

/// `line` without the white space it begins with.
pub open spec fn without_leading(line: Seq<char>) -> Seq<char>
    decreases line.len(),
{
    if line.len() > 0 && white_space(line.first()) {
        without_leading(line.drop_first())
    } else {
        line
    }
}

/// `line` without the white space it ends with.
pub open spec fn without_trailing(line: Seq<char>) -> Seq<char>
    decreases line.len(),
{
    if line.len() > 0 && white_space(line.last()) {
        without_trailing(line.drop_last())
    } else {
        line
    }
}

/// `line` without the white space at its two ends. White space between two
/// other characters stays.
pub open spec fn trimmed(line: Seq<char>) -> Seq<char> {
    without_leading(without_trailing(line))
}

/// Where the part of `line` that trimming keeps begins and ends: nothing but
/// white space lies before `from` and from `to` on, and the part between, if
/// there is any, neither begins nor ends with white space.
pub open spec fn keeps(line: Seq<char>, from: int, to: int) -> bool {
    &&& 0 <= from <= to <= line.len()
    &&& forall|j: int| 0 <= j < from ==> white_space(#[trigger] line[j])
    &&& forall|j: int| to <= j < line.len() ==> white_space(#[trigger] line[j])
    &&& from < to ==> !white_space(line[from]) && !white_space(line[to - 1])
}

proof fn lemma_without_trailing(line: Seq<char>, to: int)
    requires
        0 <= to <= line.len(),
        forall|j: int| to <= j < line.len() ==> white_space(#[trigger] line[j]),
        to > 0 ==> !white_space(line[to - 1]),
    ensures
        without_trailing(line) == line.take(to),
    decreases line.len() - to,
{
    if to < line.len() {
        lemma_without_trailing(line.drop_last(), to);
        assert(line.drop_last().take(to) =~= line.take(to));
    } else {
        assert(line.take(to) =~= line);
    }
}

proof fn lemma_without_leading(line: Seq<char>, from: int)
    requires
        0 <= from <= line.len(),
        forall|j: int| 0 <= j < from ==> white_space(#[trigger] line[j]),
        from < line.len() ==> !white_space(line[from]),
    ensures
        without_leading(line) == line.skip(from),
    decreases from,
{
    if from > 0 {
        let shorter = line.drop_first();
        assert forall|j: int| 0 <= j < from - 1 implies white_space(#[trigger] shorter[j]) by {
            assert(shorter[j] == line[j + 1]);
        }
        lemma_without_leading(shorter, from - 1);
        assert(shorter.skip(from - 1) =~= line.skip(from));
    } else {
        assert(line.skip(0) =~= line);
    }
}

/// Trimming keeps exactly the part between the white space at the two ends:
/// whatever bounds enclose that part, what is kept is the line between them.
pub proof fn lemma_trimmed_between(line: Seq<char>, from: int, to: int)
    requires
        keeps(line, from, to),
    ensures
        trimmed(line) == line.subrange(from, to),
{
    if from < to {
        lemma_without_trailing(line, to);
        lemma_without_leading(line.take(to), from);
        assert(line.take(to).skip(from) =~= line.subrange(from, to));
    } else {
        // Nothing is kept: the whole line is white space.
        lemma_without_trailing(line, 0);
        assert(line.take(0) =~= line.subrange(from, to));
    }
}

/// Whether `c` is white space.
pub fn is_white_space(c: char) -> (space: bool)
    ensures
        space == white_space(c),
{
    let n: u32 = c as u32;
    (0x09 <= n && n <= 0x0D) || n == 0x20 || n == 0x85 || n == 0xA0 || n == 0x1680 || (0x2000 <= n
        && n <= 0x200A) || n == 0x2028 || n == 0x2029 || n == 0x202F || n == 0x205F || n == 0x3000
}

/// The line without the white space at its two ends.
pub fn trim(line: &str) -> (rest: &str)
    ensures
        rest@ == trimmed(line@),
{
    // Counting the letters first bounds the indices below.
    let n = line.unicode_len();
    let mut from: usize = 0;
    let mut to: usize = 0;
    let mut i: usize = 0;
    for c in it: line.chars()
        invariant
            it.seq() == line@,
            n == line@.len(),
            i == it.index(),
            keeps(line@.take(i as int), from as int, to as int),
            to == 0 ==> from == 0,
            to > 0 ==> from < to,
    {
        if !is_white_space(c) {
            if to == 0 {
                from = i;
            }
            to = i + 1;
        }
        i += 1;
    }
    proof {
        assert(line@.take(i as int) =~= line@);
        lemma_trimmed_between(line@, from as int, to as int);
    }
    line.substring_char(from, to)
}

/// Whether two texts are the same, letter for letter.
pub fn same_text(a: &str, b: &str) -> (same: bool)
    ensures
        same == (a@ == b@),
{
    let mut rest = b.chars();
    for x in it: a.chars()
        invariant
            it.seq() == a@,
            rest.obeys_prophetic_iter_laws(),
            it.index() <= b@.len(),
            rest.remaining() == b@.skip(it.index() as int),
            a@.take(it.index() as int) == b@.take(it.index() as int),
    {
        match rest.next() {
            None => {
                return false;
            },
            Some(y) => {
                if x != y {
                    assert(a@[it.index() as int] != b@[it.index() as int]);
                    return false;
                }
            },
        }
    }
    let last = rest.next();
    proof {
        if last is None {
            assert(a@.take(a@.len() as int) =~= a@);
            assert(b@.take(b@.len() as int) =~= b@);
        }
    }
    last.is_none()
}

} // verus!
