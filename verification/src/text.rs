//! Operations on text that the rest of the library is built from, each with
//! its meaning as a function on sequences of characters.

use vstd::prelude::*;
use vstd::std_specs::iter::IteratorSpec;
use vstd::string::*;

verus! {

/// Appends one character to a `String`.
///
/// Trusted: the body is `String::push`, which the standard library documents
/// as appending the given character to the end of the string.
#[verifier::external_body]
pub(crate) fn push_char(text: &mut String, c: char)
    ensures
        final(text)@ == old(text)@.push(c),
{
    text.push(c);
}

/// The characters of a text, one by one.
pub fn chars_of(text: &str) -> (chars: Vec<char>)
    ensures
        chars@ == text@,
{
    let mut chars: Vec<char> = Vec::new();
    let mut rest = text.chars();
    loop
        invariant
            rest.obeys_prophetic_iter_laws(),
            rest.decrease() is Some,
            chars@ + rest.remaining() == text@,
        decreases rest.decrease()->0,
    {
        let ghost before = rest.remaining();
        match rest.next() {
            Some(c) => {
                chars.push(c);
                assert(chars@ + rest.remaining() =~= text@) by {
                    assert(before =~= seq![c] + before.drop_first());
                }
            },
            None => {
                assert(chars@ =~= text@);
                return chars;
            },
        }
    }
}

/// The character that writes the digit `d`.
pub open spec fn digit(d: int) -> char {
    if d == 0 {
        '0'
    } else if d == 1 {
        '1'
    } else if d == 2 {
        '2'
    } else if d == 3 {
        '3'
    } else if d == 4 {
        '4'
    } else if d == 5 {
        '5'
    } else if d == 6 {
        '6'
    } else if d == 7 {
        '7'
    } else if d == 8 {
        '8'
    } else {
        '9'
    }
}

/// The numeral of `n` in base `base`, most significant digit first and
/// without leading zeros.
pub open spec fn numeral(n: nat, base: nat) -> Seq<char>
    recommends
        2 <= base <= 10,
    decreases n,
{
    if n < base || base < 2 {
        seq![digit(n as int)]
    } else {
        proof {
            lemma_quotient_smaller(n, base);
        }
        numeral(n / base, base).push(digit((n % base) as int))
    }
}

/// Dividing by a base of at least two makes a number at or above the base
/// smaller, and leaves a remainder below the base.
pub proof fn lemma_quotient_smaller(n: nat, base: nat)
    requires
        2 <= base <= n,
    ensures
        n / base < n,
        n % base < base,
{
    assert(n / base < n && n % base < base) by (nonlinear_arith)
        requires
            2 <= base <= n,
    ;
}

/// The decimal numeral of `n`.
pub open spec fn decimal(n: nat) -> Seq<char> {
    numeral(n, 10)
}

/// The octal numeral of `n`.
pub open spec fn octal(n: nat) -> Seq<char> {
    numeral(n, 8)
}

/// The character that writes the digit `d`.
fn digit_char(d: usize) -> (c: char)
    requires
        d < 10,
    ensures
        c == digit(d as int),
{
    if d == 0 {
        '0'
    } else if d == 1 {
        '1'
    } else if d == 2 {
        '2'
    } else if d == 3 {
        '3'
    } else if d == 4 {
        '4'
    } else if d == 5 {
        '5'
    } else if d == 6 {
        '6'
    } else if d == 7 {
        '7'
    } else if d == 8 {
        '8'
    } else {
        '9'
    }
}

/// Appends the numeral of `n` in base `base` to `text`.
fn push_numeral(text: &mut String, n: usize, base: usize)
    requires
        2 <= base <= 10,
    ensures
        final(text)@ == old(text)@ + numeral(n as nat, base as nat),
    decreases n,
{
    if n < base {
        push_char(text, digit_char(n));
        assert(old(text)@.push(digit(n as int)) =~= old(text)@ + numeral(n as nat, base as nat));
    } else {
        proof {
            lemma_quotient_smaller(n as nat, base as nat);
        }
        push_numeral(text, n / base, base);
        push_char(text, digit_char(n % base));
        assert((old(text)@ + numeral((n / base) as nat, base as nat)).push(
            digit((n % base) as int),
        ) =~= old(text)@ + numeral(n as nat, base as nat));
    }
}

/// Appends the decimal numeral of `n` to `text`.
pub fn push_decimal(text: &mut String, n: usize)
    ensures
        final(text)@ == old(text)@ + decimal(n as nat),
{
    push_numeral(text, n, 10);
}

/// Appends the octal numeral of `n` to `text`.
pub fn push_octal(text: &mut String, n: usize)
    ensures
        final(text)@ == old(text)@ + octal(n as nat),
{
    push_numeral(text, n, 8);
}

/// The lines of `lines`, each two neighbours parted by one line feed.
pub open spec fn joined(lines: Seq<Seq<char>>) -> Seq<char>
    decreases lines.len(),
{
    if lines.len() == 0 {
        Seq::empty()
    } else if lines.len() == 1 {
        lines[0]
    } else {
        joined(lines.drop_last()).push('\n') + lines.last()
    }
}

/// What each of `texts` holds, in order.
pub open spec fn views(texts: Seq<String>) -> Seq<Seq<char>> {
    Seq::new(texts.len(), |i: int| texts[i]@)
}

/// Joins `lines` with one line feed between each two neighbours.
pub fn join_lines(lines: &Vec<String>) -> (text: String)
    ensures
        text@ == joined(views(lines@)),
{
    let mut text = String::new();
    let n: usize = lines.len();
    let mut i: usize = 0;
    while i < n
        invariant
            n == lines@.len(),
            i <= n,
            text@ == joined(views(lines@).take(i as int)),
        decreases n - i,
    {
        let ghost done = views(lines@).take(i as int);
        let ghost next = views(lines@).take(i + 1);
        if i > 0 {
            push_char(&mut text, '\n');
        }
        text.append(lines[i].as_str());
        proof {
            assert(next.drop_last() =~= done);
            assert(next.last() == lines@[i as int]@);
            if i == 0 {
                assert(text@ =~= next[0]);
            }
        }
        i += 1;
    }
    assert(views(lines@).take(n as int) =~= views(lines@));
    text
}

/// `text` with each line feed replaced by the mark-up of a line break.
pub open spec fn with_breaks(text: Seq<char>) -> Seq<char>
    decreases text.len(),
{
    if text.len() == 0 {
        Seq::empty()
    } else if text.last() == '\n' {
        with_breaks(text.drop_last()) + "<br>"@
    } else {
        with_breaks(text.drop_last()).push(text.last())
    }
}

/// Replaces each line feed of `text` by the mark-up of a line break.
pub fn break_lines(text: &str) -> (marked: String)
    ensures
        marked@ == with_breaks(text@),
{
    let chars = chars_of(text);
    let mut marked = String::new();
    let n: usize = chars.len();
    let mut i: usize = 0;
    while i < n
        invariant
            n == chars@.len(),
            i <= n,
            marked@ == with_breaks(chars@.take(i as int)),
        decreases n - i,
    {
        assert(chars@.take(i + 1).drop_last() =~= chars@.take(i as int));
        if chars[i] == '\n' {
            marked.append("<br>");
        } else {
            push_char(&mut marked, chars[i]);
        }
        i += 1;
    }
    assert(chars@.take(n as int) =~= chars@);
    marked
}

/// Whether `needle` stands in `text` at place `at`.
pub open spec fn occurs_at(text: Seq<char>, needle: Seq<char>, at: int) -> bool {
    &&& 0 <= at
    &&& at + needle.len() <= text.len()
    &&& text.subrange(at, at + needle.len()) == needle
}

/// Whether `needle` stands somewhere in `text`.
pub open spec fn occurs(text: Seq<char>, needle: Seq<char>) -> bool {
    exists|at: int| occurs_at(text, needle, at)
}

/// Whether `needle` stands in `text` at place `at`.
fn matches_at(text: &Vec<char>, needle: &Vec<char>, at: usize) -> (found: bool)
    requires
        at + needle@.len() <= text@.len(),
    ensures
        found == occurs_at(text@, needle@, at as int),
{
    let n: usize = text.len();
    let m: usize = needle.len();
    let mut k: usize = 0;
    while k < m
        invariant
            n == text@.len(),
            m == needle@.len(),
            k <= m,
            at + m <= n,
            forall|j: int| 0 <= j < k ==> text@[at + j] == needle@[j],
        decreases m - k,
    {
        if text[at + k] != needle[k] {
            assert(text@.subrange(at as int, at + m)[k as int] != needle@[k as int]);
            return false;
        }
        k += 1;
    }
    assert(text@.subrange(at as int, at + m) =~= needle@);
    true
}

/// Whether `needle` stands somewhere in `text`.
pub fn contains(text: &str, needle: &str) -> (found: bool)
    ensures
        found == occurs(text@, needle@),
{
    let hay = chars_of(text);
    let pin = chars_of(needle);
    let n: usize = hay.len();
    let m: usize = pin.len();
    if m > n {
        return false;
    }
    let last: usize = n - m;
    let mut at: usize = 0;
    while at < last
        invariant
            hay@ == text@,
            pin@ == needle@,
            n == hay@.len(),
            m == pin@.len(),
            last == n - m,
            at <= last,
            forall|j: int| 0 <= j < at ==> !occurs_at(hay@, pin@, j),
        decreases last - at,
    {
        if matches_at(&hay, &pin, at) {
            return true;
        }
        at += 1;
    }
    matches_at(&hay, &pin, last)
}

/// Whether `c` is white space: one of the characters that Unicode classes as
/// `White_Space`.
pub open spec fn is_blank(c: char) -> bool {
    let code = c as u32;
    ||| 0x09 <= code <= 0x0d
    ||| code == 0x20
    ||| code == 0x85
    ||| code == 0xa0
    ||| code == 0x1680
    ||| 0x2000 <= code <= 0x200a
    ||| code == 0x2028
    ||| code == 0x2029
    ||| code == 0x202f
    ||| code == 0x205f
    ||| code == 0x3000
}

/// `text` without the white space that it begins with.
pub open spec fn without_leading_blanks(text: Seq<char>) -> Seq<char>
    decreases text.len(),
{
    if text.len() > 0 && is_blank(text[0]) {
        without_leading_blanks(text.drop_first())
    } else {
        text
    }
}

/// `text` without the white space that it ends with.
pub open spec fn without_trailing_blanks(text: Seq<char>) -> Seq<char>
    decreases text.len(),
{
    if text.len() > 0 && is_blank(text.last()) {
        without_trailing_blanks(text.drop_last())
    } else {
        text
    }
}

/// `text` without the white space at either end.
pub open spec fn trimmed(text: Seq<char>) -> Seq<char> {
    without_trailing_blanks(without_leading_blanks(text))
}

/// Whether `c` is white space.
pub fn blank(c: char) -> (yes: bool)
    ensures
        yes == is_blank(c),
{
    let code: u32 = c as u32;
    (0x09 <= code && code <= 0x0d) || code == 0x20 || code == 0x85 || code == 0xa0 || code
        == 0x1680 || (0x2000 <= code && code <= 0x200a) || code == 0x2028 || code == 0x2029
        || code == 0x202f || code == 0x205f || code == 0x3000
}

/// Removes the white space at either end of `text`.
pub fn trim(text: &str) -> (kept: String)
    ensures
        kept@ == trimmed(text@),
{
    let chars = chars_of(text);
    let n: usize = chars.len();
    let mut from: usize = 0;
    assert(chars@.skip(0) =~= chars@);
    while from < n && blank(chars[from])
        invariant
            n == chars@.len(),
            from <= n,
            without_leading_blanks(chars@) == without_leading_blanks(chars@.skip(from as int)),
        decreases n - from,
    {
        assert(chars@.skip(from as int).drop_first() =~= chars@.skip(from + 1));
        from += 1;
    }
    let ghost body = chars@.skip(from as int);
    assert(without_leading_blanks(chars@) == body);
    let mut to: usize = n;
    assert(body.take(n - from) =~= body);
    while to > from && blank(chars[to - 1])
        invariant
            n == chars@.len(),
            from <= to <= n,
            body == chars@.skip(from as int),
            without_trailing_blanks(body) == without_trailing_blanks(body.take(to - from)),
        decreases to,
    {
        assert(body.take(to - from).drop_last() =~= body.take(to - from - 1));
        assert(body.take(to - from).last() == chars@[to - 1]);
        to -= 1;
    }
    proof {
        assert(body.take(n - from) =~= body);
        if to > from {
            assert(body.take(to - from).last() == chars@[to - 1]);
        }
        assert(without_trailing_blanks(body) == body.take(to - from));
    }
    let mut kept = String::new();
    let mut i: usize = from;
    while i < to
        invariant
            n == chars@.len(),
            from <= i <= to <= n,
            body == chars@.skip(from as int),
            kept@ == body.take(i - from),
        decreases to - i,
    {
        push_char(&mut kept, chars[i]);
        assert(body.take(i + 1 - from) =~= body.take(i - from).push(chars@[i as int]));
        i += 1;
    }
    kept
}

/// The number of characters of `text`.
pub fn length_of(text: &str) -> (length: usize)
    ensures
        length == text@.len(),
{
    text.unicode_len()
}

/// A text that neither begins nor ends with white space is its own
/// trimming.
pub proof fn lemma_trimmed_is_whole(text: Seq<char>)
    requires
        text.len() == 0 || (!is_blank(text[0]) && !is_blank(text.last())),
    ensures
        trimmed(text) == text,
{
}

/// The place in `joined(lines)` where line `i` begins.
pub open spec fn line_start(lines: Seq<Seq<char>>, i: int) -> int
    decreases i,
{
    if i <= 0 {
        0
    } else {
        line_start(lines, i - 1) + lines[i - 1].len() + 1
    }
}

/// Where a line begins depends on the lines before it alone.
pub proof fn lemma_line_start_of_prefix(lines: Seq<Seq<char>>, kept: int, i: int)
    requires
        0 <= i <= kept <= lines.len(),
    ensures
        line_start(lines.take(kept), i) == line_start(lines, i),
    decreases i,
{
    if i > 0 {
        lemma_line_start_of_prefix(lines, kept, i - 1);
    }
}

/// The joined lines end with the last line.
pub proof fn lemma_joined_length(lines: Seq<Seq<char>>)
    requires
        lines.len() > 0,
    ensures
        joined(lines).len() == line_start(lines, lines.len() - 1) + lines.last().len(),
    decreases lines.len(),
{
    if lines.len() > 1 {
        let front = lines.drop_last();
        lemma_joined_length(front);
        assert(front =~= lines.take(lines.len() - 1));
        lemma_line_start_of_prefix(lines, lines.len() - 1, lines.len() - 2);
        assert(front.last() == lines[lines.len() - 2]);
    }
}

/// Each line stands whole in the joined lines, at its place.
pub proof fn lemma_joined_holds_line(lines: Seq<Seq<char>>, i: int)
    requires
        0 <= i < lines.len(),
    ensures
        occurs_at(joined(lines), lines[i], line_start(lines, i)),
        occurs(joined(lines), lines[i]),
    decreases lines.len(),
{
    let all = joined(lines);
    let at = line_start(lines, i);
    if lines.len() == 1 {
        assert(all.subrange(0, lines[0].len() as int) =~= lines[0]);
    } else {
        let front = lines.drop_last();
        assert(front =~= lines.take(lines.len() - 1));
        lemma_joined_length(front);
        assert(front.last() == lines[lines.len() - 2]);
        lemma_line_start_of_prefix(lines, lines.len() - 1, lines.len() - 2);
        if i == lines.len() - 1 {
            assert(at == joined(front).len() + 1);
            assert(all.subrange(at, at + lines[i].len()) =~= lines[i]);
        } else {
            lemma_joined_holds_line(front, i);
            lemma_line_start_of_prefix(lines, lines.len() - 1, i);
            assert(front[i] == lines[i]);
            assert(all.subrange(at, at + lines[i].len()) =~= joined(front).subrange(
                at,
                at + lines[i].len(),
            ));
        }
    }
    assert(occurs_at(all, lines[i], at));
}

/// Joined lines none of which is empty begin as the first line begins and
/// end as the last line ends.
pub proof fn lemma_joined_ends(lines: Seq<Seq<char>>)
    requires
        lines.len() > 0,
        forall|i: int| 0 <= i < lines.len() ==> lines[i].len() > 0,
    ensures
        joined(lines).len() > 0,
        joined(lines)[0] == lines[0][0],
        joined(lines).last() == lines.last().last(),
    decreases lines.len(),
{
    if lines.len() > 1 {
        let front = lines.drop_last();
        lemma_joined_ends(front);
        assert(front[0] == lines[0]);
    }
}

/// Whether `line` holds something and neither begins nor ends with white
/// space.
pub open spec fn is_solid(line: Seq<char>) -> bool {
    &&& line.len() > 0
    &&& !is_blank(line[0])
    &&& !is_blank(line.last())
}

/// Lines that each hold something and neither begin nor end with white
/// space are joined to a text that trimming leaves whole.
pub proof fn lemma_solid_lines_stay_whole(lines: Seq<Seq<char>>)
    requires
        forall|i: int| 0 <= i < lines.len() ==> is_solid(#[trigger] lines[i]),
    ensures
        trimmed(joined(lines)) == joined(lines),
{
    if lines.len() > 0 {
        lemma_joined_ends(lines);
    }
    lemma_trimmed_is_whole(joined(lines));
}

} // verus!
