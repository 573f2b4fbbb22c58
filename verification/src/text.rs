//! Text building blocks shared by the progress line and the sync engine.
//!
//! Text is assembled as a vector of characters, whose view is the sequence
//! the contracts speak of, and turned into a `String` at the end.

use vstd::prelude::*;

verus! {

/// `String::push` appends the given character to the end of the string.
pub assume_specification[ String::push ](s: &mut String, ch: char)
    ensures
        final(s)@ == old(s)@.push(ch),
;

/// The decimal digit that stands for `d`, for `d` below ten.
pub open spec fn digit_char(d: nat) -> char {
    (d + 48) as char
}

/// The decimal numeral of `n`, without leading zeros (zero is "0").
pub open spec fn decimal(n: nat) -> Seq<char>
    decreases n,
{
    if n < 10 {
        seq![digit_char(n)]
    } else {
        decimal(n / 10).push(digit_char(n % 10))
    }
}

/// The decimal numeral of `n`, filled up with zeros on the left to `width`
/// characters; a numeral that is already that long stays as it is.
pub open spec fn zero_padded(n: nat, width: nat) -> Seq<char> {
    let digits = decimal(n);
    if digits.len() >= width {
        digits
    } else {
        Seq::new((width - digits.len()) as nat, |i: int| '0') + digits
    }
}

/// The number that a numeral stands for, digit by digit; leading zeros add
/// nothing.
pub open spec fn numeral_value(s: Seq<char>) -> nat
    decreases s.len(),
{
    if s.len() == 0 {
        0
    } else {
        (numeral_value(s.drop_last()) * 10 + (s.last() as nat - 48)) as nat
    }
}

/// A decimal numeral holds digits only, at least one, and stands for its
/// number.
pub proof fn lemma_decimal(n: nat)
    ensures
        decimal(n).len() >= 1,
        forall|i: int| 0 <= i < decimal(n).len() ==> '0' <= #[trigger] decimal(n)[i] <= '9',
        numeral_value(decimal(n)) == n,
    decreases n,
{
    if n >= 10 {
        lemma_decimal(n / 10);
        assert(decimal(n).drop_last() == decimal(n / 10));
    } else {
        assert(decimal(n).drop_last() == Seq::<char>::empty());
        assert(numeral_value(decimal(n).drop_last()) == 0);
    }
}

/// A zero-padded numeral holds digits only, at least one, and stands for
/// its number: so different numbers have different numerals.
pub proof fn lemma_zero_padded(n: nat, width: nat)
    ensures
        zero_padded(n, width).len() >= 1,
        zero_padded(n, width).len() >= width,
        forall|i: int|
            0 <= i < zero_padded(n, width).len() ==> '0' <= #[trigger] zero_padded(n, width)[i]
                <= '9',
        numeral_value(zero_padded(n, width)) == n,
{
    lemma_decimal(n);
    let digits = decimal(n);
    if digits.len() < width {
        lemma_leading_zeros((width - digits.len()) as nat, digits);
    }
}

/// Zeros in front of a numeral leave its value as it is.
pub proof fn lemma_leading_zeros(zeros: nat, s: Seq<char>)
    ensures
        numeral_value(Seq::new(zeros, |i: int| '0') + s) == numeral_value(s),
    decreases s.len(), zeros,
{
    let front = Seq::new(zeros, |i: int| '0');
    if s.len() > 0 {
        lemma_leading_zeros(zeros, s.drop_last());
        assert((front + s).drop_last() == front + s.drop_last());
    } else if zeros > 0 {
        lemma_leading_zeros((zeros - 1) as nat, s);
        assert((front + s).drop_last() == Seq::new((zeros - 1) as nat, |i: int| '0') + s);
    } else {
        assert(front + s == Seq::<char>::empty());
    }
}

/// `text` with every occurrence of `pattern` replaced by `with`, scanning
/// from the left and resuming behind each occurrence found. An empty
/// pattern occurs nowhere.
pub open spec fn replace_all(text: Seq<char>, pattern: Seq<char>, with: Seq<char>) -> Seq<char>
    decreases text.len(),
{
    if text.len() == 0 {
        text
    } else if pattern.len() > 0 && pattern.is_prefix_of(text) {
        with + replace_all(text.skip(pattern.len() as int), pattern, with)
    } else {
        seq![text[0]] + replace_all(text.skip(1), pattern, with)
    }
}

/// Whether `pattern`, which is not empty, stands in `text` at position
/// `at` and nowhere else.
pub open spec fn stands_only_at(text: Seq<char>, pattern: Seq<char>, at: int) -> bool {
    &&& pattern.len() > 0
    &&& 0 <= at <= text.len() - pattern.len()
    &&& forall|i: int|
        0 <= i < text.len() ==> (pattern.is_prefix_of(#[trigger] text.skip(i)) <==> i == at)
}

/// A text in which the pattern stands nowhere is left as it is.
pub proof fn lemma_replace_nothing(text: Seq<char>, pattern: Seq<char>, with: Seq<char>)
    requires
        forall|i: int| 0 <= i < text.len() ==> !pattern.is_prefix_of(#[trigger] text.skip(i)),
    ensures
        replace_all(text, pattern, with) == text,
    decreases text.len(),
{
    if text.len() > 0 {
        let rest = text.skip(1);
        assert(text.skip(0) == text);
        assert forall|i: int| 0 <= i < rest.len() implies !pattern.is_prefix_of(
            #[trigger] rest.skip(i),
        ) by {
            assert(rest.skip(i) == text.skip(i + 1));
        }
        lemma_replace_nothing(rest, pattern, with);
        assert(seq![text[0]] + rest == text);
    }
}

/// Where the pattern stands at one place only, the replacement takes that
/// place and the text around it stays.
pub proof fn lemma_replace_once(text: Seq<char>, pattern: Seq<char>, with: Seq<char>, at: int)
    requires
        stands_only_at(text, pattern, at),
    ensures
        replace_all(text, pattern, with) == text.take(at) + with + text.skip(at + pattern.len()),
    decreases at,
{
    assert(text.skip(0) == text);
    if at == 0 {
        let rest = text.skip(pattern.len() as int);
        assert forall|i: int| 0 <= i < rest.len() implies !pattern.is_prefix_of(
            #[trigger] rest.skip(i),
        ) by {
            assert(rest.skip(i) == text.skip(pattern.len() + i));
        }
        lemma_replace_nothing(rest, pattern, with);
        assert(text.take(0) + with + rest == with + rest);
    } else {
        let rest = text.skip(1);
        assert forall|i: int| 0 <= i < rest.len() implies (pattern.is_prefix_of(
            #[trigger] rest.skip(i),
        ) <==> i == at - 1) by {
            assert(rest.skip(i) == text.skip(i + 1));
        }
        lemma_replace_once(rest, pattern, with, at - 1);
        assert(rest.skip(at - 1 + pattern.len()) == text.skip(at + pattern.len()));
        assert(seq![text[0]] + rest.take(at - 1) == text.take(at));
        assert(seq![text[0]] + (rest.take(at - 1) + with + text.skip(at + pattern.len()))
            == text.take(at) + with + text.skip(at + pattern.len()));
    }
}

/// Where the last segment of `s` begins: just behind its last `/`, or at
/// the start where `s` holds none.
pub open spec fn last_segment_start(s: Seq<char>) -> int
    decreases s.len(),
{
    if s.len() == 0 {
        0
    } else if s.last() == '/' {
        s.len() as int
    } else {
        last_segment_start(s.drop_last())
    }
}

/// What follows the last `/` of `s`; all of `s` where it holds none.
pub open spec fn last_segment(s: Seq<char>) -> Seq<char> {
    s.skip(last_segment_start(s))
}

/// The last segment starts inside `s`, directly behind a `/` unless at the
/// very start, and holds no `/` itself.
pub proof fn lemma_last_segment(s: Seq<char>)
    ensures
        0 <= last_segment_start(s) <= s.len(),
        last_segment_start(s) > 0 ==> s[last_segment_start(s) - 1] == '/',
        forall|i: int| last_segment_start(s) <= i < s.len() ==> s[i] != '/',
        last_segment(s).len() == s.len() - last_segment_start(s),
        !last_segment(s).contains('/'),
    decreases s.len(),
{
    let start = last_segment_start(s);
    if s.len() > 0 && s.last() != '/' {
        let front = s.drop_last();
        lemma_last_segment(front);
        assert forall|i: int| start <= i < s.len() implies s[i] != '/' by {
            if i < front.len() {
                assert(s[i] == front[i]);
            }
        }
    }
}

/// The characters of `s`, in order.
pub fn chars_of(s: &str) -> (out: Vec<char>)
    ensures
        out@ == s@,
{
    let mut out: Vec<char> = Vec::new();
    for c in it: s.chars()
        invariant
            it.seq() == s@,
            out@ == s@.take(it.index()),
    {
        out.push(c);
    }
    out
}

/// The string that holds `chars`, in order.
pub fn string_of(chars: &Vec<char>) -> (s: String)
    ensures
        s@ == chars@,
{
    let mut s = String::new();
    let mut i: usize = 0;
    while i < chars.len()
        invariant
            i <= chars.len(),
            s@ == chars@.take(i as int),
        decreases chars.len() - i,
    {
        s.push(chars[i]);
        i += 1;
    }
    s
}

/// Appends the characters `more[from..]` to `out`.
pub fn append_from(out: &mut Vec<char>, more: &Vec<char>, from: usize)
    requires
        from <= more.len(),
    ensures
        final(out)@ == old(out)@ + more@.skip(from as int),
{
    let mut i: usize = from;
    while i < more.len()
        invariant
            from <= i <= more.len(),
            out@ == old(out)@ + more@.subrange(from as int, i as int),
        decreases more.len() - i,
    {
        out.push(more[i]);
        i += 1;
    }
}

/// Appends all of `more` to `out`.
pub fn append_chars(out: &mut Vec<char>, more: &Vec<char>)
    ensures
        final(out)@ == old(out)@ + more@,
{
    append_from(out, more, 0);
}

/// Appends the characters of `s` to `out`.
pub fn append_str(out: &mut Vec<char>, s: &str)
    ensures
        final(out)@ == old(out)@ + s@,
{
    for c in it: s.chars()
        invariant
            it.seq() == s@,
            out@ == old(out)@ + s@.take(it.index()),
    {
        out.push(c);
    }
}

/// Appends `count` copies of `c` to `out`.
pub fn append_repeated(out: &mut Vec<char>, c: char, count: usize)
    ensures
        final(out)@ == old(out)@ + Seq::new(count as nat, |i: int| c),
{
    let mut i: usize = 0;
    while i < count
        invariant
            i <= count,
            out@ == old(out)@ + Seq::new(i as nat, |j: int| c),
        decreases count - i,
    {
        out.push(c);
        i += 1;
    }
}

fn digit(d: usize) -> (c: char)
    requires
        d < 10,
    ensures
        c == digit_char(d as nat),
{
    (d as u8 + 48u8) as char
}

/// Appends the decimal numeral of `n` to `out`.
pub fn append_decimal(out: &mut Vec<char>, n: usize)
    ensures
        final(out)@ == old(out)@ + decimal(n as nat),
    decreases n,
{
    if n >= 10 {
        append_decimal(out, n / 10);
    }
    out.push(digit(n % 10));
}

/// Appends the decimal numeral of `n` to `out`, zero-padded to `width`.
pub fn append_zero_padded(out: &mut Vec<char>, n: usize, width: usize)
    ensures
        final(out)@ == old(out)@ + zero_padded(n as nat, width as nat),
{
    let mut digits: Vec<char> = Vec::new();
    append_decimal(&mut digits, n);
    if digits.len() < width {
        append_repeated(out, '0', width - digits.len());
    }
    append_chars(out, &digits);
}

/// Whether `pattern` stands in `text` at position `at`.
fn occurs_at(text: &Vec<char>, at: usize, pattern: &Vec<char>) -> (found: bool)
    requires
        at <= text.len(),
    ensures
        found == pattern@.is_prefix_of(text@.skip(at as int)),
{
    if pattern.len() > text.len() - at {
        return false;
    }
    let mut i: usize = 0;
    while i < pattern.len()
        invariant
            at + pattern.len() <= text.len(),
            i <= pattern.len(),
            forall|j: int| 0 <= j < i ==> pattern@[j] == text@[at + j],
        decreases pattern.len() - i,
    {
        if pattern[i] != text[at + i] {
            return false;
        }
        i += 1;
    }
    true
}

/// `text` with every occurrence of `pattern` replaced by `with`.
pub fn replace(text: &Vec<char>, pattern: &Vec<char>, with: &Vec<char>) -> (out: Vec<char>)
    ensures
        out@ == replace_all(text@, pattern@, with@),
{
    let mut out: Vec<char> = Vec::new();
    let mut i: usize = 0;
    assert(text@.skip(0) =~= text@);
    while i < text.len()
        invariant
            i <= text.len(),
            out@ + replace_all(text@.skip(i as int), pattern@, with@) == replace_all(
                text@,
                pattern@,
                with@,
            ),
        decreases text.len() - i,
    {
        let ghost rest = text@.skip(i as int);
        if pattern.len() > 0 && occurs_at(text, i, pattern) {
            assert(rest.skip(pattern@.len() as int) =~= text@.skip(i + pattern@.len()));
            append_chars(&mut out, with);
            i += pattern.len();
        } else {
            assert(rest.skip(1) =~= text@.skip(i + 1));
            out.push(text[i]);
            i += 1;
        }
    }
    out
}

/// Where the last segment of `s` begins.
pub fn find_last_segment(s: &Vec<char>) -> (start: usize)
    ensures
        start == last_segment_start(s@),
        start <= s.len(),
{
    let mut start: usize = 0;
    let mut i: usize = 0;
    while i < s.len()
        invariant
            i <= s.len(),
            start <= i,
            start == last_segment_start(s@.take(i as int)),
        decreases s.len() - i,
    {
        assert(s@.take(i + 1).drop_last() =~= s@.take(i as int));
        if s[i] == '/' {
            start = i + 1;
        }
        i += 1;
    }
    assert(s@.take(s.len() as int) =~= s@);
    start
}

} // verus!
