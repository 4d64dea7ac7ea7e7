//! Text as sequences of characters: trimming, joining, decimal numbers and
//! counting where a pattern occurs.

use crate::views::views;
use vstd::prelude::*;

verus! {

/// The characters of `s`, in order.
pub fn chars_of(s: &str) -> (v: Vec<char>)
    ensures
        v@ == s@,
{
    let mut v: Vec<char> = Vec::new();
    for c in it: s.chars()
        invariant
            v@ == it.seq().take(it.index() as int),
            it.seq() == s@,
    {
        v.push(c);
    }
    v
}

/// A copy of `s`.
pub fn owned(s: &str) -> (r: String)
    ensures
        r@ == s@,
{
    String::from_str(s)
}

/// `parts` in order, with `separator` between each two of them.
pub open spec fn joined(parts: Seq<Seq<char>>, separator: Seq<char>) -> Seq<char>
    decreases parts.len(),
{
    if parts.len() == 0 {
        Seq::empty()
    } else if parts.len() == 1 {
        parts[0]
    } else {
        joined(parts.drop_last(), separator) + separator + parts.last()
    }
}

/// `parts` in order, with `separator` between each two of them.
pub fn join(parts: &Vec<String>, separator: &str) -> (r: String)
    ensures
        r@ == joined(views(parts@), separator@),
{
    let ghost all = views(parts@);
    let mut out = String::new();
    let mut i: usize = 0;
    assert(all.take(0) =~= Seq::<Seq<char>>::empty());
    while i < parts.len()
        invariant
            i <= parts.len(),
            all == views(parts@),
            out@ == joined(all.take(i as int), separator@),
        decreases parts.len() - i,
    {
        let ghost before = all.take(i as int);
        let ghost after = all.take(i + 1);
        assert(after.drop_last() =~= before);
        assert(after.last() == parts@[i as int]@);
        if i > 0 {
            out.append(separator);
        }
        out.append(parts[i].as_str());
        assert(out@ =~= joined(after, separator@));
        i += 1;
    }
    assert(all.take(parts.len() as int) =~= all);
    out
}

/// The decimal digit for `d`, which is under ten.
pub open spec fn digit(d: int) -> char {
    if d == 0 {
        '0'
    } else if d == 1 {
        '1'
    } else if d == 2 {
        '2'
    } else if d == 3 {
        '3'
    } else if d == 4 {
        '4'
    } else if d == 5 {
        '5'
    } else if d == 6 {
        '6'
    } else if d == 7 {
        '7'
    } else if d == 8 {
        '8'
    } else {
        '9'
    }
}

/// The digits of `n` in base ten, the most significant first, with no
/// leading zero but for zero itself.
pub open spec fn decimal_digits(n: nat) -> Seq<char>
    decreases n,
{
    if n < 10 {
        seq![digit(n as int)]
    } else {
        decimal_digits(n / 10).push(digit((n % 10) as int))
    }
}

/// `n` in base ten, with a minus sign before a negative number.
pub open spec fn decimal(n: int) -> Seq<char> {
    if n < 0 {
        seq!['-'] + decimal_digits((-n) as nat)
    } else {
        decimal_digits(n as nat)
    }
}

/// The digit for `d` as a text of one character.
fn digit_text(d: u32) -> (r: &'static str)
    requires
        d < 10,
    ensures
        r@ == seq![digit(d as int)],
{
    proof {
        reveal_strlit("0");
        reveal_strlit("1");
        reveal_strlit("2");
        reveal_strlit("3");
        reveal_strlit("4");
        reveal_strlit("5");
        reveal_strlit("6");
        reveal_strlit("7");
        reveal_strlit("8");
        reveal_strlit("9");
    }
    let r = if d == 0 {
        "0"
    } else if d == 1 {
        "1"
    } else if d == 2 {
        "2"
    } else if d == 3 {
        "3"
    } else if d == 4 {
        "4"
    } else if d == 5 {
        "5"
    } else if d == 6 {
        "6"
    } else if d == 7 {
        "7"
    } else if d == 8 {
        "8"
    } else {
        "9"
    };
    assert(r@ =~= seq![digit(d as int)]);
    r
}

/// Appends the digits of `n` to `out`.
fn push_digits(out: &mut String, n: u32)
    ensures
        final(out)@ == old(out)@ + decimal_digits(n as nat),
    decreases n,
{
    if n >= 10 {
        push_digits(out, n / 10);
    }
    out.append(digit_text(n % 10));
}

/// `n` in base ten, as `i32` is displayed.
pub fn decimal_text(n: i32) -> (r: String)
    ensures
        r@ == decimal(n as int),
{
    let mut out = String::new();
    if n < 0 {
        proof {
            reveal_strlit("-");
        }
        out.append("-");
        let magnitude: i64 = -(n as i64);
        push_digits(&mut out, magnitude as u32);
        assert(out@ =~= decimal(n as int));
    } else {
        push_digits(&mut out, n as u32);
        assert(out@ =~= decimal(n as int));
    }
    out
}

/// Whether `pattern` stands in `text` at the index `at`.
pub open spec fn occurs_at(text: Seq<char>, pattern: Seq<char>, at: int) -> bool {
    &&& 0 <= at
    &&& at + pattern.len() <= text.len()
    &&& text.subrange(at, at + pattern.len()) == pattern
}

/// At how many indices under `end` the `pattern` stands in `text`.
pub open spec fn occurrences_before(text: Seq<char>, pattern: Seq<char>, end: int) -> nat
    decreases end,
{
    if end <= 0 {
        0
    } else {
        occurrences_before(text, pattern, end - 1) + if occurs_at(text, pattern, end - 1) {
            1nat
        } else {
            0nat
        }
    }
}

/// At how many indices the `pattern` stands in `text`. Occurrences that
/// overlap are counted each.
pub open spec fn occurrences(text: Seq<char>, pattern: Seq<char>) -> nat {
    occurrences_before(text, pattern, text.len() as int)
}

/// The count of occurrences does not fall as the end moves on.
pub proof fn lemma_occurrences_grow(text: Seq<char>, pattern: Seq<char>, a: int, b: int)
    requires
        a <= b,
    ensures
        occurrences_before(text, pattern, a) <= occurrences_before(text, pattern, b),
    decreases b - a,
{
    if a < b {
        lemma_occurrences_grow(text, pattern, a, b - 1);
    }
}

/// A stretch of indices that holds an occurrence adds at least one to the
/// count.
pub proof fn lemma_occurrence_counts(text: Seq<char>, pattern: Seq<char>, a: int, b: int, at: int)
    requires
        0 <= a <= at < b,
        occurs_at(text, pattern, at),
    ensures
        occurrences_before(text, pattern, b) >= occurrences_before(text, pattern, a) + 1,
{
    lemma_occurrences_grow(text, pattern, a, at);
    lemma_occurrences_grow(text, pattern, at + 1, b);
}

/// A stretch of indices that holds one occurrence and no other adds one to
/// the count.
pub proof fn lemma_single_occurrence(text: Seq<char>, pattern: Seq<char>, a: int, b: int, at: int)
    requires
        0 <= a <= at < b,
        occurs_at(text, pattern, at),
        forall|p: int| a <= p < b && occurs_at(text, pattern, p) ==> p == at,
    ensures
        occurrences_before(text, pattern, b) == occurrences_before(text, pattern, a) + 1,
    decreases b - a,
{
    if b - 1 == at {
        lemma_no_occurrence(text, pattern, a, at);
    } else {
        lemma_single_occurrence(text, pattern, a, b - 1, at);
    }
}

/// A stretch of indices that holds no occurrence adds nothing to the count.
pub proof fn lemma_no_occurrence(text: Seq<char>, pattern: Seq<char>, a: int, b: int)
    requires
        0 <= a <= b,
        forall|p: int| a <= p < b ==> !occurs_at(text, pattern, p),
    ensures
        occurrences_before(text, pattern, b) == occurrences_before(text, pattern, a),
    decreases b - a,
{
    if a < b {
        lemma_no_occurrence(text, pattern, a, b - 1);
    }
}

/// The code points that Unicode gives the property White_Space.
pub open spec fn is_white_space(c: char) -> bool {
    let u = c as u32;
    ||| 0x09 <= u <= 0x0D
    ||| u == 0x20
    ||| u == 0x85
    ||| u == 0xA0
    ||| u == 0x1680
    ||| 0x2000 <= u <= 0x200A
    ||| u == 0x2028
    ||| u == 0x2029
    ||| u == 0x202F
    ||| u == 0x205F
    ||| u == 0x3000
}

/// What is taken off the two ends of a text.
#[derive(Clone, Copy, Debug, PartialEq, Eq)]
pub enum Margin {
    /// Unicode white space.
    WhiteSpace,
    /// The backtick, U+0060.
    Backticks,
}

impl Margin {
    /// Whether `c` belongs to this margin.
    pub open spec fn takes(self, c: char) -> bool {
        match self {
            Margin::WhiteSpace => is_white_space(c),
            Margin::Backticks => c == '`',
        }
    }

    /// Whether `c` belongs to this margin.
    pub fn holds(&self, c: char) -> (r: bool)
        ensures
            r == self.takes(c),
    {
        match self {
            Margin::WhiteSpace => {
                let u: u32 = c as u32;
                (0x09 <= u && u <= 0x0D) || u == 0x20 || u == 0x85 || u == 0xA0 || u == 0x1680 || (
                0x2000 <= u && u <= 0x200A) || u == 0x2028 || u == 0x2029 || u == 0x202F || u
                    == 0x205F || u == 0x3000
            },
            Margin::Backticks => c == '`',
        }
    }
}

/// `s` without its leading characters of `margin`.
pub open spec fn strip_start(s: Seq<char>, margin: Margin) -> Seq<char>
    decreases s.len(),
{
    if s.len() > 0 && margin.takes(s.first()) {
        strip_start(s.drop_first(), margin)
    } else {
        s
    }
}

/// `s` without its trailing characters of `margin`.
pub open spec fn strip_end(s: Seq<char>, margin: Margin) -> Seq<char>
    decreases s.len(),
{
    if s.len() > 0 && margin.takes(s.last()) {
        strip_end(s.drop_last(), margin)
    } else {
        s
    }
}

/// `s` without its leading and trailing characters of `margin`.
pub open spec fn stripped(s: Seq<char>, margin: Margin) -> Seq<char> {
    strip_end(strip_start(s, margin), margin)
}

/// Stripping the start leaves the part from the first character that the
/// margin does not take.
pub proof fn lemma_strip_start(s: Seq<char>, margin: Margin, a: int)
    requires
        0 <= a <= s.len(),
        forall|i: int| 0 <= i < a ==> margin.takes(#[trigger] s[i]),
        a < s.len() ==> !margin.takes(s[a]),
    ensures
        strip_start(s, margin) == s.subrange(a, s.len() as int),
    decreases a,
{
    if a == 0 {
        assert(s.subrange(0, s.len() as int) =~= s);
    } else {
        let rest = s.drop_first();
        assert forall|i: int| 0 <= i < a - 1 implies margin.takes(#[trigger] rest[i]) by {
            assert(rest[i] == s[i + 1]);
        }
        lemma_strip_start(rest, margin, a - 1);
        assert(rest.subrange(a - 1, rest.len() as int) =~= s.subrange(a, s.len() as int));
    }
}

/// Stripping the end leaves the part up to the last character that the margin
/// does not take.
pub proof fn lemma_strip_end(s: Seq<char>, margin: Margin, b: int)
    requires
        0 <= b <= s.len(),
        forall|i: int| b <= i < s.len() ==> margin.takes(#[trigger] s[i]),
        0 < b ==> !margin.takes(s[b - 1]),
    ensures
        strip_end(s, margin) == s.subrange(0, b),
    decreases s.len() - b,
{
    if b == s.len() {
        assert(s.subrange(0, b) =~= s);
    } else {
        let rest = s.drop_last();
        assert forall|i: int| b <= i < rest.len() implies margin.takes(#[trigger] rest[i]) by {
            assert(rest[i] == s[i]);
        }
        lemma_strip_end(rest, margin, b);
        assert(rest.subrange(0, b) =~= s.subrange(0, b));
    }
}

/// Where the part begins that stripping the start leaves.
proof fn lemma_start_of_rest(s: Seq<char>, margin: Margin) -> (a: int)
    ensures
        0 <= a <= s.len(),
        strip_start(s, margin) == s.subrange(a, s.len() as int),
        forall|i: int| 0 <= i < a ==> margin.takes(#[trigger] s[i]),
        a < s.len() ==> !margin.takes(s[a]),
    decreases s.len(),
{
    if s.len() > 0 && margin.takes(s.first()) {
        let rest = s.drop_first();
        let inner = lemma_start_of_rest(rest, margin);
        assert forall|i: int| 0 <= i < inner + 1 implies margin.takes(#[trigger] s[i]) by {
            if i > 0 {
                assert(s[i] == rest[i - 1]);
            }
        }
        assert(rest.subrange(inner, rest.len() as int) =~= s.subrange(inner + 1, s.len() as int));
        inner + 1
    } else {
        assert(s.subrange(0, s.len() as int) =~= s);
        0
    }
}

/// Where the part ends that stripping the end leaves.
proof fn lemma_end_of_rest(s: Seq<char>, margin: Margin) -> (b: int)
    ensures
        0 <= b <= s.len(),
        strip_end(s, margin) == s.subrange(0, b),
        forall|i: int| b <= i < s.len() ==> margin.takes(#[trigger] s[i]),
        0 < b ==> !margin.takes(s[b - 1]),
    decreases s.len(),
{
    if s.len() > 0 && margin.takes(s.last()) {
        let rest = s.drop_last();
        let inner = lemma_end_of_rest(rest, margin);
        assert forall|i: int| inner <= i < s.len() implies margin.takes(#[trigger] s[i]) by {
            if i < rest.len() {
                assert(s[i] == rest[i]);
            }
        }
        assert(rest.subrange(0, inner) =~= s.subrange(0, inner));
        inner
    } else {
        assert(s.subrange(0, s.len() as int) =~= s);
        s.len() as int
    }
}

/// What stripping leaves is one stretch of the text, from `a` to `b`: all
/// before it and all after it belongs to the margin, and the stretch
/// itself neither begins nor ends with a character of the margin.
pub proof fn law_stripped_is_the_core(s: Seq<char>, margin: Margin) -> (r: (int, int))
    ensures
        0 <= r.0 <= r.1 <= s.len(),
        stripped(s, margin) == s.subrange(r.0, r.1),
        forall|i: int| 0 <= i < r.0 ==> margin.takes(#[trigger] s[i]),
        forall|i: int| r.1 <= i < s.len() ==> margin.takes(#[trigger] s[i]),
        r.0 < r.1 ==> !margin.takes(s[r.0]) && !margin.takes(s[r.1 - 1]),
{
    let a = lemma_start_of_rest(s, margin);
    let rest = s.subrange(a, s.len() as int);
    let kept = lemma_end_of_rest(rest, margin);
    assert(rest.subrange(0, kept) =~= s.subrange(a, a + kept));
    assert forall|i: int| a + kept <= i < s.len() implies margin.takes(#[trigger] s[i]) by {
        assert(s[i] == rest[i - a]);
    }
    if kept > 0 {
        assert(rest[kept - 1] == s[a + kept - 1]);
    }
    (a, a + kept)
}

/// Stripping what was stripped changes nothing.
pub proof fn law_stripped_twice(s: Seq<char>, margin: Margin)
    ensures
        stripped(stripped(s, margin), margin) == stripped(s, margin),
{
    let (a, b) = law_stripped_is_the_core(s, margin);
    let core = s.subrange(a, b);
    if a < b {
        assert(core.first() == s[a]);
        assert(core.last() == s[b - 1]);
    }
}

/// The bounds `(a, b)` of what is left of `chars[from..to]` once `margin` is
/// taken off both of its ends.
pub fn strip_bounds(chars: &Vec<char>, from: usize, to: usize, margin: Margin) -> (r: (
    usize,
    usize,
))
    requires
        from <= to <= chars.len(),
    ensures
        from <= r.0 <= r.1 <= to,
        chars@.subrange(r.0 as int, r.1 as int) == stripped(
            chars@.subrange(from as int, to as int),
            margin,
        ),
{
    let ghost whole = chars@.subrange(from as int, to as int);
    let mut a: usize = from;
    while a < to && margin.holds(chars[a])
        invariant
            from <= a <= to <= chars.len(),
            forall|i: int| from <= i < a ==> margin.takes(#[trigger] chars@[i]),
        decreases to - a,
    {
        a += 1;
    }
    let ghost tail = chars@.subrange(a as int, to as int);
    proof {
        assert forall|i: int| 0 <= i < a - from implies margin.takes(#[trigger] whole[i]) by {
            assert(whole[i] == chars@[from + i]);
        }
        lemma_strip_start(whole, margin, a - from);
        assert(whole.subrange(a - from, whole.len() as int) =~= tail);
    }
    let mut b: usize = to;
    while a < b && margin.holds(chars[b - 1])
        invariant
            a <= b <= to <= chars.len(),
            forall|i: int| b <= i < to ==> margin.takes(#[trigger] chars@[i]),
        decreases b - a,
    {
        b -= 1;
    }
    proof {
        assert forall|i: int| b - a <= i < tail.len() implies margin.takes(#[trigger] tail[i]) by {
            assert(tail[i] == chars@[a + i]);
        }
        if b > a {
            assert(tail[b - a - 1] == chars@[b - 1]);
        } else if a < to {
            assert(tail[0] == chars@[a as int]);
        }
        lemma_strip_end(tail, margin, b - a);
        assert(tail.subrange(0, b - a) =~= chars@.subrange(a as int, b as int));
    }
    (a, b)
}

} // verus!
