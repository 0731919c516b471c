//! Texts: trimming, lines, numbers, segments and searching.
use vstd::prelude::*;
use vstd::string::*;
use vstd::utf8::{
    encode_scalar, encode_utf8, encode_utf8_decode_utf8, encode_utf8_first_scalar, is_char_boundary,
    pop_first_scalar,
};

verus! {

/// `str::eq` compares the two texts character by character.
pub assume_specification[ <str as PartialEq>::eq ](a: &str, b: &str) -> (r: bool)
    ensures
        r == (a@ == b@),
;

/// `String::push` appends one character.
pub assume_specification[ String::push ](s: &mut String, c: char)
    ensures
        final(s)@ == old(s)@.push(c),
;

/// The characters of `s`, in order.
pub fn chars_of(s: &str) -> (cs: Vec<char>)
    ensures
        cs@ == s@,
{
    broadcast use vstd::string::group_string_axioms;
    let mut cs: Vec<char> = Vec::new();
    for c in it: s.chars()
        invariant
            cs@ == it.seq().take(it.index() as int),
            it.seq() == s@,
    {
        cs.push(c);
    }
    assert(cs@ =~= s@);
    cs
}

/// The text whose characters are `cs[from..to]`.
pub fn text_of(cs: &Vec<char>, from: usize, to: usize) -> (s: String)
    requires
        from <= to <= cs@.len(),
    ensures
        s@ == cs@.subrange(from as int, to as int),
{
    let mut s: String = String::new();
    let mut i: usize = from;
    while i < to
        invariant
            from <= i <= to <= cs@.len(),
            s@ == cs@.subrange(from as int, i as int),
        decreases to - i,
    {
        s.push(cs[i]);
        i += 1;
        assert(s@ =~= cs@.subrange(from as int, i as int));
    }
    s
}

/// Whether the two texts are the same.
pub fn same(a: &str, b: &str) -> (r: bool)
    ensures
        r == (a@ == b@),
{
    *a == *b
}

/// Whether `c` has the Unicode property White_Space.
pub open spec fn is_space(c: char) -> bool {
    let u = c as int;
    ||| 0x9 <= u <= 0xd
    ||| u == 0x20
    ||| u == 0x85
    ||| u == 0xa0
    ||| u == 0x1680
    ||| 0x2000 <= u <= 0x200a
    ||| 0x2028 <= u <= 0x2029
    ||| u == 0x202f
    ||| u == 0x205f
    ||| u == 0x3000
}

/// `s` without its leading white space.
pub open spec fn trim_start_spec(s: Seq<char>) -> Seq<char>
    decreases s.len(),
{
    if s.len() > 0 && is_space(s[0]) {
        trim_start_spec(s.subrange(1, s.len() as int))
    } else {
        s
    }
}

/// `s` without its trailing white space.
pub open spec fn trim_end_spec(s: Seq<char>) -> Seq<char>
    decreases s.len(),
{
    if s.len() > 0 && is_space(s[s.len() - 1]) {
        trim_end_spec(s.subrange(0, s.len() - 1))
    } else {
        s
    }
}

/// `s` without white space at either end.
pub open spec fn trimmed(s: Seq<char>) -> Seq<char> {
    trim_end_spec(trim_start_spec(s))
}

/// The code point of `c`.
pub fn code_point(c: char) -> (u: u32)
    ensures
        u as int == c as int,
{
    c as u32
}

/// Executable form of [`is_space`].
pub fn space(c: char) -> (r: bool)
    ensures
        r == is_space(c),
{
    let u: u32 = c as u32;
    (0x9 <= u && u <= 0xd) || u == 0x20 || u == 0x85 || u == 0xa0 || u == 0x1680 || (0x2000 <= u
        && u <= 0x200a) || (0x2028 <= u && u <= 0x2029) || u == 0x202f || u == 0x205f || u
        == 0x3000
}

/// `s` without white space at either end.
pub fn trim(s: &str) -> (r: String)
    ensures
        r@ == trimmed(s@),
{
    let cs: Vec<char> = chars_of(s);
    let mut from: usize = 0;
    assert(s@.subrange(0, s@.len() as int) =~= s@);
    while from < cs.len() && space(cs[from])
        invariant
            from <= cs@.len(),
            cs@ == s@,
            trim_start_spec(s@) == trim_start_spec(s@.subrange(from as int, s@.len() as int)),
        decreases cs@.len() - from,
    {
        proof {
            let rest = s@.subrange(from as int, s@.len() as int);
            assert(rest.subrange(1, rest.len() as int) =~= s@.subrange(
                from + 1,
                s@.len() as int,
            ));
        }
        from += 1;
    }
    let mut to: usize = cs.len();
    while from < to && space(cs[to - 1])
        invariant
            from <= to <= cs@.len(),
            cs@ == s@,
            trim_start_spec(s@) == s@.subrange(from as int, s@.len() as int),
            trimmed(s@) == trim_end_spec(s@.subrange(from as int, to as int)),
        decreases to,
    {
        proof {
            let rest = s@.subrange(from as int, to as int);
            assert(rest.subrange(0, rest.len() - 1) =~= s@.subrange(from as int, to - 1));
        }
        to -= 1;
    }
    text_of(&cs, from, to)
}

/// One decimal digit.
pub open spec fn digit(d: nat) -> char {
    if d == 0 {
        '0'
    } else if d == 1 {
        '1'
    } else if d == 2 {
        '2'
    } else if d == 3 {
        '3'
    } else if d == 4 {
        '4'
    } else if d == 5 {
        '5'
    } else if d == 6 {
        '6'
    } else if d == 7 {
        '7'
    } else if d == 8 {
        '8'
    } else {
        '9'
    }
}

/// `n` in decimal, without leading zeros.
pub open spec fn decimal(n: nat) -> Seq<char>
    decreases n,
{
    if n < 10 {
        seq![digit(n)]
    } else {
        decimal(n / 10).push(digit(n % 10))
    }
}

/// `n` in decimal, with a leading minus sign when negative.
pub open spec fn decimal_signed(n: int) -> Seq<char> {
    if n < 0 {
        seq!['-'] + decimal((-n) as nat)
    } else {
        decimal(n as nat)
    }
}

fn digit_char(d: u64) -> (c: char)
    requires
        d < 10,
    ensures
        c == digit(d as nat),
{
    if d == 0 {
        '0'
    } else if d == 1 {
        '1'
    } else if d == 2 {
        '2'
    } else if d == 3 {
        '3'
    } else if d == 4 {
        '4'
    } else if d == 5 {
        '5'
    } else if d == 6 {
        '6'
    } else if d == 7 {
        '7'
    } else if d == 8 {
        '8'
    } else {
        '9'
    }
}

/// `n` in decimal.
pub fn decimal_text(n: u64) -> (s: String)
    ensures
        s@ == decimal(n as nat),
    decreases n,
{
    if n < 10 {
        let mut s: String = String::new();
        s.push(digit_char(n));
        assert(s@ =~= decimal(n as nat));
        s
    } else {
        let mut s: String = decimal_text(n / 10);
        s.push(digit_char(n % 10));
        s
    }
}

/// `n` in decimal, with its sign when negative.
pub fn signed_text(n: i64) -> (s: String)
    ensures
        s@ == decimal_signed(n as int),
{
    if n < 0 {
        let size: u64 = (-(n as i128)) as u64;
        let digits: String = decimal_text(size);
        let mut s: String = String::new();
        s.push('-');
        s.append(digits.as_str());
        assert(s@ =~= decimal_signed(n as int));
        s
    } else {
        decimal_text(n as u64)
    }
}

/// What follows the last `c` in `s`; all of `s` when `c` does not occur.
pub open spec fn after_last(s: Seq<char>, c: char) -> Seq<char>
    decreases s.len(),
{
    if s.len() == 0 || s[s.len() - 1] == c {
        Seq::empty()
    } else {
        after_last(s.subrange(0, s.len() - 1), c).push(s[s.len() - 1])
    }
}

/// The bytes of two texts follow one another, and a character begins where they
/// meet.
proof fn bytes_meet(a: Seq<char>, b: Seq<char>)
    ensures
        encode_utf8(a + b) == encode_utf8(a) + encode_utf8(b),
        is_char_boundary(encode_utf8(a + b), encode_utf8(a).len() as int),
    decreases a.len(),
{
    broadcast use vstd::utf8::encode_utf8_valid_utf8;

    if a.len() == 0 {
        assert(a + b =~= b);
        assert(encode_utf8(a) + encode_utf8(b) =~= encode_utf8(b));
    } else {
        let rest = a.drop_first();
        let first = encode_scalar(a[0] as u32);
        bytes_meet(rest, b);
        assert((a + b).drop_first() =~= rest + b);
        assert((a + b)[0] == a[0]);
        assert(first + (encode_utf8(rest) + encode_utf8(b)) =~= (first + encode_utf8(rest))
            + encode_utf8(b));
        encode_utf8_first_scalar(a + b);
        assert(pop_first_scalar(encode_utf8(a + b)) =~= encode_utf8(rest + b));
    }
}

/// What follows the last `c` in `s`; all of `s` when `c` does not occur.
pub fn last_segment(s: &str, c: char) -> (r: &str)
    ensures
        r@ == after_last(s@, c),
{
    let cs: Vec<char> = chars_of(s);
    let n: usize = cs.len();
    let mut from: usize = n;
    proof {
        assert(cs@.subrange(0, n as int) =~= cs@);
        assert(cs@.subrange(n as int, n as int) =~= Seq::<char>::empty());
        assert(after_last(cs@, c) + Seq::<char>::empty() =~= after_last(cs@, c));
    }
    while from > 0 && cs[from - 1] != c
        invariant
            from <= n == cs@.len(),
            cs@ == s@,
            after_last(s@, c) == after_last(cs@.subrange(0, from as int), c) + cs@.subrange(
                from as int,
                n as int,
            ),
        decreases from,
    {
        proof {
            let head = cs@.subrange(0, from as int);
            assert(head.subrange(0, head.len() - 1) =~= cs@.subrange(0, from - 1));
            let prefix = after_last(cs@.subrange(0, from - 1), c);
            assert(prefix.push(cs@[from - 1]) + cs@.subrange(from as int, n as int) =~= prefix
                + cs@.subrange(from - 1, n as int));
        }
        from -= 1;
    }
    proof {
        assert(after_last(cs@.subrange(0, from as int), c) =~= Seq::<char>::empty());
        assert(Seq::<char>::empty() + cs@.subrange(from as int, n as int) =~= cs@.subrange(
            from as int,
            n as int,
        ));
    }
    let head: String = text_of(&cs, 0, from);
    let mid: usize = head.as_str().as_bytes().len();
    proof {
        let tail = cs@.subrange(from as int, n as int);
        assert(head@ + tail =~= s@);
        bytes_meet(head@, tail);
        encode_utf8_decode_utf8(tail);
        assert(encode_utf8(s@).subrange(mid as int, encode_utf8(s@).len() as int) =~= encode_utf8(
            tail,
        ));
    }
    let r: &str = s.split_at(mid).1;
    proof {
        encode_utf8_decode_utf8(r@);
    }
    r
}

/// Whether `part` stands at `at` in `s`.
pub open spec fn occurs_at(s: Seq<char>, part: Seq<char>, at: int) -> bool {
    0 <= at && at + part.len() <= s.len() && s.subrange(at, at + part.len()) == part
}

/// Whether `part` occurs in `s`.
pub open spec fn occurs_in(s: Seq<char>, part: Seq<char>) -> bool {
    exists|at: int| occurs_at(s, part, at)
}

/// Whether `part` stands at `at` in `cs`.
fn stands_at(cs: &Vec<char>, part: &Vec<char>, at: usize) -> (r: bool)
    requires
        at <= cs@.len(),
    ensures
        r == occurs_at(cs@, part@, at as int),
{
    let n: usize = cs.len();
    if part.len() > n - at {
        return false;
    }
    let mut i: usize = 0;
    while i < part.len()
        invariant
            i <= part@.len(),
            at + part@.len() <= cs@.len() == n,
            forall|j: int| 0 <= j < i ==> cs@[at + j] == part@[j],
        decreases part@.len() - i,
    {
        if cs[at + i] != part[i] {
            assert(cs@.subrange(at as int, at + part@.len())[i as int] == cs@[at + i]);
            return false;
        }
        i += 1;
    }
    assert(cs@.subrange(at as int, at + part@.len()) =~= part@);
    true
}

/// Whether `part` occurs in `s`.
pub fn contains(s: &str, part: &str) -> (r: bool)
    ensures
        r == occurs_in(s@, part@),
{
    let cs: Vec<char> = chars_of(s);
    let ps: Vec<char> = chars_of(part);
    let mut i: usize = 0;
    while i <= cs.len()
        invariant
            i <= cs@.len() + 1,
            cs@ == s@,
            ps@ == part@,
            forall|at: int| 0 <= at < i ==> !occurs_at(s@, part@, at),
        decreases cs@.len() + 1 - i,
    {
        if stands_at(&cs, &ps, i) {
            return true;
        }
        if i == cs.len() {
            return false;
        }
        i += 1;
    }
    false
}

/// Whether `s` begins with `part`.
pub fn starts_with(s: &str, part: &str) -> (r: bool)
    ensures
        r == occurs_at(s@, part@, 0),
{
    let cs: Vec<char> = chars_of(s);
    let ps: Vec<char> = chars_of(part);
    stands_at(&cs, &ps, 0)
}

/// `s` with every occurrence of `part` taken out, scanning from the left and
/// never looking again at what has been passed over.
pub open spec fn without(s: Seq<char>, part: Seq<char>) -> Seq<char>
    recommends
        part.len() > 0,
    decreases s.len(),
{
    if s.len() == 0 || part.len() == 0 {
        s
    } else if occurs_at(s, part, 0) {
        without(s.subrange(part.len() as int, s.len() as int), part)
    } else {
        seq![s[0]] + without(s.subrange(1, s.len() as int), part)
    }
}

/// `s` with every occurrence of `part` taken out.
pub fn remove_all(s: &str, part: &str) -> (r: String)
    requires
        part@.len() > 0,
    ensures
        r@ == without(s@, part@),
{
    let cs: Vec<char> = chars_of(s);
    let ps: Vec<char> = chars_of(part);
    let n: usize = cs.len();
    let mut out: String = String::new();
    let mut i: usize = 0;
    proof {
        assert(cs@.subrange(0, n as int) =~= s@);
        assert(Seq::<char>::empty() + without(s@, part@) =~= without(s@, part@));
    }
    while i < n
        invariant
            i <= n == cs@.len(),
            cs@ == s@,
            ps@ == part@,
            part@.len() > 0,
            without(s@, part@) == out@ + without(cs@.subrange(i as int, n as int), part@),
        decreases n - i,
    {
        let here: bool = stands_at(&cs, &ps, i);
        proof {
            let rest = cs@.subrange(i as int, n as int);
            assert(occurs_at(cs@, ps@, i as int) == occurs_at(rest, ps@, 0)) by {
                if i + ps@.len() <= n {
                    assert(rest.subrange(0, ps@.len() as int) =~= cs@.subrange(
                        i as int,
                        i + ps@.len(),
                    ));
                }
            }
            if here {
                assert(rest.subrange(ps@.len() as int, rest.len() as int) =~= cs@.subrange(
                    i + ps@.len(),
                    n as int,
                ));
            } else {
                assert(rest.subrange(1, rest.len() as int) =~= cs@.subrange(i + 1, n as int));
                let tail = without(cs@.subrange(i + 1, n as int), part@);
                assert(out@ + (seq![cs@[i as int]] + tail) =~= out@.push(cs@[i as int]) + tail);
            }
        }
        if here {
            i += ps.len();
        } else {
            out.push(cs[i]);
            i += 1;
        }
    }
    proof {
        assert(cs@.subrange(i as int, n as int) =~= Seq::<char>::empty());
        assert(out@ + Seq::<char>::empty() =~= out@);
    }
    out
}

/// Taking something out makes a text shorter when it is there, and never longer.
pub proof fn without_shrinks(s: Seq<char>, part: Seq<char>)
    requires
        part.len() > 0,
    ensures
        without(s, part).len() <= s.len(),
        occurs_in(s, part) ==> without(s, part).len() < s.len(),
    decreases s.len(),
{
    if s.len() > 0 {
        if occurs_at(s, part, 0) {
            without_shrinks(s.subrange(part.len() as int, s.len() as int), part);
        } else {
            let rest = s.subrange(1, s.len() as int);
            without_shrinks(rest, part);
            if occurs_in(s, part) {
                let at = choose|at: int| occurs_at(s, part, at);
                assert(rest.subrange(at - 1, at - 1 + part.len()) =~= s.subrange(
                    at,
                    at + part.len(),
                ));
                assert(occurs_at(rest, part, at - 1));
            }
        }
    } else if occurs_in(s, part) {
        let at = choose|at: int| occurs_at(s, part, at);
        assert(at + part.len() <= s.len());
    }
}

/// `s` with `part` taken out again and again until it does not occur.
pub open spec fn scrubbed(s: Seq<char>, part: Seq<char>) -> Seq<char>
    decreases s.len(),
    via scrubbing_ends
{
    if part.len() > 0 && occurs_in(s, part) {
        scrubbed(without(s, part), part)
    } else {
        s
    }
}

#[via_fn]
proof fn scrubbing_ends(s: Seq<char>, part: Seq<char>) {
    if part.len() > 0 && occurs_in(s, part) {
        without_shrinks(s, part);
    }
}

/// What is scrubbed out of a text does not occur in what is left, and a text in
/// which it does not occur stays as it is.
pub proof fn scrubbing_leaves_none(s: Seq<char>, part: Seq<char>)
    requires
        part.len() > 0,
    ensures
        !occurs_in(scrubbed(s, part), part),
        !occurs_in(s, part) ==> scrubbed(s, part) == s,
    decreases s.len(),
{
    if occurs_in(s, part) {
        without_shrinks(s, part);
        scrubbing_leaves_none(without(s, part), part);
    }
}

/// `s` with `part` taken out until it does not occur.
pub fn scrub(s: &str, part: &str) -> (r: String)
    requires
        part@.len() > 0,
    ensures
        r@ == scrubbed(s@, part@),
{
    let mut left: String = s.to_owned();
    while contains(left.as_str(), part)
        invariant
            part@.len() > 0,
            scrubbed(left@, part@) == scrubbed(s@, part@),
        decreases left@.len(),
    {
        proof {
            without_shrinks(left@, part@);
        }
        left = remove_all(left.as_str(), part);
    }
    left
}

/// What follows the last `a` or `b` in `s`.
pub open spec fn after_last_of(s: Seq<char>, a: char, b: char) -> Seq<char>
    decreases s.len(),
{
    if s.len() == 0 || s[s.len() - 1] == a || s[s.len() - 1] == b {
        Seq::empty()
    } else {
        after_last_of(s.subrange(0, s.len() - 1), a, b).push(s[s.len() - 1])
    }
}

/// What follows the last `a` or `b` in `s`; all of `s` when neither occurs.
pub fn last_segment_of(s: &str, a: char, b: char) -> (r: String)
    ensures
        r@ == after_last_of(s@, a, b),
{
    let cs: Vec<char> = chars_of(s);
    let n: usize = cs.len();
    let mut from: usize = n;
    proof {
        assert(cs@.subrange(0, n as int) =~= cs@);
        assert(cs@.subrange(n as int, n as int) =~= Seq::<char>::empty());
        assert(after_last_of(cs@, a, b) + Seq::<char>::empty() =~= after_last_of(cs@, a, b));
    }
    while from > 0 && cs[from - 1] != a && cs[from - 1] != b
        invariant
            from <= n == cs@.len(),
            cs@ == s@,
            after_last_of(s@, a, b) == after_last_of(cs@.subrange(0, from as int), a, b)
                + cs@.subrange(from as int, n as int),
        decreases from,
    {
        proof {
            let head = cs@.subrange(0, from as int);
            assert(head.subrange(0, head.len() - 1) =~= cs@.subrange(0, from - 1));
            let prefix = after_last_of(cs@.subrange(0, from - 1), a, b);
            assert(prefix.push(cs@[from - 1]) + cs@.subrange(from as int, n as int) =~= prefix
                + cs@.subrange(from - 1, n as int));
        }
        from -= 1;
    }
    proof {
        assert(after_last_of(cs@.subrange(0, from as int), a, b) =~= Seq::<char>::empty());
        assert(Seq::<char>::empty() + cs@.subrange(from as int, n as int) =~= cs@.subrange(
            from as int,
            n as int,
        ));
    }
    text_of(&cs, from, n)
}

/// Whether `c` ends a line.
pub open spec fn is_break(c: char) -> bool {
    c == '\n' || c == '\r'
}

/// `s` on one line: each run of line breaks becomes one space. That a run counts
/// once, and that other white space is left alone, is a choice.
pub open spec fn one_line(s: Seq<char>) -> Seq<char>
    decreases s.len(),
{
    if s.len() == 0 {
        s
    } else if !is_break(s.last()) {
        one_line(s.drop_last()).push(s.last())
    } else if s.len() > 1 && is_break(s[s.len() - 2]) {
        one_line(s.drop_last())
    } else {
        one_line(s.drop_last()).push(' ')
    }
}

/// `s` on one line.
pub fn single_line(s: &str) -> (r: String)
    ensures
        r@ == one_line(s@),
{
    let cs: Vec<char> = chars_of(s);
    let mut r: String = String::new();
    let mut i: usize = 0;
    assert(cs@.take(0) =~= Seq::<char>::empty());
    while i < cs.len()
        invariant
            i <= cs@.len(),
            r@ == one_line(cs@.take(i as int)),
        decreases cs@.len() - i,
    {
        proof {
            let now = cs@.take(i + 1);
            assert(now.drop_last() =~= cs@.take(i as int));
            assert(now.last() == cs@[i as int]);
            if i > 0 {
                assert(now[now.len() - 2] == cs@[i - 1]);
            }
        }
        let c: char = cs[i];
        if c != '\n' && c != '\r' {
            r.push(c);
        } else if i == 0 || !(cs[i - 1] == '\n' || cs[i - 1] == '\r') {
            r.push(' ');
        }
        i += 1;
    }
    assert(cs@.take(i as int) =~= s@);
    r
}

/// A text on one line has no line break, whatever it was.
pub proof fn one_line_has_no_break(s: Seq<char>)
    ensures
        forall|i: int| 0 <= i < one_line(s).len() ==> !is_break(#[trigger] one_line(s)[i]),
        one_line(s).len() <= s.len(),
    decreases s.len(),
{
    if s.len() > 0 {
        one_line_has_no_break(s.drop_last());
    }
}

/// A line without the carriage return at its end.
pub open spec fn without_return(s: Seq<char>) -> Seq<char> {
    if s.len() > 0 && s.last() == '\r' {
        s.drop_last()
    } else {
        s
    }
}

/// The lines of `s` from `from` on. A line ends with a newline, with or without
/// a carriage return before it; the last may lack its end.
pub open spec fn lines_from(s: Seq<char>, from: int) -> Seq<Seq<char>>
    decreases s.len() - from,
    via lines_decreases
{
    if from < 0 || from >= s.len() {
        Seq::empty()
    } else {
        let end = newline_at(s, from);
        if end < s.len() {
            seq![without_return(s.subrange(from, end))] + lines_from(s, end + 1)
        } else {
            seq![s.subrange(from, s.len() as int)]
        }
    }
}

/// The first newline from `from` on; the length of `s` when there is none.
pub open spec fn newline_at(s: Seq<char>, from: int) -> int
    decreases s.len() - from,
{
    if from < 0 || from >= s.len() {
        s.len() as int
    } else if s[from] == '\n' {
        from
    } else {
        newline_at(s, from + 1)
    }
}

#[via_fn]
proof fn lines_decreases(s: Seq<char>, from: int) {
    if 0 <= from < s.len() {
        newline_bounds(s, from);
    }
}

proof fn newline_bounds(s: Seq<char>, from: int)
    requires
        0 <= from <= s.len(),
    ensures
        from <= newline_at(s, from) <= s.len(),
    decreases s.len() - from,
{
    if from < s.len() && s[from] != '\n' {
        newline_bounds(s, from + 1);
    }
}

/// The lines of `s`.
pub open spec fn lines_of(s: Seq<char>) -> Seq<Seq<char>> {
    lines_from(s, 0)
}

/// The lines of `s`.
pub fn lines(s: &str) -> (r: Vec<String>)
    ensures
        r@.map_values(|l: String| l@) == lines_of(s@),
{
    let cs: Vec<char> = chars_of(s);
    let n: usize = cs.len();
    let mut r: Vec<String> = Vec::new();
    let ghost f = |l: String| l@;
    let mut from: usize = 0;
    assert(r@.map_values(f) + lines_from(s@, 0) =~= lines_from(s@, 0));
    while from < n
        invariant
            f == (|l: String| l@),
            from <= n == cs@.len(),
            cs@ == s@,
            lines_of(s@) == r@.map_values(f) + lines_from(s@, from as int),
        decreases n - from,
    {
        let mut end: usize = from;
        while end < n && cs[end] != '\n'
            invariant
                from <= end <= n == cs@.len(),
                cs@ == s@,
                newline_at(s@, from as int) == newline_at(s@, end as int),
            decreases n - end,
        {
            end += 1;
        }
        let ghost before = r@;
        if end < n {
            let to: usize = if end > from && cs[end - 1] == '\r' {
                end - 1
            } else {
                end
            };
            let line: String = text_of(&cs, from, to);
            proof {
                let raw = s@.subrange(from as int, end as int);
                if end > from {
                    assert(raw.last() == cs@[end - 1]);
                    assert(raw.drop_last() =~= s@.subrange(from as int, end - 1));
                }
                assert(line@ =~= without_return(raw));
                let rest = lines_from(s@, end + 1);
                assert(before.push(line).map_values(f) =~= before.map_values(f).push(line@));
                assert(before.map_values(f) + (seq![line@] + rest) =~= before.map_values(f).push(
                    line@,
                ) + rest);
            }
            r.push(line);
            from = end + 1;
        } else {
            let line: String = text_of(&cs, from, n);
            proof {
                let rest = lines_from(s@, n as int);
                assert(before.push(line).map_values(f) =~= before.map_values(f).push(line@));
                assert(before.map_values(f) + seq![line@] =~= before.map_values(f).push(line@)
                    + rest);
            }
            r.push(line);
            from = n;
        }
    }
    assert(r@.map_values(f) + Seq::<Seq<char>>::empty() =~= r@.map_values(f));
    r
}

/// Whether `c` is an ASCII capital.
pub open spec fn is_capital(c: char) -> bool {
    'A' <= c && c <= 'Z'
}

/// An ASCII capital as a small letter; other characters stay.
pub open spec fn small(c: char) -> char {
    if is_capital(c) {
        (c as int + 32) as char
    } else {
        c
    }
}

/// A name whose words are run together and capitalised, in small letters and
/// with something between its words.
pub open spec fn uncameled(s: Seq<char>, between: Seq<char>) -> Seq<char>
    decreases s.len(),
{
    if s.len() == 0 {
        s
    } else {
        let before = uncameled(s.drop_last(), between);
        if is_capital(s.last()) && s.len() > 1 {
            (before + between).push(small(s.last()))
        } else {
            before.push(small(s.last()))
        }
    }
}

fn small_letter(c: char) -> (r: char)
    ensures
        r == small(c),
{
    let u: u32 = code_point(c);
    if 65 <= u && u <= 90 {
        ((u + 32) as u8) as char
    } else {
        c
    }
}

/// A name whose words are run together and capitalised, in small letters and
/// with something between its words.
pub fn uncamel(s: &str, between: &str) -> (r: String)
    ensures
        r@ == uncameled(s@, between@),
{
    let cs: Vec<char> = chars_of(s);
    let mut r: String = String::new();
    let mut i: usize = 0;
    assert(cs@.take(0) =~= Seq::<char>::empty());
    while i < cs.len()
        invariant
            i <= cs@.len(),
            r@ == uncameled(cs@.take(i as int), between@),
        decreases cs@.len() - i,
    {
        proof {
            assert(cs@.take(i + 1).drop_last() =~= cs@.take(i as int));
            assert(cs@.take(i + 1).last() == cs@[i as int]);
        }
        let c: char = cs[i];
        let u: u32 = code_point(c);
        if 65 <= u && u <= 90 && i > 0 {
            r.append(between);
        }
        r.push(small_letter(c));
        i += 1;
    }
    assert(cs@.take(i as int) =~= s@);
    r
}

}
