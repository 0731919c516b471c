//! What is done with texts, and what keys send.
use vstd::prelude::*;
use vstd::utf8::encode_utf8;

use crate::laws::shown::what_follows_the_last;
use crate::shell::paths::{breadcrumbs, child_path, listing, path_to, segments, FolderName};
use crate::shell::projects::{Crumb, FolderListing};
use crate::terminal::view::{
    close_bracket, control_bytes, harmless_text_is_pasted_whole, keystroke_bytes, open_bracket,
    paste_bytes, paste_cannot_end_itself, paste_end, pasted, InputCoalescer, Modifiers,
};
use crate::text::{
    contains, occurs_at, remove_all, starts_with, uncamel, after_last_of, decimal, decimal_text,
    digit, is_break, is_space, last_segment, last_segment_of, lines, lines_from, lines_of,
    newline_at, occurs_in, one_line, scrub, scrubbing_leaves_none, signed_text, single_line, space,
    trim, trim_end_spec, trim_start_spec, trimmed,
};
use crate::wire::opt;

verus! {

/// Among the small characters, the space and the controls from tab to carriage
/// return are white space, and no others.
pub proof fn small_spaces(c: char, r: bool)
    requires
        call_ensures(space, (c,), r),
        (c as int) < 0x80,
    ensures
        r <==> c == ' ' || 9 <= c as int <= 13,
{
}

proof fn cut_front(s: Seq<char>)
    ensures
        ({
            let r = trim_start_spec(s);
            &&& r.len() <= s.len()
            &&& r == s.skip(s.len() - r.len())
            &&& forall|i: int| 0 <= i < s.len() - r.len() ==> is_space(#[trigger] s[i])
            &&& r.len() > 0 ==> !is_space(r[0])
        }),
    decreases s.len(),
{
    if s.len() > 0 && is_space(s[0]) {
        let t = s.subrange(1, s.len() as int);
        cut_front(t);
        let r = trim_start_spec(s);
        assert(r =~= s.skip(s.len() - r.len())) by {
            assert forall|i: int| 0 <= i < r.len() implies r[i] == s[s.len() - r.len() + i] by {
                assert(r[i] == t.skip(t.len() - r.len())[i]);
            }
        }
        assert forall|i: int| 0 <= i < s.len() - r.len() implies is_space(#[trigger] s[i]) by {
            if i > 0 {
                assert(is_space(t[i - 1]));
            }
        }
    } else {
        assert(s.skip(0) =~= s);
    }
}

proof fn cut_back(s: Seq<char>)
    ensures
        ({
            let r = trim_end_spec(s);
            &&& r.len() <= s.len()
            &&& r == s.take(r.len() as int)
            &&& forall|i: int| r.len() <= i < s.len() ==> is_space(#[trigger] s[i])
            &&& r.len() > 0 ==> !is_space(r[r.len() - 1])
        }),
    decreases s.len(),
{
    if s.len() > 0 && is_space(s[s.len() - 1]) {
        let t = s.subrange(0, s.len() - 1);
        cut_back(t);
        let r = trim_end_spec(s);
        assert(r =~= s.take(r.len() as int)) by {
            assert forall|i: int| 0 <= i < r.len() implies r[i] == s[i] by {
                assert(r[i] == t.take(r.len() as int)[i]);
            }
        }
        assert forall|i: int| r.len() <= i < s.len() implies is_space(#[trigger] s[i]) by {
            if i < s.len() - 1 {
                assert(is_space(t[i]));
            }
        }
    } else {
        assert(s.take(s.len() as int) =~= s);
    }
}

/// What is trimmed off a text is white space, at its ends, and all of it there:
/// what is left is a stretch of the text that neither begins nor ends with any.
pub proof fn trimming_cuts_the_ends(s: &str, r: String)
    requires
        call_ensures(trim, (s,), r),
    ensures
        r@.len() > 0 ==> !is_space(r@[0]) && !is_space(r@.last()),
        r@.len() == 0 ==> forall|i: int| 0 <= i < s@.len() ==> is_space(#[trigger] s@[i]),
        exists|a: int|
            #![trigger s@.subrange(a, a + r@.len())]
            {
                &&& 0 <= a && a + r@.len() <= s@.len()
                &&& s@.subrange(a, a + r@.len()) == r@
                &&& forall|i: int| 0 <= i < a ==> is_space(#[trigger] s@[i])
                &&& forall|i: int| a + r@.len() <= i < s@.len() ==> is_space(#[trigger] s@[i])
            },
{
    let t = trim_start_spec(s@);
    cut_front(s@);
    cut_back(t);
    let a = s@.len() - t.len();
    let n = r@.len();
    assert(s@.subrange(a, a + n) =~= r@) by {
        assert forall|i: int| 0 <= i < n implies s@[a + i] == r@[i] by {
            assert(r@[i] == t.take(n as int)[i]);
            assert(t[i] == s@.skip(a)[i]);
        }
    }
    assert forall|i: int| a + n <= i < s@.len() implies is_space(#[trigger] s@[i]) by {
        assert(t[i - a] == s@.skip(a)[i - a]);
        assert(is_space(t[i - a]));
    }
    if n > 0 {
        assert(r@[0] == t.take(n as int)[0]);
    }
}

/// The number that some digits stand for.
pub open spec fn number(s: Seq<char>) -> int
    decreases s.len(),
{
    if s.len() == 0 {
        0
    } else {
        10 * number(s.drop_last()) + (s.last() as int - '0' as int)
    }
}

proof fn digits_read_back(n: nat)
    ensures
        decimal(n).len() > 0,
        number(decimal(n)) == n,
        forall|i: int| 0 <= i < decimal(n).len() ==> '0' <= (#[trigger] decimal(n)[i]) <= '9',
        n > 0 ==> decimal(n)[0] != '0',
    decreases n,
{
    if n < 10 {
        let s = seq![digit(n)];
        assert(s.drop_last() =~= Seq::<char>::empty());
        assert(number(s.drop_last()) == 0);
    } else {
        digits_read_back(n / 10);
        let s = decimal(n / 10);
        assert(s.push(digit(n % 10)).drop_last() =~= s);
    }
}

/// A number in decimal is made of digits, stands for that number, and has no zero
/// in front.
pub proof fn a_number_reads_back(n: u64, s: String)
    requires
        call_ensures(decimal_text, (n,), s),
    ensures
        s@.len() > 0,
        number(s@) == n,
        forall|i: int| 0 <= i < s@.len() ==> '0' <= (#[trigger] s@[i]) <= '9',
        n > 0 ==> s@[0] != '0',
        n == 0 ==> s@ == seq!['0'],
{
    digits_read_back(n as nat);
}

/// A negative number is its opposite behind a minus sign.
pub proof fn a_sign_stands_in_front(n: i64, s: String)
    requires
        call_ensures(signed_text, (n,), s),
    ensures
        n < 0 ==> s@.len() > 1 && s@[0] == '-' && number(s@.drop_first()) == -n,
        n >= 0 ==> number(s@) == n && s@[0] != '-',
{
    if n < 0 {
        digits_read_back((-n) as nat);
        assert(s@.drop_first() =~= decimal((-n) as nat));
    } else {
        digits_read_back(n as nat);
    }
}

/// What follows the last mark in a text is its end, has no mark, and stands right
/// behind one unless it is all of the text.
pub proof fn the_last_part_follows_the_last_mark(s: &str, c: char, r: &str)
    requires
        call_ensures(last_segment, (s, c), r),
    ensures
        r@.len() <= s@.len(),
        r@ == s@.skip(s@.len() - r@.len()),
        forall|i: int| 0 <= i < r@.len() ==> #[trigger] r@[i] != c,
        r@.len() < s@.len() ==> s@[s@.len() - r@.len() - 1] == c,
{
    what_follows_the_last(s@, c);
}

proof fn follows_either(s: Seq<char>, a: char, b: char)
    ensures
        ({
            let r = after_last_of(s, a, b);
            &&& r.len() <= s.len()
            &&& r == s.skip(s.len() - r.len())
            &&& forall|i: int| 0 <= i < r.len() ==> #[trigger] r[i] != a && r[i] != b
            &&& r.len() < s.len() ==> s[s.len() - r.len() - 1] == a || s[s.len() - r.len() - 1] == b
        }),
    decreases s.len(),
{
    if s.len() > 0 && s[s.len() - 1] != a && s[s.len() - 1] != b {
        let head = s.subrange(0, s.len() - 1);
        follows_either(head, a, b);
        let r = after_last_of(s, a, b);
        let q = after_last_of(head, a, b);
        assert(r =~= s.skip(s.len() - r.len())) by {
            assert forall|i: int| 0 <= i < r.len() implies r[i] == s[s.len() - r.len() + i] by {
                if i < q.len() {
                    assert(q[i] == head.skip(head.len() - q.len())[i]);
                }
            }
        }
        assert forall|i: int| 0 <= i < r.len() implies #[trigger] r[i] != a && r[i] != b by {
            if i < q.len() {
                assert(q[i] != a);
            }
        }
    } else {
        assert(s.skip(s.len() as int) =~= Seq::<char>::empty());
    }
}

/// The same of two marks.
pub proof fn the_last_part_follows_either_mark(s: &str, a: char, b: char, r: String)
    requires
        call_ensures(last_segment_of, (s, a, b), r),
    ensures
        r@.len() <= s@.len(),
        r@ == s@.skip(s@.len() - r@.len()),
        forall|i: int| 0 <= i < r@.len() ==> #[trigger] r@[i] != a && r@[i] != b,
        r@.len() < s@.len() ==> s@[s@.len() - r@.len() - 1] == a || s@[s@.len() - r@.len() - 1]
            == b,
{
    follows_either(s@, a, b);
}

proof fn one_line_of_two(a: Seq<char>, b: Seq<char>)
    requires
        b.len() > 0,
        !is_break(b[0]),
    ensures
        one_line(a + b) == one_line(a) + one_line(b),
    decreases b.len(),
{
    let s = a + b;
    let rest = b.drop_last();
    assert(s.drop_last() =~= a + rest);
    if rest.len() == 0 {
        assert(a + rest =~= a);
        assert(one_line(b) =~= seq![b[0]]) by {
            assert(b.drop_last() =~= Seq::<char>::empty());
            assert(one_line(b.drop_last()) =~= Seq::<char>::empty());
            assert(b.last() == b[0]);
        }
        assert(one_line(s) =~= one_line(a).push(b[0]));
    } else {
        one_line_of_two(a, rest);
        assert(s[s.len() - 2] == b[b.len() - 2]);
        assert(one_line(s) =~= one_line(a) + one_line(b));
    }
}

proof fn one_line_of_breaks(a: Seq<char>, n: Seq<char>)
    requires
        n.len() > 0,
        forall|i: int| 0 <= i < n.len() ==> is_break(#[trigger] n[i]),
        a.len() > 0 ==> !is_break(a.last()),
    ensures
        one_line(a + n) == one_line(a).push(' '),
    decreases n.len(),
{
    let s = a + n;
    let rest = n.drop_last();
    assert(s.drop_last() =~= a + rest);
    assert(s.last() == n.last());
    if rest.len() == 0 {
        assert(a + rest =~= a);
        if a.len() > 0 {
            assert(s[s.len() - 2] == a.last());
        }
    } else {
        one_line_of_breaks(a, rest);
        assert(s[s.len() - 2] == n[n.len() - 2]);
    }
}

/// On one line, each run of line breaks is one space, and all else stays as it
/// was, in its order.
pub proof fn a_run_of_breaks_is_one_space(
    a: &str,
    n: Seq<char>,
    b: &str,
    all: &str,
    ra: String,
    rb: String,
    r: String,
)
    requires
        call_ensures(single_line, (a,), ra),
        call_ensures(single_line, (b,), rb),
        call_ensures(single_line, (all,), r),
        all@ == a@ + n + b@,
        n.len() > 0,
        forall|i: int| 0 <= i < n.len() ==> is_break(#[trigger] n[i]),
        a@.len() > 0 ==> !is_break(a@.last()),
        b@.len() > 0,
        !is_break(b@[0]),
    ensures
        r@ == ra@.push(' ') + rb@,
{
    one_line_of_breaks(a@, n);
    one_line_of_two(a@ + n, b@);
}

/// A text without line breaks is one line already.
pub proof fn one_line_stays(s: &str, r: String)
    requires
        call_ensures(single_line, (s,), r),
        forall|i: int| 0 <= i < s@.len() ==> #[trigger] s@[i] != '\n' && s@[i] != '\r',
    ensures
        r@ == s@,
{
    unbroken(s@);
}

proof fn unbroken(s: Seq<char>)
    requires
        forall|i: int| 0 <= i < s.len() ==> #[trigger] s[i] != '\n' && s[i] != '\r',
    ensures
        one_line(s) == s,
    decreases s.len(),
{
    if s.len() > 0 {
        unbroken(s.drop_last());
        assert(s.drop_last().push(s.last()) =~= s);
    }
}

proof fn newline_found(s: Seq<char>, from: int, at: int)
    requires
        0 <= from <= at <= s.len(),
        forall|i: int| from <= i < at ==> #[trigger] s[i] != '\n',
        at < s.len() ==> s[at] == '\n',
    ensures
        newline_at(s, from) == at,
    decreases at - from,
{
    if from < at {
        newline_found(s, from + 1, at);
    }
}

proof fn lines_behind(s: Seq<char>, b: Seq<char>, shift: int, from: int)
    requires
        0 <= shift,
        s.len() == shift + b.len(),
        forall|i: int| 0 <= i < b.len() ==> #[trigger] b[i] == s[shift + i],
        0 <= from <= b.len(),
    ensures
        lines_from(s, shift + from) == lines_from(b, from),
    decreases b.len() - from,
{
    if from < b.len() {
        newline_behind(s, b, shift, from);
        let end = newline_at(b, from);
        newline_bound(b, from);
        if end < b.len() {
            assert(s.subrange(shift + from, shift + end) =~= b.subrange(from, end));
            lines_behind(s, b, shift, end + 1);
        } else {
            assert(s.subrange(shift + from, s.len() as int) =~= b.subrange(from, b.len() as int));
        }
    }
}

proof fn newline_bound(s: Seq<char>, from: int)
    requires
        0 <= from <= s.len(),
    ensures
        from <= newline_at(s, from) <= s.len(),
    decreases s.len() - from,
{
    if from < s.len() && s[from] != '\n' {
        newline_bound(s, from + 1);
    }
}

proof fn newline_behind(s: Seq<char>, b: Seq<char>, shift: int, from: int)
    requires
        0 <= shift,
        s.len() == shift + b.len(),
        forall|i: int| 0 <= i < b.len() ==> #[trigger] b[i] == s[shift + i],
        0 <= from <= b.len(),
    ensures
        newline_at(s, shift + from) == shift + newline_at(b, from),
    decreases b.len() - from,
{
    if from < b.len() {
        assert(b[from] == s[shift + from]);
        if b[from] != '\n' {
            newline_behind(s, b, shift, from + 1);
        }
    }
}

/// The lines of a text are what stands before its first newline, without the
/// carriage return that may end it, and then the lines of what stands behind; a
/// text without a newline is one line, and an empty one none.
pub proof fn lines_end_at_newlines(
    head: Seq<char>,
    rest: &str,
    all: &str,
    r: Vec<String>,
    rs: Vec<String>,
)
    requires
        call_ensures(lines, (rest,), rs),
        call_ensures(lines, (all,), r),
        all@ == head.push('\n') + rest@,
        forall|i: int| 0 <= i < head.len() ==> #[trigger] head[i] != '\n',
    ensures
        r@.len() == rs@.len() + 1,
        r@[0]@ == (if head.len() > 0 && head.last() == '\r' {
            head.drop_last()
        } else {
            head
        }),
        forall|i: int| 0 <= i < rs@.len() ==> (#[trigger] rs@[i])@ == r@[i + 1]@,
{
    let s = all@;
    let k = head.len() as int;
    assert forall|i: int| 0 <= i < k implies #[trigger] s[i] != '\n' by {
        assert(head[i] != '\n');
    }
    newline_found(s, 0, k);
    assert(s.subrange(0, k) =~= head);
    lines_behind(s, rest@, k + 1, 0);
    let a = r@.map_values(|l: String| l@);
    let b = rs@.map_values(|l: String| l@);
    assert(a.len() == r@.len() && b.len() == rs@.len());
    assert(a == lines_of(s) && b == lines_of(rest@));
    assert(a[0] == r@[0]@);
    assert forall|i: int| 0 <= i < rs@.len() implies (#[trigger] rs@[i])@ == r@[i + 1]@ by {
        assert(b[i] == rs@[i]@);
        assert(a[i + 1] == r@[i + 1]@);
    }
}

/// Text without a newline is one line, and no text is none.
pub proof fn a_line_is_one_line(s: &str, r: Vec<String>)
    requires
        call_ensures(lines, (s,), r),
        forall|i: int| 0 <= i < s@.len() ==> #[trigger] s@[i] != '\n',
    ensures
        s@.len() == 0 ==> r@.len() == 0,
        s@.len() > 0 ==> r@.len() == 1 && r@[0]@ == s@,
{
    let a = r@.map_values(|l: String| l@);
    assert(a.len() == r@.len());
    if s@.len() > 0 {
        newline_found(s@, 0, s@.len() as int);
        assert(s@.subrange(0, s@.len() as int) =~= s@);
        assert(a[0] == r@[0]@);
    }
}

/// With the platform's key held, a key is not the terminal's.
pub proof fn the_platform_s_keys_pass(
    key: &str,
    text: Option<&str>,
    mods: &Modifiers,
    app: bool,
    r: Option<Vec<u8>>,
)
    requires
        call_ensures(keystroke_bytes, (key, text, mods, app), r),
        mods.platform,
    ensures
        r is None,
{
}

/// Alt puts an escape before what the key sends without it.
pub proof fn alt_puts_an_escape_in_front(
    key: &str,
    text: Option<&str>,
    plain: &Modifiers,
    alt: &Modifiers,
    app: bool,
    a: Option<Vec<u8>>,
    b: Option<Vec<u8>>,
)
    requires
        !plain.alt,
        *alt == (Modifiers { alt: true, ..*plain }),
        call_ensures(keystroke_bytes, (key, text, plain, app), a),
        call_ensures(keystroke_bytes, (key, text, alt, app), b),
    ensures
        a is None <==> b is None,
        a matches Some(v) ==> b->0@ == seq![0x1bu8] + v@,
{
}

/// Control with a letter sends the letter's number in the alphabet, and with
/// another key what the caret notation says; a key without one sends nothing.
pub proof fn control_sends_the_number_of_a_letter(
    key: &str,
    text: Option<&str>,
    mods: &Modifiers,
    app: bool,
    r: Option<Vec<u8>>,
    c: Option<Vec<u8>>,
)
    requires
        mods.control && !mods.alt && !mods.platform,
        call_ensures(keystroke_bytes, (key, text, mods, app), r),
        call_ensures(control_bytes, (key,), c),
    ensures
        r is Some <==> c is Some,
        r is Some ==> r->0@ == c->0@ && r->0@.len() == 1,
        key@.len() == 1 && 'a' <= key@[0] <= 'z' ==> r is Some && r->0@[0] == key@[0] as int
            - 'a' as int + 1,
        key@.len() == 1 && (key@[0] == '@') ==> r is Some && r->0@[0] == 0,
        key@.len() == 1 && (key@[0] == '[' || key@[0] == '\\' || key@[0] == ']' || key@[0] == '^'
            || key@[0] == '_') ==> r is Some && r->0@[0] == key@[0] as int - 0x40,
        key@.len() == 1 && key@[0] == '?' ==> r is Some && r->0@[0] == 0x7f,
        key@.len() == 1 && 'A' <= key@[0] <= 'Z' ==> r is None,
        key@ == "space"@ ==> r is Some && r->0@[0] == 0,
        key@ == "backspace"@ ==> r is Some && r->0@[0] == 8,
        key@ == "enter"@ ==> r is Some && r->0@[0] == 13,
{
    reveal_strlit("space");
    reveal_strlit("backspace");
    reveal_strlit("enter");
    assert("space"@.len() == 5 && "backspace"@.len() == 9 && "enter"@.len() == 5);
    assert("space"@[0] == 's' && "enter"@[0] == 'e');
}

/// Whether a key has a name of its own for the terminal.
pub open spec fn is_named(key: Seq<char>) -> bool {
    ||| key == "enter"@ || key == "backspace"@ || key == "tab"@ || key == "escape"@
    ||| key == "space"@ || key == "up"@ || key == "down"@ || key == "right"@ || key == "left"@
    ||| key == "home"@ || key == "end"@ || key == "insert"@ || key == "delete"@
    ||| key == "pageup"@ || key == "pagedown"@
    ||| key == "f1"@ || key == "f2"@ || key == "f3"@ || key == "f4"@ || key == "f5"@ || key
        == "f6"@
    ||| key == "f7"@ || key == "f8"@ || key == "f9"@ || key == "f10"@ || key == "f11"@ || key
        == "f12"@
}

/// A key without a name sends the text that it types, as UTF-8; without a text, a
/// single character sends itself, and another key nothing.
pub proof fn typing_sends_what_is_typed(
    key: &str,
    text: Option<&str>,
    mods: &Modifiers,
    app: bool,
    r: Option<Vec<u8>>,
)
    requires
        !mods.control && !mods.alt && !mods.platform,
        !is_named(key@),
        call_ensures(keystroke_bytes, (key, text, mods, app), r),
    ensures
        text is Some && text->0@.len() > 0 ==> r is Some && r->0@ == encode_utf8(text->0@),
        (text is None || text->0@.len() == 0) && key@.len() == 1 ==> r is Some && r->0@
            == encode_utf8(key@),
        (text is None || text->0@.len() == 0) && key@.len() != 1 ==> r is None,
{
}

/// The names of keys differ.
proof fn key_names_differ()
    ensures
        "enter"@.len() == 5 && "enter"@[0] == 'e' && "enter"@[1] == 'n',
        "backspace"@.len() == 9,
        "tab"@.len() == 3 && "tab"@[0] == 't',
        "escape"@.len() == 6 && "escape"@[0] == 'e',
        "space"@.len() == 5 && "space"@[0] == 's',
        "up"@.len() == 2 && "up"@[0] == 'u',
        "down"@.len() == 4 && "down"@[0] == 'd',
        "right"@.len() == 5 && "right"@[0] == 'r',
        "left"@.len() == 4 && "left"@[0] == 'l',
        "home"@.len() == 4 && "home"@[0] == 'h',
        "end"@.len() == 3 && "end"@[0] == 'e',
        "insert"@.len() == 6 && "insert"@[0] == 'i',
        "delete"@.len() == 6 && "delete"@[0] == 'd',
        "pageup"@.len() == 6 && "pageup"@[0] == 'p',
        "pagedown"@.len() == 8,
        "f1"@.len() == 2 && "f1"@[0] == 'f' && "f1"@[1] == '1',
        "f2"@.len() == 2 && "f2"@[0] == 'f' && "f2"@[1] == '2',
        "f3"@.len() == 2 && "f3"@[0] == 'f' && "f3"@[1] == '3',
        "f4"@.len() == 2 && "f4"@[0] == 'f' && "f4"@[1] == '4',
        "f5"@.len() == 2 && "f5"@[0] == 'f' && "f5"@[1] == '5',
        "f6"@.len() == 2 && "f6"@[0] == 'f' && "f6"@[1] == '6',
        "f7"@.len() == 2 && "f7"@[0] == 'f' && "f7"@[1] == '7',
        "f8"@.len() == 2 && "f8"@[0] == 'f' && "f8"@[1] == '8',
        "f9"@.len() == 2 && "f9"@[0] == 'f' && "f9"@[1] == '9',
        "f10"@.len() == 3 && "f10"@[0] == 'f' && "f10"@[2] == '0',
        "f11"@.len() == 3 && "f11"@[0] == 'f' && "f11"@[2] == '1',
        "f12"@.len() == 3 && "f12"@[0] == 'f' && "f12"@[2] == '2',
{
    reveal_strlit("enter");
    reveal_strlit("backspace");
    reveal_strlit("tab");
    reveal_strlit("escape");
    reveal_strlit("space");
    reveal_strlit("up");
    reveal_strlit("down");
    reveal_strlit("right");
    reveal_strlit("left");
    reveal_strlit("home");
    reveal_strlit("end");
    reveal_strlit("insert");
    reveal_strlit("delete");
    reveal_strlit("pageup");
    reveal_strlit("pagedown");
    reveal_strlit("f1");
    reveal_strlit("f2");
    reveal_strlit("f3");
    reveal_strlit("f4");
    reveal_strlit("f5");
    reveal_strlit("f6");
    reveal_strlit("f7");
    reveal_strlit("f8");
    reveal_strlit("f9");
    reveal_strlit("f10");
    reveal_strlit("f11");
    reveal_strlit("f12");
}

/// What the keys with a name send. The keys of the cursor send `ESC [` and a
/// letter, or `ESC O` and the same letter when the application asked for it.
pub proof fn named_keys_send_their_bytes(
    key: &str,
    text: Option<&str>,
    mods: &Modifiers,
    app: bool,
    r: Option<Vec<u8>>,
)
    requires
        !mods.control && !mods.alt && !mods.platform,
        is_named(key@),
        call_ensures(keystroke_bytes, (key, text, mods, app), r),
    ensures
        r is Some,
        ({
            let b = r->0@;
            let second: u8 = if app {
                0x4f
            } else {
                0x5b
            };
            &&& key@ == "enter"@ ==> b == seq![0x0du8]
            &&& key@ == "backspace"@ ==> b == seq![0x7fu8]
            &&& key@ == "tab"@ && !mods.shift ==> b == seq![0x09u8]
            &&& key@ == "tab"@ && mods.shift ==> b == seq![0x1bu8, 0x5b, 0x5a]
            &&& key@ == "escape"@ ==> b == seq![0x1bu8]
            &&& key@ == "space"@ ==> b == seq![0x20u8]
            &&& key@ == "up"@ ==> b == seq![0x1bu8, second, 0x41]
            &&& key@ == "down"@ ==> b == seq![0x1bu8, second, 0x42]
            &&& key@ == "right"@ ==> b == seq![0x1bu8, second, 0x43]
            &&& key@ == "left"@ ==> b == seq![0x1bu8, second, 0x44]
            &&& key@ == "home"@ ==> b == seq![0x1bu8, second, 0x48]
            &&& key@ == "end"@ ==> b == seq![0x1bu8, second, 0x46]
            &&& key@ == "insert"@ ==> b == seq![0x1bu8, 0x5b, 0x32, 0x7e]
            &&& key@ == "delete"@ ==> b == seq![0x1bu8, 0x5b, 0x33, 0x7e]
            &&& key@ == "pageup"@ ==> b == seq![0x1bu8, 0x5b, 0x35, 0x7e]
            &&& key@ == "pagedown"@ ==> b == seq![0x1bu8, 0x5b, 0x36, 0x7e]
            &&& key@ == "f1"@ ==> b == seq![0x1bu8, 0x4f, 0x50]
            &&& key@ == "f2"@ ==> b == seq![0x1bu8, 0x4f, 0x51]
            &&& key@ == "f3"@ ==> b == seq![0x1bu8, 0x4f, 0x52]
            &&& key@ == "f4"@ ==> b == seq![0x1bu8, 0x4f, 0x53]
            &&& key@ == "f5"@ ==> b == seq![0x1bu8, 0x5b, 0x31, 0x35, 0x7e]
            &&& key@ == "f6"@ ==> b == seq![0x1bu8, 0x5b, 0x31, 0x37, 0x7e]
            &&& key@ == "f7"@ ==> b == seq![0x1bu8, 0x5b, 0x31, 0x38, 0x7e]
            &&& key@ == "f8"@ ==> b == seq![0x1bu8, 0x5b, 0x31, 0x39, 0x7e]
            &&& key@ == "f9"@ ==> b == seq![0x1bu8, 0x5b, 0x32, 0x30, 0x7e]
            &&& key@ == "f10"@ ==> b == seq![0x1bu8, 0x5b, 0x32, 0x31, 0x7e]
            &&& key@ == "f11"@ ==> b == seq![0x1bu8, 0x5b, 0x32, 0x33, 0x7e]
            &&& key@ == "f12"@ ==> b == seq![0x1bu8, 0x5b, 0x32, 0x34, 0x7e]
        }),
{
    key_names_differ();
}

/// A paste sends its text as UTF-8, inside the brackets that the application asked
/// for, or bare; the bytes that end a paste occur nowhere before its end.
pub proof fn a_paste_sends_its_text(
    text: &str,
    bare: Vec<u8>,
    bracketed: Vec<u8>,
    at: int,
)
    requires
        call_ensures(paste_bytes, (text, false), bare),
        call_ensures(paste_bytes, (text, true), bracketed),
    ensures
        bracketed@ == seq![0x1bu8, 0x5b, 0x32, 0x30, 0x30, 0x7e] + bare@ + seq![
            0x1bu8,
            0x5b,
            0x32,
            0x30,
            0x31,
            0x7e,
        ],
        !occurs_in(text@, seq!['\x1b', '[', '2', '0', '1', '~']) ==> bare@ == encode_utf8(text@),
        0 <= at && at + 6 <= bracketed@.len() && bracketed@.subrange(at, at + 6) == seq![
            0x1bu8,
            0x5b,
            0x32,
            0x30,
            0x31,
            0x7e,
        ] ==> at == bare@.len() + 6,
{
    if !occurs_in(text@, paste_end()) {
        harmless_text_is_pasted_whole(text@);
    }
    assert(pasted(text@, true) =~= open_bracket() + pasted(text@, false) + close_bracket());
    if 0 <= at && at + 6 <= bracketed@.len() && bracketed@.subrange(at, at + 6)
        == close_bracket() {
        paste_cannot_end_itself(text@, at);
    }
}

/// What is scrubbed out of a text is not in what is left, and a text without it
/// stays.
pub proof fn what_is_scrubbed_is_gone(s: &str, part: &str, r: String)
    requires
        part@.len() > 0,
        call_ensures(scrub, (s, part), r),
    ensures
        !occurs_in(r@, part@),
        !occurs_in(s@, part@) ==> r@ == s@,
{
    scrubbing_leaves_none(s@, part@);
}

/// What is pushed is taken, all of it and in order, and then nothing is left; a
/// flush is asked for when something was pushed onto nothing.
pub proof fn what_is_pushed_is_taken(
    a: &mut InputCoalescer,
    first: &[u8],
    b: &mut InputCoalescer,
    second: &[u8],
    c: &mut InputCoalescer,
    x: bool,
    y: bool,
    bytes: Vec<u8>,
)
    requires
        call_ensures(InputCoalescer::push, (a, first), x),
        *old(b) == *final(a),
        call_ensures(InputCoalescer::push, (b, second), y),
        *old(c) == *final(b),
        call_ensures(InputCoalescer::take, (c,), bytes),
    ensures
        bytes@ == old(a)@ + first@ + second@,
        final(c)@.len() == 0,
        x <==> old(a)@.len() == 0 && first@.len() > 0,
        first@.len() > 0 ==> !y,
{
}

proof fn segments_have_no_slash(path: Seq<char>)
    ensures
        forall|i: int|
            0 <= i < segments(path).len() ==> (#[trigger] segments(path)[i]).len() > 0,
        forall|i: int, k: int|
            0 <= i < segments(path).len() && 0 <= k < segments(path)[i].len() ==> #[trigger] segments(
                path,
            )[i][k] != '/',
        path.len() > 0 && path.last() != '/' ==> segments(path).len() > 0,
    decreases path.len(),
{
    if path.len() > 0 {
        let rest = path.drop_last();
        segments_have_no_slash(rest);
        let before = segments(rest);
        let now = segments(path);
        let c = path.last();
        if c != '/' {
            if path.len() == 1 || path[path.len() - 2] == '/' {
                assert forall|i: int, k: int| 0 <= i < now.len() && 0 <= k < now[i].len() implies
                    #[trigger] now[i][k] != '/' by {
                    if i < before.len() {
                        assert(now[i] == before[i]);
                        assert(before[i][k] != '/');
                    }
                }
            } else {
                assert(rest.last() == path[path.len() - 2]);
                assert forall|i: int| 0 <= i < now.len() implies (#[trigger] now[i]).len() > 0 by {
                    assert(before[i].len() > 0);
                }
                assert forall|i: int, k: int| 0 <= i < now.len() && 0 <= k < now[i].len() implies
                    #[trigger] now[i][k] != '/' by {
                    if i < before.len() - 1 {
                        assert(now[i] == before[i]);
                        assert(before[i][k] != '/');
                    } else if k < before.last().len() {
                        assert(before[i][k] != '/');
                    }
                }
            }
        }
    }
}

/// The way to a folder begins at the root; each step goes one folder down, to the
/// path of the step before with a slash and the folder's name behind it.
pub proof fn each_crumb_goes_one_folder_down(path: &str, crumbs: Vec<Crumb>)
    requires
        call_ensures(breadcrumbs, (path,), crumbs),
    ensures
        crumbs@.len() > 0,
        crumbs@[0].label@ == seq!['/'] && crumbs@[0].full_path@ == seq!['/'],
        crumbs@.len() > 1 ==> crumbs@[1].full_path@ == seq!['/'] + crumbs@[1].label@,
        forall|i: int|
            2 <= i < crumbs@.len() ==> (#[trigger] crumbs@[i]).full_path@ == crumbs@[i
                - 1].full_path@.push('/') + crumbs@[i].label@,
        forall|i: int| 1 <= i < crumbs@.len() ==> (#[trigger] crumbs@[i]).label@.len() > 0,
        forall|i: int, k: int|
            1 <= i < crumbs@.len() && 0 <= k < crumbs@[i].label@.len()
                ==> #[trigger] crumbs@[i].label@[k] != '/',
{
    let segs = segments(path@);
    segments_have_no_slash(path@);
    assert forall|i: int| 1 <= i < crumbs@.len() implies (#[trigger] crumbs@[i]).label@.len()
        > 0 by {
        assert(segs[i - 1].len() > 0);
    }
    assert forall|i: int, k: int|
        1 <= i < crumbs@.len() && 0 <= k < crumbs@[i].label@.len() implies #[trigger] crumbs@[i].label@[k]
        != '/' by {
        assert(segs[i - 1][k] != '/');
    }
    if crumbs@.len() > 1 {
        assert(path_to(segs, 0) =~= Seq::<char>::empty());
        assert(path_to(segs, 1) =~= seq!['/'] + segs[0]);
    }
}

/// A folder's parent is the last crumb but one, its children stand right below it
/// in the order given, and the root has no parent.
pub proof fn a_listing_knows_its_family(
    path: String,
    text: &str,
    names: &Vec<FolderName>,
    l: FolderListing,
    crumbs: Vec<Crumb>,
)
    requires
        call_ensures(listing, (path, names), l),
        text@ == path@,
        call_ensures(breadcrumbs, (text,), crumbs),
    ensures
        l.path == path,
        l.crumbs@.len() == crumbs@.len(),
        crumbs@.len() == 1 ==> l.parent is None,
        crumbs@.len() > 1 ==> opt(l.parent) == Some(crumbs@[crumbs@.len() - 2].full_path@),
        l.folders@.len() == names@.len(),
        forall|i: int|
            0 <= i < names@.len() ==> {
                let f = #[trigger] l.folders@[i];
                f.name == names@[i].name && f.is_repo == names@[i].is_repo && f.full_path@ == (
                if path@.len() > 0 && path@.last() == '/' {
                    path@
                } else {
                    path@.push('/')
                }) + names@[i].name@
            },
{
}

/// A child's path is its parent's, one slash, and its name.
pub proof fn a_child_stands_below(base: &str, name: &str, s: String)
    requires
        call_ensures(child_path, (base, name), s),
    ensures
        base@.len() > 0 && base@.last() == '/' ==> s@ == base@ + name@,
        base@.len() == 0 || base@.last() != '/' ==> s@ == base@.push('/') + name@,
{
}

/// A part is in a text, or at its front, exactly when it stands there.
pub proof fn parts_are_found(s: &str, part: &str, inside: bool, front: bool, at: int)
    requires
        call_ensures(contains, (s, part), inside),
        call_ensures(starts_with, (s, part), front),
    ensures
        0 <= at && at + part@.len() <= s@.len() && s@.subrange(at, at + part@.len()) == part@
            ==> inside,
        inside ==> exists|k: int|
            #![trigger s@.subrange(k, k + part@.len())]
            0 <= k && k + part@.len() <= s@.len() && s@.subrange(k, k + part@.len()) == part@,
        front <==> part@.len() <= s@.len() && s@.subrange(0, part@.len() as int) == part@,
{
    if 0 <= at && at + part@.len() <= s@.len() && s@.subrange(at, at + part@.len()) == part@ {
        assert(occurs_at(s@, part@, at));
    }
    if inside {
        let k = choose|k: int| occurs_at(s@, part@, k);
        assert(s@.subrange(k, k + part@.len()) == part@);
    }
    assert(0 + part@.len() == part@.len());
}

/// Taking a part out goes from the left: what stands before it stays, and what
/// follows it is looked at next; a text that begins otherwise keeps its first
/// character.
pub proof fn parts_are_taken_out_from_the_left(
    s: &str,
    part: &str,
    rest: &str,
    r: String,
    q: String,
)
    requires
        part@.len() > 0,
        call_ensures(remove_all, (s, part), r),
        call_ensures(remove_all, (rest, part), q),
    ensures
        s@ == part@ + rest@ ==> r@ == q@,
        s@.len() > 0 && rest@ == s@.subrange(1, s@.len() as int) && !(part@.len() <= s@.len()
            && s@.subrange(0, part@.len() as int) == part@) ==> r@ == seq![s@[0]] + q@,
        s@.len() == 0 ==> r@.len() == 0,
{
    assert(0 + part@.len() == part@.len());
    if s@ == part@ + rest@ {
        assert(s@.subrange(0, part@.len() as int) =~= part@);
        assert(s@.subrange(part@.len() as int, s@.len() as int) =~= rest@);
        assert(occurs_at(s@, part@, 0));
    }
}

/// Words that run together come apart before each capital but the first, in small
/// letters.
pub proof fn words_come_apart(s: &str, more: &str, c: char, between: &str, r: String, q: String)
    requires
        more@ == s@.push(c),
        call_ensures(uncamel, (s, between), r),
        call_ensures(uncamel, (more, between), q),
    ensures
        !('A' <= c <= 'Z') ==> q@ == r@.push(c),
        'A' <= c <= 'Z' && s@.len() == 0 ==> q@.len() == 1 && q@[0] as int == c as int + 32,
        'A' <= c <= 'Z' && s@.len() > 0 ==> q@.len() == r@.len() + between@.len() + 1 && q@.take(
            (r@.len() + between@.len()) as int,
        ) == r@ + between@ && q@.last() as int == c as int + 32,
{
    assert(more@.drop_last() =~= s@);
    assert(more@.last() == c);
    if 'A' <= c <= 'Z' && s@.len() > 0 {
        assert(q@.take((r@.len() + between@.len()) as int) =~= r@ + between@);
    }
}

/// A text that is blank is none, and any other is what is left when it is
/// trimmed.
pub proof fn a_blank_text_is_none(o: &Option<String>, r: Option<String>)
    requires
        call_ensures(crate::proto::trimmed_or_none, (o,), r),
    ensures
        r is Some <==> *o is Some && trimmed((*o)->0@).len() > 0,
        r matches Some(s) ==> s@ == trimmed((*o)->0@),
{
}

/// Padding is expected and not insisted on: bytes come from the padded reading,
/// or else from the other, or else there are none.
pub proof fn padding_is_not_insisted_on(a: Option<Vec<u8>>, b: Option<Vec<u8>>, r: Vec<u8>)
    requires
        call_ensures(crate::terminal::codec::choose_bytes, (a, b), r),
    ensures
        a matches Some(v) ==> r@ == v@,
        a is None ==> (b matches Some(v) ==> r@ == v@),
        a is None && b is None ==> r@.len() == 0,
{
}

/// What is encoded decodes to itself.
pub proof fn what_is_encoded_decodes(bytes: &[u8], s: String, text: &str, r: Vec<u8>)
    requires
        call_ensures(crate::terminal::codec::encode_base64, (bytes,), s),
        text@ == s@,
        call_ensures(crate::terminal::codec::decode_base64, (text,), r),
    ensures
        r@ == bytes@,
{
}

}
