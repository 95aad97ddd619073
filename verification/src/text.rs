use vstd::prelude::*;

verus! {

/// The chars of a string slice, in order.
pub fn chars_of(s: &str) -> (v: Vec<char>)
    ensures
        v@ == s@,
{
    let mut v: Vec<char> = Vec::new();
    for c in it: s.chars()
        invariant
            v@ == it.seq().take(it.index() as int),
            it.seq() == s@,
    {
        v.push(c);
    }
    v
}

// ---------------------------------------------------------------------------
// Whitespace-separated words
// ---------------------------------------------------------------------------

/// Unicode `White_Space`, the set that `char::is_whitespace` tests.
pub open spec fn is_space(c: char) -> bool {
    ||| c == ' '
    ||| ('\u{9}' <= c && c <= '\u{d}')
    ||| c == '\u{85}'
    ||| c == '\u{a0}'
    ||| c == '\u{1680}'
    ||| ('\u{2000}' <= c && c <= '\u{200a}')
    ||| c == '\u{2028}'
    ||| c == '\u{2029}'
    ||| c == '\u{202f}'
    ||| c == '\u{205f}'
    ||| c == '\u{3000}'
}

/// Whether `c` is white space.
pub fn char_is_space(c: char) -> (b: bool)
    ensures
        b == is_space(c),
{
    c == ' ' || ('\u{9}' <= c && c <= '\u{d}') || c == '\u{85}' || c == '\u{a0}'
        || c == '\u{1680}' || ('\u{2000}' <= c && c <= '\u{200a}') || c == '\u{2028}'
        || c == '\u{2029}' || c == '\u{202f}' || c == '\u{205f}' || c == '\u{3000}'
}

/// `s[a..b]` is one word of `s`: a non-empty run of non-space chars that no
/// non-space char extends on either side.
pub open spec fn is_word(s: Seq<char>, a: int, b: int) -> bool {
    &&& 0 <= a < b <= s.len()
    &&& (a == 0 || is_space(s[a - 1]))
    &&& (b == s.len() || is_space(s[b]))
    &&& forall|k: int| a <= k < b ==> !is_space(#[trigger] s[k])
}

/// `name` is one of the whitespace-separated words of `list`.
pub open spec fn lists_word(list: Seq<char>, name: Seq<char>) -> bool {
    exists|a: int, b: int| is_word(list, a, b) && list.subrange(a, b) == name
}

/// Whether `s[start..start + name.len()]` is `name`.
fn matches_at(s: &Vec<char>, start: usize, end: usize, name: &Vec<char>) -> (b: bool)
    requires
        start <= end <= s.len(),
    ensures
        b == (s@.subrange(start as int, end as int) == name@),
{
    if end - start != name.len() {
        assert(s@.subrange(start as int, end as int).len() != name@.len());
        return false;
    }
    let mut k: usize = 0;
    while k < name.len()
        invariant
            start <= end <= s.len(),
            end - start == name.len(),
            k <= name.len(),
            forall|j: int| 0 <= j < k ==> s@[start + j] == name@[j],
        decreases name.len() - k,
    {
        if s[start + k] != name[k] {
            assert(s@.subrange(start as int, end as int)[k as int] != name@[k as int]);
            return false;
        }
        k = k + 1;
    }
    assert(s@.subrange(start as int, end as int) =~= name@);
    true
}

/// Whether `name` is one of the whitespace-separated words of `list`
/// (`list.split_whitespace().any(|w| w == name)`).
pub fn word_listed(list: &Vec<char>, name: &Vec<char>) -> (found: bool)
    ensures
        found == lists_word(list@, name@),
{
    let n = list.len();
    let ghost s = list@;
    let mut i: usize = 0;
    while i < n
        invariant
            n == s.len(),
            s == list@,
            i <= n,
            i == 0 || i == n || is_space(s[i - 1]),
            forall|a: int, b: int| is_word(s, a, b) && b <= i ==> s.subrange(a, b) != name@,
        decreases n - i,
    {
        if char_is_space(list[i]) {
            let ghost old_i = i as int;
            i = i + 1;
            assert forall|a: int, b: int| is_word(s, a, b) && b <= i implies s.subrange(a, b) != name@ by {
                if b > old_i {
                    assert(!is_space(s[old_i]));
                }
            }
        } else {
            let start = i;
            while i < n && !char_is_space(list[i])
                invariant
                    n == s.len(),
                    s == list@,
                    start < n,
                    start <= i <= n,
                    forall|k: int| start <= k < i ==> !is_space(#[trigger] s[k]),
                decreases n - i,
            {
                i = i + 1;
            }
            let end = i;
            assert(start < end);
            assert(is_word(s, start as int, end as int));
            if matches_at(list, start, end, name) {
                return true;
            }
            // Every word ending after `start` and no later than `end` is this one.
            assert forall|a: int, b: int| is_word(s, a, b) && b <= end && b > start implies a == start && b == end by {
                if a > start {
                    assert(!is_space(s[a - 1]));
                }
                if a < start {
                    assert(!is_space(s[start - 1]));
                }
                if b < end {
                    assert(!is_space(s[b]));
                }
            }
            if i < n {
                let ghost old_i = i as int;
                i = i + 1;
                assert forall|a: int, b: int| is_word(s, a, b) && b <= i implies s.subrange(a, b) != name@ by {
                    if b == old_i + 1 {
                        assert(!is_space(s[old_i]));
                    }
                }
            }
        }
    }
    false
}

/// Whether extension `name` appears in the space-separated extension list `list`.
pub fn extension_listed(list: &str, name: &str) -> (found: bool)
    ensures
        found == lists_word(list@, name@),
{
    let l = chars_of(list);
    let n = chars_of(name);
    word_listed(&l, &n)
}

// ---------------------------------------------------------------------------
// Decimal numbers
// ---------------------------------------------------------------------------

pub open spec fn is_digit(c: char) -> bool {
    '0' <= c && c <= '9'
}

pub open spec fn digit_value(c: char) -> nat {
    (c as int - '0' as int) as nat
}

/// The value of a string of decimal digits.
pub open spec fn decimal_value(d: Seq<char>) -> nat
    decreases d.len(),
{
    if d.len() == 0 {
        0
    } else {
        decimal_value(d.drop_last()) * 10 + digit_value(d.last())
    }
}

/// The digits that `usize::from_str` reads: the text without one leading `+`.
pub open spec fn unsigned_digits(s: Seq<char>) -> Seq<char> {
    if s.len() > 0 && s[0] == '+' { s.drop_first() } else { s }
}

/// What `s.parse::<usize>()` gives: the value of a non-empty run of decimal digits,
/// optionally after one `+`, when it fits in `usize`.
pub open spec fn parse_unsigned(s: Seq<char>) -> Option<usize> {
    let d = unsigned_digits(s);
    if d.len() > 0 && (forall|k: int| 0 <= k < d.len() ==> is_digit(#[trigger] d[k]))
        && decimal_value(d) <= usize::MAX {
        Some(decimal_value(d) as usize)
    } else {
        None
    }
}

proof fn lemma_decimal_prefix_grows(d: Seq<char>, k: int)
    requires
        0 <= k <= d.len(),
        forall|j: int| 0 <= j < d.len() ==> is_digit(#[trigger] d[j]),
    ensures
        decimal_value(d.take(k)) <= decimal_value(d),
    decreases d.len() - k,
{
    if k < d.len() {
        lemma_decimal_prefix_grows(d, k + 1);
        assert(d.take(k + 1).drop_last() =~= d.take(k));
    } else {
        assert(d.take(k) =~= d);
    }
}

/// `s.parse::<usize>().ok()`.
pub fn parse_usize(s: &str) -> (r: Option<usize>)
    ensures
        r == parse_unsigned(s@),
{
    let c = chars_of(s);
    let ghost d = unsigned_digits(s@);
    let mut i: usize = 0;
    if c.len() > 0 && c[0] == '+' {
        i = 1;
    }
    assert(d =~= c@.skip(i as int));
    if i >= c.len() {
        return None;
    }
    let mut acc: usize = 0;
    let mut k: usize = i;
    while k < c.len()
        invariant
            c@ == s@,
            d == c@.skip(i as int),
            d == unsigned_digits(s@),
            i < c.len(),
            i <= k <= c.len(),
            forall|j: int| 0 <= j < k - i ==> is_digit(#[trigger] d[j]),
            acc == decimal_value(d.take(k - i)),
        decreases c.len() - k,
    {
        let ch = c[k];
        if !('0' <= ch && ch <= '9') {
            proof {
                let dd = unsigned_digits(s@);
                assert(dd == d);
                assert(!is_digit(dd[k - i]));
                assert(!(forall|j: int| 0 <= j < dd.len() ==> is_digit(#[trigger] dd[j])));
            }
            return None;
        }
        let v: u32 = (ch as u32) - ('0' as u32);
        assert(d.take(k + 1 - i).drop_last() =~= d.take(k - i));
        assert(d.take(k + 1 - i).last() == ch);
        let m = acc.checked_mul(10);
        let t = match m {
            None => None,
            Some(m) => m.checked_add(v as usize),
        };
        match t {
            None => {
                proof {
                    assert(decimal_value(d.take(k + 1 - i)) == acc * 10 + v);
                    assert(decimal_value(d.take(k + 1 - i)) > usize::MAX);
                    let dd = unsigned_digits(s@);
                    assert(dd == d);
                    if forall|j: int| 0 <= j < d.len() ==> is_digit(#[trigger] d[j]) {
                        lemma_decimal_prefix_grows(d, k + 1 - i);
                    }
                }
                return None;
            },
            Some(t) => {
                acc = t;
            },
        }
        k = k + 1;
    }
    assert(d.take(k - i) =~= d);
    Some(acc)
}

// ---------------------------------------------------------------------------
// Number formatting
// ---------------------------------------------------------------------------

/// The lower-case digit of value `d` (below sixteen).
pub open spec fn digit_char(d: nat) -> char {
    if d < 10 {
        ('0' as int + d) as char
    } else {
        ('a' as int + (d - 10)) as char
    }
}

/// The one-char text of digit `d`.
fn digit_str(d: u64) -> (s: &'static str)
    requires
        d < 16,
    ensures
        s@ == seq![digit_char(d as nat)],
{
    proof {
        reveal_strlit("0");
        reveal_strlit("1");
        reveal_strlit("2");
        reveal_strlit("3");
        reveal_strlit("4");
        reveal_strlit("5");
        reveal_strlit("6");
        reveal_strlit("7");
        reveal_strlit("8");
        reveal_strlit("9");
        reveal_strlit("a");
        reveal_strlit("b");
        reveal_strlit("c");
        reveal_strlit("d");
        reveal_strlit("e");
        reveal_strlit("f");
    }
    let s = if d == 0 {
        "0"
    } else if d == 1 {
        "1"
    } else if d == 2 {
        "2"
    } else if d == 3 {
        "3"
    } else if d == 4 {
        "4"
    } else if d == 5 {
        "5"
    } else if d == 6 {
        "6"
    } else if d == 7 {
        "7"
    } else if d == 8 {
        "8"
    } else if d == 9 {
        "9"
    } else if d == 10 {
        "a"
    } else if d == 11 {
        "b"
    } else if d == 12 {
        "c"
    } else if d == 13 {
        "d"
    } else if d == 14 {
        "e"
    } else {
        "f"
    };
    assert(s@ =~= seq![digit_char(d as nat)]);
    s
}

/// The digits of `n` in base `base` (2 to 16), most significant first, without
/// leading zeros (`0` for zero).
pub open spec fn digits_text(n: nat, base: nat) -> Seq<char>
    decreases n,
{
    if n < base || base < 2 {
        seq![digit_char(n)]
    } else {
        proof {
            assert(n / base < n) by (nonlinear_arith)
                requires
                    base >= 2,
                    n >= base,
            ;
        }
        digits_text(n / base, base) + seq![digit_char(n % base)]
    }
}

/// What `{}` prints for an integer.
pub open spec fn decimal_text(n: int) -> Seq<char> {
    if n < 0 {
        seq!['-'] + digits_text((-n) as nat, 10)
    } else {
        digits_text(n as nat, 10)
    }
}

/// What `{:04x}` prints for a 32-bit value: its lower-case hexadecimal digits,
/// with zeros in front up to four digits.
pub open spec fn hex4_text(v: u32) -> Seq<char> {
    let d = digits_text(v as nat, 16);
    if d.len() < 4 {
        Seq::new((4 - d.len()) as nat, |i: int| '0') + d
    } else {
        d
    }
}

fn append_digits(out: &mut String, n: u64, base: u64)
    requires
        2 <= base <= 16,
    ensures
        final(out)@ == old(out)@ + digits_text(n as nat, base as nat),
    decreases n,
{
    if n >= base {
        assert(n / base < n) by (nonlinear_arith)
            requires
                base >= 2,
                n >= base,
        ;
        append_digits(out, n / base, base);
        out.append(digit_str(n % base));
        assert(final(out)@ =~= old(out)@ + digits_text(n as nat, base as nat));
    } else {
        out.append(digit_str(n));
        assert(final(out)@ =~= old(out)@ + digits_text(n as nat, base as nat));
    }
}

/// Appends the decimal text of `n` (as `{}` prints it).
pub fn append_decimal(out: &mut String, n: i32)
    ensures
        final(out)@ == old(out)@ + decimal_text(n as int),
{
    if n < 0 {
        out.append("-");
        proof {
            reveal_strlit("-");
        }
        let m: i64 = -(n as i64);
        append_digits(out, m as u64, 10);
        assert(final(out)@ =~= old(out)@ + decimal_text(n as int));
    } else {
        append_digits(out, n as u64, 10);
    }
}

/// Appends `v` as `{:04x}` prints it.
pub fn append_hex4(out: &mut String, v: u32)
    ensures
        final(out)@ == old(out)@ + hex4_text(v),
{
    let ghost start = out@;
    let mut digits = String::new();
    append_digits(&mut digits, v as u64, 16);
    assert(digits@ =~= digits_text(v as nat, 16));
    let width = digits.as_str().unicode_len();
    let mut pad: usize = width;
    while pad < 4
        invariant
            width == digits_text(v as nat, 16).len(),
            width <= pad,
            pad <= 4 || pad == width,
            out@ == start + Seq::new((pad - width) as nat, |i: int| '0'),
        decreases 4 - pad,
    {
        out.append("0");
        proof {
            reveal_strlit("0");
        }
        assert(out@ =~= start + Seq::new((pad + 1 - width) as nat, |i: int| '0'));
        pad = pad + 1;
    }
    out.append(digits.as_str());
    assert(final(out)@ =~= old(out)@ + hex4_text(v));
}

} // verus!
