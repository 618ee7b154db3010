//! Text helpers shared by the library: decimal and hexadecimal rendering of
//! integers, and thin contracts over the `str`/`String` operations of std that
//! the library uses.

use vstd::prelude::*;

verus! {

/// The character of one digit (`0`-`9`, then lowercase `a`-`z`).
pub open spec fn digit_char(d: nat) -> char {
    if d < 10 {
        (48 + d) as char
    } else {
        (87 + d) as char
    }
}

/// The digits of `n` in base `radix`, most significant first, without leading
/// zeros (`0` renders as a single `0`).
pub open spec fn digits(n: nat, radix: nat) -> Seq<char>
    decreases n,
{
    if radix < 2 || n < radix {
        seq![digit_char(n)]
    } else {
        proof {
            vstd::arithmetic::div_mod::lemma_div_decreases(n as int, radix as int);
        }
        digits(n / radix, radix).push(digit_char(n % radix))
    }
}

/// Decimal rendering of an integer, with a leading `-` when negative.
pub open spec fn decimal(n: int) -> Seq<char> {
    if n < 0 {
        seq!['-'] + digits((-n) as nat, 10)
    } else {
        digits(n as nat, 10)
    }
}

/// `needle` occurs as a contiguous run of `hay`.
pub open spec fn seq_contains(hay: Seq<char>, needle: Seq<char>) -> bool {
    exists|i: int| 0 <= i <= hay.len() - needle.len() && #[trigger] hay.subrange(i, i + needle.len()) == needle
}

/// A run found in one part is found in any text that holds that part.
pub(crate) proof fn lemma_contains_within(a: Seq<char>, b: Seq<char>, c: Seq<char>, needle: Seq<char>)
    requires
        seq_contains(b, needle),
    ensures
        seq_contains(a + b + c, needle),
{
    let j = choose|j: int| 0 <= j <= b.len() - needle.len() && #[trigger] b.subrange(j, j + needle.len()) == needle;
    let t = a + b + c;
    assert(t.subrange(a.len() + j, a.len() + j + needle.len()) =~= b.subrange(j, j + needle.len()));
}

/// A text holds itself.
pub(crate) proof fn lemma_contains_whole(b: Seq<char>)
    ensures
        seq_contains(b, b),
{
    let z: int = 0;
    assert(b.subrange(z, z + b.len()) =~= b);
}

/// The number a run of decimal digits reads as, most significant first.
pub open spec fn digits_value(s: Seq<char>) -> int
    decreases s.len(),
{
    if s.len() == 0 {
        0
    } else {
        10 * digits_value(s.drop_last()) + (s.last() as int - '0' as int)
    }
}

/// Decimal rendering reads back: the text of a non-negative number is a
/// run of the digits `0`-`9` whose value is that number, with no leading
/// zero save for 0 itself; a negative number is `-` and the text of its
/// magnitude.
pub proof fn law_decimal_reads_back(n: int)
    ensures
        n >= 0 ==> digits_value(decimal(n)) == n,
        n >= 0 ==> forall|i: int| 0 <= i < decimal(n).len() ==> '0' <= #[trigger] decimal(n)[i] <= '9',
        n > 0 ==> decimal(n)[0] != '0',
        n == 0 ==> decimal(n) == seq!['0'],
        n < 0 ==> decimal(n) == seq!['-'] + decimal(-n),
    decreases if n >= 0 { n } else { 0 },
{
    if n >= 10 {
        law_decimal_reads_back(n / 10);
        let d = digits((n / 10) as nat, 10);
        let c = digit_char((n % 10) as nat);
        assert(decimal(n) == d.push(c));
        assert(d.push(c).drop_last() =~= d);
        assert forall|i: int| 0 <= i < decimal(n).len() implies '0' <= #[trigger] decimal(n)[i] <= '9' by {
            if i < d.len() {
                assert(decimal(n)[i] == d[i]);
                assert(d[i] == decimal(n / 10)[i]);
            }
        }
        assert(decimal(n)[0] == d[0]);
        assert(d[0] == decimal(n / 10)[0]);
        assert(c as int == '0' as int + n % 10);
        assert(digits_value(decimal(n)) == 10 * digits_value(d) + n % 10);
        assert(n == 10 * (n / 10) + n % 10);
    } else if n >= 0 {
        let c = digit_char(n as nat);
        assert(c as int == '0' as int + n);
        assert(decimal(n) == seq![c]);
        assert(seq![c].drop_last() =~= Seq::<char>::empty());
        assert(seq![c].last() == c);
        assert(digits_value(Seq::<char>::empty()) == 0);
        assert(digits_value(seq![c]) == 10 * digits_value(Seq::<char>::empty()) + (c as int - '0' as int));
    }
}

/// What `{:?}` renders for a string slice: the text in double quotes with
/// std's escapes applied.
pub uninterp spec fn debug_escaped(s: Seq<char>) -> Seq<char>;

/// Whole-string equality of two slices.
///
/// Calls `<str as PartialEq>::eq`, which std documents as comparing the two
/// strings character for character; the contract says the result is the
/// equality of the two character sequences.
#[verifier::external_body]
pub(crate) fn str_equals(a: &str, b: &str) -> (r: bool)
    ensures
        r == (a@ == b@),
{
    a == b
}

/// Substring test.
///
/// Calls `str::contains` with a `&str` pattern, which std documents as true
/// when the pattern occurs as a contiguous substring; the contract says so over
/// the character sequences.
#[verifier::external_body]
pub(crate) fn str_contains(hay: &str, needle: &str) -> (r: bool)
    ensures
        r == seq_contains(hay@, needle@),
{
    hay.contains(needle)
}

/// Appends one character.
///
/// Calls `String::push`, which std documents as appending the character to
/// the end of the string.
#[verifier::external_body]
pub(crate) fn push_char(s: &mut String, c: char)
    ensures
        final(s)@ == old(s)@.push(c),
{
    s.push(c);
}

/// The `{:?}` rendering of a string slice.
///
/// Calls `format!("{:?}", s)`; the contract ties the result to `debug_escaped`
/// of the input and says nothing more about std's escaping rules.
#[verifier::external_body]
pub(crate) fn debug_str(s: &str) -> (r: String)
    ensures
        r@ == debug_escaped(s@),
{
    format!("{:?}", s)
}

/// An owned copy of a string slice.
pub(crate) fn owned(s: &str) -> (r: String)
    ensures
        r@ == s@,
{
    s.to_owned()
}

/// Appends a string slice.
pub(crate) fn push_str(s: &mut String, t: &str)
    ensures
        final(s)@ == old(s)@ + t@,
{
    s.append(t);
}

/// The character of one digit below 36.
fn digit_of(d: u64) -> (c: char)
    requires
        d < 36,
    ensures
        c == digit_char(d as nat),
{
    if d < 10 {
        ((d as u8) + 48u8) as char
    } else {
        ((d as u8) + 87u8) as char
    }
}

/// Appends the base-`radix` digits of `n`.
pub(crate) fn push_digits(out: &mut String, n: u64, radix: u64)
    requires
        2 <= radix <= 36,
    ensures
        final(out)@ == old(out)@ + digits(n as nat, radix as nat),
    decreases n,
{
    let ghost start = out@;
    if n >= radix {
        proof {
            vstd::arithmetic::div_mod::lemma_div_decreases(n as int, radix as int);
        }
        push_digits(out, n / radix, radix);
    }
    let d = n % radix;
    push_char(out, digit_of(d));
    proof {
        if n >= radix {
            assert(out@ =~= start + digits(n as nat, radix as nat));
        } else {
            vstd::arithmetic::div_mod::lemma_small_mod(n as nat, radix as nat);
            assert(out@ =~= start + digits(n as nat, radix as nat));
        }
    }
}

/// Appends the base-`radix` digits of a 128-bit `n`.
pub(crate) fn push_digits_u128(out: &mut String, n: u128, radix: u128)
    requires
        2 <= radix <= 36,
    ensures
        final(out)@ == old(out)@ + digits(n as nat, radix as nat),
    decreases n,
{
    let ghost start = out@;
    if n >= radix {
        proof {
            vstd::arithmetic::div_mod::lemma_div_decreases(n as int, radix as int);
        }
        push_digits_u128(out, n / radix, radix);
    }
    let d = n % radix;
    push_char(out, digit_of(d as u64));
    proof {
        if n >= radix {
            assert(out@ =~= start + digits(n as nat, radix as nat));
        } else {
            vstd::arithmetic::div_mod::lemma_small_mod(n as nat, radix as nat);
            assert(out@ =~= start + digits(n as nat, radix as nat));
        }
    }
}

/// Appends the decimal rendering of a 128-bit unsigned integer.
pub(crate) fn push_u128(out: &mut String, n: u128)
    ensures
        final(out)@ == old(out)@ + decimal(n as int),
{
    push_digits_u128(out, n, 10);
}

/// Appends the decimal rendering of an unsigned integer.
pub(crate) fn push_u64(out: &mut String, n: u64)
    ensures
        final(out)@ == old(out)@ + decimal(n as int),
{
    push_digits(out, n, 10);
}

/// Appends the decimal rendering of a signed integer.
pub(crate) fn push_i64(out: &mut String, n: i64)
    ensures
        final(out)@ == old(out)@ + decimal(n as int),
{
    if n < 0 {
        push_char(out, '-');
        let m: u64 = (0i128 - (n as i128)) as u64;
        push_digits(out, m, 10);
        assert(final(out)@ =~= old(out)@ + decimal(n as int));
    } else {
        push_digits(out, n as u64, 10);
    }
}

/// The characters of a string slice.
pub(crate) fn chars_of(s: &str) -> (v: Vec<char>)
    ensures
        v@ == s@,
{
    broadcast use vstd::string::group_string_axioms;

    let mut v: Vec<char> = Vec::new();
    for c in it: s.chars()
        invariant
            v@ == it.seq().take(it.index() as int),
            it.seq() == s@,
    {
        v.push(c);
    }
    v
}

} // verus!
