//! Verified text helpers: decimal rendering of 64-bit integers, identifier
//! validity and derivation, and string comparison. These carry the formatting
//! guarantees that the generated field types are specified against.

use vstd::prelude::*;
use vstd::string::StrSliceExecFns;
use vstd::string::StringExecFns;

verus! {

/// Relies on std's `String::push`: appends exactly the given character to
/// the end of the string.
#[verifier::external_body]
pub(crate) fn push_char(s: &mut String, c: char)
    ensures
        final(s)@ == old(s)@ + seq![c],
{
    s.push(c);
}

/// The decimal digit character for `d` (meaningful for `0 <= d <= 9`).
pub open spec fn spec_digit_char(d: int) -> char {
    ((d + 48) as u8) as char
}

/// Decimal rendering of a natural number, most significant digit first,
/// without leading zeros (except for the number zero itself).
pub open spec fn spec_dec_nat(n: nat) -> Seq<char>
    decreases n,
{
    if n < 10 {
        seq![spec_digit_char(n as int)]
    } else {
        spec_dec_nat(n / 10) + seq![spec_digit_char((n % 10) as int)]
    }
}

/// Decimal rendering of a signed value: a leading minus sign for negative
/// values, then the magnitude's digits.
pub open spec fn spec_dec_i64(v: int) -> Seq<char> {
    if v < 0 {
        seq!['-'] + spec_dec_nat((-v) as nat)
    } else {
        spec_dec_nat(v as nat)
    }
}

fn dec_u64(n: u64) -> (s: String)
    ensures
        s@ == spec_dec_nat(n as nat),
    decreases n,
{
    if n < 10 {
        let mut s = String::new();
        push_char(&mut s, ((n as u8) + 48) as char);
        proof {
            assert(s@ =~= spec_dec_nat(n as nat));
        }
        s
    } else {
        proof {
            assert(n / 10 < n) by (nonlinear_arith)
                requires
                    n >= 10,
            ;
        }
        let mut s = dec_u64(n / 10);
        push_char(&mut s, (((n % 10) as u8) + 48) as char);
        proof {
            assert(s@ =~= spec_dec_nat(n as nat));
        }
        s
    }
}

/// Renders a 64-bit signed integer in decimal, exactly as `spec_dec_i64`
/// describes.
pub fn i64_to_dec(v: i64) -> (s: String)
    ensures
        s@ == spec_dec_i64(v as int),
{
    if v >= 0 {
        dec_u64(v as u64)
    } else {
        let mag: u64 = if v < -9223372036854775807i64 {
            9223372036854775808u64
        } else {
            (-v) as u64
        };
        assert(mag as nat == (-(v as int)) as nat);
        let mut s = String::from_str("-");
        let digits = dec_u64(mag);
        s.append(digits.as_str());
        proof {
            reveal_strlit("-");
            assert(s@ =~= spec_dec_i64(v as int));
        }
        s
    }
}

/// Character-wise string equality: true exactly when the two views agree.
pub fn str_eq(a: &str, b: &str) -> (r: bool)
    ensures
        r == (a@ == b@),
{
    let an = a.unicode_len();
    let bn = b.unicode_len();
    if an != bn {
        return false;
    }
    let mut i: usize = 0;
    while i < an
        invariant
            i <= an,
            an == a@.len(),
            bn == b@.len(),
            an == bn,
            forall|j: int| 0 <= j < i ==> a@[j] == b@[j],
        decreases an - i,
    {
        if a.get_char(i) != b.get_char(i) {
            return false;
        }
        i = i + 1;
    }
    proof {
        assert(a@ =~= b@);
    }
    true
}

/// Whether `xs` holds a string whose view equals `t`.
pub open spec fn spec_contains_str(xs: Seq<String>, t: Seq<char>) -> bool {
    exists|i: int| 0 <= i < xs.len() && xs[i]@ == t
}

/// Membership test of `t` in a list of strings.
pub fn contains_str(xs: &Vec<String>, t: &str) -> (r: bool)
    ensures
        r == spec_contains_str(xs@, t@),
{
    let mut i: usize = 0;
    while i < xs.len()
        invariant
            i <= xs@.len(),
            forall|j: int| 0 <= j < i ==> xs@[j]@ != t@,
        decreases xs@.len() - i,
    {
        if str_eq(xs[i].as_str(), t) {
            return true;
        }
        i = i + 1;
    }
    false
}

/// Whether `c` may begin an identifier: an ASCII letter or an underscore.
pub open spec fn spec_is_ident_start(c: char) -> bool {
    ||| 97 <= c as u32 && c as u32 <= 122
    ||| 65 <= c as u32 && c as u32 <= 90
    ||| c as u32 == 95
}

/// Whether `c` may continue an identifier: a start character or a digit.
pub open spec fn spec_is_ident_char(c: char) -> bool {
    spec_is_ident_start(c) || (48 <= c as u32 && c as u32 <= 57)
}

/// A valid case identifier: non-empty, starting with a letter or underscore,
/// continuing with letters, digits and underscores only.
pub open spec fn spec_is_valid_ident(s: Seq<char>) -> bool {
    &&& s.len() > 0
    &&& spec_is_ident_start(s[0])
    &&& forall|i: int| 0 <= i < s.len() ==> spec_is_ident_char(#[trigger] s[i])
}

fn is_ident_start(c: char) -> (r: bool)
    ensures
        r == spec_is_ident_start(c),
{
    let u = c as u32;
    (97 <= u && u <= 122) || (65 <= u && u <= 90) || u == 95
}

fn is_ident_char(c: char) -> (r: bool)
    ensures
        r == spec_is_ident_char(c),
{
    let u = c as u32;
    is_ident_start(c) || (48 <= u && u <= 57)
}

/// Tests whether `s` is a valid case identifier.
pub fn is_valid_ident(s: &str) -> (r: bool)
    ensures
        r == spec_is_valid_ident(s@),
{
    let n = s.unicode_len();
    if n == 0 {
        return false;
    }
    if !is_ident_start(s.get_char(0)) {
        return false;
    }
    let mut i: usize = 0;
    while i < n
        invariant
            i <= n,
            n == s@.len(),
            forall|j: int| 0 <= j < i ==> spec_is_ident_char(#[trigger] s@[j]),
        decreases n - i,
    {
        if !is_ident_char(s.get_char(i)) {
            return false;
        }
        i = i + 1;
    }
    true
}

/// Uppercases an ASCII lowercase letter; leaves every other character as it
/// stands.
pub open spec fn spec_upper(c: char) -> char {
    if 97 <= c as u32 && c as u32 <= 122 {
        (((c as u32) - 32) as u8) as char
    } else {
        c
    }
}

fn upper_char(c: char) -> (r: char)
    ensures
        r == spec_upper(c),
{
    let u = c as u32;
    if 97 <= u && u <= 122 {
        ((u - 32) as u8) as char
    } else {
        c
    }
}

/// Upper-camel-case conversion of a lowercase, underscore-separated name:
/// underscores are dropped and the character after each (and the first
/// character) is uppercased. `cap` says whether the next character begins a
/// word.
pub open spec fn spec_camel(s: Seq<char>, cap: bool) -> Seq<char>
    decreases s.len(),
{
    if s.len() == 0 {
        Seq::empty()
    } else if s[0] == '_' {
        spec_camel(s.drop_first(), true)
    } else if cap {
        seq![spec_upper(s[0])] + spec_camel(s.drop_first(), false)
    } else {
        seq![s[0]] + spec_camel(s.drop_first(), false)
    }
}

/// Derives the generated type's identifier from a schema name:
/// `display_measure` becomes `DisplayMeasure`.
pub fn type_ident(name: &str) -> (r: String)
    ensures
        r@ == spec_camel(name@, true),
{
    let n = name.unicode_len();
    let mut out = String::new();
    let mut cap = true;
    let mut i: usize = 0;
    proof {
        assert(name@.skip(0) =~= name@);
    }
    while i < n
        invariant
            i <= n,
            n == name@.len(),
            out@ + spec_camel(name@.skip(i as int), cap) == spec_camel(name@, true),
        decreases n - i,
    {
        let c = name.get_char(i);
        proof {
            assert(name@.skip(i as int)[0] == c);
            assert(name@.skip(i as int).drop_first() =~= name@.skip(i as int + 1));
        }
        if c == '_' {
            cap = true;
        } else if cap {
            push_char(&mut out, upper_char(c));
            cap = false;
        } else {
            push_char(&mut out, c);
            cap = false;
        }
        i = i + 1;
    }
    proof {
        assert(name@.skip(n as int) =~= Seq::<char>::empty());
        assert(out@ + spec_camel(name@.skip(n as int), cap) =~= out@);
    }
    out
}

} // verus!
