//! Text building blocks: decimal rendering of integers and small trusted
//! wrappers around `std`'s string operations.

use vstd::prelude::*;
use vstd::string::StringExecFns;

verus! {

/// One decimal digit as its character.
pub open spec fn digit_char(d: int) -> char {
    if d == 0 {
        '0'
    } else if d == 1 {
        '1'
    } else if d == 2 {
        '2'
    } else if d == 3 {
        '3'
    } else if d == 4 {
        '4'
    } else if d == 5 {
        '5'
    } else if d == 6 {
        '6'
    } else if d == 7 {
        '7'
    } else if d == 8 {
        '8'
    } else {
        '9'
    }
}

/// The decimal digits of a non-negative integer, most significant first.
pub open spec fn dec_digits(n: nat) -> Seq<char>
    decreases n,
{
    if n < 10 {
        seq![digit_char(n as int)]
    } else {
        dec_digits(n / 10) + seq![digit_char((n % 10) as int)]
    }
}

/// The canonical decimal text of an integer: a minus sign for negative
/// numbers, then the digits without leading zeroes.
pub open spec fn dec_int(n: int) -> Seq<char> {
    if n < 0 {
        seq!['-'] + dec_digits((-n) as nat)
    } else {
        dec_digits(n as nat)
    }
}

/// Relies on `String::push`: appends the given character to the end.
#[verifier::external_body]
pub fn push_char(s: &mut String, c: char)
    ensures
        final(s)@ == old(s)@ + seq![c],
{
    s.push(c);
}

/// The lower-case form that `str::to_lowercase` produces for a text.
pub uninterp spec fn lower_of(s: Seq<char>) -> Seq<char>;

/// Relies on `str::to_lowercase`: the result depends on the characters alone.
#[verifier::external_body]
pub fn lowercase(s: &str) -> (r: String)
    ensures
        r@ == lower_of(s@),
{
    s.to_lowercase()
}

fn digit_to_char(d: u8) -> (c: char)
    requires
        d < 10,
    ensures
        c == digit_char(d as int),
{
    match d {
        0 => '0',
        1 => '1',
        2 => '2',
        3 => '3',
        4 => '4',
        5 => '5',
        6 => '6',
        7 => '7',
        8 => '8',
        _ => '9',
    }
}

/// What remains to be emitted for a partly consumed magnitude: nothing once
/// it reaches zero, its digits otherwise.
spec fn pending_digits(m: nat) -> Seq<char> {
    if m == 0 {
        Seq::empty()
    } else {
        dec_digits(m)
    }
}

proof fn lemma_dec_digits_step(m: nat)
    requires
        m > 0,
    ensures
        dec_digits(m) =~= pending_digits(m / 10) + seq![digit_char((m % 10) as int)],
{
    if m < 10 {
        assert(m / 10 == 0);
        assert(m % 10 == m);
    }
}

/// The decimal text of a non-negative machine integer.
pub fn u128_text(m: u128) -> (r: String)
    ensures
        r@ == dec_digits(m as nat),
{
    if m == 0 {
        let mut r = String::new();
        push_char(&mut r, '0');
        proof {
            assert(r@ =~= dec_digits(0));
        }
        return r;
    }
    let ghost m0: nat = m as nat;
    let mut rest: u128 = m;
    let mut rev: Vec<char> = Vec::new();
    loop
        invariant
            pending_digits(rest as nat) + rev@.reverse() =~= dec_digits(m0),
        ensures
            rest == 0,
        decreases rest, (if rev@.len() == 0 { 1int } else { 0int }),
    {
        if rest == 0 && rev.len() > 0 {
            break;
        }
        proof {
            lemma_dec_digits_step(rest as nat);
        }
        let d: u8 = (rest % 10) as u8;
        let c = digit_to_char(d);
        rev.push(c);
        proof {
            assert(rev@.reverse() =~= seq![c] + rev@.drop_last().reverse());
        }
        rest = rest / 10;
    }
    proof {
        assert(rev@.reverse() =~= Seq::empty() + rev@.reverse());
    }
    let mut r = String::new();
    let n = rev.len();
    let mut i: usize = 0;
    while i < n
        invariant
            n == rev@.len(),
            i <= n,
            rev@.reverse() =~= dec_digits(m0),
            r@ =~= rev@.reverse().subrange(0, i as int),
        decreases n - i,
    {
        let c = rev[n - 1 - i];
        push_char(&mut r, c);
        proof {
            assert(rev@.reverse()[i as int] == rev@[n - 1 - i]);
            assert(rev@.reverse().subrange(0, i + 1) =~= rev@.reverse().subrange(0, i as int)
                + seq![rev@.reverse()[i as int]]);
        }
        i = i + 1;
    }
    proof {
        assert(r@ =~= dec_digits(m0));
    }
    r
}

/// The decimal text of a signed machine integer.
pub fn isize_text(n: isize) -> (r: String)
    ensures
        r@ == dec_int(n as int),
{
    if n < 0 {
        let wide: i128 = n as i128;
        let mag: u128 = (-wide) as u128;
        let digits = u128_text(mag);
        let mut r = String::new();
        push_char(&mut r, '-');
        r.append(digits.as_str());
        proof {
            assert(r@ =~= dec_int(n as int));
        }
        r
    } else {
        let mag: u128 = n as u128;
        u128_text(mag)
    }
}

/// The decimal text of an index.
pub fn usize_text(n: usize) -> (r: String)
    ensures
        r@ == dec_int(n as int),
{
    u128_text(n as u128)
}

} // verus!
