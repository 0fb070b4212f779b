//! Display-server authentication tokens: a 128-bit random value,
//! rendered as a fixed-width lowercase hexadecimal string.

use vstd::prelude::*;
use rand::Rng;

verus! {

/// The lowercase hexadecimal digit for `d`.
pub open spec fn spec_hex_char(d: int) -> char
    recommends
        0 <= d < 16,
{
    if d == 0 {
        '0'
    } else if d == 1 {
        '1'
    } else if d == 2 {
        '2'
    } else if d == 3 {
        '3'
    } else if d == 4 {
        '4'
    } else if d == 5 {
        '5'
    } else if d == 6 {
        '6'
    } else if d == 7 {
        '7'
    } else if d == 8 {
        '8'
    } else if d == 9 {
        '9'
    } else if d == 10 {
        'a'
    } else if d == 11 {
        'b'
    } else if d == 12 {
        'c'
    } else if d == 13 {
        'd'
    } else if d == 14 {
        'e'
    } else {
        'f'
    }
}

/// Whether `c` is a lowercase hexadecimal digit.
pub open spec fn is_lower_hex_digit(c: char) -> bool {
    ('0' <= c && c <= '9') || ('a' <= c && c <= 'f')
}

/// The `n` lowest hexadecimal digits of `v`, most significant first.
pub open spec fn spec_hex_repr(v: int, n: nat) -> Seq<char>
    decreases n,
{
    if n == 0 {
        Seq::empty()
    } else {
        spec_hex_repr(v / 16, (n - 1) as nat) + seq![spec_hex_char(v % 16)]
    }
}

/// A rendered value is `n` characters long and every character is a
/// lowercase hexadecimal digit.
pub proof fn lemma_hex_repr_is_lower_hex(v: int, n: nat)
    requires
        v >= 0,
    ensures
        spec_hex_repr(v, n).len() == n,
        forall|i: int| 0 <= i < n ==> is_lower_hex_digit(#[trigger] spec_hex_repr(v, n)[i]),
    decreases n,
{
    if n > 0 {
        lemma_hex_repr_is_lower_hex(v / 16, (n - 1) as nat);
    }
}

/// The string slice holding exactly the lowercase hexadecimal digit
/// for `d`.
fn hex_digit_str(d: u8) -> (r: &'static str)
    requires
        d < 16,
    ensures
        r@ =~= seq![spec_hex_char(d as int)],
{
    proof {
        reveal_strlit("0");
        reveal_strlit("1");
        reveal_strlit("2");
        reveal_strlit("3");
        reveal_strlit("4");
        reveal_strlit("5");
        reveal_strlit("6");
        reveal_strlit("7");
        reveal_strlit("8");
        reveal_strlit("9");
        reveal_strlit("a");
        reveal_strlit("b");
        reveal_strlit("c");
        reveal_strlit("d");
        reveal_strlit("e");
        reveal_strlit("f");
    }
    match d {
        0 => "0",
        1 => "1",
        2 => "2",
        3 => "3",
        4 => "4",
        5 => "5",
        6 => "6",
        7 => "7",
        8 => "8",
        9 => "9",
        10 => "a",
        11 => "b",
        12 => "c",
        13 => "d",
        14 => "e",
        _ => "f",
    }
}

/// Append the `n`-digit rendering of `v`, most significant digit
/// first.
fn push_hex(out: &mut String, v: u128, n: u32)
    ensures
        final(out)@ == old(out)@ + spec_hex_repr(v as int, n as nat),
    decreases n,
{
    if n == 0 {
        proof {
            assert(old(out)@ + spec_hex_repr(v as int, 0) =~= old(out)@);
        }
    } else {
        push_hex(out, v / 16, n - 1);
        let d: u8 = (v % 16) as u8;
        out.append(hex_digit_str(d));
        proof {
            assert(final(out)@ =~= old(out)@ + spec_hex_repr(v as int, n as nat));
        }
    }
}

/// Render `value` as exactly 32 hexadecimal digits, lowercase, most
/// significant first, zero-padded on the left.
pub fn format_token(value: u128) -> (r: String)
    ensures
        r@ == spec_hex_repr(value as int, 32),
{
    let mut out = String::new();
    push_hex(&mut out, value, 32);
    proof {
        assert(out@ =~= spec_hex_repr(value as int, 32));
    }
    out
}

/// Relies on `rand::Rng::gen` on the rng of `rand::thread_rng`: a
/// random value, of which nothing is promised.
#[verifier::external_body]
fn random_u128() -> u128 {
    rand::thread_rng().gen()
}

/// Generate an authentication token for the display-server
/// bootstrap: a fresh 128-bit random value rendered as exactly 32
/// lowercase hexadecimal characters, whatever the random value was.
pub fn mcookie() -> (r: String)
    ensures
        r@.len() == 32,
        forall|i: int| 0 <= i < r@.len() ==> is_lower_hex_digit(r@[i]),
{
    let cookie: u128 = random_u128();
    let r = format_token(cookie);
    proof {
        lemma_hex_repr_is_lower_hex(cookie as int, 32);
    }
    r
}

} // verus!
