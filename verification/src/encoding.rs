//! Textual renderings used inside wire names: lowercase hexadecimal for the
//! genesis hash and decimal for protocol versions.

use vstd::prelude::*;
use vstd::string::StringExecFns;

verus! {

/// The character standing for one hexadecimal digit value.
pub open spec fn hex_digit_char(d: nat) -> char {
    if d == 0 {
        '0'
    } else if d == 1 {
        '1'
    } else if d == 2 {
        '2'
    } else if d == 3 {
        '3'
    } else if d == 4 {
        '4'
    } else if d == 5 {
        '5'
    } else if d == 6 {
        '6'
    } else if d == 7 {
        '7'
    } else if d == 8 {
        '8'
    } else if d == 9 {
        '9'
    } else if d == 10 {
        'a'
    } else if d == 11 {
        'b'
    } else if d == 12 {
        'c'
    } else if d == 13 {
        'd'
    } else if d == 14 {
        'e'
    } else {
        'f'
    }
}

/// Lowercase hexadecimal rendering of a byte sequence: two digits per byte,
/// high nibble first, no prefix.
pub open spec fn hex_of(bytes: Seq<u8>) -> Seq<char>
    decreases bytes.len(),
{
    if bytes.len() == 0 {
        Seq::empty()
    } else {
        seq![
            hex_digit_char(bytes.first() as nat / 16),
            hex_digit_char(bytes.first() as nat % 16),
        ] + hex_of(bytes.drop_first())
    }
}

pub(crate) proof fn lemma_hex_of_len(bytes: Seq<u8>)
    ensures
        hex_of(bytes).len() == 2 * bytes.len(),
    decreases bytes.len(),
{
    if bytes.len() > 0 {
        lemma_hex_of_len(bytes.drop_first());
    }
}

/// Equal sequences stay equal when a shared suffix is cut off.
pub(crate) proof fn lemma_append_cancel_right<T>(a: Seq<T>, b: Seq<T>, s: Seq<T>)
    requires
        a + s == b + s,
    ensures
        a == b,
{
    assert((a + s).len() == a.len() + s.len());
    assert((b + s).len() == b.len() + s.len());
    assert(a.len() == b.len());
    assert forall|i: int| 0 <= i < a.len() implies a[i] == b[i] by {
        assert((a + s)[i] == a[i]);
        assert((b + s)[i] == b[i]);
    }
    assert(a =~= b);
}

/// Equal sequences stay equal when a shared prefix is cut off.
pub(crate) proof fn lemma_append_cancel_left<T>(p: Seq<T>, a: Seq<T>, b: Seq<T>)
    requires
        p + a == p + b,
    ensures
        a == b,
{
    assert((p + a).len() == p.len() + a.len());
    assert((p + b).len() == p.len() + b.len());
    assert(a.len() == b.len());
    assert forall|i: int| 0 <= i < a.len() implies a[i] == b[i] by {
        assert((p + a)[p.len() + i] == a[i]);
        assert((p + b)[p.len() + i] == b[i]);
    }
    assert(a =~= b);
}

proof fn lemma_hex_digit_char_injective(x: nat, y: nat)
    requires
        x < 16,
        y < 16,
        hex_digit_char(x) == hex_digit_char(y),
    ensures
        x == y,
{
}

/// Byte sequences of equal length with the same hexadecimal rendering are
/// equal: the rendering loses nothing.
pub(crate) proof fn lemma_hex_of_injective(a: Seq<u8>, b: Seq<u8>)
    requires
        a.len() == b.len(),
        hex_of(a) == hex_of(b),
    ensures
        a == b,
    decreases a.len(),
{
    if a.len() == 0 {
        assert(a =~= b);
    } else {
        let xa = a.first() as nat;
        let xb = b.first() as nat;
        let pair_a = seq![hex_digit_char(xa / 16), hex_digit_char(xa % 16)];
        let pair_b = seq![hex_digit_char(xb / 16), hex_digit_char(xb % 16)];
        assert(hex_of(a)[0] == hex_digit_char(xa / 16));
        assert(hex_of(a)[1] == hex_digit_char(xa % 16));
        assert(hex_of(b)[0] == hex_digit_char(xb / 16));
        assert(hex_of(b)[1] == hex_digit_char(xb % 16));
        lemma_hex_digit_char_injective(xa / 16, xb / 16);
        lemma_hex_digit_char_injective(xa % 16, xb % 16);
        assert(xa == 16 * (xa / 16) + xa % 16);
        assert(xb == 16 * (xb / 16) + xb % 16);
        assert(a.first() == b.first());
        assert(pair_a =~= pair_b);
        lemma_append_cancel_left(pair_a, hex_of(a.drop_first()), hex_of(b.drop_first()));
        lemma_hex_of_injective(a.drop_first(), b.drop_first());
        assert forall|i: int| 0 <= i < a.len() implies a[i] == b[i] by {
            if i > 0 {
                assert(a[i] == a.drop_first()[i - 1]);
                assert(b[i] == b.drop_first()[i - 1]);
            }
        }
        assert(a =~= b);
    }
}

proof fn lemma_dec_digit_char_injective(x: nat, y: nat)
    requires
        x < 10,
        y < 10,
        dec_digit_char(x) == dec_digit_char(y),
    ensures
        x == y,
{
}

proof fn lemma_dec_of_len_pos(v: nat)
    ensures
        dec_of(v).len() >= 1,
{
}

/// Natural numbers with the same decimal rendering are equal: the rendering
/// has no leading zeros, so it loses nothing.
pub(crate) proof fn lemma_dec_of_injective(a: nat, b: nat)
    requires
        dec_of(a) == dec_of(b),
    ensures
        a == b,
    decreases a,
{
    if a < 10 && b < 10 {
        assert(dec_of(a)[0] == dec_digit_char(a));
        assert(dec_of(b)[0] == dec_digit_char(b));
        lemma_dec_digit_char_injective(a, b);
    } else if a < 10 {
        lemma_dec_of_len_pos(b / 10);
        assert(dec_of(b).len() >= 2);
        assert(dec_of(a).len() == 1);
    } else if b < 10 {
        lemma_dec_of_len_pos(a / 10);
        assert(dec_of(a).len() >= 2);
        assert(dec_of(b).len() == 1);
    } else {
        let la = dec_of(a).len() as int;
        assert(dec_of(a)[la - 1] == dec_digit_char(a % 10));
        assert(dec_of(b)[la - 1] == dec_digit_char(b % 10));
        lemma_dec_digit_char_injective(a % 10, b % 10);
        assert(seq![dec_digit_char(a % 10)] =~= seq![dec_digit_char(b % 10)]);
        lemma_append_cancel_right(
            dec_of(a / 10),
            dec_of(b / 10),
            seq![dec_digit_char(a % 10)],
        );
        lemma_dec_of_injective(a / 10, b / 10);
        assert(a == 10 * (a / 10) + a % 10);
        assert(b == 10 * (b / 10) + b % 10);
    }
}

/// Relies on hex::encode: encodes bytes as a lowercase hexadecimal string,
/// two digits per byte, high nibble first.
#[verifier::external_body]
pub(crate) fn hex_encode(bytes: &[u8; 32]) -> (r: String)
    ensures
        r@ == hex_of(bytes@),
{
    hex::encode(bytes)
}

/// The character standing for one decimal digit value.
pub open spec fn dec_digit_char(d: nat) -> char {
    if d == 0 {
        '0'
    } else if d == 1 {
        '1'
    } else if d == 2 {
        '2'
    } else if d == 3 {
        '3'
    } else if d == 4 {
        '4'
    } else if d == 5 {
        '5'
    } else if d == 6 {
        '6'
    } else if d == 7 {
        '7'
    } else if d == 8 {
        '8'
    } else {
        '9'
    }
}

/// Decimal rendering of a natural number: most significant digit first and no
/// leading zeros (zero itself is a single digit).
pub open spec fn dec_of(v: nat) -> Seq<char>
    decreases v,
{
    if v < 10 {
        seq![dec_digit_char(v)]
    } else {
        dec_of(v / 10) + seq![dec_digit_char(v % 10)]
    }
}

fn dec_digit_str(d: u32) -> (r: &'static str)
    requires
        d < 10,
    ensures
        r@ == seq![dec_digit_char(d as nat)],
{
    let r = match d {
        0 => "0",
        1 => "1",
        2 => "2",
        3 => "3",
        4 => "4",
        5 => "5",
        6 => "6",
        7 => "7",
        8 => "8",
        _ => "9",
    };
    proof {
        reveal_strlit("0");
        reveal_strlit("1");
        reveal_strlit("2");
        reveal_strlit("3");
        reveal_strlit("4");
        reveal_strlit("5");
        reveal_strlit("6");
        reveal_strlit("7");
        reveal_strlit("8");
        reveal_strlit("9");
        assert(r@ =~= seq![dec_digit_char(d as nat)]);
    }
    r
}

pub(crate) fn dec_string(v: u32) -> (r: String)
    ensures
        r@ == dec_of(v as nat),
    decreases v,
{
    if v < 10 {
        dec_digit_str(v).to_owned()
    } else {
        let mut r = dec_string(v / 10);
        r.append(dec_digit_str(v % 10));
        proof {
            assert(r@ =~= dec_of(v as nat));
        }
        r
    }
}

} // verus!
