use vstd::prelude::*;

verus! {

/// The decimal digit for `d` below ten.
pub open spec fn digit_char(d: nat) -> char {
    seq!['0', '1', '2', '3', '4', '5', '6', '7', '8', '9'][d as int]
}

/// The lowercase hexadecimal digit for `d` below sixteen.
pub open spec fn hex_char(d: nat) -> char {
    seq!['0', '1', '2', '3', '4', '5', '6', '7', '8', '9', 'a', 'b', 'c', 'd', 'e', 'f'][d as int]
}

/// `n` written in decimal, without leading zeros.
pub open spec fn nat_text(n: nat) -> Seq<char>
    decreases n,
{
    if n < 10 {
        seq![digit_char(n)]
    } else {
        nat_text(n / 10).push(digit_char(n % 10))
    }
}

/// `n` written in decimal, with a `-` in front when it is negative.
pub open spec fn int_text(n: int) -> Seq<char> {
    if n < 0 {
        seq!['-'] + nat_text((-n) as nat)
    } else {
        nat_text(n as nat)
    }
}

/// Two lowercase hexadecimal digits per byte, the high half first.
pub open spec fn hex_of(b: Seq<u8>) -> Seq<char>
    decreases b.len(),
{
    if b.len() == 0 {
        Seq::empty()
    } else {
        hex_of(b.drop_last()) + seq![hex_char(b.last() as nat / 16), hex_char(b.last() as nat % 16)]
    }
}

pub proof fn lemma_hex_len(b: Seq<u8>)
    ensures
        hex_of(b).len() == 2 * b.len(),
    decreases b.len(),
{
    if b.len() > 0 {
        lemma_hex_len(b.drop_last());
    }
}

/// `c` is one of `0`-`9` or `a`-`f`.
pub open spec fn is_lower_hex(c: char) -> bool {
    ('0' <= c && c <= '9') || ('a' <= c && c <= 'f')
}

pub proof fn lemma_hex_lower(b: Seq<u8>)
    ensures
        forall|i: int| 0 <= i < hex_of(b).len() ==> is_lower_hex(#[trigger] hex_of(b)[i]),
    decreases b.len(),
{
    if b.len() > 0 {
        let t = b.drop_last();
        lemma_hex_lower(t);
        lemma_hex_len(t);
        let hi = b.last() as nat / 16;
        let lo = b.last() as nat % 16;
        let digits = seq!['0', '1', '2', '3', '4', '5', '6', '7', '8', '9', 'a', 'b', 'c', 'd', 'e', 'f'];
        assert forall|k: int| 0 <= k < 16 implies is_lower_hex(#[trigger] digits[k]) by {}
        assert(is_lower_hex(hex_char(hi)));
        assert(is_lower_hex(hex_char(lo)));
        assert forall|i: int| 0 <= i < hex_of(b).len() implies is_lower_hex(#[trigger] hex_of(b)[i]) by {
            if i < hex_of(t).len() {
                assert(hex_of(b)[i] == hex_of(t)[i]);
            }
        }
    }
}

/// Relies on `i32`'s `ToString` (through `Display`): the decimal text of the
/// number, with a leading `-` for a negative one.
#[verifier::external_body]
pub(crate) fn i32_text(n: i32) -> (r: String)
    ensures
        r@ == int_text(n as int),
{
    n.to_string()
}

/// Relies on `hex::encode`: two lowercase digits for each byte, high half first.
#[verifier::external_body]
pub(crate) fn hex_encode(b: &[u8]) -> (r: String)
    ensures
        r@ == hex_of(b@),
{
    hex::encode(b)
}

} // verus!
