//! Random hex ids: the lowercase hex rendering of bytes read from the
//! system's entropy source.
use vstd::prelude::*;

verus! {

/// The lowercase hex digit of `d < 16`.
pub open spec fn hex_digit(d: int) -> char {
    if d < 10 {
        ((d + 48) as u32) as char
    } else {
        ((d + 87) as u32) as char
    }
}

/// The lowercase hex rendering of `bytes`, two chars per byte, high nibble
/// first (as `{:02x}` writes each byte).
pub open spec fn hex_text(bytes: Seq<u8>) -> Seq<char>
    decreases bytes.len(),
{
    if bytes.len() == 0 {
        Seq::empty()
    } else {
        hex_text(bytes.drop_last()) + seq![
            hex_digit((bytes.last() / 16) as int),
            hex_digit((bytes.last() % 16) as int),
        ]
    }
}

fn hex_char(d: u8) -> (c: char)
    requires
        d < 16,
    ensures
        c == hex_digit(d as int),
{
    if d < 10 {
        (d + 48) as char
    } else {
        (d + 87) as char
    }
}

/// Hex-encode `bytes`: lowercase, `2 * bytes.len()` chars.
pub fn hex_encode(bytes: &Vec<u8>) -> (r: String)
    ensures
        r@ == hex_text(bytes@),
{
    let mut out = String::new();
    let mut i: usize = 0;
    assert(bytes@.take(0) =~= Seq::<u8>::empty());
    while i < bytes.len()
        invariant
            i <= bytes.len(),
            out@ == hex_text(bytes@.take(i as int)),
        decreases bytes.len() - i,
    {
        let b = bytes[i];
        out.push(hex_char(b / 16));
        out.push(hex_char(b % 16));
        assert(bytes@.take(i + 1).drop_last() =~= bytes@.take(i as int));
        i = i + 1;
        assert(out@ =~= hex_text(bytes@.take(i as int)));
    }
    assert(bytes@.take(bytes.len() as int) =~= bytes@);
    out
}

/// A hex id has two chars per byte, each a lowercase hex digit.
pub proof fn lemma_hex_text_shape(bytes: Seq<u8>)
    ensures
        hex_text(bytes).len() == 2 * bytes.len(),
        forall|k: int|
            0 <= k < hex_text(bytes).len() ==> ('0' <= #[trigger] hex_text(bytes)[k] <= '9') || (
            'a' <= hex_text(bytes)[k] <= 'f'),
    decreases bytes.len(),
{
    if bytes.len() > 0 {
        lemma_hex_text_shape(bytes.drop_last());
        let prev = hex_text(bytes.drop_last());
        let hi = bytes.last() / 16;
        let lo = bytes.last() % 16;
        assert forall|k: int|
            0 <= k < hex_text(bytes).len() implies ('0' <= #[trigger] hex_text(bytes)[k] <= '9') || (
            'a' <= hex_text(bytes)[k] <= 'f') by {
            if k < prev.len() {
                assert(hex_text(bytes)[k] == prev[k]);
            }
        }
    }
}

} // verus!
