//! SHA-256 digests of uploaded documents and their lower-case hexadecimal form.
use sha2::Digest;
use vstd::prelude::*;

verus! {

/// The SHA-256 digest of `data`, as computed by the `sha2` crate.
pub uninterp spec fn sha256_spec(data: Seq<u8>) -> Seq<u8>;

/// Calls `sha2::Sha256::digest` (the `Digest` trait's one-shot hash) on
/// `data`. Trusted: the result is the named SHA-256 digest of `data`, and it
/// is 32 bytes long (the source fixes `OutputSize = U32` for `Sha256`).
#[verifier::external_body]
fn sha256_digest(data: &[u8]) -> (res: Vec<u8>)
    ensures
        res@ == sha256_spec(data@),
        res@.len() == 32,
{
    sha2::Sha256::digest(data).to_vec()
}

/// The lower-case hexadecimal digit of a value below sixteen.
pub open spec fn hex_char(v: int) -> char {
    if v < 10 {
        (48 + v) as char
    } else {
        (87 + v) as char
    }
}

/// Lower-case hexadecimal encoding: two digits per byte, high nibble first.
pub open spec fn lower_hex(data: Seq<u8>) -> Seq<char>
    decreases data.len(),
{
    if data.len() == 0 {
        Seq::empty()
    } else {
        lower_hex(data.drop_last()) + seq![hex_char((data.last() / 16) as int), hex_char((data.last() % 16) as int)]
    }
}

/// Each byte gives two characters.
pub proof fn lemma_lower_hex_len(data: Seq<u8>)
    ensures
        lower_hex(data).len() == 2 * data.len(),
    decreases data.len(),
{
    if data.len() > 0 {
        lemma_lower_hex_len(data.drop_last());
    }
}

fn hex_digit(v: u8) -> (s: &'static str)
    requires
        v < 16,
    ensures
        s@ == seq![hex_char(v as int)],
{
    match v {
        0 => { proof { reveal_strlit("0"); } "0" },
        1 => { proof { reveal_strlit("1"); } "1" },
        2 => { proof { reveal_strlit("2"); } "2" },
        3 => { proof { reveal_strlit("3"); } "3" },
        4 => { proof { reveal_strlit("4"); } "4" },
        5 => { proof { reveal_strlit("5"); } "5" },
        6 => { proof { reveal_strlit("6"); } "6" },
        7 => { proof { reveal_strlit("7"); } "7" },
        8 => { proof { reveal_strlit("8"); } "8" },
        9 => { proof { reveal_strlit("9"); } "9" },
        10 => { proof { reveal_strlit("a"); } "a" },
        11 => { proof { reveal_strlit("b"); } "b" },
        12 => { proof { reveal_strlit("c"); } "c" },
        13 => { proof { reveal_strlit("d"); } "d" },
        14 => { proof { reveal_strlit("e"); } "e" },
        _ => { proof { reveal_strlit("f"); } "f" },
    }
}

/// Encodes `data` as lower-case hexadecimal text.
pub fn to_lower_hex(data: &[u8]) -> (res: String)
    ensures
        res@ == lower_hex(data@),
{
    let mut res = String::new();
    let n = data.len();
    for i in 0..n
        invariant
            n == data@.len(),
            res@ == lower_hex(data@.take(i as int)),
    {
        let b = data[i];
        res.append(hex_digit(b / 16));
        res.append(hex_digit(b % 16));
        assert(data@.take(i + 1).drop_last() =~= data@.take(i as int));
    }
    assert(data@.take(n as int) =~= data@);
    res
}

/// The SHA-256 digest of `data` in lower-case hexadecimal form, 64 characters.
pub fn sha256_hex(data: &[u8]) -> (res: String)
    ensures
        res@ == lower_hex(sha256_spec(data@)),
        res@.len() == 64,
{
    let digest = sha256_digest(data);
    proof { lemma_lower_hex_len(digest@); }
    to_lower_hex(digest.as_slice())
}

} // verus!
