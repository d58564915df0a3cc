use vstd::prelude::*;

verus! {

/// A 256-bit digest, used as the identifier of a chunk and of a peer.
#[derive(Debug, Clone, Copy, PartialEq, Eq, Structural, Hash, PartialOrd, Ord)]
pub struct H256 {
    pub high: u128,
    pub low: u128,
}

/// The hexadecimal digit of a number below 16, in ASCII and lower case.
pub open spec fn hex_digit(nibble: int) -> u8 {
    if nibble < 10 {
        (48 + nibble) as u8
    } else {
        (87 + nibble) as u8
    }
}

/// The last `len` hexadecimal digits of a number, the least significant first.
pub open spec fn hex_digits(value: int, len: nat) -> Seq<u8>
    decreases len,
{
    if len == 0 {
        Seq::empty()
    } else {
        seq![hex_digit(value % 16)] + hex_digits(value / 16, (len - 1) as nat)
    }
}

/// The 32 hexadecimal digits of a word, the most significant first.
pub open spec fn hex_word(word: u128) -> Seq<u8> {
    hex_digits(word as int, 32).reverse()
}

fn push_hex(word: u128, hex: &mut Vec<u8>)
    ensures
        final(hex)@ == old(hex)@ + hex_word(word),
{
    let mut digits: Vec<u8> = Vec::new();
    let mut rest = word;
    while digits.len() < 32
        invariant
            digits.len() <= 32,
            digits@ + hex_digits(rest as int, (32 - digits.len()) as nat) == hex_digits(
                word as int,
                32,
            ),
        decreases 32 - digits.len(),
    {
        let nibble = (rest % 16) as u8;
        let digit = if nibble < 10 {
            48 + nibble
        } else {
            87 + nibble
        };
        let ghost before = digits@;
        digits.push(digit);
        assert(digits@ + hex_digits((rest / 16) as int, (32 - digits.len()) as nat) =~= before
            + hex_digits(rest as int, (32 - before.len()) as nat));
        rest = rest / 16;
    }
    assert(digits@ =~= hex_digits(word as int, 32));
    let mut i: usize = 32;
    while i > 0
        invariant
            i <= 32,
            digits.len() == 32,
            digits@ == hex_digits(word as int, 32),
            hex@ == old(hex)@ + hex_word(word).take(32 - i),
        decreases i,
    {
        i -= 1;
        let ghost before = hex@;
        hex.push(digits[i]);
        assert(hex@ =~= old(hex)@ + hex_word(word).take(32 - i));
    }
    assert(hex_word(word).take(32) =~= hex_word(word));
}

impl H256 {
    /// The digest made of the two halves.
    pub fn new(high: u128, low: u128) -> (digest: Self)
        ensures
            digest == (H256 { high, low }),
    {
        H256 { high, low }
    }

    /// The digest in hexadecimal: 64 digits, the most significant first.
    pub open spec fn hex_view(self) -> Seq<u8> {
        hex_word(self.high) + hex_word(self.low)
    }

    /// The digest in hexadecimal, in ASCII and lower case: the name of the directory that
    /// holds the fragments of a chunk.
    pub fn hex(&self) -> (hex: Vec<u8>)
        ensures
            hex@ == self.hex_view(),
            hex@.len() == 64,
    {
        let mut hex: Vec<u8> = Vec::new();
        push_hex(self.high, &mut hex);
        push_hex(self.low, &mut hex);
        proof {
            lemma_hex_digits_len(self.high as int, 32);
            lemma_hex_digits_len(self.low as int, 32);
        }
        hex
    }
}

proof fn lemma_hex_digits_len(value: int, len: nat)
    ensures
        hex_digits(value, len).len() == len,
    decreases len,
{
    if len > 0 {
        lemma_hex_digits_len(value / 16, (len - 1) as nat);
    }
}

/// A peer's public key, known to the protocol by its digest: a peer's identifier is the digest
/// of its key.
#[derive(Debug, Clone, Copy, PartialEq, Eq, Structural, Hash)]
pub struct PublicKey {
    pub digest: H256,
}

impl PublicKey {
    /// The digest of the key, which identifies the peer that owns it.
    pub fn sha256(&self) -> (digest: H256)
        ensures
            digest == self.digest,
    {
        self.digest
    }
}

} // verus!
