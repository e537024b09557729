//! Account token symbol and its hash-oracle input.

use vstd::prelude::*;
use crate::roinput::{Atom, ChunkedROInput};

verus! {

/// Longest meaningful token symbol, in bytes.
pub const MAX_LENGTH: usize = 6;

/// A token symbol: a 32-byte buffer of which only the first six bytes count.
#[derive(Clone, Debug, Default)]
pub struct TokenSymbol(pub [u8; 32]);

/// The unsigned integer whose little-endian bytes are `s`.
pub open spec fn le_value(s: Seq<u8>) -> nat
    decreases s.len(),
{
    if s.len() == 0 {
        0
    } else {
        s[0] as nat + 256 * le_value(s.subrange(1, s.len() as int))
    }
}

impl TokenSymbol {
    /// Longest meaningful token symbol, in bytes.
    pub fn max_length() -> (r: usize)
        ensures
            r == 6,
    {
        MAX_LENGTH
    }

    /// Bit width with which a token symbol enters the hash.
    pub fn num_bits() -> (r: usize)
        ensures
            r == 48,
    {
        8 * Self::max_length()
    }

    /// The single atom of a symbol: its first six bytes read as a
    /// little-endian integer, packed in 48 bits.
    pub open spec fn encoding(self) -> Seq<Atom> {
        seq![
            Atom::Packed {
                value: le_value(self.0@.subrange(0, MAX_LENGTH as int)) as u64,
                bits: 48,
            },
        ]
    }

    /// Hash-oracle input of the symbol: one packed atom of width 48 that
    /// depends on the first six bytes alone.
    pub fn to_chunked_roinput(&self) -> (r: ChunkedROInput)
        ensures
            r@ == self.encoding(),
    {
        let b = &self.0;
        let value: u64 = b[0] as u64 + 256 * (b[1] as u64 + 256 * (b[2] as u64 + 256 * (
        b[3] as u64 + 256 * (b[4] as u64 + 256 * (b[5] as u64)))));
        proof {
            reveal_with_fuel(le_value, 7);
            let s = self.0@.subrange(0, 6);
            assert(s.subrange(1, 6) =~= self.0@.subrange(1, 6));
            assert(s.subrange(1, 6).subrange(1, 5) =~= self.0@.subrange(2, 6));
            assert(s.subrange(1, 6).subrange(1, 5).subrange(1, 4) =~= self.0@.subrange(3, 6));
            assert(s.subrange(1, 6).subrange(1, 5).subrange(1, 4).subrange(1, 3)
                =~= self.0@.subrange(4, 6));
            assert(s.subrange(1, 6).subrange(1, 5).subrange(1, 4).subrange(1, 3).subrange(1, 2)
                =~= self.0@.subrange(5, 6));
        }
        let bits = Self::num_bits() as u32;
        let r = ChunkedROInput::new().append_packed(value, bits);
        assert(r@ =~= self.encoding());
        r
    }
}

impl From<[u8; 32]> for TokenSymbol {
    fn from(bytes: [u8; 32]) -> (r: TokenSymbol)
        ensures
            r.0 == bytes,
    {
        TokenSymbol(bytes)
    }
}

impl vstd::std_specs::convert::FromSpecImpl<[u8; 32]> for TokenSymbol {
    open spec fn obeys_from_spec() -> bool {
        true
    }

    open spec fn from_spec(bytes: [u8; 32]) -> TokenSymbol {
        TokenSymbol(bytes)
    }
}

impl From<TokenSymbol> for [u8; 32] {
    fn from(symbol: TokenSymbol) -> (r: [u8; 32])
        ensures
            r == symbol.0,
    {
        symbol.0
    }
}

impl vstd::std_specs::convert::FromSpecImpl<TokenSymbol> for [u8; 32] {
    open spec fn obeys_from_spec() -> bool {
        true
    }

    open spec fn from_spec(symbol: TokenSymbol) -> [u8; 32] {
        symbol.0
    }
}

/// Two symbols that agree on their first six bytes encode alike, whatever
/// the bytes after them hold.
pub proof fn lemma_trailing_bytes_ignored(a: TokenSymbol, b: TokenSymbol)
    requires
        a.0@.subrange(0, MAX_LENGTH as int) == b.0@.subrange(0, MAX_LENGTH as int),
    ensures
        a.encoding() == b.encoding(),
{
}

} // verus!
