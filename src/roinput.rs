//! The hash-oracle input: an ordered sequence of atoms.

use vstd::prelude::*;

verus! {

/// One element of a hash-oracle input.
#[derive(Clone, Copy, Debug, PartialEq, Eq, Structural)]
pub enum Atom {
    /// A full scalar, consumed whole by the hash.
    Chunk(u64),
    /// A scalar committed with an explicit, smaller bit width.
    Packed { value: u64, bits: u32 },
}

/// An ordered builder of hash-oracle input atoms.
///
/// Order matters: two builders are equivalent exactly when they hold the
/// same atoms in the same order.
#[derive(Clone, Debug)]
pub struct ChunkedROInput {
    atoms: Vec<Atom>,
}

impl View for ChunkedROInput {
    type V = Seq<Atom>;

    closed spec fn view(&self) -> Seq<Atom> {
        self.atoms@
    }
}

impl ChunkedROInput {
    /// An input with no atoms.
    pub fn new() -> (r: ChunkedROInput)
        ensures
            r@ == Seq::<Atom>::empty(),
    {
        ChunkedROInput { atoms: Vec::new() }
    }

    /// Appends a full scalar.
    pub fn append_chunk(self, x: u64) -> (r: ChunkedROInput)
        ensures
            r@ == self@.push(Atom::Chunk(x)),
    {
        let mut atoms = self.atoms;
        atoms.push(Atom::Chunk(x));
        ChunkedROInput { atoms }
    }

    /// Appends `value` committed with a width of `bits` bits.
    pub fn append_packed(self, value: u64, bits: u32) -> (r: ChunkedROInput)
        ensures
            r@ == self@.push(Atom::Packed { value, bits }),
    {
        let mut atoms = self.atoms;
        atoms.push(Atom::Packed { value, bits });
        ChunkedROInput { atoms }
    }

    /// Appends every atom of `other`, in order.
    pub fn append_chunked(self, other: ChunkedROInput) -> (r: ChunkedROInput)
        ensures
            r@ == self@ + other@,
    {
        let mut atoms = self.atoms;
        let mut rest = other.atoms;
        atoms.append(&mut rest);
        ChunkedROInput { atoms }
    }

    /// The atoms appended so far, in order.
    pub fn atoms(&self) -> (r: &Vec<Atom>)
        ensures
            r@ == self@,
    {
        &self.atoms
    }
}

} // verus!
