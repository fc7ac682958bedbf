//! The owner's declaration that a store was moved rather than copied.
//!
//! A situation record says where a store was bound, and a store opened
//! anywhere else is refused. When a store is found somewhere other than where
//! it records itself, the store holds nothing that tells a copy from a
//! carried store, so the owner says: a relocation names one store's origin
//! and destination, and is honoured by exactly the move it names.
use vstd::prelude::*;
use crate::situation::carried;
use crate::text::same_text;

verus! {

/// One store's declared move: the address it was bound at, and the address it
/// has been carried to.
#[derive(Clone, Debug, PartialEq, Eq)]
pub struct Relocation {
    pub origin: String,
    pub destination: String,
}

/// Whether a declaration from `origin` to `destination` honours the open of a
/// store that records `recorded_store_path` and was opened at
/// `opened_store_path`: both ends match, and the ends differ.
pub open spec fn relocation_admits(
    origin: Seq<char>,
    destination: Seq<char>,
    recorded_store_path: Seq<char>,
    opened_store_path: Seq<char>,
) -> bool {
    &&& origin != destination
    &&& origin == recorded_store_path
    &&& destination == opened_store_path
}

/// A relocation is declared by naming both ends of the move.
pub trait Relocating: Sized {
    fn declared(origin: String, destination: String) -> Self;
}

impl Relocating for Relocation {
    fn declared(origin: String, destination: String) -> (relocation: Self)
        ensures
            relocation.origin == origin,
            relocation.destination == destination,
    {
        Self { origin, destination }
    }
}

/// A declared relocation names its two addresses, and says whether a
/// particular open is the move it declared.
pub trait Relocated {
    fn origin(&self) -> &str;

    fn destination(&self) -> &str;

    /// Whether this declaration honours the open now being refused: the store
    /// records having been bound at `recorded_store_path` and has been opened
    /// at `opened_store_path`.
    fn admits(&self, recorded_store_path: &str, opened_store_path: &str) -> bool;
}

impl Relocated for Relocation {
    fn origin(&self) -> (origin: &str)
        ensures
            origin@ == self.origin@,
    {
        self.origin.as_str()
    }

    fn destination(&self) -> (destination: &str)
        ensures
            destination@ == self.destination@,
    {
        self.destination.as_str()
    }

    /// Both ends must match, and they must differ from each other.
    ///
    /// Both ends, because a declaration that checked only the destination
    /// would be honoured by any store carried to that path, and one that
    /// checked only the origin would be honoured by every copy of the store
    /// it was written into. Differing from each other, because a store opened
    /// where it records itself is not carried, so a same-address declaration
    /// can only be a forgery aimed at some other open.
    fn admits(&self, recorded_store_path: &str, opened_store_path: &str) -> (admitted: bool)
        ensures
            admitted == relocation_admits(
                self.origin@,
                self.destination@,
                recorded_store_path@,
                opened_store_path@,
            ),
            self.origin@ != self.destination@ ==> (admitted <==> (recorded_store_path@ == self.origin@
                && opened_store_path@ == self.destination@)),
            self.origin@ == self.destination@ ==> !admitted,
    {
        !same_text(self.origin.as_str(), self.destination.as_str()) && same_text(
            self.origin.as_str(),
            recorded_store_path,
        ) && same_text(self.destination.as_str(), opened_store_path)
    }
}

/// A declaration is honoured by one move at most: any two opens it admits
/// record the same origin and were opened at the same destination.
pub proof fn lemma_relocation_admits_one_move(
    relocation: Relocation,
    first_recorded: Seq<char>,
    first_opened: Seq<char>,
    second_recorded: Seq<char>,
    second_opened: Seq<char>,
)
    requires
        relocation_admits(relocation.origin@, relocation.destination@, first_recorded, first_opened),
        relocation_admits(relocation.origin@, relocation.destination@, second_recorded, second_opened),
    ensures
        first_recorded == second_recorded,
        first_opened == second_opened,
{
}

/// No declaration admits an open at the address the store records: a store
/// opened where it records itself was never refused, so there is nothing for
/// a declaration to lift.
pub proof fn lemma_relocation_never_admits_staying_put(relocation: Relocation, path: Seq<char>)
    ensures
        !relocation_admits(relocation.origin@, relocation.destination@, path, path),
{
}

/// A declaration is only ever honoured for an open that the situation record
/// refuses as a copy: whatever it admits is a store opened somewhere other
/// than where its record says it lives.
pub proof fn lemma_relocation_admits_only_carried_stores(
    relocation: Relocation,
    recorded_store_path: Seq<char>,
    opened_store_path: Seq<char>,
)
    requires
        relocation_admits(relocation.origin@, relocation.destination@, recorded_store_path, opened_store_path),
    ensures
        carried(recorded_store_path, opened_store_path),
{
}

/// A declaration honours the move it declares: whenever the two ends differ,
/// an open of the store that records the origin, at the destination, is
/// admitted, whatever the two paths are.
pub proof fn lemma_relocation_admits_the_declared_move(relocation: Relocation)
    requires
        relocation.origin@ != relocation.destination@,
    ensures
        relocation_admits(relocation.origin@, relocation.destination@, relocation.origin@, relocation.destination@),
{
}

/// What a declaration admits, in full: over every pair of paths, exactly the
/// declared move, and nothing at all for a declaration whose ends are equal.
pub proof fn lemma_relocation_admits_exactly_the_declared_move(
    origin: Seq<char>,
    destination: Seq<char>,
    recorded_store_path: Seq<char>,
    opened_store_path: Seq<char>,
)
    ensures
        origin != destination ==> (relocation_admits(origin, destination, recorded_store_path, opened_store_path)
            <==> (recorded_store_path == origin && opened_store_path == destination)),
        origin == destination ==> !relocation_admits(origin, destination, recorded_store_path, opened_store_path),
{
}

} // verus!
