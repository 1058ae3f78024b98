//! Enumerations that the wire writes as names.

use vstd::prelude::*;

verus! {

/// An enumeration whose values the wire gives by name. Each value has one
/// name that it is written under, and may be read under others.
pub trait Enumerated: Sized + Copy {
    /// The value that `name` stands for, if any.
    spec fn named(name: Seq<char>) -> Option<Self>;

    /// The name that the value is written under.
    spec fn name_of(self) -> Seq<char>;

    /// Reads a value from its name.
    fn parse(name: &str) -> (r: Option<Self>)
        ensures
            r == Self::named(name@),
    ;

    /// The name that the value is written under.
    fn wire_name(self) -> (r: &'static str)
        ensures
            r@ == self.name_of(),
    ;

    /// A value is read back from the name it is written under.
    proof fn lemma_name_round_trip(self)
        ensures
            Self::named(self.name_of()) == Some(self),
    ;
}

} // verus!
