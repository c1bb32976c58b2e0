//! The closed set of alert sources.

use vstd::prelude::*;

verus! {

/// The largest number of distinct alert sources that the crate's fixed-capacity
/// collections hold.
pub const MAX_NUM_ALERT_SOURCES: usize = 64;

/// An identifier of the hazard function that raised an alert.
///
/// The sources form a finite set that is fixed when the program is built. Each source has
/// an ordinal of its own below [`MAX_NUM_ALERT_SOURCES`], by which the collections of this
/// crate tell the sources apart.
pub trait TawsAlertSource: Copy {
    /// The ordinal of the source.
    spec fn spec_ordinal(self) -> usize;

    /// No two sources have the same ordinal.
    proof fn lemma_ordinal_injective(a: Self, b: Self)
        requires
            a.spec_ordinal() == b.spec_ordinal(),
        ensures
            a == b,
    ;

    /// The ordinal of the source.
    fn ordinal(&self) -> (r: usize)
        ensures
            r == self.spec_ordinal(),
            r < MAX_NUM_ALERT_SOURCES,
    ;

    /// A source with the given ordinal, or `None` if no source has it.
    fn from_ordinal(ordinal: usize) -> (r: Option<Self>)
        ensures
            match r {
                Some(source) => source.spec_ordinal() == ordinal,
                None => forall|source: Self| source.spec_ordinal() != ordinal,
            },
    ;
}

} // verus!
