//! The work unit abstraction: a system reports which resources it reads and
//! writes, and runs once per tick on exactly those resources.

use vstd::prelude::*;

verus! {

/// shred's scheduling hint; carried through unchanged.
#[verifier::external_type_specification]
pub struct ExRunningTime(shred::RunningTime);

/// shred's key of a resource in the store.
#[verifier::external_type_specification]
#[verifier::external_body]
pub struct ExResourceId(shred::ResourceId);

/// A unit of work that the dispatcher runs once per tick.
///
/// The declared read and write sets do not change over the system's life, so a
/// scheduler can find conflicts between systems without running any of them.
/// The spec functions have defaults so that an impl outside the verifier needs
/// only the executable methods; verified code then knows nothing of its runs
/// and takes it to declare no resource.
pub trait System: Sized {
    /// What the system is handed when it runs: the resources it declared.
    type SystemData;

    /// The resources the system reads.
    open spec fn read_set(&self) -> Seq<shred::ResourceId> {
        Seq::empty()
    }

    /// The resources the system writes.
    open spec fn write_set(&self) -> Seq<shred::ResourceId> {
        Seq::empty()
    }

    /// One run of the system: its own state and its resources before and after.
    open spec fn runs(
        pre: Self,
        data: Self::SystemData,
        post: Self,
        data_post: Self::SystemData,
    ) -> bool {
        true
    }

    /// The cost hint that `running_time` reports.
    open spec fn cost(&self) -> shred::RunningTime {
        shred::RunningTime::Average
    }

    fn reads(&self) -> (r: Vec<shred::ResourceId>)
        ensures
            r@ == self.read_set(),
    ;

    fn writes(&self) -> (r: Vec<shred::ResourceId>)
        ensures
            r@ == self.write_set(),
    ;

    fn run(&mut self, data: &mut Self::SystemData)
        ensures
            Self::runs(*old(self), *old(data), *final(self), *final(data)),
            final(self).read_set() == old(self).read_set(),
            final(self).write_set() == old(self).write_set(),
    ;

    fn running_time(&self) -> (r: shred::RunningTime)
        ensures
            r == self.cost(),
    ;
}

} // verus!
