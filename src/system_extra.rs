//! Making a system pausable by tying it to a value of a control resource.

use crate::system::System;
use vstd::std_specs::cmp::PartialEqSpec;
use vstd::prelude::*;

verus! {

/// Whether a wrapper guarded by `guard` lets its system run while the control
/// resource holds `current`: the two compare equal under `V`'s `==`.
pub open spec fn gate_open<V: PartialEq>(guard: V, current: V) -> bool {
    guard.eq_spec(&current)
}

/// Whether a system guarded by `guard` runs while the control resource holds
/// `current`.
pub fn guard_matches<V: PartialEq>(guard: &V, current: &V) -> (r: bool)
    ensures
        V::obeys_eq_spec() ==> r == gate_open(*guard, *current),
{
    guard.eq(current)
}

/// Relies on the `Clone` that shred derives for `ResourceId`: it copies both
/// fields, so the clone equals the original.
pub assume_specification[ <shred::ResourceId as Clone>::clone ](id: &shred::ResourceId)
    -> (r: shred::ResourceId)
    ensures
        r == *id,
;

/// Relies on shred's `ResourceId::new`: the key under which the store keeps
/// the resource of type `V`.
#[verifier::external_body]
fn resource_id_of<V: Send + Sync + 'static>() -> shred::ResourceId {
    shred::ResourceId::new::<V>()
}

/// Extra functionality associated with systems.
pub trait SystemExtra: Sized {
    /// Makes a system pausable by tying it to a specific value of a resource:
    /// the wrapper runs the system on a tick only while the resource of type
    /// `V` equals `value`.
    fn pausable<V>(self, value: V) -> (r: Pausable<Self, V>)
        where V: Send + Sync + Default + Eq + 'static
        ensures
            r.inner() == self,
            r.guard() == value,
    ;
}

impl<S: System> SystemExtra for S {
    fn pausable<V>(self, value: V) -> (r: Pausable<Self, V>)
        where V: Send + Sync + Default + Eq + 'static
    {
        let control = resource_id_of::<V>();
        Pausable { system: self, value, control }
    }
}

/// A system that is enabled when the resource of type `V` has a specific value.
pub struct Pausable<S, V> {
    system: S,
    value: V,
    control: shred::ResourceId,
}

impl<S, V> Pausable<S, V> {
    /// The wrapped system.
    pub closed spec fn inner(self) -> S {
        self.system
    }

    /// The value the control resource must hold for the system to run.
    pub closed spec fn guard(self) -> V {
        self.value
    }

    /// The key of the control resource, taken from shred when the wrapper
    /// was made.
    pub closed spec fn control(self) -> shred::ResourceId {
        self.control
    }

    /// Takes the wrapper apart into its system and its guard.
    pub fn into_parts(self) -> (r: (S, V))
        ensures
            r.0 == self.inner(),
            r.1 == self.guard(),
    {
        (self.system, self.value)
    }
}

impl<S, V> System for Pausable<S, V> where
    S: System,
    V: Send + Sync + Default + Eq + 'static,
 {
    type SystemData = (V, S::SystemData);

    open spec fn read_set(&self) -> Seq<shred::ResourceId> {
        seq![self.control()] + self.inner().read_set()
    }

    open spec fn write_set(&self) -> Seq<shred::ResourceId> {
        self.inner().write_set()
    }

    open spec fn runs(
        pre: Self,
        data: Self::SystemData,
        post: Self,
        data_post: Self::SystemData,
    ) -> bool {
        let forwarded = S::runs(pre.inner(), data.1, post.inner(), data_post.1);
        let skipped = post.inner() == pre.inner() && data_post.1 == data.1;
        &&& post.guard() == pre.guard()
        &&& post.control() == pre.control()
        &&& data_post.0 == data.0
        &&& V::obeys_eq_spec() ==> if gate_open(pre.guard(), data.0) {
            forwarded
        } else {
            skipped
        }
        &&& forwarded || skipped
    }

    open spec fn cost(&self) -> shred::RunningTime {
        self.inner().cost()
    }

    fn reads(&self) -> (r: Vec<shred::ResourceId>) {
        let mut r: Vec<shred::ResourceId> = Vec::new();
        r.push(self.control.clone());
        let mut rest = self.system.reads();
        r.append(&mut rest);
        r
    }

    fn writes(&self) -> (r: Vec<shred::ResourceId>) {
        self.system.writes()
    }

    fn run(&mut self, data: &mut Self::SystemData) {
        if !guard_matches(&self.value, &data.0) {
            return;
        }
        self.system.run(&mut data.1);
    }

    fn running_time(&self) -> (r: shred::RunningTime) {
        self.system.running_time()
    }
}

/// Whether every run of `S` leaves the resources it was handed as they were.
pub open spec fn leaves_data_unchanged<S: System>() -> bool {
    forall|a: S, x: S::SystemData, b: S, y: S::SystemData| #[trigger] S::runs(a, x, b, y) ==> y == x
}

/// A pausable system declares what its system declares plus a read of the
/// control resource: the reads are the control resource followed by the
/// system's reads, so as a set they are the system's reads with the control
/// resource added; the writes are the system's writes, unchanged, so every
/// write the system declares stays declared while it is paused.
pub proof fn lemma_declared_access<S, V>(p: Pausable<S, V>)
    where S: System, V: Send + Sync + Default + Eq + 'static
    ensures
        p.read_set() == seq![p.control()] + p.inner().read_set(),
        p.read_set().to_set() == p.inner().read_set().to_set().insert(p.control()),
        p.write_set() == p.inner().write_set(),
        forall|r: shred::ResourceId| #[trigger] p.inner().write_set().contains(r)
            ==> p.write_set().contains(r),
{
    let id = p.control();
    let inner = p.inner().read_set();
    let reads = p.read_set();
    assert forall|r: shred::ResourceId| reads.contains(r) <==> inner.contains(r) || r == id by {
        if reads.contains(r) {
            let i = choose|i: int| 0 <= i < reads.len() && reads[i] == r;
            if i > 0 {
                assert(inner[i - 1] == r);
            }
        }
        if inner.contains(r) {
            let j = choose|j: int| 0 <= j < inner.len() && inner[j] == r;
            assert(reads[j + 1] == r);
        }
        if r == id {
            assert(reads[0] == r);
        }
    }
    assert(reads.to_set() =~= inner.to_set().insert(id));
}

/// On each tick a pausable system runs its system exactly once when the
/// control resource equals the guard, and otherwise leaves the system and its
/// resources untouched; the guard and the control resource never change.
pub proof fn lemma_run_follows_guard<S, V>(
    pre: Pausable<S, V>,
    data: (V, S::SystemData),
    post: Pausable<S, V>,
    data_post: (V, S::SystemData),
)
    where S: System, V: Send + Sync + Default + Eq + 'static
    requires
        V::obeys_eq_spec(),
        Pausable::<S, V>::runs(pre, data, post, data_post),
    ensures
        gate_open(pre.guard(), data.0) ==> S::runs(pre.inner(), data.1, post.inner(), data_post.1),
        !gate_open(pre.guard(), data.0) ==> post.inner() == pre.inner() && data_post.1 == data.1,
        post.guard() == pre.guard(),
        data_post.0 == data.0,
{
}

/// Running a pausable system twice with the control resource unchanged, over a
/// system that changes no resource, leaves the resources as they were after
/// each run: the wrapper keeps nothing between ticks but its guard.
pub proof fn lemma_rerun_idempotent<S, V>(
    p0: Pausable<S, V>,
    d0: (V, S::SystemData),
    p1: Pausable<S, V>,
    d1: (V, S::SystemData),
    p2: Pausable<S, V>,
    d2: (V, S::SystemData),
)
    where S: System, V: Send + Sync + Default + Eq + 'static
    requires
        leaves_data_unchanged::<S>(),
        Pausable::<S, V>::runs(p0, d0, p1, d1),
        Pausable::<S, V>::runs(p1, d1, p2, d2),
    ensures
        d1 == d0,
        d2 == d1,
        p1.guard() == p0.guard(),
        p2.guard() == p1.guard(),
{
    if S::runs(p0.inner(), d0.1, p1.inner(), d1.1) {
        assert(d1.1 == d0.1);
    }
    if S::runs(p1.inner(), d1.1, p2.inner(), d2.1) {
        assert(d2.1 == d1.1);
    }
}

/// Where `V`'s `==` is an equivalence, two guards that differ are never both
/// open on the same control value: of two pausable systems sharing a control
/// resource with such guards, at most one runs on a tick.
pub proof fn lemma_exclusive_guards<V: PartialEq>(first: V, second: V, current: V)
    requires
        vstd::laws_eq::obeys_eq::<V>(),
        !first.eq_spec(&second),
    ensures
        !(gate_open(first, current) && gate_open(second, current)),
{
    reveal(vstd::laws_eq::obeys_eq_spec_properties);
    if gate_open(first, current) && gate_open(second, current) {
        assert(current.eq_spec(&second));
        assert(first.eq_spec(&second));
    }
}

} // verus!
