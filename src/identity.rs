//! Identities of plugin types.
//!
//! A native identity is the compiler's type identity, which is only
//! comparable inside one compiled binary. An assigned identity is a number
//! handed out by a counter, for plugins whose native identity cannot be
//! trusted across a library boundary.
use std::any::TypeId;
use vstd::prelude::*;

verus! {

#[verifier::external_type_specification]
#[verifier::external_body]
pub struct ExTypeId(std::any::TypeId);

/// Relies on `TypeId::of`: the compiler's identity of the type `T` in this
/// binary. Nothing is stated of its value.
#[verifier::external_body]
pub(crate) fn type_identity_of<T: ?Sized + 'static>() -> (r: TypeId) {
    TypeId::of::<T>()
}

/// Relies on `TypeId`'s `PartialEq`: two type identities compare equal
/// exactly when they are the same value.
#[verifier::external_body]
pub(crate) fn same_type_identity(a: &TypeId, b: &TypeId) -> (r: bool)
    ensures
        r == (*a == *b),
{
    *a == *b
}

/// The identity of a plugin type.
#[derive(Debug, Clone, Copy)]
pub enum DynId {
    /// The compiler's identity of a type known in this binary.
    Typed(TypeId),
    /// A number handed out by an [`IdentityCounter`].
    Extern(u64),
}

impl PartialEq for DynId {
    fn eq(&self, other: &DynId) -> (r: bool) {
        match (self, other) {
            (DynId::Typed(a), DynId::Typed(b)) => same_type_identity(a, b),
            (DynId::Extern(a), DynId::Extern(b)) => *a == *b,
            _ => false,
        }
    }
}

impl vstd::std_specs::cmp::PartialEqSpecImpl for DynId {
    open spec fn obeys_eq_spec() -> bool {
        true
    }

    open spec fn eq_spec(&self, other: &DynId) -> bool {
        *self == *other
    }
}

impl Eq for DynId {
}

impl From<TypeId> for DynId {
    fn from(tid: TypeId) -> (r: DynId) {
        DynId::Typed(tid)
    }
}

impl vstd::std_specs::convert::FromSpecImpl<TypeId> for DynId {
    open spec fn obeys_from_spec() -> bool {
        true
    }

    open spec fn from_spec(tid: TypeId) -> DynId {
        DynId::Typed(tid)
    }
}

/// Hands out assigned identities, each one once.
///
/// Its view is the number of identities handed out so far: the next one is
/// `DynId::Extern(self@)`.
#[derive(Debug)]
pub struct IdentityCounter {
    next: u64,
}

impl View for IdentityCounter {
    type V = nat;

    closed spec fn view(&self) -> nat {
        self.next as nat
    }
}

/// The assigned identities that a counter in state `count` has handed out.
pub open spec fn issued(count: nat) -> Set<DynId> {
    Set::new(|id: DynId| id is Extern && (id->Extern_0 as nat) < count)
}

impl IdentityCounter {
    /// A counter that has handed out nothing.
    pub fn new() -> (r: IdentityCounter)
        ensures
            r@ == 0,
    {
        IdentityCounter { next: 0 }
    }

    /// Whether another identity can be handed out.
    pub fn has_next(&self) -> (r: bool)
        ensures
            r == (self@ < u64::MAX),
            self@ <= u64::MAX,
    {
        self.next < u64::MAX
    }
}

impl DynId {
    /// A fresh assigned identity: one that `counter` has not handed out
    /// before.
    pub fn new_extern(counter: &mut IdentityCounter) -> (r: DynId)
        requires
            old(counter)@ < u64::MAX,
        ensures
            r == DynId::Extern(old(counter)@ as u64),
            !issued(old(counter)@).contains(r),
            final(counter)@ == old(counter)@ + 1,
            issued(final(counter)@) == issued(old(counter)@).insert(r),
    {
        let id = counter.next;
        counter.next = counter.next + 1;
        let r = DynId::Extern(id);
        assert(issued(counter@) =~= issued(old(counter)@).insert(r));
        r
    }

    /// The native identity, where this is one.
    pub fn to_typeid(&self) -> (r: Option<TypeId>)
        ensures
            r == (match *self {
                DynId::Typed(tid) => Some(tid),
                DynId::Extern(_) => None::<TypeId>,
            }),
    {
        match self {
            DynId::Typed(tid) => Some(*tid),
            DynId::Extern(_) => None,
        }
    }
}

/// Two assigned identities handed out by one counter, one before the other,
/// are never equal: an identity handed out earlier is never the next one.
pub proof fn lemma_assigned_identities_distinct(earlier: DynId, count: nat)
    requires
        count <= u64::MAX,
        issued(count).contains(earlier),
    ensures
        earlier != DynId::Extern(count as u64),
{
}

} // verus!
