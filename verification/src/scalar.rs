//! The scalar capability and the uninitialized-slot carrier.

use vstd::prelude::*;
use vstd::raw_ptr::MemContents;
use core::any::TypeId;
use core::mem::MaybeUninit;

verus! {

#[verifier::external_type_specification]
#[verifier::external_body]
pub struct ExTypeId(TypeId);

/// Relies on `core::any::TypeId::of`: returns the identity token of the type
/// `A`, a value unique to `A` among all concrete types.
#[verifier::external_body]
fn type_token<A: 'static>() -> (t: TypeId) {
    TypeId::of::<A>()
}

/// Relies on `TypeId`'s derived `PartialEq`: two identity tokens compare
/// equal exactly when they are the same token.
#[verifier::external_body]
fn token_eq(a: &TypeId, b: &TypeId) -> (r: bool)
    ensures
        r == (a == b),
{
    *a == *b
}

/// The capability a type needs to serve as an element of a generic numeric
/// container: value equality, a debug form, and a stable runtime type
/// identity. It makes no assumption on the algebraic properties of `Self`.
///
/// Qualification is structural and universal: the blanket impl grants it to
/// every `'static` type with copy semantics, equality and a debug form, so
/// element types defined outside this library need no registration step.
pub trait Scalar: Sized + 'static {
    /// Tests whether `Self` is the same concrete type as `T`.
    ///
    /// Typically used to ask whether an element type is a particular
    /// primitive, as in `N::is::<u32>()`. The answer comes from comparing
    /// the two types' runtime identity tokens, which specification code
    /// cannot observe: the test is reflexive and distinguishes all pairs of
    /// distinct concrete types, but those facts live in `core::any` and are
    /// exercised by this crate's tests rather than stated here.
    ///
    /// An identity token exists for every `'static` type, so the query
    /// accepts any such `T` as the candidate.
    fn is<T: 'static>() -> bool {
        let a = type_token::<Self>();
        let b = type_token::<T>();
        token_eq(&a, &b)
    }
}

impl<T: Copy + PartialEq + core::fmt::Debug + 'static> Scalar for T {}

/// A calling-code defect detected on an uninitialized-slot carrier.
///
/// Both variants signal a logic error in a generic algorithm or a storage
/// component, never a data-dependent condition: a host that surfaces one of
/// these must abort, not recover, since substituting a default value would
/// mask a memory-safety bug.
#[derive(Clone, Copy, Debug, PartialEq, Eq, Structural)]
pub enum Fault {
    /// Equality comparison was invoked on a slot before initialization was
    /// complete.
    PrematureRead,
    /// Duplication (copy/clone) was invoked on a slot before initialization
    /// was complete.
    PrematureDuplication,
}

impl Fault {
    /// The diagnostic line a host prints when aborting on this fault.
    pub fn message(&self) -> (s: &'static str)
        ensures
            *self == Fault::PrematureRead ==> s@ == "equality attempted on possibly-uninitialized value"@,
            *self == Fault::PrematureDuplication ==> s@ == "duplication attempted on possibly-uninitialized value"@,
    {
        match self {
            Fault::PrematureRead => "equality attempted on possibly-uninitialized value",
            Fault::PrematureDuplication => "duplication attempted on possibly-uninitialized value",
        }
    }
}

/// A carrier for one slot of element storage that has been reserved but not
/// necessarily written: a wrapper over raw storage sized and aligned for `S`.
///
/// `MaybeUninit` deliberately passes no operation through to possibly
/// uninitialized data, so a buffer of bare `MaybeUninit<S>` could not be
/// handled by code generic over [`Scalar`]. The carrier closes that gap: it
/// qualifies as a scalar itself, while every operation that would read the
/// slot's content is defined to be a fatal fault, and the safe operations
/// (type identity, debug text) never look at the bytes.
///
/// The carrier tracks no written/unwritten state at runtime and never runs
/// destruction logic for `S`: whether a slot has really been written, and the
/// eventual reinterpretation of a fully written buffer as a buffer of `S`,
/// are the owning storage component's obligations, outside this crate.
pub struct UninitScalar<S: Scalar>(MaybeUninit<S>);

impl<S: Scalar> UninitScalar<S> {
    /// The ghost contents of the underlying slot. The carrier's own
    /// operations never read them; the spec exists so that callers can state
    /// where a slot stands between reservation and finalization.
    pub closed spec fn storage(&self) -> MemContents<S> {
        self.0.mem_contents()
    }

    /// True when the slot holds no logically written value of `S`.
    pub open spec fn is_unwritten(&self) -> bool {
        self.storage() is Uninit
    }

    /// Reserves one slot of storage for an element of type `S` without
    /// writing it.
    pub fn reserve() -> (slot: UninitScalar<S>)
        ensures
            slot.is_unwritten(),
    {
        UninitScalar(MaybeUninit::uninit())
    }

    /// The fault behind equality comparison on a carrier.
    ///
    /// Comparing two slots would read possibly uninitialized content, so
    /// equality on carriers is a fatal fault by contract, for every `S` and
    /// every pair of slots, whatever bytes they hold. This method decides
    /// the fault; a host exposing an equality operator on carriers must
    /// abort with it rather than return a value.
    pub fn eq_fault(&self, _other: &UninitScalar<S>) -> (f: Fault)
        ensures
            f == Fault::PrematureRead,
    {
        Fault::PrematureRead
    }

    /// The fault behind duplication of a carrier.
    ///
    /// Copying a slot would duplicate possibly uninitialized content, so
    /// duplication is a fatal fault by contract, for every `S` and every
    /// slot. This method decides the fault; a host exposing copy/clone on
    /// carriers must abort with it rather than produce a second slot.
    pub fn clone_fault(&self) -> (f: Fault)
        ensures
            f == Fault::PrematureDuplication,
    {
        Fault::PrematureDuplication
    }

    /// The debug text of a carrier: the fixed placeholder `"UninitScalar"`,
    /// for every slot, whatever bytes it holds — inspecting the bytes of a
    /// possibly uninitialized slot would be unsound, so the text never
    /// depends on them.
    pub fn debug_text(&self) -> (s: &'static str)
        ensures
            s@ == "UninitScalar"@,
    {
        "UninitScalar"
    }
}

/// The carrier itself qualifies as a scalar, so code generic over [`Scalar`]
/// can handle buffers that are still mid-construction. Its semantic
/// operations fault instead of computing, but its type identity is as stable
/// as any other: `UninitScalar<S>` is a concrete type distinct from `S` and
/// from every other instantiation of the carrier.
impl<S: Scalar> Scalar for UninitScalar<S> {}

} // verus!
