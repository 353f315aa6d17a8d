//! A minimal capability for attaching immutable, type-erased data to
//! domain objects (entities, graph nodes, graph edges).
//!
//! A concrete data type becomes attachable by implementing [`Component`]:
//! it reports a process-stable identity key and a human-readable type name,
//! and can duplicate itself into an independently owned value. The
//! [`ErasedComponent`] handle stores any component behind a uniform,
//! type-erased box, from which the original concrete type can be recovered
//! by a checked downcast. [`ComponentError`] is the shared vocabulary for
//! the two failure modes of the per-type component slots that callers build
//! on top of this capability.

use vstd::prelude::*;
use vstd::std_specs::cmp::PartialEqSpec;

verus! {

/// The capability a concrete data type implements to become an attachable
/// component.
///
/// Components are logically immutable once attached: the capability exposes
/// no mutation, and duplication always yields a new, independently owned
/// value. Every implementing type must be safe to share and to send across
/// threads and must have a debug-readable textual form, so the capability
/// requires `Send`, `Sync` and `Debug`.
///
/// Each implementing type chooses one identity key and one name, fixed for
/// the whole program run; the contracts below tie every instance of the type
/// to that one key and name. Distinct implementing types must choose
/// distinct keys, so that key equality decides type identity for the
/// per-type slots that callers maintain.
pub trait Component: Sized + Send + Sync + core::fmt::Debug {
    /// The identity key of this concrete type.
    spec fn spec_key() -> u64;

    /// The name of this concrete type.
    spec fn spec_name() -> Seq<char>;

    /// Report the identity key of this concrete type, without an instance
    /// in hand.
    fn type_key() -> (k: u64)
        ensures
            k == Self::spec_key(),
    ;

    /// Report the name of this component type.
    fn component_name(&self) -> (n: &'static str)
        ensures
            n@ == Self::spec_name(),
    ;

    /// Produce an independent, fully owned duplicate of this value.
    fn clone_component(&self) -> (c: Self)
        ensures
            c == *self,
    ;
}

/// The distinguishing identity key of a component type, available without
/// an instance in hand.
///
/// Two calls with the same concrete type always return the same key, since
/// both results equal `T::spec_key()`.
pub fn component_type_id<T: Component + 'static>() -> (k: u64)
    ensures
        k == T::spec_key(),
{
    T::type_key()
}

/// Owning, type-erased storage for one component value.
///
/// The value sits behind `std::any::Any`, which Verus cannot look into, so
/// the struct is opaque and is reached only through the two trusted
/// functions below.
#[verifier::external_body]
struct AnyBox {
    value: Box<dyn core::any::Any + Send + Sync>,
}

/// Relies on `Box::new`: the box owns exactly the value handed in.
#[verifier::external_body]
fn any_box_new<T: Component + 'static>(value: T) -> AnyBox {
    AnyBox { value: Box::new(value) }
}

/// Relies on `std::any::Any::downcast_ref`: the result is `Some` exactly
/// when the boxed value has concrete type `T`, and then borrows that value.
#[verifier::external_body]
fn any_box_downcast<T: Component + 'static>(b: &AnyBox) -> Option<&T> {
    b.value.downcast_ref::<T>()
}

/// An owning, uniform handle that erases the concrete type of a component.
///
/// Heterogeneous components can be stored under this one type and recovered
/// as their original concrete type by [`ErasedComponent::downcast`]. The
/// handle records the identity key and the name of the erased type, and its
/// contracts tie both to the `Component` implementation they came from.
pub struct ErasedComponent {
    key: u64,
    name: &'static str,
    data: AnyBox,
}

impl ErasedComponent {
    /// The identity key of the erased concrete type.
    pub closed spec fn spec_key(&self) -> u64 {
        self.key
    }

    /// The name of the erased concrete type.
    pub closed spec fn spec_name(&self) -> Seq<char> {
        self.name@
    }

    /// Erase the concrete type of `value`, taking ownership of it.
    pub fn erase<T: Component + 'static>(value: T) -> (e: ErasedComponent)
        ensures
            e.spec_key() == T::spec_key(),
            e.spec_name() == T::spec_name(),
    {
        let name = value.component_name();
        ErasedComponent { key: T::type_key(), name, data: any_box_new(value) }
    }

    /// Report the identity key of the erased component's concrete type.
    pub fn type_key(&self) -> (k: u64)
        ensures
            k == self.spec_key(),
    {
        self.key
    }

    /// Report the name of the erased component's concrete type.
    pub fn component_name(&self) -> (n: &'static str)
        ensures
            n@ == self.spec_name(),
    {
        self.name
    }

    /// Does this handle hold a component of type `T`? Decided by comparing
    /// identity keys.
    pub fn is_type<T: Component + 'static>(&self) -> (r: bool)
        ensures
            r == (self.spec_key() == T::spec_key()),
    {
        self.key == T::type_key()
    }

    /// Checked downcast: recover the erased component as its concrete type.
    ///
    /// A handle whose identity key is not `T`'s never downcasts to `T`: a
    /// failed downcast means "this handle holds a different type", not an
    /// exceptional condition. Recovering the value itself in the successful
    /// case goes through `std::any` and is covered by [`any_box_downcast`]'s
    /// trust.
    pub fn downcast<T: Component + 'static>(&self) -> (r: Option<&T>)
        ensures
            self.spec_key() != T::spec_key() ==> r is None,
    {
        if self.key == T::type_key() {
            any_box_downcast::<T>(&self.data)
        } else {
            None
        }
    }
}

/// Duplicate a component into a new, independently owned, type-erased
/// handle, as [`Component::clone_component`] followed by
/// [`ErasedComponent::erase`].
pub fn clone_box<T: Component + 'static>(value: &T) -> (e: ErasedComponent)
    ensures
        e.spec_key() == T::spec_key(),
        e.spec_name() == T::spec_name(),
{
    ErasedComponent::erase(value.clone_component())
}

/// The two failure modes of the per-type component slots that callers
/// maintain on top of the [`Component`] capability. Each variant carries a
/// human-readable identifier, typically the component's type name, naming
/// what failed.
#[derive(Debug, Clone)]
pub enum ComponentError {
    /// An attach targeted a slot that already holds a component of that type.
    AlreadyExists(String),
    /// A lookup or removal targeted a slot with no component of that type.
    NotFound(String),
}

impl ComponentError {
    /// The one-line rendering of this error.
    pub open spec fn spec_message(&self) -> Seq<char> {
        match self {
            ComponentError::AlreadyExists(name) => "Component already exists: "@ + name@,
            ComponentError::NotFound(name) => "Component not found: "@ + name@,
        }
    }

    /// Render this error as a one-line human-readable message:
    /// `Component already exists: <name>` or `Component not found: <name>`.
    pub fn message(&self) -> (s: String)
        ensures
            s@ == self.spec_message(),
    {
        match self {
            ComponentError::AlreadyExists(name) => {
                let mut s = String::from_str("Component already exists: ");
                s.append(name.as_str());
                s
            },
            ComponentError::NotFound(name) => {
                let mut s = String::from_str("Component not found: ");
                s.append(name.as_str());
                s
            },
        }
    }
}

impl PartialEq for ComponentError {
    fn eq(&self, other: &ComponentError) -> (r: bool) {
        match (self, other) {
            (ComponentError::AlreadyExists(a), ComponentError::AlreadyExists(b)) => *a == *b,
            (ComponentError::NotFound(a), ComponentError::NotFound(b)) => *a == *b,
            _ => false,
        }
    }
}

impl vstd::std_specs::cmp::PartialEqSpecImpl for ComponentError {
    open spec fn obeys_eq_spec() -> bool {
        true
    }

    open spec fn eq_spec(&self, other: &ComponentError) -> bool {
        match (self, other) {
            (ComponentError::AlreadyExists(a), ComponentError::AlreadyExists(b)) => a@ == b@,
            (ComponentError::NotFound(a), ComponentError::NotFound(b)) => a@ == b@,
            _ => false,
        }
    }
}

/// The return contract for the attach, remove and lookup operations that
/// collaborators implement over per-type component slots.
pub type ComponentResult<T> = Result<T, ComponentError>;

/// The type-identity helper yields one key per concrete type: any two keys
/// obtained for the same type `T` are equal.
pub proof fn lemma_type_id_stable<T: Component>(k1: u64, k2: u64)
    requires
        k1 == T::spec_key(),
        k2 == T::spec_key(),
    ensures
        k1 == k2,
{
}

/// A concrete type reports one name: any two names obtained for the same
/// type `T` are equal.
pub proof fn lemma_component_name_stable<T: Component>(n1: Seq<char>, n2: Seq<char>)
    requires
        n1 == T::spec_name(),
        n2 == T::spec_name(),
    ensures
        n1 == n2,
{
}

/// Two errors are equal exactly when they are the same variant carrying
/// the same name string.
pub proof fn lemma_error_eq_structural(a: &ComponentError, b: &ComponentError)
    ensures
        a.eq_spec(b) <==> (match (a, b) {
            (ComponentError::AlreadyExists(x), ComponentError::AlreadyExists(y)) => x@ == y@,
            (ComponentError::NotFound(x), ComponentError::NotFound(y)) => x@ == y@,
            _ => false,
        }),
{
}

} // verus!
