//! Single-level accessor traits for product containers (structs) and
//! variant containers (enums), together with the specification model that
//! ties all of them to one notion of "the targeted field".

use vstd::prelude::*;

verus! {

/// The specification model shared by every accessor family.
///
/// An optic addresses, inside a container of type `Self`, the single
/// position that holds a value of type `Value`.  For a product container
/// the position is always present; for a variant container it is present
/// exactly when the active branch carries a `Value` payload.
///
/// * [`Optic::focus`] is the value currently at that position, or `None`
///   when the active branch does not carry one.
/// * [`Optic::put`] is the container rebuilt with the position replaced,
///   or the container unchanged when the position is absent.
///
/// The four proof obligations are the lens laws.  Every implementation has
/// to prove them, so every law stated in [`crate::laws`] holds of every
/// verified instance by construction.
pub trait Optic<Value>: Sized {
    /// The value at the targeted position, if the position is present.
    spec fn focus(self) -> Option<Value>;

    /// The container with the targeted position replaced by `v`; the
    /// container unchanged when the position is absent.
    spec fn put(self, v: Value) -> Self;

    /// Get-set law: writing `v` and then reading gives back `v`,
    /// whenever the position is present at all.
    proof fn lemma_put_focus(self, v: Value)
        ensures
            self.focus() is Some ==> self.put(v).focus() == Some(v),
    ;

    /// Absence law: writing into an absent position changes nothing.
    proof fn lemma_put_absent(self, v: Value)
        ensures
            self.focus() is None ==> self.put(v) == self,
    ;

    /// Set-set law: the second write wins.
    proof fn lemma_put_put(self, v1: Value, v2: Value)
        ensures
            self.put(v1).put(v2) == self.put(v2),
    ;

    /// Set-get law: writing back the value that is already there is a
    /// no-op.
    proof fn lemma_focus_put(self)
        ensures
            self.focus() matches Some(v) ==> self.put(v) == self,
    ;
}

/// Returns the targeted field of a product container by value, consuming
/// the container.  Total: a product container structurally always has the
/// field, which is what the proof obligation records.
pub trait Get<Value>: Optic<Value> {
    /// A product container always has the targeted position present.
    proof fn lemma_get_total(self)
        ensures
            self.focus() is Some,
    ;

    fn get(self) -> (value: Value)
        ensures
            self.focus() == Some(value),
    ;
}

/// Returns the targeted field of a product container by reference,
/// keeping the container.  Total, like [`Get`].
pub trait GetRef<Value>: Optic<Value> {
    /// A product container always has the targeted position present.
    proof fn lemma_get_ref_total(self)
        ensures
            self.focus() is Some,
    ;

    fn get_ref(&self) -> (value: &Value)
        ensures
            self.focus() == Some(*value),
    ;
}

/// Replaces the targeted field of a container with the provided value,
/// consuming the original container and returning the rebuilt one.  On a
/// variant container whose active branch does not match, the original
/// container comes back unchanged.
pub trait Setter<Value>: Optic<Value> {
    fn set(self, new_value: Value) -> (updated: Self)
        ensures
            updated == self.put(new_value),
    ;
}

/// Rebuilds the targeted field of a container by applying the provided
/// single-use function to the current field value, consuming the original
/// container.  On a variant container whose active branch does not match,
/// the function is never called and the original container comes back
/// unchanged.
pub trait Modify<Value>: Optic<Value> {
    fn modify<F: FnOnce(Value) -> Value>(self, f: F) -> (updated: Self)
        requires
            self.focus() matches Some(value) ==> call_requires(f, (value,)),
        ensures
            (match self.focus() {
                Some(value) => exists|w: Value|
                    call_ensures(f, (value,), w) && updated == self.put(w),
                None => updated == self,
            }),
    ;
}

/// Returns the payload of a variant container as an `Option`, consuming
/// the container: the payload when the active branch carries a value of
/// the requested type, absence otherwise.
pub trait GetOption<Value>: Optic<Value> {
    fn get_option(self) -> (r: Option<Value>)
        ensures
            r == self.focus(),
    ;
}

/// Replaces the payload of a variant container when the active branch
/// matches, returning the rebuilt container wrapped in `Some`; returns
/// `None` when it does not match (the original container is dropped).
pub trait SetOption<Value>: Optic<Value> {
    fn set_option(self, new_value: Value) -> (r: Option<Self>)
        ensures
            self.focus() is Some ==> r == Some(self.put(new_value)),
            self.focus() is None ==> r is None,
    ;
}

/// Applies the provided single-use function to the payload of a variant
/// container when the active branch matches, returning the rebuilt
/// container wrapped in `Some`; returns `None` when it does not match.
pub trait ModifyOption<Value>: Optic<Value> {
    fn modify_option<F: FnOnce(Value) -> Value>(self, f: F) -> (r: Option<Self>)
        requires
            self.focus() matches Some(value) ==> call_requires(f, (value,)),
        ensures
            (match self.focus() {
                Some(value) => exists|w: Value|
                    call_ensures(f, (value,), w) && r == Some(self.put(w)),
                None => r is None,
            }),
    ;
}

/// Constructs a variant container directly from a value, by choosing the
/// branch associated with that value type.  The distinguishing prism
/// operation: product containers have no branch choice to make.
pub trait ReverseGet<Value>: Optic<Value> {
    /// The variant container built around `value`.
    spec fn wrap(value: Value) -> Self;

    /// Construct-then-deconstruct round trip: the payload of a freshly
    /// built container is the value it was built from.
    proof fn lemma_wrap_focus(value: Value)
        ensures
            Self::wrap(value).focus() == Some(value),
    ;

    /// Deconstruct-then-reconstruct round trip: rebuilding from the
    /// payload gives back the container itself.  This records the
    /// disambiguation invariant: at most one branch carries a payload of
    /// any given value type.
    proof fn lemma_focus_wrap(self)
        ensures
            self.focus() matches Some(value) ==> Self::wrap(value) == self,
    ;

    fn reverse_get(value: Value) -> (container: Self)
        ensures
            container == Self::wrap(value),
    ;
}

} // verus!
