//! A reference-counted handle, `FinArc`, that diverges from an ordinary
//! shared pointer in two deliberate ways: every clone owns an independent
//! copy of the wrapped value, and all handles descended from one construction
//! call share a single finalizer that runs exactly once, on whichever handle
//! of that lineage is released last.
//!
//! This suits values that are already internally synchronized and cheap to
//! clone, but stand for one external resource that must be released exactly
//! once, from whatever thread happens to drop the last handle.

use vstd::prelude::*;

use std::sync::Arc;

verus! {

use vstd::std_specs::cmp::PartialEqSpec;
use vstd::std_specs::cmp::PartialOrdSpec;

/// A shared-ownership handle: each clone owns an independent copy of the
/// wrapped value, while all handles of one lineage share a single run-once
/// finalizer that fires when the last handle is released.
pub struct FinArc<T, F>
where
    F: FnOnce(&mut T),
{
    inner: Option<Arc<F>>,
    data: Option<T>,
}

/// Relies on std's Arc::try_unwrap: it returns the inner value when the given
/// Arc was the sole strong reference to its allocation, and otherwise returns
/// the same Arc that was passed in.
#[verifier::external_body]
fn arc_try_unwrap<F>(v: Arc<F>) -> (result: Result<F, Arc<F>>)
    ensures
        match result {
            Ok(t) => t == v,
            Err(e) => e == v,
        },
{
    Arc::try_unwrap(v)
}

/// Relies on std's Arc::clone: the returned Arc is another pointer to the same
/// allocation, so it carries the same inner value.
#[verifier::external_body]
fn arc_clone<F>(v: &Arc<F>) -> (r: Arc<F>)
    ensures
        r == *v,
{
    Arc::clone(v)
}

/// Relies on std's FnOnce::call_once to invoke a caller-supplied finalizer on
/// the value. Nothing is assumed about what the finalizer does to the value.
#[verifier::external_body]
fn run_finalizer<T, F: FnOnce(&mut T)>(f: F, data: &mut T) {
    f(data)
}

impl<T, F> FinArc<T, F>
where
    F: FnOnce(&mut T),
{
    /// The handle still holds its reference into the lineage's shared slot.
    pub closed spec fn has_slot(&self) -> bool {
        self.inner is Some
    }

    /// The handle still holds its private copy of the wrapped value.
    pub closed spec fn has_value(&self) -> bool {
        self.data is Some
    }

    /// A handle is well formed (active) when it still carries both its value
    /// and its reference to the lineage's shared finalizer slot. Every handle
    /// a caller can observe is active; the two parts are taken out only while
    /// the handle is retired by its destructor or consumed by `try_unwrap`.
    pub open spec fn wf(&self) -> bool {
        self.has_slot() && self.has_value()
    }

    /// The wrapped value this handle currently holds.
    pub closed spec fn value(&self) -> T {
        self.data->Some_0
    }

    /// The finalizer held by the shared slot this handle references: the one
    /// object its whole lineage shares.
    pub closed spec fn finalizer(&self) -> F {
        *self.inner->Some_0
    }

    /// Starts a new lineage: one handle wrapping `data`, whose shared slot
    /// holds `finalizer`, to be run when the last handle of the lineage is
    /// dropped.
    pub fn new(data: T, finalizer: F) -> (r: Self)
        ensures
            r.wf(),
            r.value() == data,
            r.finalizer() == finalizer,
    {
        Self { inner: Some(Arc::new(finalizer)), data: Some(data) }
    }

    /// Returns the contained value if this is the last live handle of its
    /// lineage, without running the finalizer; otherwise returns the same
    /// handle back, unchanged, so the caller can keep using it.
    ///
    /// Whether this handle is the last one depends on how many clones are
    /// still live elsewhere, so which branch is taken is not pinned down here;
    /// each branch's value is.
    pub fn try_unwrap(mut this: Self) -> (r: Result<T, Self>)
        requires
            this.wf(),
        ensures
            r matches Ok(v) ==> v == this.value(),
            r matches Err(h) ==> h == this,
    {
        let arc = this.inner.take().unwrap();
        match arc_try_unwrap(arc) {
            Ok(_finalizer) => {
                // Last handle: the finalizer is dropped silently and the value
                // is moved out. Both fields are now empty, so the destructor
                // that runs on `this` has nothing left to do.
                let data = this.data.take().unwrap();
                Ok(data)
            },
            Err(arc) => {
                // Other handles are live: put the slot reference back.
                this.inner = Some(arc);
                Err(this)
            },
        }
    }

    /// Read access to this handle's own copy of the wrapped value.
    pub fn get(&self) -> (r: &T)
        requires
            self.wf(),
        ensures
            *r == self.value(),
    {
        self.data.as_ref().unwrap()
    }

    /// Replaces this handle's own copy of the wrapped value. Each handle's
    /// copy is private storage, so no other handle of the lineage is affected.
    pub fn set(&mut self, value: T)
        requires
            old(self).wf(),
        ensures
            final(self).wf(),
            final(self).value() == value,
    {
        self.data = Some(value);
    }

    /// Takes a retiring handle apart: gives up its reference to the shared
    /// slot and, exactly when it was the last live handle of its lineage,
    /// hands back the finalizer paired with this handle's own current value —
    /// the value the finalizer is to observe.
    fn take_last(&mut self) -> (r: Option<(F, T)>)
        ensures
            !final(self).wf(),
            r matches Some(p) ==> old(self).wf() && p.0 == old(self).finalizer() && p.1
                == old(self).value(),
    {
        match self.inner.take() {
            Some(arc) => match arc_try_unwrap(arc) {
                Ok(finalizer) => match self.data.take() {
                    Some(value) => Some((finalizer, value)),
                    None => None,
                },
                // Not last: our reference was released; slot and finalizer
                // stay with the other live handles.
                Err(_) => None,
            },
            None => None,
        }
    }

    /// Retires the handle: releases its slot reference and, when it was the
    /// last live handle of the lineage, runs the finalizer on this handle's
    /// own current value. Called by the destructor; a retired handle is inert,
    /// so retiring twice does nothing the second time.
    fn retire(&mut self)
        ensures
            !final(self).wf(),
    {
        if let Some((finalizer, mut last_value)) = self.take_last() {
            run_finalizer(finalizer, &mut last_value);
        }
    }
}

impl<T, F> Clone for FinArc<T, F>
where
    T: Clone,
    F: FnOnce(&mut T),
{
    /// A new handle of the same lineage: its value is an independent copy of
    /// this handle's value (per `T`'s own clone semantics) and its slot
    /// reference is one more reference to the same shared slot.
    fn clone(&self) -> (r: Self)
        ensures
            self.wf() ==> r.wf() && cloned::<T>(self.value(), r.value()) && r.finalizer()
                == self.finalizer(),
    {
        let inner = match &self.inner {
            Some(arc) => Some(arc_clone(arc)),
            None => None,
        };
        let data = match &self.data {
            Some(d) => Some(d.clone()),
            None => None,
        };
        Self { inner, data }
    }
}

impl<T, F> Drop for FinArc<T, F>
where
    F: FnOnce(&mut T),
{
    /// Verus requires destructors not to unwind, but a caller-supplied
    /// finalizer may panic, and such a panic must propagate as it would from
    /// any destructor; so the body stands outside verification and only
    /// forwards to the verified retirement logic.
    #[verifier::external_body]
    fn drop(&mut self)
        opens_invariants none
        no_unwind
    {
        self.retire();
    }
}

/// Equality is computed strictly over the wrapped values; the finalizers, even
/// of unrelated types, never participate.
impl<T, F, F1> PartialEq<FinArc<T, F1>> for FinArc<T, F>
where
    T: PartialEqSpec,
    F: FnOnce(&mut T),
    F1: FnOnce(&mut T),
{
    fn eq(&self, other: &FinArc<T, F1>) -> (r: bool)
        ensures
            T::obeys_eq_spec() ==> r == (self.has_value() && other.has_value()
                && self.value().eq_spec(&other.value())),
    {
        match (&self.data, &other.data) {
            (Some(a), Some(b)) => a.eq(b),
            _ => false,
        }
    }

    fn ne(&self, other: &FinArc<T, F1>) -> (r: bool)
        ensures
            T::obeys_eq_spec() ==> r == !(self.has_value() && other.has_value()
                && self.value().eq_spec(&other.value())),
    {
        match (&self.data, &other.data) {
            (Some(a), Some(b)) => a.ne(b),
            _ => true,
        }
    }
}

impl<T, F, F1> vstd::std_specs::cmp::PartialEqSpecImpl<FinArc<T, F1>> for FinArc<T, F>
where
    T: PartialEqSpec,
    F: FnOnce(&mut T),
    F1: FnOnce(&mut T),
{
    open spec fn obeys_eq_spec() -> bool {
        T::obeys_eq_spec()
    }

    open spec fn eq_spec(&self, other: &FinArc<T, F1>) -> bool {
        self.has_value() && other.has_value() && self.value().eq_spec(&other.value())
    }
}

/// Ordering is computed strictly over the wrapped values; the finalizers, even
/// of unrelated types, never participate.
impl<T, F, F1> PartialOrd<FinArc<T, F1>> for FinArc<T, F>
where
    T: PartialEqSpec + PartialOrdSpec,
    F: FnOnce(&mut T),
    F1: FnOnce(&mut T),
{
    fn partial_cmp(&self, other: &FinArc<T, F1>) -> (r: Option<core::cmp::Ordering>)
        ensures
            T::obeys_partial_cmp_spec() ==> r == (if self.has_value() && other.has_value() {
                self.value().partial_cmp_spec(&other.value())
            } else {
                None::<core::cmp::Ordering>
            }),
    {
        match (&self.data, &other.data) {
            (Some(a), Some(b)) => a.partial_cmp(b),
            _ => None,
        }
    }

    fn lt(&self, other: &FinArc<T, F1>) -> (r: bool)
        ensures
            T::obeys_partial_cmp_spec() ==> (r <==> self.has_value() && other.has_value()
                && self.value().partial_cmp_spec(&other.value()) == Some(
                core::cmp::Ordering::Less,
            )),
    {
        match (&self.data, &other.data) {
            (Some(a), Some(b)) => a.lt(b),
            _ => false,
        }
    }

    fn le(&self, other: &FinArc<T, F1>) -> (r: bool)
        ensures
            T::obeys_partial_cmp_spec() ==> (r <==> self.has_value() && other.has_value()
                && (self.value().partial_cmp_spec(&other.value()) matches Some(
                core::cmp::Ordering::Less
                | core::cmp::Ordering::Equal,
            ))),
    {
        match (&self.data, &other.data) {
            (Some(a), Some(b)) => a.le(b),
            _ => false,
        }
    }

    fn gt(&self, other: &FinArc<T, F1>) -> (r: bool)
        ensures
            T::obeys_partial_cmp_spec() ==> (r <==> self.has_value() && other.has_value()
                && self.value().partial_cmp_spec(&other.value()) == Some(
                core::cmp::Ordering::Greater,
            )),
    {
        match (&self.data, &other.data) {
            (Some(a), Some(b)) => a.gt(b),
            _ => false,
        }
    }

    fn ge(&self, other: &FinArc<T, F1>) -> (r: bool)
        ensures
            T::obeys_partial_cmp_spec() ==> (r <==> self.has_value() && other.has_value()
                && (self.value().partial_cmp_spec(&other.value()) matches Some(
                core::cmp::Ordering::Greater
                | core::cmp::Ordering::Equal,
            ))),
    {
        match (&self.data, &other.data) {
            (Some(a), Some(b)) => a.ge(b),
            _ => false,
        }
    }
}

impl<T, F, F1> vstd::std_specs::cmp::PartialOrdSpecImpl<FinArc<T, F1>> for FinArc<T, F>
where
    T: PartialEqSpec + PartialOrdSpec,
    F: FnOnce(&mut T),
    F1: FnOnce(&mut T),
{
    open spec fn obeys_partial_cmp_spec() -> bool {
        T::obeys_partial_cmp_spec()
    }

    open spec fn partial_cmp_spec(&self, other: &FinArc<T, F1>) -> Option<core::cmp::Ordering> {
        if self.has_value() && other.has_value() {
            self.value().partial_cmp_spec(&other.value())
        } else {
            None
        }
    }
}

impl<T, F> Eq for FinArc<T, F>
where
    T: Eq + PartialEqSpec,
    F: FnOnce(&mut T),
{
}

/// Equality ignores the finalizer: whether two active handles compare equal is
/// decided by their wrapped values alone, no matter that their finalizers are
/// distinct values, or even of unrelated types, and no matter their lineages.
pub proof fn lemma_eq_ignores_finalizer<T, F, F1>(a: FinArc<T, F>, b: FinArc<T, F1>)
    where
        T: PartialEqSpec,
        F: FnOnce(&mut T),
        F1: FnOnce(&mut T),
    requires
        a.wf(),
        b.wf(),
    ensures
        a.eq_spec(&b) == a.value().eq_spec(&b.value()),
{
}

/// Ordering ignores the finalizer: how two active handles compare is decided
/// by their wrapped values alone, no matter that their finalizers are distinct
/// values, or even of unrelated types, and no matter their lineages.
pub proof fn lemma_ordering_ignores_finalizer<T, F, F1>(a: FinArc<T, F>, b: FinArc<T, F1>)
    where
        T: PartialEqSpec + PartialOrdSpec,
        F: FnOnce(&mut T),
        F1: FnOnce(&mut T),
    requires
        a.wf(),
        b.wf(),
    ensures
        a.partial_cmp_spec(&b) == a.value().partial_cmp_spec(&b.value()),
{
}

} // verus!
