use crate::sanitize::Sanitize;
use parking_lot::Mutex;
use vstd::prelude::*;

verus! {

/// parking_lot's raw lock, which the pool's `Mutex` is built on; opaque here.
#[verifier::external_type_specification]
#[verifier::external_body]
pub struct ExRawMutex(parking_lot::RawMutex);

/// lock_api's `Mutex`, which parking_lot's `Mutex` names; opaque here, as
/// other threads change what it holds.
#[verifier::external_type_specification]
#[verifier::external_body]
#[verifier::reject_recursive_types(R)]
#[verifier::reject_recursive_types(T)]
pub struct ExMutex<R, T: ?Sized>(parking_lot::lock_api::Mutex<R, T>);

/// Relies on parking_lot's `Mutex::new`, which makes an unlocked lock around `v`.
#[verifier::external_body]
fn new_lock<T>(v: Vec<T>) -> Mutex<Vec<T>> {
    Mutex::new(v)
}

/// Relies on parking_lot's `Mutex::lock`, which blocks until this thread holds
/// the lock; the lock is let go once `value` is pushed. Other threads may push
/// and pop at any time, so nothing is stated of what the vector then holds.
#[verifier::external_body]
fn push_locked<T>(m: &Mutex<Vec<T>>, value: T) {
    m.lock().push(value)
}

/// Relies on parking_lot's `Mutex::lock`, holding the lock while the last
/// element is popped. What comes out depends on other threads.
#[verifier::external_body]
fn pop_locked<T>(m: &Mutex<Vec<T>>) -> Option<T> {
    m.lock().pop()
}

/// Relies on parking_lot's `Mutex::lock`, holding the lock while the vector
/// is cut down to its first `new_size` elements.
#[verifier::external_body]
fn truncate_locked<T>(m: &Mutex<Vec<T>>, new_size: usize) {
    m.lock().truncate(new_size)
}

/// Relies on parking_lot's `Mutex::get_mut`, which gives the value behind the
/// lock without locking, as the borrow is exclusive.
#[verifier::external_body]
fn exclusive<T>(m: &mut Mutex<Vec<T>>) -> &mut Vec<T> {
    m.get_mut()
}

/// Keeps the first `new_size` elements of `vec` and drops the rest; a vector
/// that is no longer than `new_size` is left as it is.
pub fn reduce_to<T>(vec: &mut Vec<T>, new_size: usize)
    ensures
        final(vec)@ == old(vec)@.take(vstd::math::min(old(vec)@.len() as int, new_size as int)),
{
    if vec.len() > new_size {
        vec.truncate(new_size);
    }
}

/// A pool of values of type `T` kept for reuse.
///
/// The stored values sit behind one lock, held only while a value is pushed,
/// popped or the storage cut down. As other threads may use the pool at any
/// time, no contract here speaks of what the storage holds.
#[verifier::reject_recursive_types(T)]
pub struct ArenaCity<T> {
    storage: Mutex<Vec<T>>,
}

impl<T> ArenaCity<T> {
    /// An empty pool.
    pub fn new() -> Self {
        ArenaCity { storage: new_lock(Vec::new()) }
    }

    /// An empty pool with room for `capacity` values before it grows.
    pub fn with_capacity(capacity: usize) -> Self {
        ArenaCity { storage: new_lock(Vec::with_capacity(capacity)) }
    }

    /// Drops every stored value.
    pub fn clear(&self) {
        self.reduce_to(0);
    }

    /// Drops every stored value, without locking.
    pub fn clear_mut(&mut self) {
        self.reduce_to_mut(0);
    }

    /// Wraps `value` in a handle bound to this pool, without touching the storage.
    pub fn create(&self, value: T) -> (r: Citizen<'_, T>)
        where
            T: Sanitize,
        ensures
            r.city() == *self,
            r.value() == value,
    {
        Citizen { city: self, value }
    }

    /// A handle on `reused` when the pool gave one back, or else on a value
    /// made by `init`, which is called only then.
    pub fn reuse_or_create<F>(&self, reused: Option<T>, init: F) -> (r: Citizen<'_, T>)
        where
            F: FnOnce() -> T,
            T: Sanitize,
        requires
            reused is None ==> init.requires(()),
        ensures
            r.city() == *self,
            reused is Some ==> r.value() == reused->0,
            reused is None ==> init.ensures((), r.value()),
    {
        match reused {
            Some(v) => self.create(v),
            None => self.create(init()),
        }
    }

    /// A handle on the value released last to this pool, or, when none is
    /// stored, on a value made by `init`.
    pub fn get_or_create<F>(&self, init: F) -> (r: Citizen<'_, T>)
        where
            F: FnOnce() -> T,
            T: Sanitize,
        requires
            init.requires(()),
        ensures
            r.city() == *self,
    {
        let reused = self.pop();
        self.reuse_or_create(reused, init)
    }

    /// A handle on the value released last to this pool, or, when none is
    /// stored, on `T::default()`.
    pub fn get_or_default(&self) -> (r: Citizen<'_, T>)
        where
            T: Default + Sanitize,
        ensures
            r.city() == *self,
    {
        let reused = self.pop();
        self.reuse_or_create(reused, T::default)
    }

    fn pop(&self) -> Option<T> {
        pop_locked(&self.storage)
    }

    fn push(&self, value: T)
    {
        push_locked(&self.storage, value);
    }

    /// Keeps the first `new_size` stored values and drops the rest.
    pub fn reduce_to(&self, new_size: usize) {
        truncate_locked(&self.storage, new_size);
    }

    /// Keeps the first `new_size` stored values and drops the rest, without
    /// locking.
    pub fn reduce_to_mut(&mut self, new_size: usize) {
        reduce_to(exclusive(&mut self.storage), new_size);
    }
}

impl<T> Default for ArenaCity<T> {
    /// An empty pool.
    fn default() -> Self {
        Self::new()
    }
}

/// A value taken from a pool, bound to the pool it goes back to.
///
/// The handle is used up either by `release`, which sanitizes the value and
/// returns it to the pool unless it is discarded, or by `into_inner`, which
/// hands the value to the caller for good. As both take the handle by value,
/// a value leaves a handle at most once.
#[verifier::reject_recursive_types(T)]
pub struct Citizen<'a, T: Sanitize> {
    city: &'a ArenaCity<T>,
    value: T,
}

impl<'a, T: Sanitize> Citizen<'a, T> {
    /// The pool the handle returns its value to.
    pub closed spec fn city(&self) -> ArenaCity<T> {
        *self.city
    }

    /// The value the handle holds.
    pub closed spec fn value(&self) -> T {
        self.value
    }

    /// The value, for reading.
    pub fn get(&self) -> (r: &T)
        ensures
            *r == self.value(),
    {
        &self.value
    }

    /// The value, for writing.
    pub fn get_mut(&mut self) -> (r: &mut T)
        ensures
            *r == old(self).value(),
            final(self).city() == old(self).city(),
            final(self).value() == *final(r),
    {
        &mut self.value
    }

    /// Takes the value out for good: it does not go back to the pool.
    pub fn into_inner(self) -> (r: T)
        ensures
            r == self.value(),
    {
        self.value
    }

    /// Sanitizes the value and pushes what comes out back into the pool; a
    /// value that sanitizing discards is dropped. Says whether a value went
    /// back.
    pub fn release(self) -> (returned: bool)
        ensures
            returned ==> exists|w: T| self.value().sanitizes_to(Some(w)),
            !returned ==> self.value().sanitizes_to(None),
    {
        let ghost held = self.value();
        let Citizen { city, value } = self;
        match value.sanitize() {
            Some(w) => {
                assert(held.sanitizes_to(Some(w)));
                city.push(w);
                true
            },
            None => false,
        }
    }
}

impl<'a, T: Sanitize> core::ops::Deref for Citizen<'a, T> {
    type Target = T;

    fn deref(&self) -> (r: &T)
        ensures
            *r == self.value(),
    {
        &self.value
    }
}

impl<'a, T: Sanitize> core::ops::DerefMut for Citizen<'a, T> {
    fn deref_mut(&mut self) -> (r: &mut T)
        ensures
            *r == old(self).value(),
            final(self).city() == old(self).city(),
            final(self).value() == *final(r),
    {
        &mut self.value
    }
}

} // verus!
