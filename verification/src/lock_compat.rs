//! `parking_lot` locks with the interface of the locks of `std::sync`, whose acquisition can fail.
//!
//! A `parking_lot` lock is not poisoned when a thread panics while it holds the lock, so here an
//! acquisition never fails. A caller that relied on poisoning to notice a half-made change has to
//! keep a flag of its own.
//!
//! A reader may pass a queued writer while the lock is held for reading, so that a steady stream of
//! writers does not starve the readers.

use std::convert::Infallible;
use std::ops::Deref;
use std::ops::DerefMut;

use parking_lot::Mutex;
use parking_lot::RwLock;
use vstd::prelude::*;

verus! {

/// `parking_lot::RawRwLock`, the state of a reader-writer lock.
#[verifier::external_type_specification]
#[verifier::external_body]
pub struct ExRawRwLock(parking_lot::RawRwLock);

/// `parking_lot::RawMutex`, the state of a mutex.
#[verifier::external_type_specification]
#[verifier::external_body]
pub struct ExRawMutex(parking_lot::RawMutex);

/// The type behind `parking_lot::RwLock`.
#[verifier::external_type_specification]
#[verifier::external_body]
#[verifier::reject_recursive_types(R)]
#[verifier::reject_recursive_types(T)]
pub struct ExRwLock<R, T: ?Sized>(parking_lot::lock_api::RwLock<R, T>);

/// The type behind `parking_lot::Mutex`.
#[verifier::external_type_specification]
#[verifier::external_body]
#[verifier::reject_recursive_types(R)]
#[verifier::reject_recursive_types(T)]
pub struct ExMutex<R, T: ?Sized>(parking_lot::lock_api::Mutex<R, T>);

/// Calls `RwLock::new`. What the lock holds is not stated: other threads change it.
#[verifier::external_body]
fn rwlock_new<T>(value: T) -> (lock: RwLock<T>)
{
    RwLock::new(value)
}

/// Calls `RwLock::read`, which waits for the lock. What is read is not stated: other threads change
/// it.
#[verifier::external_body]
fn rwlock_read<T>(lock: &RwLock<T>) -> (guard: impl Deref<Target = T> + '_)
{
    lock.read()
}

/// Calls `RwLock::write`, which waits for the lock. What is found is not stated: other threads
/// change it.
#[verifier::external_body]
fn rwlock_write<T>(lock: &RwLock<T>) -> (guard: impl DerefMut<Target = T> + '_)
{
    lock.write()
}

/// Calls `RwLock::get_mut`. What is found is not stated.
#[verifier::external_body]
fn rwlock_get_mut<T>(lock: &mut RwLock<T>) -> (value: &mut T)
{
    lock.get_mut()
}

/// Calls `Mutex::new`. What the lock holds is not stated: other threads change it.
#[verifier::external_body]
fn mutex_new<T>(value: T) -> (lock: Mutex<T>)
{
    Mutex::new(value)
}

/// Calls `Mutex::lock`, which waits for the lock. What is found is not stated: other threads change
/// it.
#[verifier::external_body]
fn mutex_lock<T>(lock: &Mutex<T>) -> (guard: impl DerefMut<Target = T> + '_)
{
    lock.lock()
}

/// `parking_lot::RwLock<T>` whose acquisition returns a `Result`, as that of `std::sync::RwLock`
/// does.
#[verifier::reject_recursive_types(T)]
#[derive(Debug, Default)]
pub struct PlRwLock<T>(RwLock<T>);

impl<T> PlRwLock<T> {
    /// The lock was made to hold `value`.
    pub closed spec fn made_of(&self, value: T) -> bool {
        call_ensures(rwlock_new::<T>, (value,), self.0)
    }

    /// A lock that holds `value`.
    pub fn new(value: T) -> (lock: Self)
        ensures
            lock.made_of(value),
    {
        PlRwLock(rwlock_new(value))
    }

    /// Acquires the lock for reading, and never fails.
    pub fn read(&self) -> (guard: Result<impl Deref<Target = T> + '_, Infallible>)
        ensures
            guard is Ok,
    {
        Ok(rwlock_read(&self.0))
    }

    /// Acquires the lock for writing, and never fails.
    pub fn write(&self) -> (guard: Result<impl DerefMut<Target = T> + '_, Infallible>)
        ensures
            guard is Ok,
    {
        Ok(rwlock_write(&self.0))
    }

    /// The value of a lock that nobody else can hold, without acquiring it, and never fails.
    pub fn get_mut(&mut self) -> (value: Result<&mut T, Infallible>)
        ensures
            value is Ok,
    {
        Ok(rwlock_get_mut(&mut self.0))
    }
}

/// `parking_lot::Mutex<T>` whose acquisition returns a `Result`, as that of `std::sync::Mutex` does.
#[verifier::reject_recursive_types(T)]
#[derive(Debug, Default)]
pub struct PlMutex<T>(Mutex<T>);

impl<T> PlMutex<T> {
    /// The lock was made to hold `value`.
    pub closed spec fn made_of(&self, value: T) -> bool {
        call_ensures(mutex_new::<T>, (value,), self.0)
    }

    /// A lock that holds `value`.
    pub fn new(value: T) -> (lock: Self)
        ensures
            lock.made_of(value),
    {
        PlMutex(mutex_new(value))
    }

    /// Acquires the lock, and never fails.
    pub fn lock(&self) -> (guard: Result<impl DerefMut<Target = T> + '_, Infallible>)
        ensures
            guard is Ok,
    {
        Ok(mutex_lock(&self.0))
    }
}

} // verus!
