use vstd::prelude::*;

use crate::error::Error;

verus! {

/// Shared and exclusive access to a value of type `T` behind a lock.
///
/// `'a` is the borrow of the lock that a guard lives for: a guard gives
/// access to the value until it goes out of scope, which releases it. The
/// `try_` operations never wait: they return `Error` exactly when the
/// backend cannot grant the access at once. The blocking operations wait
/// until it can.
///
/// Whether a backend grants a request depends on who holds the lock at that
/// moment, state of the backend that no contract here can see; so these
/// methods state nothing beyond their types. How a backend's answer becomes
/// the result is stated exactly by `granted_if_some` and `granted_if_ok`.
pub trait Locklet<'a, T> {
    /// The guard of shared, read-only access.
    type Read;

    /// The guard of exclusive access.
    type Write;

    fn try_read_lock(&'a self) -> (r: Result<Self::Read, Error>);

    fn try_write_lock(&'a self) -> (r: Result<Self::Write, Error>);

    fn read_lock(&'a self) -> (r: Self::Read);

    fn write_lock(&'a self) -> (r: Self::Write);
}

/// The answer of a backend whose non-blocking request gives a guard or
/// `None`, as this library reports it.
pub fn granted_if_some<G>(answer: Option<G>) -> (r: Result<G, Error>)
    ensures
        r is Ok <==> answer is Some,
        answer is Some ==> r == Ok::<G, Error>(answer->0),
{
    match answer {
        Some(g) => Ok(g),
        None => Err(Error),
    }
}

/// The answer of a backend whose non-blocking request gives a guard or an
/// error of its own, as this library reports it: every such error, whether
/// the lock was busy or poisoned, becomes `Error`.
pub fn granted_if_ok<G, E>(answer: Result<G, E>) -> (r: Result<G, Error>)
    ensures
        r is Ok <==> answer is Ok,
        answer is Ok ==> r == Ok::<G, Error>(answer->Ok_0),
{
    match answer {
        Ok(g) => Ok(g),
        Err(_) => Err(Error),
    }
}

/// The guard of a blocking request to the operating system's lock. Where an
/// earlier holder panicked, the guard comes inside a `PoisonError`; it is
/// taken out and access goes on as if the lock were simply granted.
pub fn granted_even_if_poisoned<G>(answer: std::sync::LockResult<G>) -> (r: G)
    ensures
        answer is Ok ==> r == answer->Ok_0,
{
    match answer {
        Ok(g) => g,
        Err(poisoned) => poisoned.into_inner(),
    }
}

/// The lock of this build: the spin-wait reader-writer lock, which can be
/// shared across threads and needs no operating system.
pub type Lock<T> = spin::RwLock<T>;

// The spin-wait reader-writer lock, usable without an operating system.

#[verifier::external_type_specification]
#[verifier::external_body]
#[verifier::reject_recursive_types(T)]
#[verifier::reject_recursive_types(R)]
pub struct ExSpinRwLock<T: ?Sized, R>(spin::rwlock::RwLock<T, R>);

#[verifier::external_type_specification]
#[verifier::external_body]
pub struct ExSpin(spin::relax::Spin);

#[verifier::external_type_specification]
#[verifier::external_body]
#[verifier::reject_recursive_types(T)]
pub struct ExSpinReadGuard<'a, T: ?Sized>(spin::rwlock::RwLockReadGuard<'a, T>);

#[verifier::external_type_specification]
#[verifier::external_body]
#[verifier::reject_recursive_types(T)]
#[verifier::reject_recursive_types(R)]
pub struct ExSpinWriteGuard<'a, T: ?Sized + 'a, R>(spin::rwlock::RwLockWriteGuard<'a, T, R>);

/// Relies on spin's `RwLock::try_read`: a read guard, or `None` without waiting.
pub assume_specification<T: ?Sized, R>[ spin::rwlock::RwLock::<T, R>::try_read ](
    l: &spin::rwlock::RwLock<T, R>,
) -> Option<spin::rwlock::RwLockReadGuard<'_, T>>;

/// Relies on spin's `RwLock::try_write`: the write guard, or `None` without waiting.
pub assume_specification<T: ?Sized, R>[ spin::rwlock::RwLock::<T, R>::try_write ](
    l: &spin::rwlock::RwLock<T, R>,
) -> Option<spin::rwlock::RwLockWriteGuard<'_, T, R>>;

/// Relies on spin's `RwLock::read`: spins until a read guard is granted.
#[verifier::external_body]
fn spin_read<T>(l: &spin::RwLock<T>) -> spin::RwLockReadGuard<'_, T> {
    l.read()
}

/// Relies on spin's `RwLock::write`: spins until the write guard is granted.
#[verifier::external_body]
fn spin_write<T>(l: &spin::RwLock<T>) -> spin::RwLockWriteGuard<'_, T> {
    l.write()
}

impl<'a, T: 'a> Locklet<'a, T> for spin::RwLock<T> {
    type Read = spin::RwLockReadGuard<'a, T>;

    type Write = spin::RwLockWriteGuard<'a, T>;

    fn try_read_lock(&'a self) -> (r: Result<Self::Read, Error>) {
        granted_if_some(self.try_read())
    }

    fn try_write_lock(&'a self) -> (r: Result<Self::Write, Error>) {
        granted_if_some(self.try_write())
    }

    fn read_lock(&'a self) -> (r: Self::Read) {
        spin_read(self)
    }

    fn write_lock(&'a self) -> (r: Self::Write) {
        spin_write(self)
    }
}

// The operating system's reader-writer lock.

#[verifier::external_type_specification]
#[verifier::external_body]
#[verifier::reject_recursive_types(T)]
pub struct ExStdRwLock<T: ?Sized>(std::sync::RwLock<T>);

#[verifier::external_type_specification]
#[verifier::external_body]
#[verifier::reject_recursive_types(T)]
pub struct ExStdReadGuard<'a, T: ?Sized>(std::sync::RwLockReadGuard<'a, T>);

#[verifier::external_type_specification]
#[verifier::external_body]
#[verifier::reject_recursive_types(T)]
pub struct ExStdWriteGuard<'a, T: ?Sized + 'a>(std::sync::RwLockWriteGuard<'a, T>);

#[verifier::external_type_specification]
#[verifier::external_body]
#[verifier::reject_recursive_types(G)]
pub struct ExTryLockError<G>(std::sync::TryLockError<G>);

#[verifier::external_type_specification]
#[verifier::external_body]
#[verifier::reject_recursive_types(G)]
pub struct ExPoisonError<G>(std::sync::PoisonError<G>);

/// Relies on std's `RwLock::try_read`: a read guard, or an error without waiting.
pub assume_specification<T: ?Sized>[ std::sync::RwLock::<T>::try_read ](
    l: &std::sync::RwLock<T>,
) -> std::sync::TryLockResult<std::sync::RwLockReadGuard<'_, T>>;

/// Relies on std's `RwLock::try_write`: the write guard, or an error without waiting.
pub assume_specification<T: ?Sized>[ std::sync::RwLock::<T>::try_write ](
    l: &std::sync::RwLock<T>,
) -> std::sync::TryLockResult<std::sync::RwLockWriteGuard<'_, T>>;

/// Relies on std's `PoisonError::into_inner`: the guard that the error holds.
pub assume_specification<G>[ std::sync::PoisonError::<G>::into_inner ](
    e: std::sync::PoisonError<G>,
) -> G;

/// A read guard of the operating system's lock, if one is granted at once.
/// The blocking requests of this lock may panic where the calling thread
/// already holds it, so only the non-blocking pair stands here.
pub fn os_try_read_lock<'a, T>(l: &'a std::sync::RwLock<T>) -> (r: Result<
    std::sync::RwLockReadGuard<'a, T>,
    Error,
>) {
    granted_if_ok(l.try_read())
}

/// The write guard of the operating system's lock, if it is granted at once.
pub fn os_try_write_lock<'a, T>(l: &'a std::sync::RwLock<T>) -> (r: Result<
    std::sync::RwLockWriteGuard<'a, T>,
    Error,
>) {
    granted_if_ok(l.try_write())
}

// The single-owner cell, which tracks borrows at run time within one thread.

#[verifier::external_type_specification]
#[verifier::external_body]
#[verifier::reject_recursive_types(T)]
pub struct ExRefCell<T: ?Sized>(core::cell::RefCell<T>);

#[verifier::external_type_specification]
#[verifier::external_body]
#[verifier::reject_recursive_types(T)]
pub struct ExRef<'b, T: ?Sized>(core::cell::Ref<'b, T>);

#[verifier::external_type_specification]
#[verifier::external_body]
#[verifier::reject_recursive_types(T)]
pub struct ExRefMut<'b, T: ?Sized + 'b>(core::cell::RefMut<'b, T>);

#[verifier::external_type_specification]
#[verifier::external_body]
pub struct ExBorrowError(core::cell::BorrowError);

#[verifier::external_type_specification]
#[verifier::external_body]
pub struct ExBorrowMutError(core::cell::BorrowMutError);

/// Relies on `RefCell::try_borrow`: a shared borrow, or an error where the
/// cell is mutably borrowed; it never panics.
pub assume_specification<T: ?Sized>[ core::cell::RefCell::<T>::try_borrow ](
    c: &core::cell::RefCell<T>,
) -> Result<core::cell::Ref<'_, T>, core::cell::BorrowError>;

/// Relies on `RefCell::try_borrow_mut`: an exclusive borrow, or an error where
/// the cell is borrowed; it never panics.
pub assume_specification<T: ?Sized>[ core::cell::RefCell::<T>::try_borrow_mut ](
    c: &core::cell::RefCell<T>,
) -> Result<core::cell::RefMut<'_, T>, core::cell::BorrowMutError>;

/// A read guard of the single-owner cell, or `Error` where a write guard of
/// it is live. Its blocking requests abort on such a conflict, so only the
/// non-blocking pair stands here.
pub fn cell_try_read_lock<'a, T>(c: &'a core::cell::RefCell<T>) -> (r: Result<
    core::cell::Ref<'a, T>,
    Error,
>) {
    granted_if_ok(c.try_borrow())
}

/// The write guard of the single-owner cell, or `Error` where any guard of it
/// is live.
pub fn cell_try_write_lock<'a, T>(c: &'a core::cell::RefCell<T>) -> (r: Result<
    core::cell::RefMut<'a, T>,
    Error,
>) {
    granted_if_ok(c.try_borrow_mut())
}

} // verus!
