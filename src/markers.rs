use vstd::prelude::*;

verus! {

/// Values that may be moved to another thread.
pub trait HSend: Send {}

impl<T: Send> HSend for T {}

/// Values that may be referenced from several threads at once.
pub trait HSync: Sync {}

impl<T: Sync> HSync for T {}

/// Values that are both `HSend` and `HSync`.
pub trait HSendSync: HSend + HSync {}

impl<T: HSend + HSync> HSendSync for T {}

/// A deferred computation that may be moved to another thread.
pub trait HFuture: core::future::Future + HSend {}

impl<T: core::future::Future + HSend> HFuture for T {}

/// A pointer with shared ownership whose count is kept atomically.
pub type Hrc<T> = std::sync::Arc<T>;

/// A boxed, pinned deferred computation that may be moved to another thread.
pub type HBoxFuture<'a, T> = core::pin::Pin<Box<dyn core::future::Future<Output = T> + Send + 'a>>;

/// A boxed error that may be moved to, and shared with, other threads.
pub type HBoxError<'a> = Box<dyn core::error::Error + Send + Sync + 'a>;

/// A boxed value of a type known at run time, that may be moved to, and
/// shared with, other threads.
pub type HBoxAny<'a> = Box<dyn core::any::Any + Send + Sync + 'a>;

} // verus!
