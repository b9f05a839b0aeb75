//! Wake handles built from user-defined notifiers.
//!
//! A notifier is any value that knows how to signal that suspended work may
//! go on: it implements [`Wake`]. [`Wake::into_waker`] turns it into a
//! [`Waker`], a handle that can be cloned, woken by reference, woken away, or
//! dropped. [`waker_fn`] makes a handle straight from a callback.
//!
//! A handle keeps its notifier in one of two representations, chosen from the
//! size of the notifier's type alone:
//!
//! * *thin*: a notifier no larger than a machine word lives in the handle's
//!   slot itself, and the handle owns no heap block;
//! * *boxed*: a larger notifier lives in one heap block that the handle owns.
//!
//! Whatever the representation, a wake delivered through the handle is a wake
//! of the notifier it holds. The module [`laws`] states what follows for
//! every handle.
pub mod closure;
pub mod laws;
pub mod raw;
pub mod representation;
pub mod wake;
pub mod waker;

pub use closure::waker_fn;
pub use closure::WakerFn;
pub use raw::RawWaker;
pub use representation::Representation;
pub use wake::Wake;
pub use waker::Waker;
