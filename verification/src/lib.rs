//! Five strategies for the singleton creational pattern, each modelled as an
//! instantiable policy cell: a registry slot owning at most one record with a
//! string `data` field, together with an explicit initialization policy.
//!
//! - [`Singleton1`]: deferred initialization with no synchronization.
//! - [`Singleton2`]: deferred initialization guarded by a verified lock;
//!   every access happens under an exclusive guard.
//! - [`Singleton3`]: one-time-initialization cell; immutable once built.
//! - [`Singleton4`]: eager initialization; the record exists, fully formed,
//!   from construction on, and stays fixed.
//! - [`Singleton5`]: deferred initialization behind a once-flag, with an
//!   explicit teardown entry point.
//!
//! A process pins one cell per policy in a process-wide slot; everything the
//! policies decide is proved here, over the cells themselves.

pub mod singleton1;
pub mod singleton2;
pub mod singleton3;
pub mod singleton4;
pub mod singleton5;

pub use singleton1::Singleton1;
pub use singleton2::Singleton2;
pub use singleton2::Singleton2Cell;
pub use singleton2::Singleton2Guard;
pub use singleton3::Singleton3;
pub use singleton4::Singleton4;
pub use singleton5::Singleton5;
