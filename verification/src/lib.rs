//! Secret memory for sensitive values such as keys, passwords and tokens.
//!
//! The crate decides *what* the operating system has to be asked for, in which
//! order, and what to do when one of the requests fails; it never talks to the
//! operating system itself. Every provider operation is a small state machine:
//! it names the next kernel request ([`allocator::ffi::Call`]), is handed the
//! kernel's answer ([`allocator::ffi::Reply`]) and either names the next request or
//! finishes. The embedding program performs the requests.
//!
//! - [`allocator::util`]: page arithmetic.
//! - [`allocator::ffi`]: the vocabulary of kernel requests and a model of what they
//!   do to the resources a process holds.
//! - [`allocator::unix`], [`allocator::linux`], [`allocator::windows`]: the three providers.
//! - [`allocator`]: regions, the provider interface and the provider selector.
//! - [`boxed`]: the typestate-guarded owning container.
//! - [`util::unique`]: the owning, non-null address handle.

pub mod allocator;
pub mod boxed;
pub mod marker;
pub mod util;

pub use boxed::SecretBox;
