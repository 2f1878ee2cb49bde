//! Building a runnable simulation out of specification fragments:
//! the merge algebra, the instantiation pipeline and their errors.

pub mod append;
pub mod instantiate;
pub mod err;

pub use append::{append, merge_warnings, MergeWarning};
pub use err::{Error, ResolveErrorKind};
