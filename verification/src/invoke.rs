//! The transform invoker: one call of the transform that was handed in.

use crate::schema::{Config, Diagnostics, Output};
use vstd::prelude::*;

verus! {

/// Calls `transform` on `config`, once, and hands back what it returned.
///
/// The invoker adds no failure of its own and looks at nothing that passes
/// through: whatever the transform may return on `config` is returned.
pub fn invoke<F>(config: Config, transform: F) -> (result: Result<Output, Diagnostics>) where
    F: FnOnce(Config) -> Result<Output, Diagnostics>,

    requires
        transform.requires((config,)),
    ensures
        transform.ensures((config,), result),
{
    transform(config)
}

} // verus!
