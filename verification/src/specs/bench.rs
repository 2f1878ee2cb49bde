use vstd::prelude::*;

use crate::strings::clone_opt_string;

verus! {

/// Optional benchmark sinks: a path pattern per stopwatch channel, each
/// independently optional.
pub struct BenchSpec {
    pub iterations: Option<String>,
    pub tracing: Option<String>,
    pub synthesis: Option<String>,
    pub setup: Option<String>,
}

impl Clone for BenchSpec {
    fn clone(&self) -> (r: Self)
        ensures
            r == *self,
    {
        BenchSpec {
            iterations: clone_opt_string(&self.iterations),
            tracing: clone_opt_string(&self.tracing),
            synthesis: clone_opt_string(&self.synthesis),
            setup: clone_opt_string(&self.setup),
        }
    }
}

} // verus!
