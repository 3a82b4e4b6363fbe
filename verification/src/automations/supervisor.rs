//! The settings of the loop that dispatches due wakeups.

use vstd::prelude::*;

verus! {

/// How often a supervisor looks for due wakeups.
#[derive(Debug, Clone, Copy)]
pub struct SupervisorConfig {
    pub poll_interval_millis: u64,
}

impl Default for SupervisorConfig {
    fn default() -> (config: Self)
        ensures
            config.poll_interval_millis == 250,
    {
        SupervisorConfig { poll_interval_millis: 250 }
    }
}

}
