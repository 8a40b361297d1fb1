//! The settings of an application.

use vstd::prelude::*;

verus! {

/// The settings of an application. There is none yet.
#[derive(Clone, Copy, Debug, PartialEq, Eq, Structural)]
pub struct AppConfig {}

impl Default for AppConfig {
    fn default() -> (config: AppConfig)
        ensures
            config == (AppConfig {  }),
    {
        AppConfig {  }
    }
}

} // verus!
