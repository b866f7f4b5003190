use vstd::prelude::*;

use crate::config::{answers, checks_fit, config_outcome, validate_outcome, BridgeConfig, ConfigView};
use crate::paths::FileAnswer;
use crate::error::{BridgeError, ErrorView};

verus! {

/// A validated configuration, ready to run.
#[derive(Debug)]
pub struct Bridge {
    config: BridgeConfig,
}

impl View for Bridge {
    type V = ConfigView;

    closed spec fn view(&self) -> ConfigView {
        self.config@
    }
}

pub open spec fn bridge_outcome(r: Result<Bridge, BridgeError>) -> Result<ConfigView, ErrorView> {
    match r {
        Ok(b) => Ok(b@),
        Err(e) => Err(e@),
    }
}

impl Clone for Bridge {
    fn clone(&self) -> (r: Self)
        ensures
            r@ == self@,
    {
        Bridge { config: self.config.clone() }
    }
}

impl Bridge {
    /// Builds a bridge from a configuration, which it validates first.
    pub fn from_config(config: BridgeConfig) -> (res: Result<Bridge, BridgeError>)
        ensures
            exists|checks: Seq<Option<FileAnswer>>|
                checks_fit(config@.channels, checks) && bridge_outcome(res) == validate_outcome(
                    config@,
                    answers(checks),
                ),
    {
        match config.validate() {
            Ok(config) => Ok(Bridge { config }),
            Err(e) => Err(e),
        }
    }

    /// The validated configuration.
    pub fn config(&self) -> (c: &BridgeConfig)
        ensures
            c@ == self@,
    {
        &self.config
    }

    /// Gives up the bridge for its validated configuration.
    pub fn into_config(self) -> (c: BridgeConfig)
        ensures
            c@ == self@,
    {
        self.config
    }
}

} // verus!
