//! The exit code contract: the whole interface the surrounding shell
//! depends on. A healthy target exits 0, an unhealthy one exits 1, and a
//! run that could not form a verdict — invalid configuration or hard probe
//! failure — exits 2. No other code is produced.

use vstd::prelude::*;

use crate::configuration::InvalidConfiguration;
use crate::health_checker::{HeathcheckFailure, State};

verus! {

/// Conversion of a run's final result into the process exit status.
pub trait ExitCode {
    /// The exit code this value maps to.
    spec fn exit_code_spec(&self) -> i32;

    fn to_exit_code(&self) -> (r: i32)
        ensures
            r == self.exit_code_spec(),
    ;
}

impl ExitCode for Result<State, HeathcheckFailure> {
    open spec fn exit_code_spec(&self) -> i32 {
        match self {
            Result::Ok(state) => match state {
                State::Healthy => 0,
                State::Unhealthy(_) => 1,
            },
            Result::Err(_) => 2,
        }
    }

    fn to_exit_code(&self) -> (r: i32) {
        match self {
            Result::Ok(state) => match state {
                State::Healthy => 0,
                State::Unhealthy(_) => 1,
            },
            Result::Err(_) => 2,
        }
    }
}

impl ExitCode for Result<State, InvalidConfiguration> {
    open spec fn exit_code_spec(&self) -> i32 {
        match self {
            Result::Ok(state) => match state {
                State::Healthy => 0,
                State::Unhealthy(_) => 1,
            },
            Result::Err(_) => 2,
        }
    }

    fn to_exit_code(&self) -> (r: i32) {
        match self {
            Result::Ok(state) => match state {
                State::Healthy => 0,
                State::Unhealthy(_) => 1,
            },
            Result::Err(_) => 2,
        }
    }
}

} // verus!
