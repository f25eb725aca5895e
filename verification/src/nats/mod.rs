//! The NATS side: its configuration, and the subjects jobs are published
//! under.

pub mod config;
pub mod error;
pub mod jetstream;

use crate::nats::config::{config_valid, default_config_view, Config, ConfigView};
use vstd::prelude::*;

verus! {

/// The configuration in use: the one read from the configuration sources
/// when it could be read and is valid, the default one otherwise.
pub fn nats_config(loaded: Option<Config>) -> (c: Config)
    ensures
        c@ == match loaded {
            Some(l) => if config_valid(l@) {
                l@
            } else {
                default_config_view()
            },
            None => default_config_view(),
        },
{
    match loaded {
        Some(raw) => match Config::load(raw) {
            Ok(c) => c,
            Err(_) => Config::default(),
        },
        None => Config::default(),
    }
}

} // verus!
