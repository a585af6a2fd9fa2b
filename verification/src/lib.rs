//! The native module of StreamQ: keybinds, media sessions, audio devices,
//! window effects and overlay widgets, as verified logic. The host-facing
//! bindings and the calls into the operating system stand around it.
use vstd::prelude::*;
use crate::config::Config;
use crate::event_emitter::{EventKind, event_kind, spec_event_kind};

pub mod text;
pub mod input_codes;
pub mod config;
pub mod error;
pub mod models;
pub mod thumbnails;
pub mod platforms;
pub mod api;
pub mod event_emitter;

verus! {

/// The module as the host holds it: its configuration, and whether the log
/// stream was already handed out.
pub struct StreamQNative {
    config: Config,
    logger_attached: bool,
}

/// The log filter of the module's own target: debug level when debugging,
/// info otherwise.
pub open spec fn spec_log_filter(debug: bool) -> Seq<char> {
    if debug { "streamq_native=DEBUG"@ } else { "streamq_native=INFO"@ }
}

impl StreamQNative {
    pub closed spec fn spec_config(self) -> Config {
        self.config
    }

    pub closed spec fn spec_logger_attached(self) -> bool {
        self.logger_attached
    }

    pub fn new(config: Config) -> (r: StreamQNative)
        ensures
            r.spec_config() == config,
            !r.spec_logger_attached(),
    {
        StreamQNative { config, logger_attached: false }
    }

    pub fn config(&self) -> (r: &Config)
        ensures
            *r == self.spec_config(),
    {
        &self.config
    }

    /// The log filter used when the environment sets none.
    pub fn log_filter(&self) -> (r: String)
        ensures
            r@ == spec_log_filter(self.spec_config().debug),
    {
        if self.config.debug {
            "streamq_native=DEBUG".to_owned()
        } else {
            "streamq_native=INFO".to_owned()
        }
    }

    /// Hands out the log stream, once: a second request is refused.
    pub fn attach_logger(&mut self) -> (r: Result<(), String>)
        ensures
            r is Ok <==> !old(self).spec_logger_attached(),
            r matches Err(m) ==> m@ == "Logger already attached"@,
            final(self).spec_logger_attached(),
            final(self).spec_config() == old(self).spec_config(),
    {
        if self.logger_attached {
            Err("Logger already attached".to_owned())
        } else {
            self.logger_attached = true;
            Ok(())
        }
    }

    /// The kind of event a listener registered under `ev` receives; none when
    /// no event has that name (the listener is then ignored).
    pub fn on(&self, ev: &str) -> (r: Option<EventKind>)
        ensures
            r == spec_event_kind(ev@),
    {
        event_kind(ev)
    }
}

} // verus!
