//! Harness support for running components as standalone executables.
//!
//! A component that implements the [`Standalone`] trait can be wrapped
//! into an executable with uniform startup, configuration discovery,
//! logging bootstrap, and signal-driven shutdown.  This crate holds the
//! lifecycle state machine ([`engine`]), the shutdown-notification
//! accounting ([`notify`]), the signal-handler decision logic
//! ([`signal`]), and the configuration-search order ([`config`]).  The
//! surrounding process plumbing (file reads, logger backends, the
//! actual OS signal registration) is left to the embedding executable,
//! which drives the state machine and performs the actions it emits.

use vstd::prelude::*;

pub mod config;
pub mod engine;
pub mod notify;
pub mod signal;

verus! {

/// Capabilities a component must provide in order to be run as a
/// standalone executable.
///
/// Each lifecycle phase either succeeds with a value plus a cleanup
/// token, or fails while still producing a cleanup token, so that
/// resources acquired before a failure can always be released: `create`
/// yields a [`CreateCleanup`](Standalone::CreateCleanup) in both arms,
/// and `run` yields a [`RunCleanup`](Standalone::RunCleanup) on success
/// or a [`RunErrorCleanup`](Standalone::RunErrorCleanup) on failure.
/// The tokens are opaque to the harness; it only threads them into the
/// matching shutdown call.
pub trait Standalone: Sized {
    /// Type of configuration objects.
    type Config;

    /// Type of cleanup tokens from [`create`](Standalone::create).
    type CreateCleanup;

    /// Type of cleanup tokens from a successful [`run`](Standalone::run).
    type RunCleanup;

    /// Type of cleanup tokens from a failed [`run`](Standalone::run).
    type RunErrorCleanup;

    /// Name of the standalone component.
    fn component_name() -> String;

    /// Possible names of component configuration files, in order of
    /// preference.
    fn config_file_names() -> Vec<String>;

    /// Possible names of logging configuration files, in order of
    /// preference.  Defaults to the single entry
    /// `constellation-log.yaml`.
    fn log_config_file_names() -> (names: Vec<String>) {
        crate::config::default_log_config_files()
    }

    /// Create an instance of the component from a configuration.
    ///
    /// On failure, the returned cleanup token still describes whatever
    /// was acquired before the failure.
    fn create(
        config: Self::Config,
    ) -> Result<(Self, Self::CreateCleanup), Self::CreateCleanup>;

    /// Entrypoint for the component.
    fn run(self) -> Result<Self::RunCleanup, Self::RunErrorCleanup>;

    /// Shut down the component and clean up any resources.
    fn shutdown(create: Self::CreateCleanup, run: Option<Self::RunCleanup>);

    /// Shut down the component and clean up any resources in the event
    /// of an error during [`run`](Standalone::run).
    fn shutdown_err(create: Self::CreateCleanup, run: Self::RunErrorCleanup);
}

} // verus!
