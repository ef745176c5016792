//! A named-command resolution service: maps a context-server identifier to
//! the launch specification (executable, arguments, environment overrides)
//! needed to start that server, or reports the identifier as unknown.

pub mod launch;
pub mod registry;
pub mod resolver;

pub use launch::LaunchSpec;
pub use launch::LaunchSpecView;
pub use launch::ResolutionError;
pub use resolver::resolve;
