//! Verified core of a tool that installs a package into a throw-away
//! directory, runs its executable once and relays the exit status.
//!
//! - [`name`]: the package-name grammar checked before anything is done.
//! - [`locate`]: file stems and the first-match search of the install's `bin/`.
//! - [`pipeline`]: the session, a state machine from reported events to
//!   requested actions.
//! - [`laws`]: properties of sessions proved from the transition relation.

pub mod laws;
pub mod locate;
pub mod name;
pub mod pipeline;
