//! Start-up core of a desktop launcher: it finds the runtime root of a local
//! backend service, decides whether its environment must be installed, builds
//! the commands that install and start it, owns the started process, and
//! decides when the service answers.
pub mod path;
pub mod fs;
pub mod platform;
pub mod resolve;
pub mod command;
pub mod supervisor;
pub mod probe;
pub mod logs;
pub mod launch;
