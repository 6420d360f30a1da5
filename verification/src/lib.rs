//! agproc — dev-time process manager for AI agents and humans.
//!
//! The library holds what agproc decides: how a configuration is read and
//! checked, what a session of a service does about everything that can happen to
//! it, what is written to which log, and what each command says. It performs no
//! I/O of its own: it is told what was seen and answers with what to do.

pub mod bytes;
pub mod cli;
pub mod cmd;
pub mod config;
pub mod config_laws;
pub mod env_laws;
pub mod envfile;
pub mod envmap;
pub mod exit;
pub mod lines;
pub mod lock;
pub mod logstore;
pub mod logstore_laws;
pub mod paths;
pub mod port;
pub mod probe;
pub mod probe_laws;
pub mod proc;
pub mod procinfo;
pub mod runner;
pub mod runner_laws;
pub mod scan;
pub mod service_laws;
pub mod session_laws;
pub mod state;
pub mod step_laws;
pub mod supervise;
pub mod supervise_laws;
pub mod system_laws;
pub mod text;
pub mod text_laws;
pub mod util;
pub mod view_laws;
