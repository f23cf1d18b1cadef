//! Context and namespace switching for cluster configuration files: the
//! catalog of installed contexts, the composition of a single-context
//! configuration, linting, deletion, and the history kept per shell and per
//! machine.

pub mod cmd;
pub mod error;
pub mod kubeconfig;
pub mod kubectl;
pub mod pairs;
pub mod paths;
pub mod search;
pub mod session;
pub mod settings;
pub mod shell;
pub mod sorting;
pub mod state;
pub mod text;
pub mod vars;
pub mod wildcard;
pub mod yaml;
