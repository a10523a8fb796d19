//! Launching a native site plugin as a network server: the decisions that
//! validate a launch request, derive and vet the plugin path, order the
//! outside steps, and report one status text per attempt.
pub mod form;
pub mod launch;
pub mod outcome;
pub mod plugin_path;
pub mod request;
pub mod status;
