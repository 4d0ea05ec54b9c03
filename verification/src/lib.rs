//! A fluent builder for configuring and invoking the `npm` package manager.
//!
//! [`NpmEnv`] accumulates environment variables and a working directory for
//! the child process; [`NpmEnv::init_env`] freezes that configuration into an
//! [`Npm`] command builder, which queues sub-commands (`install`, `uninstall`,
//! `update`, `run`, custom ones) and finally assembles them into a single
//! shell invocation joined by `" && "`, so that a later sub-command runs only
//! if every earlier one succeeded.
//!
//! The process-spawning boundary itself lies outside this library:
//! [`Npm::exec`] returns the fully assembled [`Invocation`], and the caller
//! spawns it.

mod env;
mod fragment;
mod npm;

pub use env::env_map_of;
pub use env::lemma_clear_then_set_single;
pub use env::lemma_remove_key_map;
pub use env::lemma_set_then_remove_absent;
pub use env::remove_key;
pub use env::EnvModel;
pub use env::NodeEnv;
pub use env::NpmEnv;
pub use fragment::join_with;
pub use fragment::lemma_join_with_push;
pub use fragment::npm_fragment;
pub use fragment::opt_args;
pub use npm::Invocation;
pub use npm::Npm;
pub use npm::NpmModel;
