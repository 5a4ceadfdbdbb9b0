//! Preparing and supervising a Tendermint node: key generation and
//! addresses, the node's configuration and genesis documents, the layout of
//! its working directory, and the decisions of its lifecycle.
pub mod config;
pub mod crypto;
pub mod datetime;
pub mod defined;
pub mod duration;
pub mod error;
pub mod genesis;
pub mod model;
pub mod supervisor;
pub mod text;

pub use config::Config;
pub use crypto::{AlgorithmType, Keypair, PublicKey, SecretKey};
pub use datetime::{fmt_as_rfc3339_nanos, to_rfc3339_nanos, DateTime};
pub use duration::Duration;
pub use error::Error;
pub use genesis::{ExampleAppState, Genesis};
pub use supervisor::{Action, Lifecycle, Request, StartPlan, WorkDir};
