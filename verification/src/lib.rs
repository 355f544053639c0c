//! Verified command-dispatch core for an account-abstraction bundler node.
//!
//! The crate models the start-up layer of the node: typed configuration is
//! parsed out of the process arguments, a transport to the remote execution
//! node is selected from the endpoint scheme, the requested services are
//! wired into a launch plan, and the shutdown race maps the first observed
//! event to the command's outcome.

mod address;
mod args;
mod config;
mod errors;
mod modes;
mod paths;
mod router;
mod shutdown;
mod strutil;
mod transport;
mod uint256;

pub use address::{parse_address, parse_address_list, Address};
pub use args::{parse_arguments, CommandKind};
pub use config::{
    BundlerCommand, BundlerOptions, BundlingCommand, CommandSpec, CreateWalletCommand,
    PoolOptions, RpcCommand, RpcOptions, SharedOptions, UoPoolCommand, WalletOptions,
};
pub use errors::{ConfigError, Field, TransportError};
pub use modes::{parse_send_bundle_mode, parse_uopool_mode, SendBundleMode, UoPoolMode};
pub use paths::{join_silius_dir, unwrap_path_or_home};
pub use router::{dispatch, Directive, LaunchPlan, ServiceLaunch, TransportPlan, WalletPlan};
pub use shutdown::{exit_status, race_outcome, RaceEvent, ShutdownSignal};
pub use strutil::str_eq;
pub use transport::{
    create_http_provider, select_transport_kind, streaming_handshake_outcome, TransportKind,
};
pub use uint256::{parse_u256, Uint256};
