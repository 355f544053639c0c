//! The typed configuration a command carries: immutable option groups and
//! the tagged union over the five command variants.

use vstd::prelude::*;

use crate::address::Address;
use crate::modes::{SendBundleMode, UoPoolMode};
use crate::uint256::Uint256;

verus! {

/// Options shared by every service that talks to the execution node.
#[derive(Clone, PartialEq, Eq, Debug)]
pub struct SharedOptions {
    /// Endpoint of the remote execution node; non-empty.
    pub eth_client_address: String,
    /// Chain identifier.
    pub chain: Uint256,
    /// Entry-point contract addresses.
    pub entry_points: Vec<Address>,
}

/// Mathematical model of `SharedOptions`.
pub struct SharedOptionsView {
    pub eth_client_address: Seq<char>,
    pub chain: nat,
    pub entry_points: Seq<Seq<u8>>,
}

impl View for SharedOptions {
    type V = SharedOptionsView;

    open spec fn view(&self) -> SharedOptionsView {
        SharedOptionsView {
            eth_client_address: self.eth_client_address@,
            chain: self.chain@,
            entry_points: self.entry_points.deep_view(),
        }
    }
}

/// Options of the bundling engine.
#[derive(Clone, Copy, PartialEq, Eq, Structural, Debug)]
pub struct BundlerOptions {
    /// How assembled bundles are submitted.
    pub send_bundle_mode: SendBundleMode,
}

/// Options of the pending-operation pool.
#[derive(Clone, PartialEq, Eq, Debug)]
pub struct PoolOptions {
    /// How strictly entries are validated.
    pub uopool_mode: UoPoolMode,
    /// Explicit working directory, when one was supplied.
    pub datadir: Option<String>,
}

/// Mathematical model of `PoolOptions`.
pub struct PoolOptionsView {
    pub uopool_mode: UoPoolMode,
    pub datadir: Option<Seq<char>>,
}

impl View for PoolOptions {
    type V = PoolOptionsView;

    open spec fn view(&self) -> PoolOptionsView {
        PoolOptionsView { uopool_mode: self.uopool_mode, datadir: self.datadir.deep_view() }
    }
}

/// Options of the remote-procedure front end.
#[derive(Clone, PartialEq, Eq, Debug)]
pub struct RpcOptions {
    /// Address the front end listens on.
    pub listen_address: String,
}

/// Mathematical model of `RpcOptions`.
pub struct RpcOptionsView {
    pub listen_address: Seq<char>,
}

impl View for RpcOptions {
    type V = RpcOptionsView;

    open spec fn view(&self) -> RpcOptionsView {
        RpcOptionsView { listen_address: self.listen_address@ }
    }
}

/// Options of wallet creation.
#[derive(Clone, PartialEq, Eq, Debug)]
pub struct WalletOptions {
    /// Explicit output path, when one was supplied.
    pub output_path: Option<String>,
    /// Chain the wallet is created for.
    pub chain_id: Uint256,
}

/// Mathematical model of `WalletOptions`.
pub struct WalletOptionsView {
    pub output_path: Option<Seq<char>>,
    pub chain_id: nat,
}

impl View for WalletOptions {
    type V = WalletOptionsView;

    open spec fn view(&self) -> WalletOptionsView {
        WalletOptionsView {
            output_path: self.output_path.deep_view(),
            chain_id: self.chain_id@,
        }
    }
}

/// Start the node with all components: bundling engine, pending-operation
/// pool and remote-procedure front end.
#[derive(Clone, PartialEq, Eq, Debug)]
pub struct BundlerCommand {
    pub bundler: BundlerOptions,
    pub uopool: PoolOptions,
    pub common: SharedOptions,
    pub rpc: RpcOptions,
}

/// Mathematical model of `BundlerCommand`.
pub struct BundlerCommandView {
    pub bundler: BundlerOptions,
    pub uopool: PoolOptionsView,
    pub common: SharedOptionsView,
    pub rpc: RpcOptionsView,
}

impl View for BundlerCommand {
    type V = BundlerCommandView;

    open spec fn view(&self) -> BundlerCommandView {
        BundlerCommandView {
            bundler: self.bundler,
            uopool: self.uopool@,
            common: self.common@,
            rpc: self.rpc@,
        }
    }
}

/// Start the bundling engine alone.
#[derive(Clone, PartialEq, Eq, Debug)]
pub struct BundlingCommand {
    pub bundler: BundlerOptions,
    pub common: SharedOptions,
    /// Address of the pending-operation pool front end.
    pub uopool_grpc_listen_address: String,
}

/// Mathematical model of `BundlingCommand`.
pub struct BundlingCommandView {
    pub bundler: BundlerOptions,
    pub common: SharedOptionsView,
    pub uopool_grpc_listen_address: Seq<char>,
}

impl View for BundlingCommand {
    type V = BundlingCommandView;

    open spec fn view(&self) -> BundlingCommandView {
        BundlingCommandView {
            bundler: self.bundler,
            common: self.common@,
            uopool_grpc_listen_address: self.uopool_grpc_listen_address@,
        }
    }
}

/// Start the pending-operation pool alone.
#[derive(Clone, PartialEq, Eq, Debug)]
pub struct UoPoolCommand {
    pub uopool: PoolOptions,
    pub common: SharedOptions,
}

/// Mathematical model of `UoPoolCommand`.
pub struct UoPoolCommandView {
    pub uopool: PoolOptionsView,
    pub common: SharedOptionsView,
}

impl View for UoPoolCommand {
    type V = UoPoolCommandView;

    open spec fn view(&self) -> UoPoolCommandView {
        UoPoolCommandView { uopool: self.uopool@, common: self.common@ }
    }
}

/// Start the remote-procedure front end alone; it needs only the remote
/// addresses of its peer services, no connection of its own.
#[derive(Clone, PartialEq, Eq, Debug)]
pub struct RpcCommand {
    pub rpc: RpcOptions,
    /// Address of the pending-operation pool front end.
    pub uopool_grpc_listen_address: String,
    /// Address of the bundling front end.
    pub bundler_grpc_listen_address: String,
}

/// Mathematical model of `RpcCommand`.
pub struct RpcCommandView {
    pub rpc: RpcOptionsView,
    pub uopool_grpc_listen_address: Seq<char>,
    pub bundler_grpc_listen_address: Seq<char>,
}

impl View for RpcCommand {
    type V = RpcCommandView;

    open spec fn view(&self) -> RpcCommandView {
        RpcCommandView {
            rpc: self.rpc@,
            uopool_grpc_listen_address: self.uopool_grpc_listen_address@,
            bundler_grpc_listen_address: self.bundler_grpc_listen_address@,
        }
    }
}

/// Create a wallet for the bundling engine; synchronous, no transport, no
/// shutdown race.
#[derive(Clone, PartialEq, Eq, Debug)]
pub struct CreateWalletCommand {
    pub create_wallet: WalletOptions,
}

/// Mathematical model of `CreateWalletCommand`.
pub struct CreateWalletCommandView {
    pub create_wallet: WalletOptionsView,
}

impl View for CreateWalletCommand {
    type V = CreateWalletCommandView;

    open spec fn view(&self) -> CreateWalletCommandView {
        CreateWalletCommandView { create_wallet: self.create_wallet@ }
    }
}

/// The tagged union over the command variants; mutually exclusive and
/// exhaustively handled by `dispatch`.
#[derive(Clone, PartialEq, Eq, Debug)]
pub enum CommandSpec {
    StartAll(BundlerCommand),
    StartBundling(BundlingCommand),
    StartPool(UoPoolCommand),
    StartRpc(RpcCommand),
    CreateWallet(CreateWalletCommand),
}

/// Mathematical model of `CommandSpec`.
pub enum CommandSpecView {
    StartAll(BundlerCommandView),
    StartBundling(BundlingCommandView),
    StartPool(UoPoolCommandView),
    StartRpc(RpcCommandView),
    CreateWallet(CreateWalletCommandView),
}

impl View for CommandSpec {
    type V = CommandSpecView;

    open spec fn view(&self) -> CommandSpecView {
        match self {
            CommandSpec::StartAll(c) => CommandSpecView::StartAll(c@),
            CommandSpec::StartBundling(c) => CommandSpecView::StartBundling(c@),
            CommandSpec::StartPool(c) => CommandSpecView::StartPool(c@),
            CommandSpec::StartRpc(c) => CommandSpecView::StartRpc(c@),
            CommandSpec::CreateWallet(c) => CommandSpecView::CreateWallet(c@),
        }
    }
}

} // verus!
