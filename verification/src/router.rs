//! The command router: one execution routine per command variant, and an
//! exhaustive dispatch over the tagged union.
//!
//! A routine that launches services produces a launch plan: at most one
//! transport directive (none for the protocol front end, which only needs
//! the remote addresses of its peers), the selected service entry together
//! with the configuration groups forwarded to it, and entry into the
//! shutdown race. Wallet creation is synchronous: no transport, no
//! completion, no race — it only resolves its output path.

use vstd::prelude::*;

use crate::address::Address;
use crate::config::{
    BundlerCommand, BundlerOptions, BundlingCommand, CommandSpec, CreateWalletCommand,
    PoolOptions, RpcCommand, RpcOptions, SharedOptions, UoPoolCommand,
};
use crate::errors::ConfigError;
use crate::paths::unwrap_path_or_home;
use crate::transport::{select_transport_kind, spec_transport_kind, TransportKind};
use crate::uint256::Uint256;

verus! {

/// The one connection a command execution may open: its endpoint and the
/// transport kind that endpoint selects.
#[derive(Clone, PartialEq, Eq, Debug)]
pub struct TransportPlan {
    pub endpoint: String,
    pub kind: TransportKind,
}

impl TransportPlan {
    /// The kind always agrees with the endpoint's scheme prefix.
    pub open spec fn wf(&self) -> bool {
        self.kind == spec_transport_kind(self.endpoint@)
    }
}

/// Which service entry the launch invokes, with the configuration groups
/// forwarded to it. The entries themselves are external collaborators; this
/// layer fixes exactly what each one receives.
#[derive(Clone, PartialEq, Eq, Debug)]
pub enum ServiceLaunch {
    /// The combined instance receives every option group.
    AllComponents {
        bundler: BundlerOptions,
        uopool: PoolOptions,
        common: SharedOptions,
        rpc: RpcOptions,
    },
    /// The bundling engine receives its own options, the chain, the
    /// entry-point addresses and the pool front end's remote address.
    BundlingOnly {
        bundler: BundlerOptions,
        chain: Uint256,
        entry_points: Vec<Address>,
        uopool_grpc_listen_address: String,
    },
    /// The pending-operation pool receives its own options, the chain and
    /// the entry-point addresses.
    PoolOnly { uopool: PoolOptions, chain: Uint256, entry_points: Vec<Address> },
    /// The protocol front end receives its own options and the remote
    /// addresses of its two peer services.
    RpcFrontEnd {
        rpc: RpcOptions,
        uopool_grpc_listen_address: String,
        bundler_grpc_listen_address: String,
    },
}

/// What a long-running command does: resolve at most one transport, invoke
/// one service entry with its configuration, and enter the shutdown race.
#[derive(Clone, PartialEq, Eq, Debug)]
pub struct LaunchPlan {
    /// At most one connection per command execution.
    pub transport: Option<TransportPlan>,
    pub service: ServiceLaunch,
    /// Launch commands always hand their completion to the shutdown race.
    pub enters_race: bool,
}

impl LaunchPlan {
    pub open spec fn wf(&self) -> bool {
        self.transport matches Some(t) ==> t.wf()
    }
}

/// What wallet creation does: write one wallet under the resolved path,
/// returning directly to the caller.
#[derive(Clone, PartialEq, Eq, Debug)]
pub struct WalletPlan {
    pub output_path: String,
    pub chain_id: Uint256,
}

/// The action a dispatched command asks its caller to perform.
#[derive(Clone, PartialEq, Eq, Debug)]
pub enum Directive {
    /// Launch services and race their completion against shutdown signals.
    Launch(LaunchPlan),
    /// Create a wallet; no transport, no completion, no race.
    Wallet(WalletPlan),
}

impl BundlerCommand {
    /// Plans the combined launch: one transport to the shared endpoint and
    /// exactly one combined service instance, handed every option group.
    pub fn execute(self) -> (p: LaunchPlan)
        ensures
            p.wf(),
            p.enters_race,
            p.transport matches Some(t) && t.endpoint@ == self.common.eth_client_address@,
            p.service matches ServiceLaunch::AllComponents { bundler, uopool, common, rpc }
                && bundler == self.bundler && uopool == self.uopool && common == self.common
                && rpc == self.rpc,
    {
        let endpoint = self.common.eth_client_address.clone();
        let kind = select_transport_kind(endpoint.as_str());
        LaunchPlan {
            transport: Some(TransportPlan { endpoint, kind }),
            service: ServiceLaunch::AllComponents {
                bundler: self.bundler,
                uopool: self.uopool,
                common: self.common,
                rpc: self.rpc,
            },
            enters_race: true,
        }
    }
}

impl BundlingCommand {
    /// Plans the bundling-engine launch: one transport to the shared
    /// endpoint, and the engine handed its options, the chain, the
    /// entry-point addresses and the pool front end's address.
    pub fn execute(self) -> (p: LaunchPlan)
        ensures
            p.wf(),
            p.enters_race,
            p.transport matches Some(t) && t.endpoint@ == self.common.eth_client_address@,
            p.service matches ServiceLaunch::BundlingOnly {
                bundler,
                chain,
                entry_points,
                uopool_grpc_listen_address,
            } && bundler == self.bundler && chain == self.common.chain && entry_points
                == self.common.entry_points && uopool_grpc_listen_address
                == self.uopool_grpc_listen_address,
    {
        let kind = select_transport_kind(self.common.eth_client_address.as_str());
        let SharedOptions { eth_client_address, chain, entry_points } = self.common;
        LaunchPlan {
            transport: Some(TransportPlan { endpoint: eth_client_address, kind }),
            service: ServiceLaunch::BundlingOnly {
                bundler: self.bundler,
                chain,
                entry_points,
                uopool_grpc_listen_address: self.uopool_grpc_listen_address,
            },
            enters_race: true,
        }
    }
}

impl UoPoolCommand {
    /// Plans the pool launch: one transport to the shared endpoint, and the
    /// pool handed its options, the chain and the entry-point addresses.
    pub fn execute(self) -> (p: LaunchPlan)
        ensures
            p.wf(),
            p.enters_race,
            p.transport matches Some(t) && t.endpoint@ == self.common.eth_client_address@,
            p.service matches ServiceLaunch::PoolOnly { uopool, chain, entry_points } && uopool
                == self.uopool && chain == self.common.chain && entry_points
                == self.common.entry_points,
    {
        let kind = select_transport_kind(self.common.eth_client_address.as_str());
        let SharedOptions { eth_client_address, chain, entry_points } = self.common;
        LaunchPlan {
            transport: Some(TransportPlan { endpoint: eth_client_address, kind }),
            service: ServiceLaunch::PoolOnly { uopool: self.uopool, chain, entry_points },
            enters_race: true,
        }
    }
}

impl RpcCommand {
    /// Plans the front-end launch: no connection of its own — the front end
    /// is handed its options and the remote addresses of its two peers — but
    /// it still enters the shutdown race.
    pub fn execute(self) -> (p: LaunchPlan)
        ensures
            p.wf(),
            p.enters_race,
            p.transport is None,
            p.service matches ServiceLaunch::RpcFrontEnd {
                rpc,
                uopool_grpc_listen_address,
                bundler_grpc_listen_address,
            } && rpc == self.rpc && uopool_grpc_listen_address == self.uopool_grpc_listen_address
                && bundler_grpc_listen_address == self.bundler_grpc_listen_address,
    {
        LaunchPlan {
            transport: None,
            service: ServiceLaunch::RpcFrontEnd {
                rpc: self.rpc,
                uopool_grpc_listen_address: self.uopool_grpc_listen_address,
                bundler_grpc_listen_address: self.bundler_grpc_listen_address,
            },
            enters_race: true,
        }
    }
}

impl CreateWalletCommand {
    /// Resolves the wallet plan synchronously: the explicit output path, or
    /// the fixed subdirectory of the home directory when none was given.
    /// Never produces a transport or a completion.
    pub fn execute(self) -> (r: Result<WalletPlan, ConfigError>)
        ensures
            self.create_wallet.output_path is Some ==> r is Ok,
            r matches Ok(w) ==> (self.create_wallet.output_path matches Some(p) ==> w.output_path@
                == p@),
            r matches Ok(w) ==> (self.create_wallet.output_path is None ==> exists|h: Seq<char>|
                w.output_path@ == h + "/.silius"@),
            r matches Ok(w) ==> w.chain_id == self.create_wallet.chain_id,
            r is Err ==> self.create_wallet.output_path is None && r
                == Result::<WalletPlan, ConfigError>::Err(ConfigError::NoHomeDirectory),
    {
        let output_path = match unwrap_path_or_home(self.create_wallet.output_path) {
            Ok(p) => p,
            Err(e) => {
                return Err(e);
            },
        };
        Ok(WalletPlan { output_path, chain_id: self.create_wallet.chain_id })
    }
}

/// Exhaustive dispatch over the command variants; every variant is handled,
/// each launch plan forwards exactly the variant's configuration groups, and
/// only wallet creation escapes the launch-and-race shape.
pub fn dispatch(cmd: CommandSpec) -> (r: Result<Directive, ConfigError>)
    ensures
        cmd matches CommandSpec::StartAll(c) ==> (r matches Ok(Directive::Launch(p)) && p.wf()
            && p.enters_race && (p.transport matches Some(t) && t.endpoint@
            == c.common.eth_client_address@) && (p.service matches ServiceLaunch::AllComponents {
            bundler,
            uopool,
            common,
            rpc,
        } && bundler == c.bundler && uopool == c.uopool && common == c.common && rpc == c.rpc)),
        cmd matches CommandSpec::StartBundling(c) ==> (r matches Ok(Directive::Launch(p)) && p.wf()
            && p.enters_race && (p.transport matches Some(t) && t.endpoint@
            == c.common.eth_client_address@) && (p.service matches ServiceLaunch::BundlingOnly {
            bundler,
            chain,
            entry_points,
            uopool_grpc_listen_address,
        } && bundler == c.bundler && chain == c.common.chain && entry_points
            == c.common.entry_points && uopool_grpc_listen_address
            == c.uopool_grpc_listen_address)),
        cmd matches CommandSpec::StartPool(c) ==> (r matches Ok(Directive::Launch(p)) && p.wf()
            && p.enters_race && (p.transport matches Some(t) && t.endpoint@
            == c.common.eth_client_address@) && (p.service matches ServiceLaunch::PoolOnly {
            uopool,
            chain,
            entry_points,
        } && uopool == c.uopool && chain == c.common.chain && entry_points
            == c.common.entry_points)),
        cmd matches CommandSpec::StartRpc(c) ==> (r matches Ok(Directive::Launch(p)) && p.wf()
            && p.enters_race && p.transport is None && (
        p.service matches ServiceLaunch::RpcFrontEnd {
            rpc,
            uopool_grpc_listen_address,
            bundler_grpc_listen_address,
        } && rpc == c.rpc && uopool_grpc_listen_address == c.uopool_grpc_listen_address
            && bundler_grpc_listen_address == c.bundler_grpc_listen_address)),
        cmd is CreateWallet ==> !(r matches Ok(Directive::Launch(_))),
        cmd matches CommandSpec::CreateWallet(c) ==> (r matches Ok(Directive::Wallet(w)) ==> (
        c.create_wallet.output_path matches Some(p) ==> w.output_path@ == p@)
            && (c.create_wallet.output_path is None ==> exists|h: Seq<char>| w.output_path@ == h
            + "/.silius"@) && w.chain_id == c.create_wallet.chain_id),
        cmd matches CommandSpec::CreateWallet(c) ==> (r is Err <==> c.create_wallet.output_path
            is None && r == Result::<Directive, ConfigError>::Err(ConfigError::NoHomeDirectory)),
        r is Err ==> cmd is CreateWallet,
{
    match cmd {
        CommandSpec::StartAll(c) => Ok(Directive::Launch(c.execute())),
        CommandSpec::StartBundling(c) => Ok(Directive::Launch(c.execute())),
        CommandSpec::StartPool(c) => Ok(Directive::Launch(c.execute())),
        CommandSpec::StartRpc(c) => Ok(Directive::Launch(c.execute())),
        CommandSpec::CreateWallet(c) => match c.execute() {
            Ok(w) => Ok(Directive::Wallet(w)),
            Err(e) => Err(e),
        },
    }
}

} // verus!
