//! The argument model: a pure function from the process arguments to a
//! `CommandSpec` or a `ConfigError` naming the offending field.
//!
//! The grammar is one command token followed by `--flag value` pairs. Each
//! command accepts a fixed flag set; a flag may appear at most once; missing
//! required fields and failed validators are reported per field, and
//! unsupplied optional fields take their documented defaults.

use vstd::prelude::*;

use crate::address::{parse_address_list, spec_parse_address_list};
use crate::config::{
    BundlerCommand, BundlerCommandView, BundlerOptions, BundlingCommand, BundlingCommandView,
    CommandSpec, CommandSpecView, CreateWalletCommand, CreateWalletCommandView, PoolOptions,
    PoolOptionsView, RpcCommand, RpcCommandView, RpcOptions, RpcOptionsView, SharedOptions,
    SharedOptionsView, UoPoolCommand, UoPoolCommandView, WalletOptions, WalletOptionsView,
};
use crate::errors::{ConfigError, Field};
use crate::modes::{
    parse_send_bundle_mode, parse_uopool_mode, spec_send_bundle_mode, spec_uopool_mode,
    SendBundleMode, UoPoolMode,
};
use crate::strutil::str_eq;
use crate::uint256::{dec_value, is_valid_uint256, parse_u256, Uint256};

verus! {

/// The five command variants, as named on the command line.
#[derive(Clone, Copy, PartialEq, Eq, Structural, Debug)]
pub enum CommandKind {
    StartAll,
    StartBundling,
    StartPool,
    StartRpc,
    CreateWallet,
}

/// The command a leading token selects.
pub open spec fn spec_command_kind(tok: Seq<char>) -> Option<CommandKind> {
    if tok == "start-all"@ {
        Some(CommandKind::StartAll)
    } else if tok == "start-bundling"@ {
        Some(CommandKind::StartBundling)
    } else if tok == "start-pool"@ {
        Some(CommandKind::StartPool)
    } else if tok == "start-rpc"@ {
        Some(CommandKind::StartRpc)
    } else if tok == "create-wallet"@ {
        Some(CommandKind::CreateWallet)
    } else {
        None
    }
}

fn command_kind(tok: &str) -> (r: Option<CommandKind>)
    ensures
        r == spec_command_kind(tok@),
{
    if str_eq(tok, "start-all") {
        Some(CommandKind::StartAll)
    } else if str_eq(tok, "start-bundling") {
        Some(CommandKind::StartBundling)
    } else if str_eq(tok, "start-pool") {
        Some(CommandKind::StartPool)
    } else if str_eq(tok, "start-rpc") {
        Some(CommandKind::StartRpc)
    } else if str_eq(tok, "create-wallet") {
        Some(CommandKind::CreateWallet)
    } else {
        None
    }
}

/// The field a flag token names.
pub open spec fn spec_flag_field(tok: Seq<char>) -> Option<Field> {
    if tok == "--eth-client-address"@ {
        Some(Field::EthClientAddress)
    } else if tok == "--chain"@ {
        Some(Field::Chain)
    } else if tok == "--entry-points"@ {
        Some(Field::EntryPoints)
    } else if tok == "--send-bundle-mode"@ {
        Some(Field::SendBundleMode)
    } else if tok == "--uopool-mode"@ {
        Some(Field::UoPoolMode)
    } else if tok == "--datadir"@ {
        Some(Field::Datadir)
    } else if tok == "--rpc-listen-address"@ {
        Some(Field::RpcListenAddress)
    } else if tok == "--uopool-grpc-listen-address"@ {
        Some(Field::UoPoolGrpcListenAddress)
    } else if tok == "--bundler-grpc-listen-address"@ {
        Some(Field::BundlerGrpcListenAddress)
    } else if tok == "--out-path"@ {
        Some(Field::OutPath)
    } else if tok == "--chain-id"@ {
        Some(Field::ChainId)
    } else {
        None
    }
}

fn flag_field(tok: &str) -> (r: Option<Field>)
    ensures
        r == spec_flag_field(tok@),
{
    if str_eq(tok, "--eth-client-address") {
        Some(Field::EthClientAddress)
    } else if str_eq(tok, "--chain") {
        Some(Field::Chain)
    } else if str_eq(tok, "--entry-points") {
        Some(Field::EntryPoints)
    } else if str_eq(tok, "--send-bundle-mode") {
        Some(Field::SendBundleMode)
    } else if str_eq(tok, "--uopool-mode") {
        Some(Field::UoPoolMode)
    } else if str_eq(tok, "--datadir") {
        Some(Field::Datadir)
    } else if str_eq(tok, "--rpc-listen-address") {
        Some(Field::RpcListenAddress)
    } else if str_eq(tok, "--uopool-grpc-listen-address") {
        Some(Field::UoPoolGrpcListenAddress)
    } else if str_eq(tok, "--bundler-grpc-listen-address") {
        Some(Field::BundlerGrpcListenAddress)
    } else if str_eq(tok, "--out-path") {
        Some(Field::OutPath)
    } else if str_eq(tok, "--chain-id") {
        Some(Field::ChainId)
    } else {
        None
    }
}

/// The fixed flag set each command accepts.
pub open spec fn kind_accepts(k: CommandKind, f: Field) -> bool {
    match k {
        CommandKind::StartAll => f == Field::EthClientAddress || f == Field::Chain || f
            == Field::EntryPoints || f == Field::SendBundleMode || f == Field::UoPoolMode || f
            == Field::Datadir || f == Field::RpcListenAddress,
        CommandKind::StartBundling => f == Field::EthClientAddress || f == Field::Chain || f
            == Field::EntryPoints || f == Field::SendBundleMode || f
            == Field::UoPoolGrpcListenAddress,
        CommandKind::StartPool => f == Field::EthClientAddress || f == Field::Chain || f
            == Field::EntryPoints || f == Field::UoPoolMode || f == Field::Datadir,
        CommandKind::StartRpc => f == Field::RpcListenAddress || f
            == Field::UoPoolGrpcListenAddress || f == Field::BundlerGrpcListenAddress,
        CommandKind::CreateWallet => f == Field::OutPath || f == Field::ChainId,
    }
}

fn accepts(k: CommandKind, f: Field) -> (r: bool)
    ensures
        r == kind_accepts(k, f),
{
    match k {
        CommandKind::StartAll => f == Field::EthClientAddress || f == Field::Chain || f
            == Field::EntryPoints || f == Field::SendBundleMode || f == Field::UoPoolMode || f
            == Field::Datadir || f == Field::RpcListenAddress,
        CommandKind::StartBundling => f == Field::EthClientAddress || f == Field::Chain || f
            == Field::EntryPoints || f == Field::SendBundleMode || f
            == Field::UoPoolGrpcListenAddress,
        CommandKind::StartPool => f == Field::EthClientAddress || f == Field::Chain || f
            == Field::EntryPoints || f == Field::UoPoolMode || f == Field::Datadir,
        CommandKind::StartRpc => f == Field::RpcListenAddress || f
            == Field::UoPoolGrpcListenAddress || f == Field::BundlerGrpcListenAddress,
        CommandKind::CreateWallet => f == Field::OutPath || f == Field::ChainId,
    }
}

/// The raw field values collected from the flag pairs, before validation.
pub struct RawOptions {
    pub eth_client_address: Option<String>,
    pub chain: Option<String>,
    pub entry_points: Option<String>,
    pub send_bundle_mode: Option<String>,
    pub uopool_mode: Option<String>,
    pub datadir: Option<String>,
    pub rpc_listen_address: Option<String>,
    pub uopool_grpc_listen_address: Option<String>,
    pub bundler_grpc_listen_address: Option<String>,
    pub out_path: Option<String>,
    pub chain_id: Option<String>,
}

/// Mathematical model of `RawOptions`.
pub struct RawOptionsView {
    pub eth_client_address: Option<Seq<char>>,
    pub chain: Option<Seq<char>>,
    pub entry_points: Option<Seq<char>>,
    pub send_bundle_mode: Option<Seq<char>>,
    pub uopool_mode: Option<Seq<char>>,
    pub datadir: Option<Seq<char>>,
    pub rpc_listen_address: Option<Seq<char>>,
    pub uopool_grpc_listen_address: Option<Seq<char>>,
    pub bundler_grpc_listen_address: Option<Seq<char>>,
    pub out_path: Option<Seq<char>>,
    pub chain_id: Option<Seq<char>>,
}

impl View for RawOptions {
    type V = RawOptionsView;

    open spec fn view(&self) -> RawOptionsView {
        RawOptionsView {
            eth_client_address: self.eth_client_address.deep_view(),
            chain: self.chain.deep_view(),
            entry_points: self.entry_points.deep_view(),
            send_bundle_mode: self.send_bundle_mode.deep_view(),
            uopool_mode: self.uopool_mode.deep_view(),
            datadir: self.datadir.deep_view(),
            rpc_listen_address: self.rpc_listen_address.deep_view(),
            uopool_grpc_listen_address: self.uopool_grpc_listen_address.deep_view(),
            bundler_grpc_listen_address: self.bundler_grpc_listen_address.deep_view(),
            out_path: self.out_path.deep_view(),
            chain_id: self.chain_id.deep_view(),
        }
    }
}

/// No field collected yet.
pub open spec fn raw_empty() -> RawOptionsView {
    RawOptionsView {
        eth_client_address: None,
        chain: None,
        entry_points: None,
        send_bundle_mode: None,
        uopool_mode: None,
        datadir: None,
        rpc_listen_address: None,
        uopool_grpc_listen_address: None,
        bundler_grpc_listen_address: None,
        out_path: None,
        chain_id: None,
    }
}

impl RawOptions {
    fn empty() -> (r: RawOptions)
        ensures
            r@ == raw_empty(),
    {
        RawOptions {
            eth_client_address: None,
            chain: None,
            entry_points: None,
            send_bundle_mode: None,
            uopool_mode: None,
            datadir: None,
            rpc_listen_address: None,
            uopool_grpc_listen_address: None,
            bundler_grpc_listen_address: None,
            out_path: None,
            chain_id: None,
        }
    }
}

/// Stores one collected value, rejecting a second occurrence of the field.
pub open spec fn spec_set_field(st: RawOptionsView, f: Field, v: Seq<char>) -> Result<
    RawOptionsView,
    ConfigError,
> {
    match f {
        Field::EthClientAddress => if st.eth_client_address is Some {
            Err(ConfigError::DuplicateField(f))
        } else {
            Ok(RawOptionsView { eth_client_address: Some(v), ..st })
        },
        Field::Chain => if st.chain is Some {
            Err(ConfigError::DuplicateField(f))
        } else {
            Ok(RawOptionsView { chain: Some(v), ..st })
        },
        Field::EntryPoints => if st.entry_points is Some {
            Err(ConfigError::DuplicateField(f))
        } else {
            Ok(RawOptionsView { entry_points: Some(v), ..st })
        },
        Field::SendBundleMode => if st.send_bundle_mode is Some {
            Err(ConfigError::DuplicateField(f))
        } else {
            Ok(RawOptionsView { send_bundle_mode: Some(v), ..st })
        },
        Field::UoPoolMode => if st.uopool_mode is Some {
            Err(ConfigError::DuplicateField(f))
        } else {
            Ok(RawOptionsView { uopool_mode: Some(v), ..st })
        },
        Field::Datadir => if st.datadir is Some {
            Err(ConfigError::DuplicateField(f))
        } else {
            Ok(RawOptionsView { datadir: Some(v), ..st })
        },
        Field::RpcListenAddress => if st.rpc_listen_address is Some {
            Err(ConfigError::DuplicateField(f))
        } else {
            Ok(RawOptionsView { rpc_listen_address: Some(v), ..st })
        },
        Field::UoPoolGrpcListenAddress => if st.uopool_grpc_listen_address is Some {
            Err(ConfigError::DuplicateField(f))
        } else {
            Ok(RawOptionsView { uopool_grpc_listen_address: Some(v), ..st })
        },
        Field::BundlerGrpcListenAddress => if st.bundler_grpc_listen_address is Some {
            Err(ConfigError::DuplicateField(f))
        } else {
            Ok(RawOptionsView { bundler_grpc_listen_address: Some(v), ..st })
        },
        Field::OutPath => if st.out_path is Some {
            Err(ConfigError::DuplicateField(f))
        } else {
            Ok(RawOptionsView { out_path: Some(v), ..st })
        },
        Field::ChainId => if st.chain_id is Some {
            Err(ConfigError::DuplicateField(f))
        } else {
            Ok(RawOptionsView { chain_id: Some(v), ..st })
        },
    }
}

fn set_field(st: RawOptions, f: Field, v: String) -> (r: Result<RawOptions, ConfigError>)
    ensures
        r matches Ok(o) ==> spec_set_field(st@, f, v@) == Ok::<RawOptionsView, ConfigError>(o@),
        r matches Err(e) ==> spec_set_field(st@, f, v@) == Err::<RawOptionsView, ConfigError>(e),
{
    match f {
        Field::EthClientAddress => if st.eth_client_address.is_some() {
            Err(ConfigError::DuplicateField(f))
        } else {
            Ok(RawOptions { eth_client_address: Some(v), ..st })
        },
        Field::Chain => if st.chain.is_some() {
            Err(ConfigError::DuplicateField(f))
        } else {
            Ok(RawOptions { chain: Some(v), ..st })
        },
        Field::EntryPoints => if st.entry_points.is_some() {
            Err(ConfigError::DuplicateField(f))
        } else {
            Ok(RawOptions { entry_points: Some(v), ..st })
        },
        Field::SendBundleMode => if st.send_bundle_mode.is_some() {
            Err(ConfigError::DuplicateField(f))
        } else {
            Ok(RawOptions { send_bundle_mode: Some(v), ..st })
        },
        Field::UoPoolMode => if st.uopool_mode.is_some() {
            Err(ConfigError::DuplicateField(f))
        } else {
            Ok(RawOptions { uopool_mode: Some(v), ..st })
        },
        Field::Datadir => if st.datadir.is_some() {
            Err(ConfigError::DuplicateField(f))
        } else {
            Ok(RawOptions { datadir: Some(v), ..st })
        },
        Field::RpcListenAddress => if st.rpc_listen_address.is_some() {
            Err(ConfigError::DuplicateField(f))
        } else {
            Ok(RawOptions { rpc_listen_address: Some(v), ..st })
        },
        Field::UoPoolGrpcListenAddress => if st.uopool_grpc_listen_address.is_some() {
            Err(ConfigError::DuplicateField(f))
        } else {
            Ok(RawOptions { uopool_grpc_listen_address: Some(v), ..st })
        },
        Field::BundlerGrpcListenAddress => if st.bundler_grpc_listen_address.is_some() {
            Err(ConfigError::DuplicateField(f))
        } else {
            Ok(RawOptions { bundler_grpc_listen_address: Some(v), ..st })
        },
        Field::OutPath => if st.out_path.is_some() {
            Err(ConfigError::DuplicateField(f))
        } else {
            Ok(RawOptions { out_path: Some(v), ..st })
        },
        Field::ChainId => if st.chain_id.is_some() {
            Err(ConfigError::DuplicateField(f))
        } else {
            Ok(RawOptions { chain_id: Some(v), ..st })
        },
    }
}

/// Folds the `--flag value` pairs from token `i` on into the collected state.
pub open spec fn spec_fold(
    k: CommandKind,
    toks: Seq<Seq<char>>,
    i: int,
    st: RawOptionsView,
) -> Result<RawOptionsView, ConfigError>
    recommends
        0 <= i,
    decreases toks.len() - i,
{
    if i < 0 || i >= toks.len() {
        Ok(st)
    } else {
        match spec_flag_field(toks[i]) {
            None => Err(ConfigError::UnknownFlag),
            Some(f) => if !kind_accepts(k, f) {
                Err(ConfigError::UnknownFlag)
            } else if i + 1 >= toks.len() {
                Err(ConfigError::MissingFlagValue(f))
            } else {
                match spec_set_field(st, f, toks[i + 1]) {
                    Err(e) => Err(e),
                    Ok(st2) => spec_fold(k, toks, i + 2, st2),
                }
            },
        }
    }
}

fn fold_flags(k: CommandKind, argv: &Vec<String>, i: usize, st: RawOptions) -> (r: Result<
    RawOptions,
    ConfigError,
>)
    ensures
        r matches Ok(o) ==> spec_fold(k, argv.deep_view(), i as int, st@) == Ok::<
            RawOptionsView,
            ConfigError,
        >(o@),
        r matches Err(e) ==> spec_fold(k, argv.deep_view(), i as int, st@) == Err::<
            RawOptionsView,
            ConfigError,
        >(e),
    decreases argv.len() - i,
{
    if i >= argv.len() {
        return Ok(st);
    }
    proof {
        assert(argv.deep_view()[i as int] == argv@[i as int]@);
        assert(argv.deep_view()[i as int + 1] == argv@[i as int + 1]@ || i + 1 >= argv.len());
    }
    let f = match flag_field(argv[i].as_str()) {
        Some(f) => f,
        None => {
            return Err(ConfigError::UnknownFlag);
        },
    };
    if !accepts(k, f) {
        return Err(ConfigError::UnknownFlag);
    }
    if i + 1 >= argv.len() {
        return Err(ConfigError::MissingFlagValue(f));
    }
    let v = argv[i + 1].clone();
    let st2 = match set_field(st, f, v) {
        Ok(o) => o,
        Err(e) => {
            return Err(e);
        },
    };
    fold_flags(k, argv, i + 2, st2)
}

/// The collected value, or the documented default where none was given.
pub open spec fn default_or(v: Option<Seq<char>>, d: Seq<char>) -> Seq<char> {
    match v {
        Some(x) => x,
        None => d,
    }
}

fn or_default(v: Option<String>, d: &str) -> (r: String)
    ensures
        r@ == default_or(v.deep_view(), d@),
{
    match v {
        Some(s) => s,
        None => d.to_owned(),
    }
}

/// Validates the shared option group: a non-empty endpoint, a 256-bit chain
/// identifier, and a list of entry-point addresses, all required.
pub open spec fn spec_finish_shared(
    ep: Option<Seq<char>>,
    ch: Option<Seq<char>>,
    es: Option<Seq<char>>,
) -> Result<SharedOptionsView, ConfigError> {
    match ep {
        None => Err(ConfigError::MissingField(Field::EthClientAddress)),
        Some(e) => if e.len() == 0 {
            Err(ConfigError::InvalidValue(Field::EthClientAddress))
        } else {
            match ch {
                None => Err(ConfigError::MissingField(Field::Chain)),
                Some(c) => if !is_valid_uint256(c) {
                    Err(ConfigError::InvalidValue(Field::Chain))
                } else {
                    match es {
                        None => Err(ConfigError::MissingField(Field::EntryPoints)),
                        Some(s) => match spec_parse_address_list(s) {
                            None => Err(ConfigError::InvalidValue(Field::EntryPoints)),
                            Some(eps) => Ok(
                                SharedOptionsView {
                                    eth_client_address: e,
                                    chain: dec_value(c),
                                    entry_points: eps,
                                },
                            ),
                        },
                    }
                },
            }
        },
    }
}

fn finish_shared(ep: Option<String>, ch: Option<String>, es: Option<String>) -> (r: Result<
    SharedOptions,
    ConfigError,
>)
    ensures
        r matches Ok(o) ==> spec_finish_shared(ep.deep_view(), ch.deep_view(), es.deep_view())
            == Ok::<SharedOptionsView, ConfigError>(o@),
        r matches Err(e) ==> spec_finish_shared(ep.deep_view(), ch.deep_view(), es.deep_view())
            == Err::<SharedOptionsView, ConfigError>(e),
{
    let e = match ep {
        Some(e) => e,
        None => {
            return Err(ConfigError::MissingField(Field::EthClientAddress));
        },
    };
    if e.as_str().unicode_len() == 0 {
        return Err(ConfigError::InvalidValue(Field::EthClientAddress));
    }
    let c = match ch {
        Some(c) => c,
        None => {
            return Err(ConfigError::MissingField(Field::Chain));
        },
    };
    let chain = match parse_u256(c.as_str()) {
        Ok(v) => v,
        Err(err) => {
            return Err(err);
        },
    };
    let s = match es {
        Some(s) => s,
        None => {
            return Err(ConfigError::MissingField(Field::EntryPoints));
        },
    };
    let entry_points = match parse_address_list(s.as_str()) {
        Ok(v) => v,
        Err(err) => {
            return Err(err);
        },
    };
    Ok(SharedOptions { eth_client_address: e, chain, entry_points })
}

/// Validates the bundling-engine option group; the submission mode defaults
/// to the connected execution node.
pub open spec fn spec_finish_bundler(sbm: Option<Seq<char>>) -> Result<
    BundlerOptions,
    ConfigError,
> {
    match sbm {
        None => Ok(BundlerOptions { send_bundle_mode: SendBundleMode::EthClient }),
        Some(s) => match spec_send_bundle_mode(s) {
            None => Err(ConfigError::InvalidValue(Field::SendBundleMode)),
            Some(m) => Ok(BundlerOptions { send_bundle_mode: m }),
        },
    }
}

fn finish_bundler(sbm: Option<String>) -> (r: Result<BundlerOptions, ConfigError>)
    ensures
        r matches Ok(o) ==> spec_finish_bundler(sbm.deep_view()) == Ok::<
            BundlerOptions,
            ConfigError,
        >(o),
        r matches Err(e) ==> spec_finish_bundler(sbm.deep_view()) == Err::<
            BundlerOptions,
            ConfigError,
        >(e),
{
    match sbm {
        None => Ok(BundlerOptions { send_bundle_mode: SendBundleMode::EthClient }),
        Some(s) => match parse_send_bundle_mode(s.as_str()) {
            Ok(m) => Ok(BundlerOptions { send_bundle_mode: m }),
            Err(e) => Err(e),
        },
    }
}

/// Validates the pool option group; the validation mode defaults to full
/// validation, and the explicit working directory is optional.
pub open spec fn spec_finish_pool(um: Option<Seq<char>>, dd: Option<Seq<char>>) -> Result<
    PoolOptionsView,
    ConfigError,
> {
    match um {
        None => Ok(PoolOptionsView { uopool_mode: UoPoolMode::Standard, datadir: dd }),
        Some(s) => match spec_uopool_mode(s) {
            None => Err(ConfigError::InvalidValue(Field::UoPoolMode)),
            Some(m) => Ok(PoolOptionsView { uopool_mode: m, datadir: dd }),
        },
    }
}

fn finish_pool(um: Option<String>, dd: Option<String>) -> (r: Result<PoolOptions, ConfigError>)
    ensures
        r matches Ok(o) ==> spec_finish_pool(um.deep_view(), dd.deep_view()) == Ok::<
            PoolOptionsView,
            ConfigError,
        >(o@),
        r matches Err(e) ==> spec_finish_pool(um.deep_view(), dd.deep_view()) == Err::<
            PoolOptionsView,
            ConfigError,
        >(e),
{
    match um {
        None => Ok(PoolOptions { uopool_mode: UoPoolMode::Standard, datadir: dd }),
        Some(s) => match parse_uopool_mode(s.as_str()) {
            Ok(m) => Ok(PoolOptions { uopool_mode: m, datadir: dd }),
            Err(e) => Err(e),
        },
    }
}

/// The front-end option group; the listen address has a fixed default.
pub open spec fn spec_finish_rpc(la: Option<Seq<char>>) -> RpcOptionsView {
    RpcOptionsView { listen_address: default_or(la, "127.0.0.1:3000"@) }
}

fn finish_rpc(la: Option<String>) -> (r: RpcOptions)
    ensures
        r@ == spec_finish_rpc(la.deep_view()),
{
    RpcOptions { listen_address: or_default(la, "127.0.0.1:3000") }
}

/// Validates the wallet option group; the chain identifier defaults to one.
pub open spec fn spec_finish_wallet(op: Option<Seq<char>>, cid: Option<Seq<char>>) -> Result<
    WalletOptionsView,
    ConfigError,
> {
    match cid {
        None => Ok(WalletOptionsView { output_path: op, chain_id: 1 }),
        Some(s) => if is_valid_uint256(s) {
            Ok(WalletOptionsView { output_path: op, chain_id: dec_value(s) })
        } else {
            Err(ConfigError::InvalidValue(Field::ChainId))
        },
    }
}

fn finish_wallet(op: Option<String>, cid: Option<String>) -> (r: Result<
    WalletOptions,
    ConfigError,
>)
    ensures
        r matches Ok(o) ==> spec_finish_wallet(op.deep_view(), cid.deep_view()) == Ok::<
            WalletOptionsView,
            ConfigError,
        >(o@),
        r matches Err(e) ==> spec_finish_wallet(op.deep_view(), cid.deep_view()) == Err::<
            WalletOptionsView,
            ConfigError,
        >(e),
{
    match cid {
        None => Ok(WalletOptions { output_path: op, chain_id: Uint256::from_u64(1) }),
        Some(s) => match parse_u256(s.as_str()) {
            Ok(v) => Ok(WalletOptions { output_path: op, chain_id: v }),
            Err(_) => Err(ConfigError::InvalidValue(Field::ChainId)),
        },
    }
}

/// Builds the typed command of kind `k` out of the collected fields:
/// requireds checked, validators applied, defaults filled in.
pub open spec fn spec_finish_command(k: CommandKind, st: RawOptionsView) -> Result<
    CommandSpecView,
    ConfigError,
> {
    match k {
        CommandKind::StartAll => match spec_finish_shared(
            st.eth_client_address,
            st.chain,
            st.entry_points,
        ) {
            Err(e) => Err(e),
            Ok(common) => match spec_finish_bundler(st.send_bundle_mode) {
                Err(e) => Err(e),
                Ok(bundler) => match spec_finish_pool(st.uopool_mode, st.datadir) {
                    Err(e) => Err(e),
                    Ok(uopool) => Ok(
                        CommandSpecView::StartAll(
                            BundlerCommandView {
                                bundler,
                                uopool,
                                common,
                                rpc: spec_finish_rpc(st.rpc_listen_address),
                            },
                        ),
                    ),
                },
            },
        },
        CommandKind::StartBundling => match spec_finish_shared(
            st.eth_client_address,
            st.chain,
            st.entry_points,
        ) {
            Err(e) => Err(e),
            Ok(common) => match spec_finish_bundler(st.send_bundle_mode) {
                Err(e) => Err(e),
                Ok(bundler) => Ok(
                    CommandSpecView::StartBundling(
                        BundlingCommandView {
                            bundler,
                            common,
                            uopool_grpc_listen_address: default_or(
                                st.uopool_grpc_listen_address,
                                "http://127.0.0.1:3002"@,
                            ),
                        },
                    ),
                ),
            },
        },
        CommandKind::StartPool => match spec_finish_shared(
            st.eth_client_address,
            st.chain,
            st.entry_points,
        ) {
            Err(e) => Err(e),
            Ok(common) => match spec_finish_pool(st.uopool_mode, st.datadir) {
                Err(e) => Err(e),
                Ok(uopool) => Ok(CommandSpecView::StartPool(UoPoolCommandView { uopool, common })),
            },
        },
        CommandKind::StartRpc => Ok(
            CommandSpecView::StartRpc(
                RpcCommandView {
                    rpc: spec_finish_rpc(st.rpc_listen_address),
                    uopool_grpc_listen_address: default_or(
                        st.uopool_grpc_listen_address,
                        "http://127.0.0.1:3002"@,
                    ),
                    bundler_grpc_listen_address: default_or(
                        st.bundler_grpc_listen_address,
                        "http://127.0.0.1:3003"@,
                    ),
                },
            ),
        ),
        CommandKind::CreateWallet => match spec_finish_wallet(st.out_path, st.chain_id) {
            Err(e) => Err(e),
            Ok(create_wallet) => Ok(
                CommandSpecView::CreateWallet(CreateWalletCommandView { create_wallet }),
            ),
        },
    }
}

fn finish_command(k: CommandKind, st: RawOptions) -> (r: Result<CommandSpec, ConfigError>)
    ensures
        r matches Ok(c) ==> spec_finish_command(k, st@) == Ok::<CommandSpecView, ConfigError>(c@),
        r matches Err(e) ==> spec_finish_command(k, st@) == Err::<CommandSpecView, ConfigError>(e),
{
    match k {
        CommandKind::StartAll => {
            let common = match finish_shared(st.eth_client_address, st.chain, st.entry_points) {
                Ok(o) => o,
                Err(e) => {
                    return Err(e);
                },
            };
            let bundler = match finish_bundler(st.send_bundle_mode) {
                Ok(o) => o,
                Err(e) => {
                    return Err(e);
                },
            };
            let uopool = match finish_pool(st.uopool_mode, st.datadir) {
                Ok(o) => o,
                Err(e) => {
                    return Err(e);
                },
            };
            let rpc = finish_rpc(st.rpc_listen_address);
            Ok(CommandSpec::StartAll(BundlerCommand { bundler, uopool, common, rpc }))
        },
        CommandKind::StartBundling => {
            let common = match finish_shared(st.eth_client_address, st.chain, st.entry_points) {
                Ok(o) => o,
                Err(e) => {
                    return Err(e);
                },
            };
            let bundler = match finish_bundler(st.send_bundle_mode) {
                Ok(o) => o,
                Err(e) => {
                    return Err(e);
                },
            };
            let uopool_grpc_listen_address = or_default(
                st.uopool_grpc_listen_address,
                "http://127.0.0.1:3002",
            );
            Ok(
                CommandSpec::StartBundling(
                    BundlingCommand { bundler, common, uopool_grpc_listen_address },
                ),
            )
        },
        CommandKind::StartPool => {
            let common = match finish_shared(st.eth_client_address, st.chain, st.entry_points) {
                Ok(o) => o,
                Err(e) => {
                    return Err(e);
                },
            };
            let uopool = match finish_pool(st.uopool_mode, st.datadir) {
                Ok(o) => o,
                Err(e) => {
                    return Err(e);
                },
            };
            Ok(CommandSpec::StartPool(UoPoolCommand { uopool, common }))
        },
        CommandKind::StartRpc => {
            let rpc = finish_rpc(st.rpc_listen_address);
            let uopool_grpc_listen_address = or_default(
                st.uopool_grpc_listen_address,
                "http://127.0.0.1:3002",
            );
            let bundler_grpc_listen_address = or_default(
                st.bundler_grpc_listen_address,
                "http://127.0.0.1:3003",
            );
            Ok(
                CommandSpec::StartRpc(
                    RpcCommand {
                        rpc,
                        uopool_grpc_listen_address,
                        bundler_grpc_listen_address,
                    },
                ),
            )
        },
        CommandKind::CreateWallet => {
            let create_wallet = match finish_wallet(st.out_path, st.chain_id) {
                Ok(o) => o,
                Err(e) => {
                    return Err(e);
                },
            };
            Ok(CommandSpec::CreateWallet(CreateWalletCommand { create_wallet }))
        },
    }
}

/// The argument model: the pure function from the argument tokens to the
/// typed command or the first configuration error.
pub open spec fn spec_parse_arguments(toks: Seq<Seq<char>>) -> Result<
    CommandSpecView,
    ConfigError,
> {
    if toks.len() == 0 {
        Err(ConfigError::NoCommand)
    } else {
        match spec_command_kind(toks[0]) {
            None => Err(ConfigError::UnknownCommand),
            Some(k) => match spec_fold(k, toks, 1, raw_empty()) {
                Err(e) => Err(e),
                Ok(st) => spec_finish_command(k, st),
            },
        }
    }
}

/// Parses the process arguments (without the program name) into a typed
/// command: exactly the value of `spec_parse_arguments` on the token views.
pub fn parse_arguments(argv: &Vec<String>) -> (r: Result<CommandSpec, ConfigError>)
    ensures
        r matches Ok(c) ==> spec_parse_arguments(argv.deep_view()) == Ok::<
            CommandSpecView,
            ConfigError,
        >(c@),
        r matches Err(e) ==> spec_parse_arguments(argv.deep_view()) == Err::<
            CommandSpecView,
            ConfigError,
        >(e),
{
    if argv.len() == 0 {
        return Err(ConfigError::NoCommand);
    }
    proof {
        assert(argv.deep_view()[0] == argv@[0]@);
    }
    let k = match command_kind(argv[0].as_str()) {
        Some(k) => k,
        None => {
            return Err(ConfigError::UnknownCommand);
        },
    };
    let st = match fold_flags(k, argv, 1, RawOptions::empty()) {
        Ok(o) => o,
        Err(e) => {
            return Err(e);
        },
    };
    finish_command(k, st)
}

/// Law: the argument model is a pure function — identical input reproduces
/// an identical command specification across runs.
pub proof fn lemma_argument_model_pure(a: Seq<Seq<char>>, b: Seq<Seq<char>>)
    requires
        a == b,
    ensures
        spec_parse_arguments(a) == spec_parse_arguments(b),
{
}

} // verus!
