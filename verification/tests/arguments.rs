use silius_cli::{
    dispatch, parse_arguments, CommandSpec, ConfigError, Directive, Field, SendBundleMode,
    ServiceLaunch, TransportKind, UoPoolMode,
};

fn argv(parts: &[&str]) -> Vec<String> {
    parts.iter().map(|s| s.to_string()).collect()
}

const ENTRY_POINT: &str = "0x5ff137d4b0fdcd49dca30c7cf57e578a026d2789";

#[test]
fn start_all_with_http_endpoint_plans_one_synchronous_combined_launch() {
    let cmd = parse_arguments(&argv(&[
        "start-all",
        "--eth-client-address",
        "http://localhost:8545",
        "--chain",
        "1",
        "--entry-points",
        ENTRY_POINT,
    ]))
    .unwrap();
    match dispatch(cmd).unwrap() {
        Directive::Launch(p) => {
            let t = p.transport.expect("one transport handle");
            assert_eq!(t.kind, TransportKind::Synchronous);
            assert_eq!(t.endpoint, "http://localhost:8545");
            assert!(p.enters_race);
            match p.service {
                ServiceLaunch::AllComponents { bundler, uopool, common, rpc } => {
                    assert_eq!(bundler.send_bundle_mode, SendBundleMode::EthClient);
                    assert_eq!(uopool.uopool_mode, UoPoolMode::Standard);
                    assert_eq!(common.eth_client_address, "http://localhost:8545");
                    assert_eq!(common.chain.limbs, [1, 0, 0, 0]);
                    assert_eq!(common.entry_points.len(), 1);
                    assert_eq!(common.entry_points[0].bytes[0], 0x5f);
                    assert_eq!(rpc.listen_address, "127.0.0.1:3000");
                },
                _ => panic!("start-all launches the combined instance"),
            }
        },
        Directive::Wallet(_) => panic!("start-all is a launch command"),
    }
}

#[test]
fn start_pool_with_ws_endpoint_selects_streaming_transport() {
    let cmd = parse_arguments(&argv(&[
        "start-pool",
        "--eth-client-address",
        "ws://localhost:8546",
        "--chain",
        "1",
        "--entry-points",
        ENTRY_POINT,
    ]))
    .unwrap();
    match dispatch(cmd).unwrap() {
        Directive::Launch(p) => {
            let t = p.transport.expect("one transport handle");
            assert_eq!(t.kind, TransportKind::Streaming);
            match p.service {
                ServiceLaunch::PoolOnly { uopool, chain, entry_points } => {
                    assert_eq!(uopool.uopool_mode, UoPoolMode::Standard);
                    assert_eq!(chain.limbs, [1, 0, 0, 0]);
                    assert_eq!(entry_points.len(), 1);
                },
                _ => panic!("start-pool launches the pool alone"),
            }
        },
        Directive::Wallet(_) => panic!("start-pool is a launch command"),
    }
}

#[test]
fn start_rpc_needs_no_transport_and_forwards_peer_defaults() {
    let cmd = parse_arguments(&argv(&["start-rpc"])).unwrap();
    match dispatch(cmd).unwrap() {
        Directive::Launch(p) => {
            assert!(p.transport.is_none());
            assert!(p.enters_race);
            match p.service {
                ServiceLaunch::RpcFrontEnd {
                    rpc,
                    uopool_grpc_listen_address,
                    bundler_grpc_listen_address,
                } => {
                    assert_eq!(rpc.listen_address, "127.0.0.1:3000");
                    assert_eq!(uopool_grpc_listen_address, "http://127.0.0.1:3002");
                    assert_eq!(bundler_grpc_listen_address, "http://127.0.0.1:3003");
                },
                _ => panic!("start-rpc launches the front end alone"),
            }
        },
        Directive::Wallet(_) => panic!("start-rpc is a launch command"),
    }
}

#[test]
fn start_bundling_forwards_chain_entry_points_and_pool_address_default() {
    let cmd = parse_arguments(&argv(&[
        "start-bundling",
        "--eth-client-address",
        "http://localhost:8545",
        "--chain",
        "5",
        "--entry-points",
        ENTRY_POINT,
    ]))
    .unwrap();
    match dispatch(cmd).unwrap() {
        Directive::Launch(p) => {
            let t = p.transport.expect("one transport handle");
            assert_eq!(t.endpoint, "http://localhost:8545");
            match p.service {
                ServiceLaunch::BundlingOnly {
                    bundler,
                    chain,
                    entry_points,
                    uopool_grpc_listen_address,
                } => {
                    assert_eq!(bundler.send_bundle_mode, SendBundleMode::EthClient);
                    assert_eq!(chain.limbs, [5, 0, 0, 0]);
                    assert_eq!(entry_points.len(), 1);
                    assert_eq!(entry_points[0].bytes[19], 0x89);
                    assert_eq!(uopool_grpc_listen_address, "http://127.0.0.1:3002");
                },
                _ => panic!("start-bundling launches the engine alone"),
            }
        },
        Directive::Wallet(_) => panic!("start-bundling is a launch command"),
    }
}

#[test]
fn start_all_mode_flags_are_validated() {
    let ok = parse_arguments(&argv(&[
        "start-all",
        "--eth-client-address",
        "http://localhost:8545",
        "--chain",
        "1",
        "--entry-points",
        ENTRY_POINT,
        "--send-bundle-mode",
        "flashbots",
        "--uopool-mode",
        "unsafe",
    ]))
    .unwrap();
    match ok {
        CommandSpec::StartAll(c) => {
            assert_eq!(c.bundler.send_bundle_mode, SendBundleMode::Flashbots);
            assert_eq!(c.uopool.uopool_mode, UoPoolMode::Unsafe);
            assert_eq!(c.uopool.datadir, None);
        },
        _ => panic!("expected the combined variant"),
    }
    let bad = parse_arguments(&argv(&[
        "start-all",
        "--eth-client-address",
        "http://localhost:8545",
        "--chain",
        "1",
        "--entry-points",
        ENTRY_POINT,
        "--send-bundle-mode",
        "carrier-pigeon",
    ]));
    assert_eq!(bad, Err(ConfigError::InvalidValue(Field::SendBundleMode)));
}

#[test]
fn create_wallet_yields_a_wallet_directive_and_never_a_launch() {
    let cmd = parse_arguments(&argv(&["create-wallet", "--out-path", "/tmp/w"])).unwrap();
    match dispatch(cmd).unwrap() {
        Directive::Wallet(w) => {
            assert_eq!(w.output_path, "/tmp/w");
            assert_eq!(w.chain_id.limbs, [1, 0, 0, 0]);
        },
        Directive::Launch(_) => panic!("create-wallet never launches or races"),
    }
}

#[test]
fn create_wallet_accepts_explicit_chain_id() {
    let cmd = parse_arguments(&argv(&[
        "create-wallet",
        "--out-path",
        "/tmp/w",
        "--chain-id",
        "11155111",
    ]))
    .unwrap();
    match dispatch(cmd).unwrap() {
        Directive::Wallet(w) => assert_eq!(w.chain_id.limbs, [11155111, 0, 0, 0]),
        Directive::Launch(_) => panic!("create-wallet never launches"),
    }
    let bad = parse_arguments(&argv(&["create-wallet", "--chain-id", "12a"]));
    assert_eq!(bad, Err(ConfigError::InvalidValue(Field::ChainId)));
}

#[test]
fn missing_required_fields_are_reported_per_field() {
    let no_chain = parse_arguments(&argv(&[
        "start-all",
        "--eth-client-address",
        "http://localhost:8545",
        "--entry-points",
        ENTRY_POINT,
    ]));
    assert_eq!(no_chain, Err(ConfigError::MissingField(Field::Chain)));
    let no_endpoint = parse_arguments(&argv(&["start-pool", "--chain", "1"]));
    assert_eq!(no_endpoint, Err(ConfigError::MissingField(Field::EthClientAddress)));
    let no_entry_points = parse_arguments(&argv(&[
        "start-pool",
        "--eth-client-address",
        "ws://localhost:8546",
        "--chain",
        "1",
    ]));
    assert_eq!(no_entry_points, Err(ConfigError::MissingField(Field::EntryPoints)));
}

#[test]
fn empty_endpoint_is_invalid() {
    let r = parse_arguments(&argv(&[
        "start-all",
        "--eth-client-address",
        "",
        "--chain",
        "1",
        "--entry-points",
        ENTRY_POINT,
    ]));
    assert_eq!(r, Err(ConfigError::InvalidValue(Field::EthClientAddress)));
}

#[test]
fn bad_field_values_are_reported_per_field() {
    let bad_chain = parse_arguments(&argv(&[
        "start-all",
        "--eth-client-address",
        "http://localhost:8545",
        "--chain",
        "one",
        "--entry-points",
        ENTRY_POINT,
    ]));
    assert_eq!(bad_chain, Err(ConfigError::InvalidValue(Field::Chain)));
    let bad_entry = parse_arguments(&argv(&[
        "start-all",
        "--eth-client-address",
        "http://localhost:8545",
        "--chain",
        "1",
        "--entry-points",
        "0x123",
    ]));
    assert_eq!(bad_entry, Err(ConfigError::InvalidValue(Field::EntryPoints)));
}

#[test]
fn grammar_errors_are_reported() {
    assert_eq!(parse_arguments(&argv(&[])), Err(ConfigError::NoCommand));
    assert_eq!(parse_arguments(&argv(&["start-everything"])), Err(ConfigError::UnknownCommand));
    assert_eq!(
        parse_arguments(&argv(&["start-rpc", "--bogus", "1"])),
        Err(ConfigError::UnknownFlag)
    );
    // a flag of another command is unknown here
    assert_eq!(
        parse_arguments(&argv(&["start-rpc", "--chain", "1"])),
        Err(ConfigError::UnknownFlag)
    );
    assert_eq!(
        parse_arguments(&argv(&["create-wallet", "--out-path"])),
        Err(ConfigError::MissingFlagValue(Field::OutPath))
    );
    let dup = parse_arguments(&argv(&[
        "start-pool",
        "--chain",
        "1",
        "--chain",
        "2",
    ]));
    assert_eq!(dup, Err(ConfigError::DuplicateField(Field::Chain)));
}

#[test]
fn config_errors_name_the_offending_field() {
    assert_eq!(
        ConfigError::MissingField(Field::Chain).describe(),
        "missing required field chain"
    );
    assert_eq!(
        ConfigError::InvalidValue(Field::EthClientAddress).describe(),
        "invalid value for field eth-client-address"
    );
    assert_eq!(
        ConfigError::DuplicateField(Field::EntryPoints).describe(),
        "field supplied more than once: entry-points"
    );
    assert_eq!(
        ConfigError::MissingFlagValue(Field::OutPath).describe(),
        "flag is missing its value: out-path"
    );
    assert_eq!(ConfigError::UnknownFlag.describe(), "unknown flag");
}

#[test]
fn argument_model_is_pure_across_runs() {
    let a = argv(&[
        "start-all",
        "--eth-client-address",
        "http://localhost:8545",
        "--chain",
        "1",
        "--entry-points",
        ENTRY_POINT,
    ]);
    let first = parse_arguments(&a);
    let second = parse_arguments(&a);
    assert_eq!(first, second);
}
