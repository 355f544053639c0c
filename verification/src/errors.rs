//! Error taxonomy of the start-up layer.
//!
//! `ConfigError` covers malformed or missing input fields and is reported
//! with the offending field's name; `TransportError` covers a malformed
//! endpoint or a failed initial handshake. Service failures surfaced by the
//! shutdown race are opaque and propagated verbatim, so they have no type of
//! their own here.

use vstd::prelude::*;

verus! {

/// A configuration field recognised by the argument model.
#[derive(Clone, Copy, PartialEq, Eq, Structural, Debug)]
pub enum Field {
    EthClientAddress,
    Chain,
    EntryPoints,
    SendBundleMode,
    UoPoolMode,
    Datadir,
    RpcListenAddress,
    UoPoolGrpcListenAddress,
    BundlerGrpcListenAddress,
    OutPath,
    ChainId,
}

/// The name under which a field is reported to the operator.
pub open spec fn spec_field_name(f: Field) -> Seq<char> {
    match f {
        Field::EthClientAddress => "eth-client-address"@,
        Field::Chain => "chain"@,
        Field::EntryPoints => "entry-points"@,
        Field::SendBundleMode => "send-bundle-mode"@,
        Field::UoPoolMode => "uopool-mode"@,
        Field::Datadir => "datadir"@,
        Field::RpcListenAddress => "rpc-listen-address"@,
        Field::UoPoolGrpcListenAddress => "uopool-grpc-listen-address"@,
        Field::BundlerGrpcListenAddress => "bundler-grpc-listen-address"@,
        Field::OutPath => "out-path"@,
        Field::ChainId => "chain-id"@,
    }
}

impl Field {
    /// The field's reported name.
    pub fn name(&self) -> (r: &'static str)
        ensures
            r@ == spec_field_name(*self),
    {
        match self {
            Field::EthClientAddress => "eth-client-address",
            Field::Chain => "chain",
            Field::EntryPoints => "entry-points",
            Field::SendBundleMode => "send-bundle-mode",
            Field::UoPoolMode => "uopool-mode",
            Field::Datadir => "datadir",
            Field::RpcListenAddress => "rpc-listen-address",
            Field::UoPoolGrpcListenAddress => "uopool-grpc-listen-address",
            Field::BundlerGrpcListenAddress => "bundler-grpc-listen-address",
            Field::OutPath => "out-path",
            Field::ChainId => "chain-id",
        }
    }
}

/// Malformed or missing input; fatal at startup. Identifies the offending
/// field where one is known.
#[derive(Clone, Copy, PartialEq, Eq, Structural, Debug)]
pub enum ConfigError {
    /// A field value failed its validator.
    InvalidValue(Field),
    /// A required field was not supplied.
    MissingField(Field),
    /// The same field was supplied twice.
    DuplicateField(Field),
    /// A flag was given without a following value.
    MissingFlagValue(Field),
    /// A flag not recognised by the selected command.
    UnknownFlag,
    /// The leading token names no known command.
    UnknownCommand,
    /// No command token was given at all.
    NoCommand,
    /// No explicit path was given and no home directory is available.
    NoHomeDirectory,
}

/// The diagnostic text for the operator, naming the offending field.
pub open spec fn spec_config_error_text(e: ConfigError) -> Seq<char> {
    match e {
        ConfigError::InvalidValue(f) => "invalid value for field "@ + spec_field_name(f),
        ConfigError::MissingField(f) => "missing required field "@ + spec_field_name(f),
        ConfigError::DuplicateField(f) => "field supplied more than once: "@ + spec_field_name(f),
        ConfigError::MissingFlagValue(f) => "flag is missing its value: "@ + spec_field_name(f),
        ConfigError::UnknownFlag => "unknown flag"@,
        ConfigError::UnknownCommand => "unknown command"@,
        ConfigError::NoCommand => "no command given"@,
        ConfigError::NoHomeDirectory => "cannot determine the home directory"@,
    }
}

impl ConfigError {
    /// The diagnostic text for the operator, naming the offending field.
    pub fn describe(&self) -> (r: String)
        ensures
            r@ == spec_config_error_text(*self),
    {
        match self {
            ConfigError::InvalidValue(f) => "invalid value for field ".to_owned().concat(f.name()),
            ConfigError::MissingField(f) => "missing required field ".to_owned().concat(f.name()),
            ConfigError::DuplicateField(f) => "field supplied more than once: ".to_owned().concat(
                f.name(),
            ),
            ConfigError::MissingFlagValue(f) => "flag is missing its value: ".to_owned().concat(
                f.name(),
            ),
            ConfigError::UnknownFlag => "unknown flag".to_owned(),
            ConfigError::UnknownCommand => "unknown command".to_owned(),
            ConfigError::NoCommand => "no command given".to_owned(),
            ConfigError::NoHomeDirectory => "cannot determine the home directory".to_owned(),
        }
    }
}

/// Malformed endpoint URI or failed initial handshake; fatal at startup.
#[derive(Clone, Copy, PartialEq, Eq, Structural, Debug)]
pub enum TransportError {
    /// The endpoint string is not a well-formed URI.
    InvalidEndpoint,
    /// The initial handshake of the streaming transport failed.
    HandshakeFailed,
}

/// The diagnostic text of a transport error.
pub open spec fn spec_transport_error_text(e: TransportError) -> Seq<char> {
    match e {
        TransportError::InvalidEndpoint => "malformed endpoint URI"@,
        TransportError::HandshakeFailed => "the streaming transport handshake failed"@,
    }
}

impl TransportError {
    /// The diagnostic text for the operator.
    pub fn describe(&self) -> (r: String)
        ensures
            r@ == spec_transport_error_text(*self),
    {
        match self {
            TransportError::InvalidEndpoint => "malformed endpoint URI".to_owned(),
            TransportError::HandshakeFailed => {
                "the streaming transport handshake failed".to_owned()
            },
        }
    }
}

} // verus!
