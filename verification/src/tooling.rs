//! Identifiers and output records of the deployment tooling around the
//! pipeline: contract and component names, hex-typed byte arguments,
//! upload results, and deployment targets.

use vstd::prelude::*;
use vstd::string::StringExecFns;

use crate::hex::{hex_decode, hex_decoded};

verus! {

/// Bytes given on a command line as hex text.
#[derive(Debug, Clone)]
pub struct HexBytes(pub Vec<u8>);

impl HexBytes {
    /// Parse hex text (optional `0x` prefix, either case).
    pub fn from_hex(s: &str) -> (r: Result<HexBytes, String>)
        ensures
            match r {
                Ok(h) => hex_decoded(s@) == Some(h.0@),
                Err(_) => hex_decoded(s@) is None,
            },
    {
        match hex_decode(s) {
            Some(v) => Ok(HexBytes(v)),
            None => Err(String::from_str("invalid hex")),
        }
    }

    /// The decoded bytes.
    pub fn into_inner(self) -> (r: Vec<u8>)
        ensures
            r@ == self.0@,
    {
        self.0
    }
}

/// The contracts the tooling can build and deploy.
#[derive(Debug, Clone, Copy, PartialEq, Eq, Structural)]
pub enum ContractKind {
    ServiceHandler,
    Proxy,
}

impl ContractKind {
    /// The kebab-case name of the contract.
    pub fn as_str(&self) -> (r: &str)
        ensures
            self == ContractKind::ServiceHandler ==> r@ == "service-handler"@,
            self == ContractKind::Proxy ==> r@ == "proxy"@,
    {
        match self {
            ContractKind::ServiceHandler => "service-handler",
            ContractKind::Proxy => "proxy",
        }
    }
}

/// How uploads authenticate to the service.
#[derive(Debug, Clone, Copy, PartialEq, Eq, Structural)]
pub enum AuthKind {
    User,
    ServiceManager,
}

impl AuthKind {
    /// The snake_case name of the mode.
    pub fn as_str(&self) -> (r: &str)
        ensures
            self == AuthKind::User ==> r@ == "user"@,
            self == AuthKind::ServiceManager ==> r@ == "service_manager"@,
    {
        match self {
            AuthKind::User => "user",
            AuthKind::ServiceManager => "service_manager",
        }
    }
}

/// The component roles the tooling can upload.
#[derive(Debug, Clone, Copy, PartialEq, Eq, Structural)]
pub enum ComponentKind {
    Operator,
    Aggregator,
}

impl ComponentKind {
    /// The snake_case name of the role.
    pub fn as_str(&self) -> (r: &str)
        ensures
            self == ComponentKind::Operator ==> r@ == "operator"@,
            self == ComponentKind::Aggregator ==> r@ == "aggregator"@,
    {
        match self {
            ComponentKind::Operator => "operator",
            ComponentKind::Aggregator => "aggregator",
        }
    }
}

/// The formats generated files can be written in.
#[derive(Debug, Clone, Copy, PartialEq, Eq, Structural)]
pub enum OutputFormat {
    Json,
}

/// Where and how a generated file is written.
#[derive(Debug, Clone)]
pub struct Output {
    pub file: String,
    pub format: OutputFormat,
}

/// The record of one file pinned to IPFS.
#[derive(Debug, Clone)]
pub struct IpfsFile {
    /// The content identifier of the uploaded file.
    pub cid: String,
    /// The `ipfs://` URI.
    pub uri: String,
    /// The gateway URL for HTTP access.
    pub gateway_url: String,
}

/// The record of one uploaded contract.
#[derive(Debug, Clone)]
pub struct OutputContractUpload {
    pub kind: ContractKind,
    pub code_id: u64,
    pub tx_hash: String,
}

/// The record of one instantiated contract.
#[derive(Debug, Clone)]
pub struct OutputContractInstantiate {
    pub kind: ContractKind,
    pub address: String,
    pub tx_hash: String,
}

/// Which chain a deployment goes to.
#[derive(Debug, Clone, Copy, PartialEq, Eq, Structural)]
pub enum DeployTarget {
    Local,
    Testnet,
    Mainnet,
}

impl DeployTarget {
    /// Parse a target name; exactly `local`, `testnet` or `mainnet`.
    pub fn parse(value: &str) -> (r: Option<DeployTarget>)
        ensures
            value@ == "local"@ ==> r == Some(DeployTarget::Local),
            value@ == "testnet"@ ==> r == Some(DeployTarget::Testnet),
            value@ == "mainnet"@ ==> r == Some(DeployTarget::Mainnet),
            value@ != "local"@ && value@ != "testnet"@ && value@ != "mainnet"@ ==> r is None,
    {
        proof {
            reveal_strlit("local");
            reveal_strlit("testnet");
            reveal_strlit("mainnet");
            assert("local"@.len() == 5);
            assert("testnet"@.len() == 7);
            assert("mainnet"@.len() == 7);
            assert("testnet"@[0] == 't' && "mainnet"@[0] == 'm');
            assert("testnet"@ != "local"@);
            assert("mainnet"@ != "local"@);
            assert("testnet"@ != "mainnet"@);
        }
        if crate::text::str_eq(value, "local") {
            Some(DeployTarget::Local)
        } else if crate::text::str_eq(value, "testnet") {
            Some(DeployTarget::Testnet)
        } else if crate::text::str_eq(value, "mainnet") {
            Some(DeployTarget::Mainnet)
        } else {
            None
        }
    }
}

/// The local service ports the tooling can look up.
#[derive(Debug, Clone, Copy, PartialEq, Eq, Structural)]
pub enum LocalPortKind {
    WavsOperatorBase,
    WavsAggregator,
    IpfsApi,
    IpfsGateway,
    JaegerUi,
    PrometheusUi,
}

} // verus!
