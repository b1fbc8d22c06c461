//! The server's configuration, and what follows from the network it runs on.

use crate::text::{chars_of, find_last, last_index, parse_u16, parse_u32, parsed_number, text_eq};
use vstd::prelude::*;
use vstd::string::*;

verus! {

/// The Dash network a server works on.
#[derive(Debug, Clone, Copy, PartialEq, Eq, Structural)]
pub enum Network {
    Mainnet,
    Testnet,
    Regtest,
}

impl Default for Network {
    fn default() -> (network: Self)
        ensures
            network == Network::Testnet,
    {
        Network::Testnet
    }
}

impl Network {
    /// The name of the platform quorum type on this network.
    pub open spec fn spec_llmq_type(&self) -> Seq<char> {
        match self {
            Network::Mainnet => "llmq_100_67"@,
            Network::Testnet => "llmq_25_67"@,
            Network::Regtest => "llmq_test_platform"@,
        }
    }

    /// The number of the platform quorum type on this network.
    pub open spec fn spec_llmq_type_id(&self) -> u32 {
        match self {
            Network::Mainnet => 4,
            Network::Testnet => 6,
            Network::Regtest => 106,
        }
    }

    /// The port on which masternodes of this network serve DAPI.
    pub open spec fn spec_dapi_port(&self) -> u16 {
        match self {
            Network::Mainnet => 443,
            Network::Testnet => 1443,
            Network::Regtest => 2443,
        }
    }

    /// The name of the platform quorum type on this network.
    pub fn llmq_type(&self) -> (name: &'static str)
        ensures
            name@ == self.spec_llmq_type(),
    {
        match self {
            Network::Mainnet => "llmq_100_67",
            Network::Testnet => "llmq_25_67",
            Network::Regtest => "llmq_test_platform",
        }
    }

    /// The number of the platform quorum type on this network.
    #[verifier::when_used_as_spec(spec_llmq_type_id)]
    pub fn llmq_type_id(&self) -> (id: u32)
        ensures
            id == self.spec_llmq_type_id(),
    {
        match self {
            Network::Mainnet => 4,
            Network::Testnet => 6,
            Network::Regtest => 106,
        }
    }

    /// The port on which masternodes of this network serve DAPI.
    #[verifier::when_used_as_spec(spec_dapi_port)]
    pub fn dapi_port(&self) -> (port: u16)
        ensures
            port == self.spec_dapi_port(),
    {
        match self {
            Network::Mainnet => 443,
            Network::Testnet => 1443,
            Network::Regtest => 2443,
        }
    }
}

/// `text` in lower case, as `str::to_lowercase` gives it.
pub uninterp spec fn lowercase(text: Seq<char>) -> Seq<char>;

/// Calls `str::to_lowercase`. Trusted: the result is what `lowercase` names.
#[verifier::external_body]
fn to_lowercase(text: &str) -> (lowered: String)
    ensures
        lowered@ == lowercase(text@),
{
    text.to_lowercase()
}

/// The network with the given name in lower case.
pub open spec fn named_network(lowered: Seq<char>) -> Option<Network> {
    if lowered == "mainnet"@ {
        Some(Network::Mainnet)
    } else if lowered == "testnet"@ {
        Some(Network::Testnet)
    } else if lowered == "regtest"@ {
        Some(Network::Regtest)
    } else {
        None
    }
}

/// What is said of a name that names no network.
pub open spec fn invalid_network_message(name: Seq<char>) -> Seq<char> {
    "Invalid network '"@ + name + "'. Must be one of: mainnet, testnet, regtest"@
}

/// The network that `name` names, in whatever case it is written.
pub open spec fn network_from(name: Seq<char>) -> Result<Network, Seq<char>> {
    match named_network(lowercase(name)) {
        Some(network) => Ok(network),
        None => Err(invalid_network_message(name)),
    }
}

/// The view of a network or the message why there is none.
pub open spec fn network_view(outcome: Result<Network, String>) -> Result<Network, Seq<char>> {
    match outcome {
        Ok(network) => Ok(network),
        Err(message) => Err(message@),
    }
}

/// The network with the given name in lower case: `mainnet`, `testnet` or `regtest`.
pub fn network_named(lowered: &str) -> (network: Option<Network>)
    ensures
        network == named_network(lowered@),
{
    if text_eq(lowered, "mainnet") {
        Some(Network::Mainnet)
    } else if text_eq(lowered, "testnet") {
        Some(Network::Testnet)
    } else if text_eq(lowered, "regtest") {
        Some(Network::Regtest)
    } else {
        None
    }
}

impl Network {
    /// The name of the network, in lower case.
    pub open spec fn spec_name(&self) -> Seq<char> {
        match self {
            Network::Mainnet => "mainnet"@,
            Network::Testnet => "testnet"@,
            Network::Regtest => "regtest"@,
        }
    }

    /// The name of the network, in lower case.
    pub fn to_string(&self) -> (name: String)
        ensures
            name@ == self.spec_name(),
    {
        match self {
            Network::Mainnet => String::from_str("mainnet"),
            Network::Testnet => String::from_str("testnet"),
            Network::Regtest => String::from_str("regtest"),
        }
    }
}

impl TryFrom<&str> for Network {
    type Error = String;

    /// Reads the name of a network, in whatever case it is written.
    fn try_from(name: &str) -> (network: Result<Self, String>)
        ensures
            network_view(network) == network_from(name@),
    {
        let lowered = to_lowercase(name);
        match network_named(lowered.as_str()) {
            Some(network) => Ok(network),
            None => {
                let mut message = String::from_str("Invalid network '");
                message.append(name);
                message.append("'. Must be one of: mainnet, testnet, regtest");
                Err(message)
            },
        }
    }
}

impl vstd::std_specs::convert::TryFromSpecImpl<&str> for Network {
    open spec fn obeys_try_from_spec() -> bool {
        false
    }

    open spec fn try_from_spec(name: &str) -> Result<Self, String> {
        arbitrary()
    }
}

/// Where the HTTP server listens.
#[derive(Debug, Clone, PartialEq, Eq)]
pub struct ServerConfig {
    pub port: u16,
    pub host: String,
}

/// How to reach Dash Core's RPC interface.
#[derive(Debug, Clone, PartialEq, Eq)]
pub struct RpcConfig {
    pub url: String,
    pub username: String,
    pub password: String,
}

/// How far back the previous quorums lie.
#[derive(Debug, Clone, PartialEq, Eq)]
pub struct QuorumConfig {
    pub previous_blocks_offset: u32,
}

/// Settings for running where the addresses that masternodes report cannot be used
/// as they are.
#[derive(Debug, Clone, PartialEq, Eq)]
pub struct DockerConfig {
    /// The host to check versions at, in place of the host a masternode reports.
    pub version_check_host: Option<String>,
    /// The host to put in the place of the host of the addresses handed out.
    pub address_host_override: Option<String>,
}

impl Default for DockerConfig {
    fn default() -> (docker: Self)
        ensures
            docker.version_check_host is None,
            docker.address_host_override is None,
    {
        DockerConfig { version_check_host: None, address_host_override: None }
    }
}

/// The configuration of a server.
#[derive(Debug, Clone, PartialEq, Eq)]
pub struct Config {
    pub server: ServerConfig,
    pub rpc: RpcConfig,
    pub quorum: QuorumConfig,
    pub network: Network,
    pub docker: DockerConfig,
}

impl Default for Config {
    fn default() -> (config: Self)
        ensures
            config.server.port == 3000,
            config.server.host@ == "0.0.0.0"@,
            config.rpc.url@ == "http://127.0.0.1:19998"@,
            config.rpc.username@ == "dashrpc"@,
            config.rpc.password@ == "password"@,
            config.quorum.previous_blocks_offset == 8,
            config.network == Network::Testnet,
            config.docker.version_check_host is None,
            config.docker.address_host_override is None,
    {
        Config {
            server: ServerConfig { port: 3000, host: String::from_str("0.0.0.0") },
            rpc: RpcConfig {
                url: String::from_str("http://127.0.0.1:19998"),
                username: String::from_str("dashrpc"),
                password: String::from_str("password"),
            },
            quorum: QuorumConfig { previous_blocks_offset: 8 },
            network: Network::Testnet,
            docker: DockerConfig { version_check_host: None, address_host_override: None },
        }
    }
}

pub struct ConfigView {
    pub server_port: u16,
    pub server_host: Seq<char>,
    pub rpc_url: Seq<char>,
    pub rpc_username: Seq<char>,
    pub rpc_password: Seq<char>,
    pub previous_blocks_offset: u32,
    pub network: Network,
    pub version_check_host: Option<Seq<char>>,
    pub address_host_override: Option<Seq<char>>,
}

impl View for Config {
    type V = ConfigView;

    open spec fn view(&self) -> ConfigView {
        ConfigView {
            server_port: self.server.port,
            server_host: self.server.host@,
            rpc_url: self.rpc.url@,
            rpc_username: self.rpc.username@,
            rpc_password: self.rpc.password@,
            previous_blocks_offset: self.quorum.previous_blocks_offset,
            network: self.network,
            version_check_host: self.docker.version_check_host.deep_view(),
            address_host_override: self.docker.address_host_override.deep_view(),
        }
    }
}

impl DeepView for Config {
    type V = ConfigView;

    open spec fn deep_view(&self) -> ConfigView {
        self@
    }
}

/// The configuration of a server that is given none.
pub open spec fn default_config() -> ConfigView {
    ConfigView {
        server_port: 3000,
        server_host: "0.0.0.0"@,
        rpc_url: "http://127.0.0.1:19998"@,
        rpc_username: "dashrpc"@,
        rpc_password: "password"@,
        previous_blocks_offset: 8,
        network: Network::Testnet,
        version_check_host: None,
        address_host_override: None,
    }
}

/// The settings that the environment may hold, each under the name of its variable.
#[derive(Debug, Clone, PartialEq, Eq)]
pub struct Environment {
    /// `API_PORT`
    pub api_port: Option<String>,
    /// `API_HOST`
    pub api_host: Option<String>,
    /// `DASH_RPC_URL`
    pub dash_rpc_url: Option<String>,
    /// `DASH_RPC_USER`
    pub dash_rpc_user: Option<String>,
    /// `DASH_RPC_PASSWORD`
    pub dash_rpc_password: Option<String>,
    /// `QUORUM_PREVIOUS_BLOCKS_OFFSET`
    pub quorum_previous_blocks_offset: Option<String>,
    /// `DASH_NETWORK`
    pub dash_network: Option<String>,
    /// `VERSION_CHECK_HOST`
    pub version_check_host: Option<String>,
    /// `ADDRESS_HOST_OVERRIDE`
    pub address_host_override: Option<String>,
}

pub struct EnvironmentView {
    pub api_port: Option<Seq<char>>,
    pub api_host: Option<Seq<char>>,
    pub dash_rpc_url: Option<Seq<char>>,
    pub dash_rpc_user: Option<Seq<char>>,
    pub dash_rpc_password: Option<Seq<char>>,
    pub quorum_previous_blocks_offset: Option<Seq<char>>,
    pub dash_network: Option<Seq<char>>,
    pub version_check_host: Option<Seq<char>>,
    pub address_host_override: Option<Seq<char>>,
}

impl View for Environment {
    type V = EnvironmentView;

    open spec fn view(&self) -> EnvironmentView {
        EnvironmentView {
            api_port: self.api_port.deep_view(),
            api_host: self.api_host.deep_view(),
            dash_rpc_url: self.dash_rpc_url.deep_view(),
            dash_rpc_user: self.dash_rpc_user.deep_view(),
            dash_rpc_password: self.dash_rpc_password.deep_view(),
            quorum_previous_blocks_offset: self.quorum_previous_blocks_offset.deep_view(),
            dash_network: self.dash_network.deep_view(),
            version_check_host: self.version_check_host.deep_view(),
            address_host_override: self.address_host_override.deep_view(),
        }
    }
}

/// The text that the environment sets, and `default` where it sets none.
pub open spec fn text_or(setting: Option<Seq<char>>, default: Seq<char>) -> Seq<char> {
    match setting {
        Some(text) => text,
        None => default,
    }
}

/// The number up to `max` that the environment sets, and `default` where it sets none,
/// or none that reads as such a number.
pub open spec fn number_or(setting: Option<Seq<char>>, max: nat, default: nat) -> nat {
    match setting {
        Some(text) => match parsed_number(text, max) {
            Some(n) => n,
            None => default,
        },
        None => default,
    }
}

/// The configuration that the environment gives, starting from the default one. A
/// network that cannot be read is an error; a number that cannot be read is passed
/// over.
pub open spec fn environment_config(env: EnvironmentView) -> Result<ConfigView, Seq<char>> {
    let base = default_config();
    let network = match env.dash_network {
        Some(name) => network_from(name),
        None => Ok(base.network),
    };
    match network {
        Err(message) => Err(message),
        Ok(network) => Ok(
            ConfigView {
                server_port: number_or(env.api_port, u16::MAX as nat, base.server_port as nat) as u16,
                server_host: text_or(env.api_host, base.server_host),
                rpc_url: text_or(env.dash_rpc_url, base.rpc_url),
                rpc_username: text_or(env.dash_rpc_user, base.rpc_username),
                rpc_password: text_or(env.dash_rpc_password, base.rpc_password),
                previous_blocks_offset: number_or(
                    env.quorum_previous_blocks_offset,
                    u32::MAX as nat,
                    base.previous_blocks_offset as nat,
                ) as u32,
                network,
                version_check_host: env.version_check_host,
                address_host_override: env.address_host_override,
            },
        ),
    }
}

/// The view of a configuration or the message why there is none.
pub open spec fn config_view(outcome: Result<Config, String>) -> Result<ConfigView, Seq<char>> {
    match outcome {
        Ok(config) => Ok(config@),
        Err(message) => Err(message@),
    }
}

/// The host of an address: what stands before its last colon, and all of it where it
/// has none.
pub open spec fn host_part(address: Seq<char>) -> Seq<char> {
    if last_index(address, ':') >= 0 {
        address.take(last_index(address, ':'))
    } else {
        address
    }
}

/// The port of an address: what stands after its last colon, if it has one.
pub open spec fn port_part(address: Seq<char>) -> Option<Seq<char>> {
    if last_index(address, ':') >= 0 {
        Some(address.skip(last_index(address, ':') + 1))
    } else {
        None
    }
}

/// The host at which the version of the node at `address` is checked.
pub open spec fn version_check_host_of(config: ConfigView, address: Seq<char>) -> Seq<char> {
    match config.version_check_host {
        Some(replacement) => replacement,
        None => host_part(address),
    }
}

/// The address that is handed out for the node at `address`.
pub open spec fn overridden_address(config: ConfigView, address: Seq<char>) -> Seq<char> {
    match (config.address_host_override, port_part(address)) {
        (Some(host), Some(port)) => host + seq![':'] + port,
        _ => address,
    }
}

impl Config {
    /// The name of the platform quorum type on the configured network.
    pub fn get_llmq_type(&self) -> (name: &'static str)
        ensures
            name@ == self.network.spec_llmq_type(),
    {
        self.network.llmq_type()
    }

    /// The number of the platform quorum type on the configured network.
    pub fn get_llmq_type_id(&self) -> (id: u32)
        ensures
            id == self.network.spec_llmq_type_id(),
    {
        self.network.llmq_type_id()
    }

    /// The port on which masternodes of the configured network serve DAPI.
    pub fn get_dapi_port(&self) -> (port: u16)
        ensures
            port == self.network.spec_dapi_port(),
    {
        self.network.dapi_port()
    }

    /// The host at which to check the version of the node at `address`: the configured
    /// replacement where there is one, else the host of the address.
    pub fn get_version_check_host(&self, address: &str) -> (host: String)
        ensures
            host@ == version_check_host_of(self@, address@),
    {
        match &self.docker.version_check_host {
            Some(replacement) => replacement.clone(),
            None => {
                let chars = chars_of(address);
                match find_last(&chars, ':') {
                    Some(at) => String::from_str(address.substring_char(0, at)),
                    None => String::from_str(address),
                }
            },
        }
    }

    /// The address to hand out for the node at `address`: where a host override is
    /// configured and the address has a port, the override with that port, else the
    /// address as it is.
    pub fn apply_address_host_override(&self, address: &str) -> (shown: String)
        ensures
            shown@ == overridden_address(self@, address@),
    {
        match &self.docker.address_host_override {
            Some(override_host) => {
                let chars = chars_of(address);
                match find_last(&chars, ':') {
                    Some(at) => {
                        proof {
                            reveal_strlit(":");
                        }
                        let port = address.substring_char(at + 1, chars.len());
                        let mut shown = override_host.clone();
                        shown.append(":");
                        shown.append(port);
                        assert(":"@ =~= seq![':']);
                        assert(address@.skip(at + 1) =~= address@.subrange(
                            at + 1,
                            address@.len() as int,
                        ));
                        shown
                    },
                    None => String::from_str(address),
                }
            },
            None => String::from_str(address),
        }
    }

    /// The configuration of a server: the one loaded from its file, if there is one,
    /// else the default one with what the environment sets. Fails where the
    /// environment names a network that does not exist.
    pub fn load_from_env_or_file(file: Option<Config>, env: Environment) -> (outcome: Result<
        Config,
        String,
    >)
        ensures
            config_view(outcome) == match file {
                Some(loaded) => Ok(loaded@),
                None => environment_config(env@),
            },
    {
        if let Some(loaded) = file {
            return Ok(loaded);
        }
        let mut config = Config::default();
        if let Some(port) = &env.api_port {
            if let Some(number) = parse_u16(port.as_str()) {
                config.server.port = number;
            }
        }
        if let Some(host) = env.api_host {
            config.server.host = host;
        }
        if let Some(url) = env.dash_rpc_url {
            config.rpc.url = url;
        }
        if let Some(username) = env.dash_rpc_user {
            config.rpc.username = username;
        }
        if let Some(password) = env.dash_rpc_password {
            config.rpc.password = password;
        }
        if let Some(offset) = &env.quorum_previous_blocks_offset {
            if let Some(number) = parse_u32(offset.as_str()) {
                config.quorum.previous_blocks_offset = number;
            }
        }
        if let Some(name) = &env.dash_network {
            match Network::try_from(name.as_str()) {
                Ok(network) => {
                    config.network = network;
                },
                Err(message) => {
                    return Err(message);
                },
            }
        }
        config.docker.version_check_host = env.version_check_host;
        config.docker.address_host_override = env.address_host_override;
        Ok(config)
    }
}

} // verus!
