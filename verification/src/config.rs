//! The configuration of an installation.

use vstd::prelude::*;
use vstd::string::*;

use crate::error::NegotiationError;
use crate::text::{decimal_nat, unsigned_text};

verus! {

/// Everything an installation is configured with.
#[derive(Debug, Clone)]
pub struct AppConfig {
    pub server: ServerConfig,
    pub database: DatabaseConfig,
    pub discovery: DiscoveryConfig,
    pub settlement: SettlementConfig,
    pub trust: TrustConfig,
    pub llm: LLMConfig,
    pub logging: LoggingConfig,
}

/// Where the server listens.
#[derive(Debug, Clone)]
pub struct ServerConfig {
    pub host: String,
    pub port: u16,
    pub workers: Option<usize>,
    pub max_connections: Option<usize>,
}

/// Where the durable store is.
#[derive(Debug, Clone)]
pub struct DatabaseConfig {
    pub url: String,
    pub max_connections: Option<u32>,
    pub min_connections: Option<u32>,
    pub acquire_timeout_seconds: Option<u64>,
}

/// Where the registry is.
#[derive(Debug, Clone)]
pub struct DiscoveryConfig {
    pub endpoint: String,
    pub cache_ttl_seconds: Option<u64>,
    pub max_cache_size: Option<usize>,
}

/// What the payment rails need.
#[derive(Debug, Clone)]
pub struct SettlementConfig {
    pub stripe_secret_key: Option<String>,
    pub solana_rpc_url: Option<String>,
    pub escrow_service_url: Option<String>,
    pub webhook_secret: Option<String>,
}

/// How reputation is kept.
#[derive(Debug, Clone)]
pub struct TrustConfig {
    pub jwt_secret: Option<String>,
    pub min_reputation_threshold: Option<u32>,
    /// By how much reputation decays, in hundredths of a percent.
    pub reputation_decay_basis_points: Option<u32>,
    pub cache_ttl_seconds: Option<u64>,
}

/// How the language model is reached.
#[derive(Debug, Clone)]
pub struct LLMConfig {
    pub model: String,
    pub api_key: Option<String>,
    pub api_base: Option<String>,
    pub max_tokens: Option<u32>,
    /// Sampling temperature in hundredths.
    pub temperature_hundredths: Option<u32>,
    pub timeout_seconds: Option<u64>,
}

/// What is logged, and how.
#[derive(Debug, Clone)]
pub struct LoggingConfig {
    pub level: String,
    pub format: Option<String>,
    pub file: Option<String>,
}

/// What the environment sets over the configuration file.
#[derive(Debug, Clone)]
pub struct Overrides {
    pub stripe_secret_key: Option<String>,
    pub solana_rpc_url: Option<String>,
    pub jwt_secret: Option<String>,
    pub llm_api_key: Option<String>,
    pub log_level: Option<String>,
}

/// Whether `r` is the configuration error with the message `text`.
pub open spec fn config_error<T>(r: Result<T, NegotiationError>, text: Seq<char>) -> bool {
    r matches Err(NegotiationError::Config(m)) && m@ == text
}

/// Whether `text` is `Some` of a text that reads `expected`.
pub open spec fn reads(text: Option<String>, expected: Seq<char>) -> bool {
    text matches Some(s) && s@ == expected
}

impl Default for ServerConfig {
    fn default() -> (c: Self)
        ensures
            c.host@ == "127.0.0.1"@,
            c.port == 8000,
            c.workers == Some(4usize),
            c.max_connections == Some(1000usize),
    {
        ServerConfig {
            host: String::from_str("127.0.0.1"),
            port: 8000,
            workers: Some(4),
            max_connections: Some(1000),
        }
    }
}

impl Default for DatabaseConfig {
    fn default() -> (c: Self)
        ensures
            c.url@ == "sqlite://negotiation.db"@,
            c.max_connections == Some(10u32),
            c.min_connections == Some(1u32),
            c.acquire_timeout_seconds == Some(30u64),
    {
        DatabaseConfig {
            url: String::from_str("sqlite://negotiation.db"),
            max_connections: Some(10),
            min_connections: Some(1),
            acquire_timeout_seconds: Some(30),
        }
    }
}

impl Default for DiscoveryConfig {
    fn default() -> (c: Self)
        ensures
            c.endpoint@ == "http://localhost:8000"@,
            c.cache_ttl_seconds == Some(300u64),
            c.max_cache_size == Some(1000usize),
    {
        DiscoveryConfig {
            endpoint: String::from_str("http://localhost:8000"),
            cache_ttl_seconds: Some(300),
            max_cache_size: Some(1000),
        }
    }
}

impl Default for SettlementConfig {
    fn default() -> (c: Self)
        ensures
            c.stripe_secret_key is None,
            c.solana_rpc_url is None,
            c.escrow_service_url is None,
            c.webhook_secret is None,
    {
        SettlementConfig {
            stripe_secret_key: None,
            solana_rpc_url: None,
            escrow_service_url: None,
            webhook_secret: None,
        }
    }
}

impl Default for TrustConfig {
    fn default() -> (c: Self)
        ensures
            c.jwt_secret is None,
            c.min_reputation_threshold == Some(50u32),
            c.reputation_decay_basis_points == Some(100u32),
            c.cache_ttl_seconds == Some(1800u64),
    {
        TrustConfig {
            jwt_secret: None,
            min_reputation_threshold: Some(50),
            reputation_decay_basis_points: Some(100),
            cache_ttl_seconds: Some(1800),
        }
    }
}

impl Default for LLMConfig {
    fn default() -> (c: Self)
        ensures
            c.model@ == "gpt-3.5-turbo"@,
            c.api_key is None,
            c.api_base is None,
            c.max_tokens == Some(1000u32),
            c.temperature_hundredths == Some(70u32),
            c.timeout_seconds == Some(30u64),
    {
        LLMConfig {
            model: String::from_str("gpt-3.5-turbo"),
            api_key: None,
            api_base: None,
            max_tokens: Some(1000),
            temperature_hundredths: Some(70),
            timeout_seconds: Some(30),
        }
    }
}

impl Default for LoggingConfig {
    fn default() -> (c: Self)
        ensures
            c.level@ == "info"@,
            reads(c.format, "json"@),
            c.file is None,
    {
        LoggingConfig {
            level: String::from_str("info"),
            format: Some(String::from_str("json")),
            file: None,
        }
    }
}

impl Default for AppConfig {
    fn default() -> (c: Self)
        ensures
            c.server.host@ == "127.0.0.1"@,
            c.server.port == 8000,
            c.server.workers == Some(4usize),
            c.server.max_connections == Some(1000usize),
            c.database.url@ == "sqlite://negotiation.db"@,
            c.database.max_connections == Some(10u32),
            c.database.min_connections == Some(1u32),
            c.database.acquire_timeout_seconds == Some(30u64),
            c.discovery.endpoint@ == "http://localhost:8000"@,
            c.discovery.cache_ttl_seconds == Some(300u64),
            c.discovery.max_cache_size == Some(1000usize),
            c.settlement.stripe_secret_key is None,
            c.settlement.solana_rpc_url is None,
            c.settlement.escrow_service_url is None,
            c.settlement.webhook_secret is None,
            c.trust.jwt_secret is None,
            c.trust.min_reputation_threshold == Some(50u32),
            c.trust.reputation_decay_basis_points == Some(100u32),
            c.trust.cache_ttl_seconds == Some(1800u64),
            c.llm.model@ == "gpt-3.5-turbo"@,
            c.llm.api_key is None,
            c.llm.api_base is None,
            c.llm.max_tokens == Some(1000u32),
            c.llm.temperature_hundredths == Some(70u32),
            c.llm.timeout_seconds == Some(30u64),
            c.logging.level@ == "info"@,
            reads(c.logging.format, "json"@),
            c.logging.file is None,
            c.valid(),
    {
        let c = AppConfig {
            server: ServerConfig::default(),
            database: DatabaseConfig::default(),
            discovery: DiscoveryConfig::default(),
            settlement: SettlementConfig::default(),
            trust: TrustConfig::default(),
            llm: LLMConfig::default(),
            logging: LoggingConfig::default(),
        };
        proof {
            reveal_strlit("sqlite://negotiation.db");
            reveal_strlit("http://localhost:8000");
            reveal_strlit("gpt-3.5-turbo");
        }
        c
    }
}

impl AppConfig {
    /// A configuration is usable when the port is not zero and neither the
    /// database address, the registry's endpoint nor the model's name is
    /// empty.
    pub open spec fn valid(&self) -> bool {
        &&& self.server.port != 0
        &&& self.database.url@.len() > 0
        &&& self.discovery.endpoint@.len() > 0
        &&& self.llm.model@.len() > 0
    }

    /// Checks the configuration. The first defect found, in the order port,
    /// database, registry, model, is the one reported.
    pub fn validate(&self) -> (r: Result<(), NegotiationError>)
        ensures
            r is Ok <==> self.valid(),
            self.server.port == 0 ==> config_error(r, "Server port cannot be 0"@),
            self.server.port != 0 && self.database.url@.len() == 0 ==> config_error(
                r,
                "Database URL cannot be empty"@,
            ),
            self.server.port != 0 && self.database.url@.len() > 0 && self.discovery.endpoint@.len()
                == 0 ==> config_error(r, "Discovery endpoint cannot be empty"@),
            self.server.port != 0 && self.database.url@.len() > 0 && self.discovery.endpoint@.len()
                > 0 && self.llm.model@.len() == 0 ==> config_error(
                r,
                "LLM model cannot be empty"@,
            ),
    {
        if self.server.port == 0 {
            return Err(NegotiationError::Config(String::from_str("Server port cannot be 0")));
        }
        if self.database.url.as_str().is_empty() {
            return Err(NegotiationError::Config(String::from_str("Database URL cannot be empty")));
        }
        if self.discovery.endpoint.as_str().is_empty() {
            return Err(
                NegotiationError::Config(String::from_str("Discovery endpoint cannot be empty")),
            );
        }
        if self.llm.model.as_str().is_empty() {
            return Err(NegotiationError::Config(String::from_str("LLM model cannot be empty")));
        }
        Ok(())
    }

    /// The address of the durable store.
    pub fn get_database_url(&self) -> (url: &str)
        ensures
            url@ == self.database.url@,
    {
        self.database.url.as_str()
    }

    /// Host and port of the server, with a colon between them.
    pub fn get_server_address(&self) -> (address: String)
        ensures
            address@ == self.server.host@ + ":"@ + decimal_nat(self.server.port as nat),
    {
        let mut address = self.server.host.clone();
        address.append(":");
        address.append(unsigned_text(self.server.port as u64).as_str());
        address
    }

    /// The endpoint of the registry.
    pub fn get_discovery_endpoint(&self) -> (endpoint: &str)
        ensures
            endpoint@ == self.discovery.endpoint@,
    {
        self.discovery.endpoint.as_str()
    }

    /// Whether the direct-capture rail has its API key.
    pub fn is_stripe_configured(&self) -> (configured: bool)
        ensures
            configured == self.settlement.stripe_secret_key is Some,
    {
        self.settlement.stripe_secret_key.is_some()
    }

    /// Whether the ledger rail has its RPC endpoint.
    pub fn is_solana_configured(&self) -> (configured: bool)
        ensures
            configured == self.settlement.solana_rpc_url is Some,
    {
        self.settlement.solana_rpc_url.is_some()
    }

    /// The secret that signs trust tokens, if one is configured.
    pub fn get_jwt_secret(&self) -> (secret: Option<&str>)
        ensures
            secret is Some <==> self.trust.jwt_secret is Some,
            secret matches Some(s) ==> s@ == self.trust.jwt_secret->Some_0@,
    {
        match &self.trust.jwt_secret {
            Some(secret) => Some(secret.as_str()),
            None => None,
        }
    }

    /// The API key of the language model, if one is configured.
    pub fn get_llm_api_key(&self) -> (key: Option<&str>)
        ensures
            key is Some <==> self.llm.api_key is Some,
            key matches Some(k) ==> k@ == self.llm.api_key->Some_0@,
    {
        match &self.llm.api_key {
            Some(key) => Some(key.as_str()),
            None => None,
        }
    }

    /// Lets the environment override the file: each value that is set
    /// replaces the one of the configuration, and nothing else changes.
    pub fn apply_overrides(&mut self, overrides: Overrides)
        ensures
            final(self).server == old(self).server,
            final(self).database == old(self).database,
            final(self).discovery == old(self).discovery,
            final(self).settlement.escrow_service_url == old(self).settlement.escrow_service_url,
            final(self).settlement.webhook_secret == old(self).settlement.webhook_secret,
            final(self).settlement.stripe_secret_key == (if overrides.stripe_secret_key is Some {
                overrides.stripe_secret_key
            } else {
                old(self).settlement.stripe_secret_key
            }),
            final(self).settlement.solana_rpc_url == (if overrides.solana_rpc_url is Some {
                overrides.solana_rpc_url
            } else {
                old(self).settlement.solana_rpc_url
            }),
            final(self).trust.jwt_secret == (if overrides.jwt_secret is Some {
                overrides.jwt_secret
            } else {
                old(self).trust.jwt_secret
            }),
            final(self).trust.min_reputation_threshold == old(self).trust.min_reputation_threshold,
            final(self).trust.reputation_decay_basis_points == old(self).trust.reputation_decay_basis_points,
            final(self).trust.cache_ttl_seconds == old(self).trust.cache_ttl_seconds,
            final(self).llm.api_key == (if overrides.llm_api_key is Some {
                overrides.llm_api_key
            } else {
                old(self).llm.api_key
            }),
            final(self).llm.model == old(self).llm.model,
            final(self).llm.api_base == old(self).llm.api_base,
            final(self).llm.max_tokens == old(self).llm.max_tokens,
            final(self).llm.temperature_hundredths == old(self).llm.temperature_hundredths,
            final(self).llm.timeout_seconds == old(self).llm.timeout_seconds,
            final(self).logging.level == (match overrides.log_level {
                Some(level) => level,
                None => old(self).logging.level,
            }),
            final(self).logging.format == old(self).logging.format,
            final(self).logging.file == old(self).logging.file,
    {
        if overrides.stripe_secret_key.is_some() {
            self.settlement.stripe_secret_key = overrides.stripe_secret_key;
        }
        if overrides.solana_rpc_url.is_some() {
            self.settlement.solana_rpc_url = overrides.solana_rpc_url;
        }
        if overrides.jwt_secret.is_some() {
            self.trust.jwt_secret = overrides.jwt_secret;
        }
        if overrides.llm_api_key.is_some() {
            self.llm.api_key = overrides.llm_api_key;
        }
        match overrides.log_level {
            Some(level) => {
                self.logging.level = level;
            },
            None => {},
        }
    }
}

} // verus!
