//! Process configuration as plain data: server endpoint, telemetry
//! settings, database settings and the per-class token key material
//! locations. Reading configuration files and wiring loggers is left to the
//! binary around the library; the structures and the derived strings live
//! here.

use vstd::prelude::*;

use crate::strutil::{ascii_lower, dec_str, eq_ignore_ascii_case, trim, trim_spec, u64_to_string};

verus! {

/// The runtime environment a configuration file is named after.
#[derive(Debug, Clone)]
pub enum Environment {
    Development,
    Production,
    Testing,
    Other(String),
}

impl Environment {
    /// The configuration name of the environment.
    pub open spec fn spec_name(&self) -> Seq<char> {
        match self {
            Environment::Development => "development"@,
            Environment::Production => "production"@,
            Environment::Testing => "testing"@,
            Environment::Other(s) => s@,
        }
    }

    /// The configuration name of the environment.
    pub fn name(&self) -> (r: &str)
        ensures
            r@ == self.spec_name(),
    {
        match self {
            Environment::Development => "development",
            Environment::Production => "production",
            Environment::Testing => "testing",
            Environment::Other(s) => s.as_str(),
        }
    }

    /// Reads an environment from its name, ignoring surrounding whitespace
    /// and ASCII case; an unknown name is kept, trimmed, as it is.
    pub fn from_name(env: &str) -> (r: Environment)
        ensures
            ({
                let t = ascii_lower(trim_spec(env@));
                if t == ascii_lower("dev"@) || t == ascii_lower("development"@) {
                    r is Development
                } else if t == ascii_lower("prod"@) || t == ascii_lower("production"@) {
                    r is Production
                } else if t == ascii_lower("test"@) || t == ascii_lower("testing"@) {
                    r is Testing
                } else {
                    match r {
                        Environment::Other(o) => o@ == trim_spec(env@),
                        _ => false,
                    }
                }
            }),
    {
        let t = trim(env);
        if eq_ignore_ascii_case(t, "dev") || eq_ignore_ascii_case(t, "development") {
            Environment::Development
        } else if eq_ignore_ascii_case(t, "prod") || eq_ignore_ascii_case(t, "production") {
            Environment::Production
        } else if eq_ignore_ascii_case(t, "test") || eq_ignore_ascii_case(t, "testing") {
            Environment::Testing
        } else {
            Environment::Other(t.to_owned())
        }
    }
}

/// How telemetry lines are formatted.
#[derive(Debug, Clone, Copy, PartialEq, Eq, Structural)]
pub enum Format {
    Compact,
    Full,
    Json,
    Pretty,
}

impl Format {
    /// The configuration name of the format.
    pub open spec fn spec_name(&self) -> Seq<char> {
        match self {
            Format::Compact => "compact"@,
            Format::Full => "full"@,
            Format::Json => "json"@,
            Format::Pretty => "pretty"@,
        }
    }

    /// The configuration name of the format.
    pub fn name(&self) -> (r: &'static str)
        ensures
            r@ == self.spec_name(),
    {
        match self {
            Format::Compact => "compact",
            Format::Full => "full",
            Format::Json => "json",
            Format::Pretty => "pretty",
        }
    }
}

/// The telemetry verbosity threshold.
#[derive(Debug, Clone, Copy, PartialEq, Eq, Structural)]
pub enum Level {
    Debug,
    Error,
    Info,
    Off,
    Trace,
    Warn,
}

impl Level {
    /// The configuration name of the level.
    pub open spec fn spec_name(&self) -> Seq<char> {
        match self {
            Level::Debug => "debug"@,
            Level::Error => "error"@,
            Level::Info => "info"@,
            Level::Off => "off"@,
            Level::Trace => "trace"@,
            Level::Warn => "warn"@,
        }
    }

    /// The configuration name of the level.
    pub fn name(&self) -> (r: &'static str)
        ensures
            r@ == self.spec_name(),
    {
        match self {
            Level::Debug => "debug",
            Level::Error => "error",
            Level::Info => "info",
            Level::Off => "off",
            Level::Trace => "trace",
            Level::Warn => "warn",
        }
    }
}

/// Telemetry settings: output format, threshold level, extra directives.
#[derive(Debug, Clone)]
pub struct TelemetryConfig {
    pub format: Format,
    pub level: Level,
    pub directives: Vec<String>,
}

impl TelemetryConfig {
    /// Builds telemetry settings field by field.
    pub fn new(format: Format, level: Level, directives: Vec<String>) -> (r: TelemetryConfig)
        ensures
            r.format == format,
            r.level == level,
            r.directives == directives,
    {
        TelemetryConfig { format, level, directives }
    }
}

/// Where the server binds: `protocol`, `host` and `port`.
#[derive(Debug, Clone)]
pub struct ServerConfig {
    pub protocol: String,
    pub host: String,
    pub port: u16,
}

impl ServerConfig {
    /// Builds a server endpoint description.
    pub fn new(protocol: &str, host: &str, port: u16) -> (r: ServerConfig)
        ensures
            r.protocol@ == protocol@,
            r.host@ == host@,
            r.port == port,
    {
        ServerConfig { protocol: protocol.to_owned(), host: host.to_owned(), port }
    }

    /// The full URL of the endpoint: `<protocol>://<host>:<port>`.
    pub fn url(&self) -> (r: String)
        ensures
            r@ == self.protocol@ + "://"@ + self.host@ + ":"@ + dec_str(self.port as int),
    {
        let mut out = String::new();
        out.append(self.protocol.as_str());
        out.append("://");
        out.append(self.host.as_str());
        out.append(":");
        let digits = u64_to_string(self.port as u64);
        out.append(digits.as_str());
        out
    }

    /// The bind address of the endpoint: `<host>:<port>`.
    pub fn address(&self) -> (r: String)
        ensures
            r@ == self.host@ + ":"@ + dec_str(self.port as int),
    {
        let mut out = String::new();
        out.append(self.host.as_str());
        out.append(":");
        let digits = u64_to_string(self.port as u64);
        out.append(digits.as_str());
        out
    }
}

/// Database settings: the connection URL, pool limits, timeouts in seconds
/// and the migration switches.
#[derive(Debug, Clone)]
pub struct DatabaseConfig {
    pub url: String,
    pub connection_timeout: u64,
    pub idle_timeout: u64,
    pub max_connections: u32,
    pub min_connections: u32,
    pub auto_migrate: bool,
    pub recreate: bool,
}

impl DatabaseConfig {
    /// Builds database settings field by field.
    pub fn new(
        url: &str,
        connection_timeout: u64,
        idle_timeout: u64,
        max_connections: u32,
        min_connections: u32,
        auto_migrate: bool,
        recreate: bool,
    ) -> (r: DatabaseConfig)
        ensures
            r.url@ == url@,
            r.connection_timeout == connection_timeout,
            r.idle_timeout == idle_timeout,
            r.max_connections == max_connections,
            r.min_connections == min_connections,
            r.auto_migrate == auto_migrate,
            r.recreate == recreate,
    {
        DatabaseConfig {
            url: url.to_owned(),
            connection_timeout,
            idle_timeout,
            max_connections,
            min_connections,
            auto_migrate,
            recreate,
        }
    }

    /// The connection URL.
    pub fn url(&self) -> (r: &str)
        ensures
            r@ == self.url@,
    {
        self.url.as_str()
    }
}

/// Where one token class's RSA key material lies, and how long its tokens
/// stay valid, in seconds.
#[derive(Debug, Clone)]
pub struct RsaJwtConfig {
    /// Path of the PEM file holding the private key.
    pub private_key: String,
    /// Path of the PEM file holding the public key.
    pub public_key: String,
    /// Validity duration of this class's tokens, in seconds.
    pub max_age: u64,
}

impl RsaJwtConfig {
    /// Builds one token class's key-material description.
    pub fn new(private_key: &str, public_key: &str, max_age: u64) -> (r: RsaJwtConfig)
        ensures
            r.private_key@ == private_key@,
            r.public_key@ == public_key@,
            r.max_age == max_age,
    {
        RsaJwtConfig {
            private_key: private_key.to_owned(),
            public_key: public_key.to_owned(),
            max_age,
        }
    }
}

/// Key material settings for the two token classes.
#[derive(Debug, Clone)]
pub struct AuthConfig {
    /// The short-lived access class.
    pub access: RsaJwtConfig,
    /// The long-lived refresh class.
    pub refresh: RsaJwtConfig,
}

impl AuthConfig {
    /// Builds the two-class key material settings.
    pub fn new(access: RsaJwtConfig, refresh: RsaJwtConfig) -> (r: AuthConfig)
        ensures
            r.access.private_key@ == access.private_key@,
            r.access.public_key@ == access.public_key@,
            r.access.max_age == access.max_age,
            r.refresh.private_key@ == refresh.private_key@,
            r.refresh.public_key@ == refresh.public_key@,
            r.refresh.max_age == refresh.max_age,
    {
        AuthConfig { access, refresh }
    }

    /// The access class's key material settings.
    pub fn access(&self) -> (r: &RsaJwtConfig)
        ensures
            r == &self.access,
    {
        &self.access
    }

    /// The refresh class's key material settings.
    pub fn refresh(&self) -> (r: &RsaJwtConfig)
        ensures
            r == &self.refresh,
    {
        &self.refresh
    }
}

/// The whole process configuration.
#[derive(Debug, Clone)]
pub struct AppConfig {
    pub server: ServerConfig,
    pub logger: TelemetryConfig,
    pub db: DatabaseConfig,
    pub auth: AuthConfig,
}

impl AppConfig {
    /// Assembles the process configuration from its parts.
    pub fn new(
        server: ServerConfig,
        logger: TelemetryConfig,
        db: DatabaseConfig,
        auth: AuthConfig,
    ) -> (r: AppConfig)
        ensures
            r.server == server,
            r.logger == logger,
            r.db == db,
            r.auth == auth,
    {
        AppConfig { server, logger, db, auth }
    }

    /// The server endpoint settings.
    pub fn server(&self) -> (r: &ServerConfig)
        ensures
            r == &self.server,
    {
        &self.server
    }

    /// The telemetry settings.
    pub fn logger(&self) -> (r: &TelemetryConfig)
        ensures
            r == &self.logger,
    {
        &self.logger
    }

    /// The database settings.
    pub fn database(&self) -> (r: &DatabaseConfig)
        ensures
            r == &self.db,
    {
        &self.db
    }

    /// The token key material settings.
    pub fn auth(&self) -> (r: &AuthConfig)
        ensures
            r == &self.auth,
    {
        &self.auth
    }
}

} // verus!
