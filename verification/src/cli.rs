//! The options of the command line, the overrides they make, and the log levels
//! that the settings ask for.
use vstd::prelude::*;

use crate::config::{format_name, level_name, AppSettings, Config, LogFormat, LogLevel};
use crate::text::{bool_text, decimal};

pub mod overrides;

verus! {

/// The options of the `serve` command; each one given overrides a setting.
#[derive(Clone, Debug)]
pub struct Serve {
    /// Name of the application.
    pub name: Option<String>,
    /// If the application runs in debug mode.
    pub debug: Option<bool>,
    /// URL of the database.
    pub db_url: Option<String>,
    /// Maximum number of database connections.
    pub db_max_conns: Option<u32>,
    /// Time to wait for a database connection, in seconds.
    pub db_conn_timeout: Option<u64>,
    /// Idle timeout of a database connection, in seconds.
    pub db_idle_timeout: Option<u64>,
    /// Number of threads of the connection pool.
    pub db_thread_size: Option<u32>,
    /// Level of the log.
    pub log_level: Option<LogLevel>,
    /// Format of the log.
    pub log_format: Option<LogFormat>,
    /// Path to the public key of JWT tokens.
    pub jwt_pub_key: Option<String>,
    /// Path to the private key of JWT tokens.
    pub jwt_priv_key: Option<String>,
    /// Lifetime of a JWT token, in seconds.
    pub jwt_lifetime: Option<u64>,
    /// Port of the server.
    pub server_port: Option<u16>,
    /// Number of worker threads of the server.
    pub server_workers: Option<usize>,
    /// Secret that signs the session cookie.
    pub session_secret: Option<String>,
    /// If the session cookie should be secure.
    pub session_secure: Option<bool>,
    /// Lifetime of a session, in seconds.
    pub session_lifetime: Option<u64>,
}

/// `m` with `value` stored under `key` where there is a value.
pub open spec fn put(
    m: Map<Seq<char>, Seq<char>>,
    key: Seq<char>,
    value: Option<Seq<char>>,
) -> Map<Seq<char>, Seq<char>> {
    match value {
        Some(v) => m.insert(key, v),
        None => m,
    }
}

/// The overrides that the given options make, each under its setting's key, as the
/// builder's setters write them.
pub open spec fn serve_overrides(s: Serve) -> Map<Seq<char>, Seq<char>> {
    let m = Map::<Seq<char>, Seq<char>>::empty();
    let m = put(m, "name"@, match s.name { Some(t) => Some(t@), None => None });
    let m = put(m, "debug"@, match s.debug { Some(b) => Some(bool_text(b)), None => None });
    let m = put(m, "database.url"@, match s.db_url { Some(t) => Some(t@), None => None });
    let m = put(m, "database.max_connections"@, match s.db_max_conns { Some(n) => Some(decimal(n as nat)), None => None });
    let m = put(m, "database.connection_timeout"@, match s.db_conn_timeout { Some(n) => Some(decimal(n as nat)), None => None });
    let m = put(m, "database.idle_timeout"@, match s.db_idle_timeout { Some(n) => Some(decimal(n as nat)), None => None });
    let m = put(m, "database.thread_pool_size"@, match s.db_thread_size { Some(n) => Some(decimal(n as nat)), None => None });
    let m = put(m, "log.level"@, match s.log_level { Some(l) => Some(level_name(l)), None => None });
    let m = put(m, "log.format"@, match s.log_format { Some(x) => Some(format_name(x)), None => None });
    let m = put(m, "jwt.pub_key"@, match s.jwt_pub_key { Some(t) => Some(t@), None => None });
    let m = put(m, "jwt.priv_key"@, match s.jwt_priv_key { Some(t) => Some(t@), None => None });
    let m = put(m, "jwt.lifetime"@, match s.jwt_lifetime { Some(n) => Some(decimal(n as nat)), None => None });
    let m = put(m, "server.port"@, match s.server_port { Some(n) => Some(decimal(n as nat)), None => None });
    let m = put(m, "server.workers"@, match s.server_workers { Some(n) => Some(decimal(n as nat)), None => None });
    let m = put(m, "session.secret"@, match s.session_secret { Some(t) => Some(t@), None => None });
    let m = put(m, "session.secure"@, match s.session_secure { Some(b) => Some(bool_text(b)), None => None });
    let m = put(m, "session.lifetime"@, match s.session_lifetime { Some(n) => Some(decimal(n as nat)), None => None });
    m
}

impl Serve {
    /// The configuration builder for `version` with the overrides that the options make.
    pub fn into_config(self, version: String) -> (c: Config)
        ensures
            c@.0 == version@,
            c@.1 == serve_overrides(self),
    {
        let ghost s = self;
        let mut config = Config::new(version);
        let ghost m = Map::<Seq<char>, Seq<char>>::empty();
        proof {
            m = put(m, "name"@, match s.name { Some(t) => Some(t@), None => None });
        }
        match self.name {
            Some(v) => {
                config = config.set_name(v);
            },
            None => {},
        }
        assert(config@.1 == m);
        proof {
            m = put(m, "debug"@, match s.debug { Some(b) => Some(bool_text(b)), None => None });
        }
        match self.debug {
            Some(v) => {
                config = config.set_debug(v);
            },
            None => {},
        }
        assert(config@.1 == m);
        proof {
            m = put(m, "database.url"@, match s.db_url { Some(t) => Some(t@), None => None });
        }
        match self.db_url {
            Some(v) => {
                config = config.set_db_url(v);
            },
            None => {},
        }
        assert(config@.1 == m);
        proof {
            m = put(m, "database.max_connections"@, match s.db_max_conns { Some(n) => Some(decimal(n as nat)), None => None });
        }
        match self.db_max_conns {
            Some(v) => {
                config = config.set_db_max_connections(v);
            },
            None => {},
        }
        assert(config@.1 == m);
        proof {
            m = put(m, "database.connection_timeout"@, match s.db_conn_timeout { Some(n) => Some(decimal(n as nat)), None => None });
        }
        match self.db_conn_timeout {
            Some(v) => {
                config = config.set_db_conn_timeout(v);
            },
            None => {},
        }
        assert(config@.1 == m);
        proof {
            m = put(m, "database.idle_timeout"@, match s.db_idle_timeout { Some(n) => Some(decimal(n as nat)), None => None });
        }
        match self.db_idle_timeout {
            Some(v) => {
                config = config.set_db_idle_timeout(v);
            },
            None => {},
        }
        assert(config@.1 == m);
        proof {
            m = put(m, "database.thread_pool_size"@, match s.db_thread_size { Some(n) => Some(decimal(n as nat)), None => None });
        }
        match self.db_thread_size {
            Some(v) => {
                config = config.set_db_thread_size(v);
            },
            None => {},
        }
        assert(config@.1 == m);
        proof {
            m = put(m, "log.level"@, match s.log_level { Some(l) => Some(level_name(l)), None => None });
        }
        match self.log_level {
            Some(v) => {
                config = config.set_log_level(v);
            },
            None => {},
        }
        assert(config@.1 == m);
        proof {
            m = put(m, "log.format"@, match s.log_format { Some(x) => Some(format_name(x)), None => None });
        }
        match self.log_format {
            Some(v) => {
                config = config.set_log_format(v);
            },
            None => {},
        }
        assert(config@.1 == m);
        proof {
            m = put(m, "jwt.pub_key"@, match s.jwt_pub_key { Some(t) => Some(t@), None => None });
        }
        match self.jwt_pub_key {
            Some(v) => {
                config = config.set_jwt_pub_key(v.as_str());
            },
            None => {},
        }
        assert(config@.1 == m);
        proof {
            m = put(m, "jwt.priv_key"@, match s.jwt_priv_key { Some(t) => Some(t@), None => None });
        }
        match self.jwt_priv_key {
            Some(v) => {
                config = config.set_jwt_priv_key(v.as_str());
            },
            None => {},
        }
        assert(config@.1 == m);
        proof {
            m = put(m, "jwt.lifetime"@, match s.jwt_lifetime { Some(n) => Some(decimal(n as nat)), None => None });
        }
        match self.jwt_lifetime {
            Some(v) => {
                config = config.set_jwt_lifetime(v);
            },
            None => {},
        }
        assert(config@.1 == m);
        proof {
            m = put(m, "server.port"@, match s.server_port { Some(n) => Some(decimal(n as nat)), None => None });
        }
        match self.server_port {
            Some(v) => {
                config = config.set_server_port(v);
            },
            None => {},
        }
        assert(config@.1 == m);
        proof {
            m = put(m, "server.workers"@, match s.server_workers { Some(n) => Some(decimal(n as nat)), None => None });
        }
        match self.server_workers {
            Some(v) => {
                config = config.set_server_workers(v);
            },
            None => {},
        }
        assert(config@.1 == m);
        proof {
            m = put(m, "session.secret"@, match s.session_secret { Some(t) => Some(t@), None => None });
        }
        match self.session_secret {
            Some(v) => {
                config = config.set_session_secret(v);
            },
            None => {},
        }
        assert(config@.1 == m);
        proof {
            m = put(m, "session.secure"@, match s.session_secure { Some(b) => Some(bool_text(b)), None => None });
        }
        match self.session_secure {
            Some(v) => {
                config = config.set_session_secure(v);
            },
            None => {},
        }
        assert(config@.1 == m);
        proof {
            m = put(m, "session.lifetime"@, match s.session_lifetime { Some(n) => Some(decimal(n as nat)), None => None });
        }
        match self.session_lifetime {
            Some(v) => {
                config = config.set_session_lifetime(v);
            },
            None => {},
        }
        assert(config@.1 == m);
        config
    }
}

/// The level of the application's own log events, and the level of all other events:
/// the configured level for both in debug mode, else the configured level and `Error`.
pub fn tracing_levels(settings: &AppSettings) -> (r: (LogLevel, LogLevel))
    ensures
        r.0 == settings.log.level,
        r.1 == if settings.debug { settings.log.level } else { LogLevel::Error },
{
    let level = settings.log.level;
    let base = if settings.debug { level } else { LogLevel::Error };
    (level, base)
}

} // verus!
