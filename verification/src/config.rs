//! The application's settings, their defaults, and the builder that collects the
//! overrides given on the command line.
use vstd::prelude::*;

use crate::result::AppError;
use crate::string_map::{keys_distinct, map_of_pairs, pair_views, lemma_map_of_pairs_push, StringMap};
use crate::text::{bool_text, bool_to_text, decimal, u64_text};
use vstd::string::StringSliceAdditionalSpecFns;

verus! {

/// The settings for JWT.
#[derive(Clone, Debug)]
pub struct JwtSettings {
    /// The path to the public key used to verify JWT tokens.
    pub pub_key: String,
    /// The path to the private key used to sign JWT tokens.
    pub priv_key: String,
    /// Lifetime of the JWT token in seconds.
    pub lifetime: u64,
}

/// The settings for the database.
#[derive(Clone, Debug)]
pub struct DatabaseSettings {
    /// The URL of the database.
    pub url: String,
    /// The maximum number of connections allowed in the pool.
    pub max_connections: u32,
    /// The maximum lifetime of a connection in the pool, in seconds.
    pub idle_timeout: u64,
    /// The maximum time to wait when acquiring a new connection, in seconds.
    pub connection_timeout: u64,
    /// The number of threads to use for the connection pool.
    pub thread_pool_size: u32,
}

/// The level of the log.
#[derive(Clone, Copy, Debug, PartialEq, Eq, Structural)]
pub enum LogLevel {
    Trace,
    Debug,
    Info,
    Warn,
    Error,
}

/// The format of the log.
#[derive(Clone, Copy, Debug, PartialEq, Eq, Structural)]
pub enum LogFormat {
    Json,
    Pretty,
    Compact,
}

/// The settings for logging and tracing.
#[derive(Clone, Debug)]
pub struct LogSettings {
    /// The level of the log.
    pub level: LogLevel,
    /// The format of the log.
    pub format: LogFormat,
}

/// The settings for the server.
#[derive(Clone, Debug)]
pub struct ServerSettings {
    /// The port to bind the server to.
    pub port: u16,
    /// The number of worker threads to use.
    pub workers: usize,
}

/// The settings for the session.
#[derive(Clone, Debug)]
pub struct SessionSettings {
    /// The secret used to sign the session cookie.
    pub secret: String,
    /// If the cookie should be secure.
    pub secure: bool,
    /// The maximum lifetime of a session, in seconds.
    pub lifetime: u64,
}

/// The settings of the application.
#[derive(Clone, Debug)]
pub struct AppSettings {
    /// The version of the application.
    pub version: String,
    /// The name of the application.
    pub name: String,
    /// If the application is in debug mode.
    pub debug: bool,
    /// The settings for JWT.
    pub jwt: JwtSettings,
    /// The settings for the database.
    pub database: DatabaseSettings,
    /// The settings for logging and tracing.
    pub log: LogSettings,
    /// The settings for the server.
    pub server: ServerSettings,
    /// The settings for the session.
    pub session: SessionSettings,
}

/// Default lifetime of a JWT token, in seconds.
pub const DEFAULT_JWT_LIFETIME: u64 = 3600;
/// Default maximum number of database connections.
pub const DEFAULT_DB_MAX_CONNECTIONS: u32 = 10;
/// Default idle timeout of a database connection, in seconds.
pub const DEFAULT_DB_IDLE_TIMEOUT: u64 = 600;
/// Default time to wait for a database connection, in seconds.
pub const DEFAULT_DB_CONNECTION_TIMEOUT: u64 = 30;
/// Default number of threads of the connection pool.
pub const DEFAULT_DB_THREAD_POOL_SIZE: u32 = 3;
/// Default for the debug mode.
pub const DEFAULT_DEBUG: bool = false;
/// Default port of the server.
pub const DEFAULT_SERVER_PORT: u16 = 8080;
/// Default number of worker threads of the server.
pub const DEFAULT_SERVER_WORKERS: usize = 4;
/// Default for secure session cookies.
pub const DEFAULT_SESSION_SECURE: bool = true;
/// Default lifetime of a session, in seconds.
pub const DEFAULT_SESSION_LIFETIME: u64 = 7200;

/// The name of the application where none is configured.
pub fn default_application_name() -> (s: String)
    ensures
        s@ == "Server"@,
{
    String::from_str("Server")
}

/// The log level where none is configured.
pub fn default_log_level() -> (l: LogLevel)
    ensures
        l == LogLevel::Info,
{
    LogLevel::Info
}

/// The log format where none is configured.
pub fn default_log_format() -> (f: LogFormat)
    ensures
        f == LogFormat::Json,
{
    LogFormat::Json
}

impl Default for ServerSettings {
    fn default() -> (s: ServerSettings)
        ensures
            s.port == 8080,
            s.workers == 4,
    {
        ServerSettings { port: DEFAULT_SERVER_PORT, workers: DEFAULT_SERVER_WORKERS }
    }
}

impl Default for LogSettings {
    fn default() -> (s: LogSettings)
        ensures
            s.level == LogLevel::Info,
            s.format == LogFormat::Json,
    {
        LogSettings { level: LogLevel::Info, format: LogFormat::Json }
    }
}

/// ASCII letters made lowercase, other characters kept.
pub open spec fn ascii_lowercase(s: Seq<char>) -> Seq<char> {
    s.map_values(|c: char| if 'A' <= c <= 'Z' { ((c as u32) + 32) as char } else { c })
}

/// What `str::to_lowercase` returns for a text: its lowercase equivalent under the
/// Unicode `Lowercase` property.
pub uninterp spec fn unicode_lowercase(s: Seq<char>) -> Seq<char>;

/// Calls `str::to_lowercase`. The contract names its result `unicode_lowercase` of the
/// input, and states that on ASCII text it lowers the letters `A`-`Z` and keeps every
/// other character, as the Unicode case mapping does for ASCII. What it does on other
/// characters is left unsaid.
#[verifier::external_body]
fn to_lowercase(s: &str) -> (r: String)
    ensures
        r@ == unicode_lowercase(s@),
        vstd::utf8::is_ascii_chars(s@) ==> r@ == ascii_lowercase(s@),
{
    s.to_lowercase()
}

/// The name of a log level.
pub open spec fn level_name(l: LogLevel) -> Seq<char> {
    match l {
        LogLevel::Trace => "trace"@,
        LogLevel::Debug => "debug"@,
        LogLevel::Info => "info"@,
        LogLevel::Warn => "warn"@,
        LogLevel::Error => "error"@,
    }
}

/// The log level named by a lowercase text, if any.
pub open spec fn level_named(t: Seq<char>) -> Option<LogLevel> {
    if t == "trace"@ {
        Some(LogLevel::Trace)
    } else if t == "debug"@ {
        Some(LogLevel::Debug)
    } else if t == "info"@ {
        Some(LogLevel::Info)
    } else if t == "warn"@ {
        Some(LogLevel::Warn)
    } else if t == "error"@ {
        Some(LogLevel::Error)
    } else {
        None
    }
}

/// The name of a log format.
pub open spec fn format_name(f: LogFormat) -> Seq<char> {
    match f {
        LogFormat::Json => "json"@,
        LogFormat::Pretty => "pretty"@,
        LogFormat::Compact => "compact"@,
    }
}

/// The log format named by a lowercase text, if any.
pub open spec fn format_named(t: Seq<char>) -> Option<LogFormat> {
    if t == "json"@ {
        Some(LogFormat::Json)
    } else if t == "pretty"@ {
        Some(LogFormat::Pretty)
    } else if t == "compact"@ {
        Some(LogFormat::Compact)
    } else {
        None
    }
}

fn text_is(s: &String, lit: &str) -> (r: bool)
    ensures
        r == (s@ == lit@),
{
    let t = String::from_str(lit);
    *s == t
}

impl LogLevel {
    /// The name of the level, as its `Display` writes it.
    pub fn to_string(&self) -> (s: String)
        ensures
            s@ == level_name(*self),
    {
        match self {
            LogLevel::Trace => String::from_str("trace"),
            LogLevel::Debug => String::from_str("debug"),
            LogLevel::Info => String::from_str("info"),
            LogLevel::Warn => String::from_str("warn"),
            LogLevel::Error => String::from_str("error"),
        }
    }

    /// Reads a level from the lowercase form `lower` of the text `input`; where
    /// `lower` names no level, the error is a `BadRequest` that quotes `input`.
    pub fn from_lowercase(lower: &String, input: &str) -> (r: Result<LogLevel, AppError>)
        ensures
            match r {
                Ok(l) => level_named(lower@) == Some(l),
                Err(e) => level_named(lower@) is None && (e matches AppError::BadRequest { cause }
                    && cause@ == input@ + " is not a valid log level"@),
            },
    {
        if text_is(lower, "trace") {
            Ok(LogLevel::Trace)
        } else if text_is(lower, "debug") {
            Ok(LogLevel::Debug)
        } else if text_is(lower, "info") {
            Ok(LogLevel::Info)
        } else if text_is(lower, "warn") {
            Ok(LogLevel::Warn)
        } else if text_is(lower, "error") {
            Ok(LogLevel::Error)
        } else {
            let mut cause = String::from_str(input);
            cause.append(" is not a valid log level");
            Err(AppError::BadRequest { cause })
        }
    }

    /// Reads a level from its name in any case, as its `FromStr` does.
    pub fn from_str(s: &str) -> (r: Result<LogLevel, AppError>)
        ensures
            match r {
                Ok(l) => level_named(unicode_lowercase(s@)) == Some(l),
                Err(e) => level_named(unicode_lowercase(s@)) is None
                    && (e matches AppError::BadRequest { cause } && cause@ == s@
                    + " is not a valid log level"@),
            },
            vstd::utf8::is_ascii_chars(s@) ==> match r {
                Ok(l) => level_named(ascii_lowercase(s@)) == Some(l),
                Err(_) => level_named(ascii_lowercase(s@)) is None,
            },
    {
        let lower = to_lowercase(s);
        Self::from_lowercase(&lower, s)
    }
}

impl LogFormat {
    /// The name of the format, as its `Display` writes it.
    pub fn to_string(&self) -> (s: String)
        ensures
            s@ == format_name(*self),
    {
        match self {
            LogFormat::Json => String::from_str("json"),
            LogFormat::Pretty => String::from_str("pretty"),
            LogFormat::Compact => String::from_str("compact"),
        }
    }

    /// Reads a format from the lowercase form `lower` of the text `input`; where
    /// `lower` names no format, the error is a `BadRequest` that quotes `input`.
    pub fn from_lowercase(lower: &String, input: &str) -> (r: Result<LogFormat, AppError>)
        ensures
            match r {
                Ok(f) => format_named(lower@) == Some(f),
                Err(e) => format_named(lower@) is None && (e matches AppError::BadRequest { cause }
                    && cause@ == input@ + " is not a valid log format"@),
            },
    {
        if text_is(lower, "json") {
            Ok(LogFormat::Json)
        } else if text_is(lower, "pretty") {
            Ok(LogFormat::Pretty)
        } else if text_is(lower, "compact") {
            Ok(LogFormat::Compact)
        } else {
            let mut cause = String::from_str(input);
            cause.append(" is not a valid log format");
            Err(AppError::BadRequest { cause })
        }
    }

    /// Reads a format from its name in any case, as its `FromStr` does.
    pub fn from_str(s: &str) -> (r: Result<LogFormat, AppError>)
        ensures
            match r {
                Ok(f) => format_named(unicode_lowercase(s@)) == Some(f),
                Err(e) => format_named(unicode_lowercase(s@)) is None
                    && (e matches AppError::BadRequest { cause } && cause@ == s@
                    + " is not a valid log format"@),
            },
            vstd::utf8::is_ascii_chars(s@) ==> match r {
                Ok(f) => format_named(ascii_lowercase(s@)) == Some(f),
                Err(_) => format_named(ascii_lowercase(s@)) is None,
            },
    {
        let lower = to_lowercase(s);
        Self::from_lowercase(&lower, s)
    }
}

/// Reading back the name of a log level gives the same level; the name is ASCII and
/// already lowercase, so reading it in any case gives the level too.
pub proof fn law_log_level_round_trip(l: LogLevel)
    ensures
        vstd::utf8::is_ascii_chars(level_name(l)),
        ascii_lowercase(level_name(l)) == level_name(l),
        level_named(level_name(l)) == Some(l),
{
    reveal_strlit("trace");
    reveal_strlit("debug");
    reveal_strlit("info");
    reveal_strlit("warn");
    reveal_strlit("error");
    assert("trace"@[0] != "debug"@[0]);
    assert("trace"@[0] != "error"@[0]);
    assert("debug"@[0] != "error"@[0]);
    assert("info"@[0] != "warn"@[0]);
    assert(ascii_lowercase(level_name(l)) =~= level_name(l));
}

/// Reading back the name of a log format gives the same format; the name is ASCII and
/// already lowercase, so reading it in any case gives the format too.
pub proof fn law_log_format_round_trip(f: LogFormat)
    ensures
        vstd::utf8::is_ascii_chars(format_name(f)),
        ascii_lowercase(format_name(f)) == format_name(f),
        format_named(format_name(f)) == Some(f),
{
    reveal_strlit("json");
    reveal_strlit("pretty");
    reveal_strlit("compact");
    assert(ascii_lowercase(format_name(f)) =~= format_name(f));
}

/// The log levels are named by the lowercase words `trace`, `debug`, `info`, `warn` and
/// `error`, and these five texts, and no other, name a level: each names its own.
pub proof fn law_level_names()
    ensures
        level_name(LogLevel::Trace) == seq!['t', 'r', 'a', 'c', 'e'],
        level_name(LogLevel::Debug) == seq!['d', 'e', 'b', 'u', 'g'],
        level_name(LogLevel::Info) == seq!['i', 'n', 'f', 'o'],
        level_name(LogLevel::Warn) == seq!['w', 'a', 'r', 'n'],
        level_name(LogLevel::Error) == seq!['e', 'r', 'r', 'o', 'r'],
        forall|t: Seq<char>, l: LogLevel| level_named(t) == Some(l) <==> t == level_name(l),
{
    reveal_strlit("trace");
    reveal_strlit("debug");
    reveal_strlit("info");
    reveal_strlit("warn");
    reveal_strlit("error");
    assert("trace"@ =~= seq!['t', 'r', 'a', 'c', 'e']);
    assert("debug"@ =~= seq!['d', 'e', 'b', 'u', 'g']);
    assert("info"@ =~= seq!['i', 'n', 'f', 'o']);
    assert("warn"@ =~= seq!['w', 'a', 'r', 'n']);
    assert("error"@ =~= seq!['e', 'r', 'r', 'o', 'r']);
    assert forall|t: Seq<char>, l: LogLevel| level_named(t) == Some(l) <==> t == level_name(l) by {
        law_log_level_round_trip(l);
    }
}

/// The log formats are named by the lowercase words `json`, `pretty` and `compact`, and
/// these three texts, and no other, name a format: each names its own.
pub proof fn law_format_names()
    ensures
        format_name(LogFormat::Json) == seq!['j', 's', 'o', 'n'],
        format_name(LogFormat::Pretty) == seq!['p', 'r', 'e', 't', 't', 'y'],
        format_name(LogFormat::Compact) == seq!['c', 'o', 'm', 'p', 'a', 'c', 't'],
        forall|t: Seq<char>, f: LogFormat| format_named(t) == Some(f) <==> t == format_name(f),
{
    reveal_strlit("json");
    reveal_strlit("pretty");
    reveal_strlit("compact");
    assert("json"@ =~= seq!['j', 's', 'o', 'n']);
    assert("pretty"@ =~= seq!['p', 'r', 'e', 't', 't', 'y']);
    assert("compact"@ =~= seq!['c', 'o', 'm', 'p', 'a', 'c', 't']);
    assert forall|t: Seq<char>, f: LogFormat| format_named(t) == Some(f) <==> t == format_name(f) by {
        law_log_format_round_trip(f);
    }
}

/// Collects the version of the application and the settings given on the command line,
/// each stored as text under its dotted key, to be laid over the configuration file
/// and the environment.
#[derive(Debug)]
pub struct Config {
    version: String,
    overrides: StringMap,
}

impl View for Config {
    /// The version, and the overrides by key.
    type V = (Seq<char>, Map<Seq<char>, Seq<char>>);

    closed spec fn view(&self) -> (Seq<char>, Map<Seq<char>, Seq<char>>) {
        (self.version@, self.overrides@)
    }
}

impl Config {
    /// A builder for the given version, with no override.
    pub fn new(version: String) -> (c: Config)
        ensures
            c@.0 == version@,
            c@.1 == Map::<Seq<char>, Seq<char>>::empty(),
    {
        Config { version, overrides: StringMap::new() }
    }

    /// The version of the application.
    pub fn version(&self) -> (v: &String)
        ensures
            v@ == self@.0,
    {
        &self.version
    }

    /// The overrides, by key.
    pub fn overrides(&self) -> (o: &StringMap)
        ensures
            o@ == self@.1,
    {
        &self.overrides
    }

    /// The builder with `overrides` in place of its overrides.
    pub fn with_overrides(self, overrides: StringMap) -> (c: Config)
        ensures
            c@.0 == self@.0,
            c@.1 == overrides@,
    {
        Config { version: self.version, overrides }
    }

    fn set(self, key: &str, value: String) -> (c: Config)
        ensures
            c@.0 == self@.0,
            c@.1 == self@.1.insert(key@, value@),
    {
        let mut overrides = self.overrides;
        overrides.insert(String::from_str(key), value);
        Config { version: self.version, overrides }
    }

    /// If the application is in debug mode.
    pub fn set_debug(self, debug: bool) -> (c: Config)
        ensures
            c@.0 == self@.0,
            c@.1 == self@.1.insert("debug"@, bool_text(debug)),
    {
        let value = bool_to_text(debug);
        self.set("debug", value)
    }

    /// The name of the application.
    pub fn set_name(self, name: String) -> (c: Config)
        ensures
            c@.0 == self@.0,
            c@.1 == self@.1.insert("name"@, name@),
    {
        let value = name;
        self.set("name", value)
    }

    /// The URL of the database.
    pub fn set_db_url(self, url: String) -> (c: Config)
        ensures
            c@.0 == self@.0,
            c@.1 == self@.1.insert("database.url"@, url@),
    {
        let value = url;
        self.set("database.url", value)
    }

    /// The maximum number of database connections.
    pub fn set_db_max_connections(self, max_connections: u32) -> (c: Config)
        ensures
            c@.0 == self@.0,
            c@.1 == self@.1.insert("database.max_connections"@, decimal(max_connections as nat)),
    {
        let value = u64_text(max_connections as u64);
        self.set("database.max_connections", value)
    }

    /// The idle timeout of a database connection, in seconds.
    pub fn set_db_idle_timeout(self, idle_timeout: u64) -> (c: Config)
        ensures
            c@.0 == self@.0,
            c@.1 == self@.1.insert("database.idle_timeout"@, decimal(idle_timeout as nat)),
    {
        let value = u64_text(idle_timeout);
        self.set("database.idle_timeout", value)
    }

    /// The time to wait for a database connection, in seconds.
    pub fn set_db_conn_timeout(self, conn_timeout: u64) -> (c: Config)
        ensures
            c@.0 == self@.0,
            c@.1 == self@.1.insert("database.connection_timeout"@, decimal(conn_timeout as nat)),
    {
        let value = u64_text(conn_timeout);
        self.set("database.connection_timeout", value)
    }

    /// The number of threads of the connection pool.
    pub fn set_db_thread_size(self, thread_size: u32) -> (c: Config)
        ensures
            c@.0 == self@.0,
            c@.1 == self@.1.insert("database.thread_pool_size"@, decimal(thread_size as nat)),
    {
        let value = u64_text(thread_size as u64);
        self.set("database.thread_pool_size", value)
    }

    /// The path to the public key of JWT tokens.
    pub fn set_jwt_pub_key(self, pub_key: &str) -> (c: Config)
        ensures
            c@.0 == self@.0,
            c@.1 == self@.1.insert("jwt.pub_key"@, pub_key@),
    {
        let value = String::from_str(pub_key);
        self.set("jwt.pub_key", value)
    }

    /// The path to the private key of JWT tokens.
    pub fn set_jwt_priv_key(self, priv_key: &str) -> (c: Config)
        ensures
            c@.0 == self@.0,
            c@.1 == self@.1.insert("jwt.priv_key"@, priv_key@),
    {
        let value = String::from_str(priv_key);
        self.set("jwt.priv_key", value)
    }

    /// The lifetime of a JWT token, in seconds.
    pub fn set_jwt_lifetime(self, lifetime: u64) -> (c: Config)
        ensures
            c@.0 == self@.0,
            c@.1 == self@.1.insert("jwt.lifetime"@, decimal(lifetime as nat)),
    {
        let value = u64_text(lifetime);
        self.set("jwt.lifetime", value)
    }

    /// The level of the log, by its name.
    pub fn set_log_level(self, level: LogLevel) -> (c: Config)
        ensures
            c@.0 == self@.0,
            c@.1 == self@.1.insert("log.level"@, level_name(level)),
    {
        let value = level.to_string();
        self.set("log.level", value)
    }

    /// The format of the log, by its name.
    pub fn set_log_format(self, format: LogFormat) -> (c: Config)
        ensures
            c@.0 == self@.0,
            c@.1 == self@.1.insert("log.format"@, format_name(format)),
    {
        let value = format.to_string();
        self.set("log.format", value)
    }

    /// The port of the server.
    pub fn set_server_port(self, port: u16) -> (c: Config)
        ensures
            c@.0 == self@.0,
            c@.1 == self@.1.insert("server.port"@, decimal(port as nat)),
    {
        let value = u64_text(port as u64);
        self.set("server.port", value)
    }

    /// The number of worker threads of the server.
    pub fn set_server_workers(self, workers: usize) -> (c: Config)
        ensures
            c@.0 == self@.0,
            c@.1 == self@.1.insert("server.workers"@, decimal(workers as nat)),
    {
        let value = u64_text(workers as u64);
        self.set("server.workers", value)
    }

    /// The secret that signs the session cookie.
    pub fn set_session_secret(self, secret: String) -> (c: Config)
        ensures
            c@.0 == self@.0,
            c@.1 == self@.1.insert("session.secret"@, secret@),
    {
        let value = secret;
        self.set("session.secret", value)
    }

    /// The lifetime of a session, in seconds.
    pub fn set_session_lifetime(self, lifetime: u64) -> (c: Config)
        ensures
            c@.0 == self@.0,
            c@.1 == self@.1.insert("session.lifetime"@, decimal(lifetime as nat)),
    {
        let value = u64_text(lifetime);
        self.set("session.lifetime", value)
    }

    /// If the session cookie should be secure.
    pub fn set_session_secure(self, secure: bool) -> (c: Config)
        ensures
            c@.0 == self@.0,
            c@.1 == self@.1.insert("session.secure"@, bool_text(secure)),
    {
        let value = bool_to_text(secure);
        self.set("session.secure", value)
    }

    /// The overrides that building the configuration lays over the file and the
    /// environment: the version under `version`, then every override, which wins over
    /// the version where it has that key. The entries come in that order.
    pub fn effective_overrides(&self) -> (m: StringMap)
        ensures
            m@ == map!["version"@ => self@.0].union_prefer_right(self@.1),
    {
        let mut m = StringMap::new();
        m.insert(String::from_str("version"), self.version.clone());
        let entries = self.overrides.entries();
        let ghost pv = pair_views(entries@);
        let ghost base = map!["version"@ => self@.0];
        assert(map_of_pairs(pv.take(0)) =~= Map::<Seq<char>, Seq<char>>::empty());
        assert(m@ =~= base.union_prefer_right(map_of_pairs(pv.take(0))));
        let n = entries.len();
        let mut i: usize = 0;
        while i < n
            invariant
                n == entries@.len(),
                i <= n,
                pv == pair_views(entries@),
                keys_distinct(pv),
                m@ == base.union_prefer_right(map_of_pairs(pv.take(i as int))),
            decreases n - i,
        {
            let k = entries[i].0.clone();
            let v = entries[i].1.clone();
            m.insert(k, v);
            proof {
                assert(pv.take(i + 1) =~= pv.take(i as int).push(pv[i as int]));
                assert(keys_distinct(pv.take(i + 1))) by {
                    assert forall|a: int, b: int|
                        0 <= a < pv.take(i + 1).len() && 0 <= b < pv.take(i + 1).len() && a != b implies
                        #[trigger] pv.take(i + 1)[a].0 != #[trigger] pv.take(i + 1)[b].0 by {
                        assert(pv.take(i + 1)[a] == pv[a] && pv.take(i + 1)[b] == pv[b]);
                    }
                }
                lemma_map_of_pairs_push(pv.take(i as int), pv[i as int]);
                assert(m@ =~= base.union_prefer_right(map_of_pairs(pv.take(i + 1))));
            }
            i = i + 1;
        }
        assert(pv.take(n as int) =~= pv);
        m
    }
}

/// The text that stands for a secret when the settings are written out: one `*` for
/// each byte of the secret's UTF-8 encoding.
pub open spec fn obfuscated(value: &str) -> Seq<char> {
    Seq::new((value.spec_bytes().len() as usize) as nat, |i: int| '*')
}

/// A secret is written as exactly one `*` for each byte of its UTF-8 encoding, and
/// nothing else.
pub proof fn law_obfuscated(value: &str)
    ensures
        obfuscated(value).len() == value.spec_bytes().len() as usize,
        forall|i: int| 0 <= i < obfuscated(value).len() ==> #[trigger] obfuscated(value)[i] == '*',
{
}

/// Writes a secret as a run of `*`, one for each of its bytes.
pub fn obfuscate_string(value: &str) -> (s: String)
    ensures
        s@ == obfuscated(value),
{
    let n = value.len();
    let mut s = String::new();
    let mut i: usize = 0;
    while i < n
        invariant
            i <= n,
            n == value.spec_bytes().len() as usize,
            s@ =~= Seq::new(i as nat, |k: int| '*'),
        decreases n - i,
    {
        proof {
            reveal_strlit("*");
        }
        s.append("*");
        i = i + 1;
    }
    s
}

} // verus!
