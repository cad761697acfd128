use daedalus::cli::{tracing_levels, Serve};
use daedalus::config::{
    default_application_name, default_log_format, default_log_level, obfuscate_string, AppSettings,
    Config, DatabaseSettings, JwtSettings, LogFormat, LogLevel, LogSettings, ServerSettings,
    SessionSettings,
};
use daedalus::result::AppError;
use daedalus::string_map::StringMap;

fn value(m: &StringMap, key: &str) -> Option<String> {
    m.get(key).cloned()
}

#[test]
fn setters_store_text_under_dotted_keys() {
    let c = Config::new("1.2.3".to_string())
        .set_debug(true)
        .set_name("App".to_string())
        .set_db_url("postgres://db".to_string())
        .set_db_max_connections(25)
        .set_db_idle_timeout(900)
        .set_db_conn_timeout(0)
        .set_db_thread_size(7)
        .set_jwt_pub_key("keys/pub.pem")
        .set_jwt_priv_key("keys/priv.pem")
        .set_jwt_lifetime(18446744073709551615)
        .set_log_level(LogLevel::Warn)
        .set_log_format(LogFormat::Compact)
        .set_server_port(65535)
        .set_server_workers(12)
        .set_session_secret("s3cret".to_string())
        .set_session_lifetime(7200)
        .set_session_secure(false);
    let o = c.overrides();
    assert_eq!(c.version(), "1.2.3");
    assert_eq!(value(o, "debug").as_deref(), Some("true"));
    assert_eq!(value(o, "name").as_deref(), Some("App"));
    assert_eq!(value(o, "database.url").as_deref(), Some("postgres://db"));
    assert_eq!(value(o, "database.max_connections").as_deref(), Some("25"));
    assert_eq!(value(o, "database.idle_timeout").as_deref(), Some("900"));
    assert_eq!(value(o, "database.connection_timeout").as_deref(), Some("0"));
    assert_eq!(value(o, "database.thread_pool_size").as_deref(), Some("7"));
    assert_eq!(value(o, "jwt.pub_key").as_deref(), Some("keys/pub.pem"));
    assert_eq!(value(o, "jwt.priv_key").as_deref(), Some("keys/priv.pem"));
    assert_eq!(value(o, "jwt.lifetime").as_deref(), Some("18446744073709551615"));
    assert_eq!(value(o, "log.level").as_deref(), Some("warn"));
    assert_eq!(value(o, "log.format").as_deref(), Some("compact"));
    assert_eq!(value(o, "server.port").as_deref(), Some("65535"));
    assert_eq!(value(o, "server.workers").as_deref(), Some("12"));
    assert_eq!(value(o, "session.secret").as_deref(), Some("s3cret"));
    assert_eq!(value(o, "session.lifetime").as_deref(), Some("7200"));
    assert_eq!(value(o, "session.secure").as_deref(), Some("false"));
    assert_eq!(o.entries().len(), 17);
}

#[test]
fn setting_a_key_twice_keeps_the_last_value() {
    let c = Config::new("v".to_string()).set_server_port(80).set_server_port(8081);
    assert_eq!(value(c.overrides(), "server.port").as_deref(), Some("8081"));
    assert_eq!(c.overrides().entries().len(), 1);
}

#[test]
fn with_overrides_replaces_the_overrides() {
    let mut m = StringMap::new();
    m.insert("a".to_string(), "1".to_string());
    let c = Config::new("v".to_string()).set_debug(true).with_overrides(m);
    assert_eq!(value(c.overrides(), "debug"), None);
    assert_eq!(value(c.overrides(), "a").as_deref(), Some("1"));
}

#[test]
fn effective_overrides_put_version_first_and_let_overrides_win() {
    let c = Config::new("0.9".to_string()).set_name("N".to_string());
    let e = c.effective_overrides();
    let pairs: Vec<(String, String)> = e.entries().clone();
    assert_eq!(pairs, vec![("version".to_string(), "0.9".to_string()), ("name".to_string(), "N".to_string())]);

    let mut m = StringMap::new();
    m.insert("version".to_string(), "override".to_string());
    let e = Config::new("0.9".to_string()).with_overrides(m).effective_overrides();
    assert_eq!(value(&e, "version").as_deref(), Some("override"));
    assert_eq!(e.entries().len(), 1);
}

#[test]
fn log_level_text_round_trips() {
    for l in [LogLevel::Trace, LogLevel::Debug, LogLevel::Info, LogLevel::Warn, LogLevel::Error] {
        let t = l.to_string();
        assert_eq!(LogLevel::from_str(&t).unwrap(), l);
        assert_eq!(LogLevel::from_str(&t.to_uppercase()).unwrap(), l);
    }
    assert_eq!(LogLevel::Trace.to_string(), "trace");
    assert_eq!(LogLevel::Error.to_string(), "error");
}

#[test]
fn log_format_text_round_trips() {
    for f in [LogFormat::Json, LogFormat::Pretty, LogFormat::Compact] {
        let t = f.to_string();
        assert_eq!(LogFormat::from_str(&t).unwrap(), f);
    }
    assert_eq!(LogFormat::from_str("PrEtTy").unwrap(), LogFormat::Pretty);
}

#[test]
fn unknown_log_level_is_bad_request_quoting_the_input() {
    match LogLevel::from_str("Verbose") {
        Err(AppError::BadRequest { cause }) => assert_eq!(cause, "Verbose is not a valid log level"),
        other => panic!("unexpected {:?}", other),
    }
    match LogFormat::from_str("XML") {
        Err(AppError::BadRequest { cause }) => assert_eq!(cause, "XML is not a valid log format"),
        other => panic!("unexpected {:?}", other),
    }
}

#[test]
fn unicode_lowercase_decides_the_level() {
    // U+0130 lowercases to "i" followed by a combining dot, which names no level.
    assert!(LogLevel::from_str("\u{130}NFO").is_err());
    assert_eq!(LogLevel::from_str("DEBUG").unwrap(), LogLevel::Debug);
}

#[test]
fn defaults() {
    assert_eq!(default_application_name(), "Server");
    assert_eq!(default_log_level(), LogLevel::Info);
    assert_eq!(default_log_format(), LogFormat::Json);
    let s = ServerSettings::default();
    assert_eq!((s.port, s.workers), (8080, 4));
    let l = LogSettings::default();
    assert_eq!((l.level, l.format), (LogLevel::Info, LogFormat::Json));
}

#[test]
fn obfuscation_writes_one_star_per_byte() {
    assert_eq!(obfuscate_string(""), "");
    assert_eq!(obfuscate_string("abc"), "***");
    assert_eq!(obfuscate_string("é"), "**");
    assert_eq!(obfuscate_string("€"), "***");
    assert_eq!(obfuscate_string("😀"), "****");
}

fn no_options() -> Serve {
    Serve {
        name: None,
        debug: None,
        db_url: None,
        db_max_conns: None,
        db_conn_timeout: None,
        db_idle_timeout: None,
        db_thread_size: None,
        log_level: None,
        log_format: None,
        jwt_pub_key: None,
        jwt_priv_key: None,
        jwt_lifetime: None,
        server_port: None,
        server_workers: None,
        session_secret: None,
        session_secure: None,
        session_lifetime: None,
    }
}

#[test]
fn command_line_options_become_overrides() {
    let c = no_options().into_config("7".to_string());
    assert_eq!(c.version(), "7");
    assert!(c.overrides().is_empty());

    let mut s = no_options();
    s.server_port = Some(9000);
    s.log_level = Some(LogLevel::Debug);
    s.jwt_pub_key = Some("/etc/pub.pem".to_string());
    s.session_secure = Some(true);
    let c = s.into_config("7".to_string());
    let o = c.overrides();
    assert_eq!(o.entries().len(), 4);
    assert_eq!(value(o, "server.port").as_deref(), Some("9000"));
    assert_eq!(value(o, "log.level").as_deref(), Some("debug"));
    assert_eq!(value(o, "jwt.pub_key").as_deref(), Some("/etc/pub.pem"));
    assert_eq!(value(o, "session.secure").as_deref(), Some("true"));
}

fn settings(debug: bool, level: LogLevel) -> AppSettings {
    AppSettings {
        version: "1".to_string(),
        name: "Server".to_string(),
        debug,
        jwt: JwtSettings { pub_key: "p".to_string(), priv_key: "q".to_string(), lifetime: 3600 },
        database: DatabaseSettings {
            url: "u".to_string(),
            max_connections: 10,
            idle_timeout: 600,
            connection_timeout: 30,
            thread_pool_size: 3,
        },
        log: LogSettings { level, format: LogFormat::Json },
        server: ServerSettings { port: 8080, workers: 4 },
        session: SessionSettings { secret: "s".to_string(), secure: true, lifetime: 7200 },
    }
}

#[test]
fn tracing_levels_follow_debug_mode() {
    assert_eq!(tracing_levels(&settings(true, LogLevel::Trace)), (LogLevel::Trace, LogLevel::Trace));
    assert_eq!(tracing_levels(&settings(false, LogLevel::Trace)), (LogLevel::Trace, LogLevel::Error));
}
