use scheduler_backing::redis::{self as redis_store, RedisSetup, SetupStep, SetupWork};
use scheduler_backing::sqlite::{default_options, default_settings, options_for, LogLevel};

#[test]
fn redis_open_accepts_server_urls_only() {
    assert!(redis_store::open("redis://127.0.0.1:6379/").is_ok());
    assert!(redis_store::open("redis://cache.example/2").is_ok());
    assert!(redis_store::open("http://127.0.0.1/").is_err());
    assert!(redis_store::open("not a url").is_err());
    assert!(redis_store::open("redis://127.0.0.1/notanumber").is_err());
}

fn redis_error() -> redis::RedisError {
    redis::RedisError::from((redis::ErrorKind::IoError, "refused"))
}

#[test]
fn redis_setup_connects_then_pings() {
    let (s, w) = RedisSetup::start();
    assert_eq!(w, SetupWork::Connect);
    let (s, step) = s.resume(Ok(()));
    assert!(matches!(step, SetupStep::Run(SetupWork::Ping)));
    let (s, step) = s.resume(Ok(()));
    assert!(matches!(step, SetupStep::Finish(Ok(()))));
    assert_eq!(s, RedisSetup::Finished);
}

#[test]
fn redis_setup_stops_at_a_failed_connect() {
    let (s, _) = RedisSetup::start();
    let (s, step) = s.resume(Err(redis_error()));
    assert_eq!(s, RedisSetup::Finished);
    match step {
        SetupStep::Finish(Err(e)) => assert_eq!(e.kind(), redis::ErrorKind::IoError),
        other => panic!("unexpected {:?}", other),
    }
}

#[test]
fn redis_setup_reports_a_failed_ping() {
    let (s, _) = RedisSetup::start();
    let (s, _) = s.resume(Ok(()));
    assert!(matches!(s.resume(Err(redis_error())).1, SetupStep::Finish(Err(_))));
}

#[test]
fn sqlite_default_settings() {
    let s = default_settings();
    assert!(s.create_if_missing);
    assert_eq!(s.statements, LogLevel::Off);
    assert_eq!(s.slow_statements, LogLevel::Warn);
    assert_eq!(s.slow_after_secs, 1);
}

#[test]
fn sqlite_options_accept_database_urls() {
    assert!(default_options("sqlite://jobs.db").is_ok());
    assert!(default_options("sqlite::memory:").is_ok());
    assert!(default_options("sqlite://jobs.db?mode=rwc").is_ok());
    assert!(default_options("sqlite://jobs.db?mode=bogus").is_err());
    assert!(default_options("sqlite://jobs.db?colour=red").is_err());
    let s = default_settings();
    assert!(options_for("jobs.db", s).is_ok());
}
