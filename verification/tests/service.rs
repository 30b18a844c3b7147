use digital_server::database::{DbSetup, DbSetupAction, DbSetupEvent, DbSetupFailure, DbSetupStep};
use digital_server::environment::Environment;
use aws_sdk_s3::presigning::{PresigningConfig, PresigningConfigError};
use digital_server::errors::{link_config, AppError, S3Error};
use std::time::Duration;
use digital_server::routes::{app_routes, cors_origins, docs_enabled, docs_document_path, fallback_response, home_page, Endpoint};
use digital_server::server::{server_address, webhook_target, webhook_url};
use digital_server::telemetry::{targets_with_level, trace_level, TraceLevel};

fn presign_refusal() -> PresigningConfigError {
    PresigningConfig::expires_in(Duration::from_secs(10_000_000)).unwrap_err()
}

#[test]
fn errors_answer_internal_server_error() {
    let cases: Vec<(AppError, bool)> = vec![
        (AppError::S3(S3Error::Presign(presign_refusal())), false),
        (AppError::S3(S3Error::SdkError("can't get presign".to_string())), false),
        (AppError::Postgres(sqlx::Error::RowNotFound), true),
        (AppError::Unknown(anyhow::Error::msg("boom")), false),
    ];
    for (e, logged) in cases {
        let r = e.response();
        assert_eq!(r.status, 505);
        assert_eq!(r.message, "internal server error");
        assert_eq!(r.log_details, logged);
    }
}

#[test]
fn link_config_accepts_up_to_one_week() {
    let hour = link_config(3600).unwrap();
    assert_eq!(hour.expires_in_secs, 3600);
    assert_eq!(hour.config.expires(), Duration::from_secs(3600));
    assert_eq!(link_config(0).unwrap().expires_in_secs, 0);
    let week = link_config(604_800).unwrap();
    assert_eq!(week.expires_in_secs, 604_800);
    assert_eq!(week.config.expires(), Duration::from_secs(604_800));
    assert!(matches!(link_config(604_801), Err(S3Error::Presign(_))));
    assert!(matches!(link_config(u64::MAX), Err(S3Error::Presign(_))));
}

#[test]
fn routes_by_environment() {
    let local: Vec<(String, Endpoint)> = app_routes(&Environment::Local).into_iter().map(|r| (r.path, r.endpoint)).collect();
    assert_eq!(
        local,
        vec![
            ("/profile".to_string(), Endpoint::Profile),
            ("/".to_string(), Endpoint::Home),
            ("/health_check".to_string(), Endpoint::HealthCheck),
            ("/docs".to_string(), Endpoint::Docs),
        ]
    );
    assert_eq!(app_routes(&Environment::Production).len(), 3);
    assert!(docs_enabled(&Environment::Local));
    assert!(!docs_enabled(&Environment::Production));
    assert_eq!(home_page(), "<h1>Hello World!</h1>");
    assert_eq!(fallback_response(), (404, "invalid api"));
    assert_eq!(docs_document_path(), "/docs.json");
}

#[test]
fn addresses() {
    assert_eq!(server_address("0.0.0.0", 8000), "0.0.0.0:8000");
    assert_eq!(webhook_url("https://bot.example.com"), "https://bot.example.com/webhook");
}

#[test]
fn trace_levels() {
    assert_eq!(trace_level(&Environment::Local), TraceLevel::Debug);
    assert_eq!(trace_level(&Environment::Production), TraceLevel::Info);
    let t = targets_with_level(&Environment::Production, &vec!["server".to_string(), "telebot".to_string()]);
    assert_eq!(t, vec![("server".to_string(), TraceLevel::Info), ("telebot".to_string(), TraceLevel::Info)]);
}

fn run(env: Environment, events: &[DbSetupEvent]) -> (DbSetup, Vec<DbSetupAction>) {
    let (mut s, first) = DbSetup::start(env);
    let mut actions = vec![first];
    for e in events {
        actions.push(s.advance(*e));
    }
    (s, actions)
}

#[test]
fn database_setup_in_production_creates_and_migrates() {
    let (s, actions) = run(
        Environment::Production,
        &[DbSetupEvent::Exists(false), DbSetupEvent::Created, DbSetupEvent::Connected, DbSetupEvent::Migrated],
    );
    assert_eq!(
        actions,
        vec![
            DbSetupAction::CheckExists,
            DbSetupAction::CreateDatabase,
            DbSetupAction::Connect,
            DbSetupAction::Migrate,
            DbSetupAction::Done,
        ]
    );
    assert_eq!(s.step, DbSetupStep::Ready);
}

#[test]
fn database_setup_locally_skips_migrations() {
    let (s, actions) = run(Environment::Local, &[DbSetupEvent::Exists(true), DbSetupEvent::Connected]);
    assert_eq!(actions, vec![DbSetupAction::CheckExists, DbSetupAction::Connect, DbSetupAction::Done]);
    assert_eq!(s.step, DbSetupStep::Ready);
}

#[test]
fn database_setup_failures() {
    let (_, a) = run(Environment::Local, &[DbSetupEvent::Failed]);
    assert_eq!(a[1], DbSetupAction::Abort(DbSetupFailure::CheckExists));
    let (_, a) = run(Environment::Local, &[DbSetupEvent::Exists(false), DbSetupEvent::Failed]);
    assert_eq!(a[2], DbSetupAction::Abort(DbSetupFailure::CreateDatabase));
    let (_, a) = run(Environment::Production, &[DbSetupEvent::Exists(true), DbSetupEvent::Connected, DbSetupEvent::Failed]);
    assert_eq!(a[3], DbSetupAction::Abort(DbSetupFailure::Migrate));
    let (s, a) = run(Environment::Local, &[DbSetupEvent::Connected]);
    assert_eq!(a[1], DbSetupAction::Abort(DbSetupFailure::OutOfOrder));
    assert_eq!(s.step, DbSetupStep::Aborted);
    assert_eq!(DbSetupFailure::CheckExists.message(), "can't check if database exists or not");
    assert_eq!(DbSetupFailure::CreateDatabase.message(), "can't create database");
    assert_eq!(DbSetupFailure::Migrate.message(), "cannot run db migration");
}

#[test]
fn webhook_target_parses_the_webhook_url() {
    let u = webhook_target("https://bot.example.com").unwrap();
    assert_eq!(u.as_str(), "https://bot.example.com/webhook");
    assert_eq!(u.path(), "/webhook");
    assert!(webhook_target("").is_err());
    assert!(webhook_target("not a url").is_err());
}

#[test]
fn cors_origins_are_header_values() {
    let ok = cors_origins(&vec!["https://a.example".to_string(), "http://localhost:3000".to_string()]).unwrap();
    assert_eq!(ok.len(), 2);
    assert_eq!(ok[0].to_str().unwrap(), "https://a.example");
    assert_eq!(ok[1].to_str().unwrap(), "http://localhost:3000");
    assert_eq!(cors_origins(&vec![]).unwrap().len(), 0);
    let bad = vec!["https://a.example".to_string(), "https://b\n.example".to_string(), "x\u{7f}".to_string()];
    assert_eq!(cors_origins(&bad).unwrap_err(), 1);
    assert_eq!(cors_origins(&vec!["tab\there é".to_string()]).unwrap().len(), 1);
}
