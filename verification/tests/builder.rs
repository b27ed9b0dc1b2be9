use source_agent::builder::{builder, Builder, BuilderError};
use std::path::PathBuf;

type TestBuilder = Builder<&'static str, u32, u8, [u8; 4]>;

fn roots() -> Vec<PathBuf> {
    vec![PathBuf::from("a/b"), PathBuf::from("c")]
}

#[test]
fn nothing_given_misses_the_connection() {
    let empty: TestBuilder = builder();
    assert!(matches!(empty.build(), Err(BuilderError::MissingConnection)));
    assert!(matches!(TestBuilder::default().build(), Err(BuilderError::MissingConnection)));
}

#[test]
fn connection_is_asked_for_first() {
    let b: TestBuilder = builder().broker(7).crypto(1, [0; 4]);
    assert!(matches!(b.build(), Err(BuilderError::MissingConnection)));
}

#[test]
fn broker_is_asked_for_second() {
    let b: TestBuilder = builder().connection("peer").crypto(1, [0; 4]);
    assert!(matches!(b.build(), Err(BuilderError::MissingBrokerInfo)));
    let b: TestBuilder = builder().connection("peer");
    assert!(matches!(b.build(), Err(BuilderError::MissingBrokerInfo)));
}

#[test]
fn crypto_is_asked_for_last() {
    let b: TestBuilder = builder().connection("peer").broker(7);
    assert!(matches!(b.build(), Err(BuilderError::MissingCrypto)));
}

#[test]
fn complete_builder_hands_out_its_parts() {
    let b: TestBuilder = builder()
        .roots(roots())
        .connection("peer")
        .broker(7)
        .db(PathBuf::from("state.db"))
        .crypto(1, [9; 4]);
    let parts = b.build().expect("everything was given");
    assert_eq!(parts.roots, roots());
    assert_eq!(parts.connection, "peer");
    assert_eq!(parts.broker, 7);
    assert_eq!(parts.db, PathBuf::from("state.db"));
    assert_eq!(parts.rnd, 1);
    assert_eq!(parts.source_key, [9; 4]);
}

#[test]
fn settings_give_four_parts_at_once() {
    let b: TestBuilder =
        builder().crypto(1, [9; 4]).settings(roots(), "peer", 7, PathBuf::from("state.db"));
    let parts = b.build().expect("everything was given");
    assert_eq!(parts.roots, roots());
    assert_eq!(parts.connection, "peer");
    assert_eq!(parts.broker, 7);
    assert_eq!(parts.db, PathBuf::from("state.db"));
    assert_eq!(parts.rnd, 1);
}

#[test]
fn later_value_replaces_earlier() {
    let b: TestBuilder = builder()
        .connection("first")
        .connection("second")
        .broker(1)
        .broker(2)
        .crypto(1, [1; 4])
        .crypto(2, [2; 4]);
    let parts = b.build().expect("everything was given");
    assert_eq!(parts.connection, "second");
    assert_eq!(parts.broker, 2);
    assert_eq!(parts.rnd, 2);
    assert_eq!(parts.source_key, [2; 4]);
    assert_eq!(parts.roots, Vec::<PathBuf>::new());
    assert_eq!(parts.db, PathBuf::new());
}

#[test]
fn each_error_says_what_it_is() {
    assert_eq!(BuilderError::MissingConnection.message(), "Missing connection settings");
    assert_eq!(BuilderError::MissingBrokerInfo.message(), "Missing Broker info");
    assert_eq!(BuilderError::MissingCrypto.message(), "Missing Crypto");
    assert_eq!(
        BuilderError::FingerprinterError("no lanes".to_string()).message(),
        "Invalid fingerprinter"
    );
    assert_eq!(
        BuilderError::UnknownError(anyhow::Error::msg("boom")).message(),
        "Unknown error"
    );
}
