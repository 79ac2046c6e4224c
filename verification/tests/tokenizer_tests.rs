use bench_bootstrap::backend::{ConnectFailure, ConnectionError};
use bench_bootstrap::logging::{DEFAULT_DIRECTIVE, LEVEL_VARIABLE};
use bench_bootstrap::tokenizer::{
    load_failure, select_source, PathProbe, TokenizerError, TokenizerSource, CREDENTIAL_VARIABLE,
    DEFINITION_FILE,
};

fn probe(exists: bool, is_directory: bool, has_definition_file: bool) -> PathProbe {
    PathProbe { exists, is_directory, has_definition_file }
}

#[test]
fn names_of_files_and_variables() {
    assert_eq!(DEFINITION_FILE, "tokenizer.json");
    assert_eq!(CREDENTIAL_VARIABLE, "HUGGING_FACE_HUB_TOKEN");
    assert_eq!(LEVEL_VARIABLE, "LOG_LEVEL");
    assert_eq!(DEFAULT_DIRECTIVE, "info");
}

#[test]
fn probe_needs_all_three_facts() {
    assert!(probe(true, true, true).is_local_tokenizer());
    assert!(!probe(false, true, true).is_local_tokenizer());
    assert!(!probe(true, false, true).is_local_tokenizer());
    assert!(!probe(true, true, false).is_local_tokenizer());
    assert!(!probe(false, false, false).is_local_tokenizer());
}

#[test]
fn local_directory_with_definition_is_loaded_locally() {
    let source = select_source("/local/dir", "main", probe(true, true, true));
    assert_eq!(source, TokenizerSource::Local { directory: "/local/dir".to_string() });
}

#[test]
fn local_source_does_not_depend_on_the_revision() {
    let one = select_source("/local/dir", "main", probe(true, true, true));
    let other = select_source("/local/dir", "refs/pr/7", probe(true, true, true));
    assert_eq!(one, other);
}

#[test]
fn missing_path_is_fetched_at_the_given_revision() {
    let source = select_source("/no/such/dir", "v2", probe(false, false, false));
    assert_eq!(
        source,
        TokenizerSource::Remote { identifier: "/no/such/dir".to_string(), revision: "v2".to_string() }
    );
}

#[test]
fn directory_without_definition_is_fetched() {
    let source = select_source("models/gpt2", "main", probe(true, true, false));
    assert_eq!(
        source,
        TokenizerSource::Remote { identifier: "models/gpt2".to_string(), revision: "main".to_string() }
    );
}

#[test]
fn plain_file_is_fetched() {
    let source = select_source("tokenizer.json", "main", probe(true, false, false));
    assert_eq!(
        source,
        TokenizerSource::Remote {
            identifier: "tokenizer.json".to_string(),
            revision: "main".to_string()
        }
    );
}

#[test]
fn unreadable_local_definition_is_not_found() {
    let source = TokenizerSource::Local { directory: "/local/dir".to_string() };
    let error = load_failure(&source, true, "permission denied".to_string());
    assert_eq!(error, TokenizerError::NotFound { cause: "permission denied".to_string() });
}

#[test]
fn refused_local_definition_is_invalid_format() {
    let source = TokenizerSource::Local { directory: "/local/dir".to_string() };
    let error = load_failure(&source, false, "expected value at line 1".to_string());
    assert_eq!(
        error,
        TokenizerError::InvalidFormat { cause: "expected value at line 1".to_string() }
    );
}

#[test]
fn every_registry_failure_is_download_failed() {
    let source =
        TokenizerSource::Remote { identifier: "gpt2".to_string(), revision: "main".to_string() };
    assert_eq!(
        load_failure(&source, false, "401".to_string()),
        TokenizerError::DownloadFailed { cause: "401".to_string() }
    );
    assert_eq!(
        load_failure(&source, true, "no cache directory".to_string()),
        TokenizerError::DownloadFailed { cause: "no cache directory".to_string() }
    );
}

#[test]
fn tokenizer_error_messages_keep_the_cause() {
    assert_eq!(
        TokenizerError::NotFound { cause: "gone".to_string() }.message(),
        "tokenizer not found: gone"
    );
    assert_eq!(
        TokenizerError::DownloadFailed { cause: "timed out".to_string() }.message(),
        "tokenizer download failed: timed out"
    );
    assert_eq!(
        TokenizerError::InvalidFormat { cause: "bad json".to_string() }.message(),
        "tokenizer definition is invalid: bad json"
    );
}

#[test]
fn connect_failures_become_connection_errors() {
    assert_eq!(
        ConnectionError::from_connect(ConnectFailure::Unreachable, "no socket".to_string()),
        ConnectionError::Unreachable { cause: "no socket".to_string() }
    );
    assert_eq!(
        ConnectionError::from_connect(ConnectFailure::HandshakeFailed, "shard 1".to_string()),
        ConnectionError::HandshakeFailed { cause: "shard 1".to_string() }
    );
}

#[test]
fn connection_error_messages_keep_the_cause() {
    assert_eq!(
        ConnectionError::Unreachable { cause: "no socket".to_string() }.message(),
        "backend unreachable: no socket"
    );
    assert_eq!(
        ConnectionError::HandshakeFailed { cause: "shard 1".to_string() }.message(),
        "backend handshake failed: shard 1"
    );
    assert_eq!(
        ConnectionError::ResetFailed { cause: "shard 2".to_string() }.message(),
        "cache reset failed: shard 2"
    );
}
