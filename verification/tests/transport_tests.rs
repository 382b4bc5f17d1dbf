use git2::{Error, ErrorClass, ErrorCode};
use gitout::transport::{
    classify, fallback_command, mirror_setup, ErrorClassTag, ErrorCodeTag, FallbackArgument,
    MirrorSetup, PathKind, ProgressLatch, TransportError, TransportErrorKind,
};

#[test]
fn the_ssl_class_decides_first() {
    assert_eq!(
        classify(ErrorClassTag::Ssl, ErrorCodeTag::Other),
        TransportErrorKind::Ssl
    );
    assert_eq!(
        classify(ErrorClassTag::Ssl, ErrorCodeTag::Auth),
        TransportErrorKind::Ssl
    );
}

#[test]
fn a_refused_login_is_an_auth_failure() {
    assert_eq!(
        classify(ErrorClassTag::Http, ErrorCodeTag::Auth),
        TransportErrorKind::Auth
    );
    assert_eq!(
        classify(ErrorClassTag::Other, ErrorCodeTag::Auth),
        TransportErrorKind::Auth
    );
}

#[test]
fn the_network_classes_are_network_failures() {
    for class in [ErrorClassTag::Net, ErrorClassTag::Http, ErrorClassTag::Ssh] {
        assert_eq!(
            classify(class, ErrorCodeTag::Other),
            TransportErrorKind::Network
        );
    }
    assert_eq!(
        classify(ErrorClassTag::Other, ErrorCodeTag::Other),
        TransportErrorKind::Other
    );
}

#[test]
fn an_ssl_error_of_libgit2_allows_the_fallback() {
    let error = Error::new(ErrorCode::GenericError, ErrorClass::Ssl, "handshake failed");
    let read = TransportError::from_git(&error);
    assert_eq!(read.kind, TransportErrorKind::Ssl);
    assert!(read.allows_fallback());
    assert!(read.detail.contains("handshake failed"));
}

#[test]
fn a_certificate_code_alone_is_no_ssl_failure() {
    let error = Error::new(ErrorCode::Certificate, ErrorClass::Net, "bad certificate");
    let read = TransportError::from_git(&error);
    assert_eq!(read.kind, TransportErrorKind::Network);
    assert!(!read.allows_fallback());
}

#[test]
fn errors_of_libgit2_are_read_by_class_and_code() {
    let net = Error::new(ErrorCode::GenericError, ErrorClass::Net, "unreachable");
    assert_eq!(TransportError::from_git(&net).kind, TransportErrorKind::Network);
    let http = Error::new(ErrorCode::GenericError, ErrorClass::Http, "502");
    assert_eq!(TransportError::from_git(&http).kind, TransportErrorKind::Network);
    let ssh = Error::new(ErrorCode::GenericError, ErrorClass::Ssh, "no key");
    assert_eq!(TransportError::from_git(&ssh).kind, TransportErrorKind::Network);
    let auth = Error::new(ErrorCode::Auth, ErrorClass::Http, "denied");
    assert_eq!(TransportError::from_git(&auth).kind, TransportErrorKind::Auth);
    let odb = Error::new(ErrorCode::NotFound, ErrorClass::Odb, "missing object");
    assert_eq!(TransportError::from_git(&odb).kind, TransportErrorKind::Other);
    let plain = Error::from_str("something");
    let read = TransportError::from_git(&plain);
    assert_eq!(read.kind, TransportErrorKind::Other);
    assert_eq!(read.detail, "something");
}

#[test]
fn the_kind_is_that_of_the_class_and_code_read() {
    let errors = [
        Error::new(ErrorCode::Auth, ErrorClass::Ssl, "a"),
        Error::new(ErrorCode::Auth, ErrorClass::Net, "b"),
        Error::new(ErrorCode::GenericError, ErrorClass::Ssh, "c"),
        Error::new(ErrorCode::Timeout, ErrorClass::Os, "d"),
    ];
    let classes = [
        ErrorClassTag::Ssl,
        ErrorClassTag::Net,
        ErrorClassTag::Ssh,
        ErrorClassTag::Other,
    ];
    let codes = [
        ErrorCodeTag::Auth,
        ErrorCodeTag::Auth,
        ErrorCodeTag::Other,
        ErrorCodeTag::Other,
    ];
    for i in 0..errors.len() {
        let read = TransportError::from_git(&errors[i]);
        assert_eq!(read.class, classes[i]);
        assert_eq!(read.code, codes[i]);
        assert_eq!(read.kind, classify(read.class, read.code));
    }
}

#[test]
fn the_detail_is_the_errors_own_text() {
    let error = Error::new(ErrorCode::Auth, ErrorClass::Ssl, "tls");
    assert_eq!(TransportError::from_git(&error).detail, error.to_string());
}

#[test]
fn the_setup_follows_what_stands_at_the_mirrors_place() {
    assert_eq!(mirror_setup(PathKind::Directory), MirrorSetup::OpenExisting);
    assert_eq!(mirror_setup(PathKind::Missing), MirrorSetup::CreateNew);
    assert_eq!(mirror_setup(PathKind::Other), MirrorSetup::ReplaceWithNew);
}

#[test]
fn the_latch_reports_the_first_sign_only() {
    let mut latch = ProgressLatch::new();
    assert!(!latch.fired);
    assert!(latch.observe());
    assert!(latch.fired);
    for _ in 0..5 {
        assert!(!latch.observe());
    }
    assert!(latch.fired);
}

#[test]
fn a_latch_without_signs_stays_silent() {
    let latch = ProgressLatch::new();
    assert_eq!(latch, ProgressLatch { fired: false });
}

fn word(text: &str) -> FallbackArgument {
    FallbackArgument::Word(text.to_string())
}

#[test]
fn the_fallback_fetches_into_an_existing_mirror() {
    assert_eq!(
        fallback_command(true, "https://example.com/repo.git"),
        vec![
            word("-C"),
            FallbackArgument::MirrorPath,
            word("fetch"),
            word("--prune")
        ]
    );
}

#[test]
fn the_fallback_clones_a_missing_mirror() {
    assert_eq!(
        fallback_command(false, "https://example.com/repo.git"),
        vec![
            word("clone"),
            word("--mirror"),
            word("https://example.com/repo.git"),
            FallbackArgument::MirrorPath
        ]
    );
}
