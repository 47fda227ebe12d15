use registry_relay::json::{Json, JsonObject};
use registry_relay::provenance::signers::file_watch::{
    FileWatchSigner, FileWatchState, KeyEvent, KeyReadiness, KeyStep, SignerError, UseEvent,
    UseStep,
};

/// A key file as the tests write it: unreadable, not a key, or a key for a public key.
#[derive(Clone, Copy)]
enum KeyFile {
    Unreadable,
    Invalid(&'static str),
    Valid(&'static str, &'static str),
}

fn jwk(x: &str) -> Json {
    let mut fields = JsonObject::new();
    fields.insert("kty".to_string(), Json::Text("OKP".to_string()));
    fields.insert("x".to_string(), Json::Text(x.to_string()));
    Json::Object(fields)
}

type Signer = &'static str;

fn answer_parse(file: KeyFile) -> KeyEvent<Signer, &'static str> {
    match file {
        KeyFile::Unreadable => KeyEvent::Unreadable,
        KeyFile::Invalid(reason) => KeyEvent::Refused(reason),
        KeyFile::Valid(signer, public) => KeyEvent::Loaded { signer, public_jwk: jwk(public) },
    }
}

fn answer_read(file: KeyFile) -> KeyEvent<Signer, &'static str> {
    match file {
        KeyFile::Unreadable => KeyEvent::Unreadable,
        _ => KeyEvent::Read,
    }
}

fn start(
    file: KeyFile,
) -> Result<(FileWatchSigner<u8>, FileWatchState<Signer>), SignerError<&'static str>> {
    let mut event = KeyEvent::Begin;
    loop {
        match FileWatchSigner::from_config(7, "did:web:relay#key".to_string(), event) {
            KeyStep::ReadFile => event = answer_read(file),
            KeyStep::Parse { algorithm, verification_method_id } => {
                assert_eq!(algorithm, 7);
                assert_eq!(verification_method_id, "did:web:relay#key");
                event = answer_parse(file);
            }
            KeyStep::Done(outcome) => return outcome,
        }
    }
}

fn refresh(watched: &FileWatchSigner<u8>, state: &mut FileWatchState<Signer>, file: KeyFile) {
    let mut event = KeyEvent::Begin;
    loop {
        match watched.refresh(event) {
            KeyStep::ReadFile => event = answer_read(file),
            KeyStep::Parse { algorithm, verification_method_id } => {
                assert_eq!(algorithm, 7);
                assert_eq!(verification_method_id, "did:web:relay#key");
                event = answer_parse(file);
            }
            KeyStep::Done(change) => {
                state.apply(change);
                return;
            }
        }
    }
}

fn readiness(
    watched: &FileWatchSigner<u8>,
    state: &mut FileWatchState<Signer>,
    file: KeyFile,
) -> KeyReadiness {
    assert!(matches!(watched.readiness::<Signer>(UseEvent::Begin), UseStep::Refresh));
    refresh(watched, state, file);
    assert!(matches!(watched.readiness::<Signer>(UseEvent::Refreshed), UseStep::Lock));
    match watched.readiness(UseEvent::Locked(Some(&*state))) {
        UseStep::Done(readiness) => readiness,
        _ => panic!("a state settles the outcome"),
    }
}

fn active(watched: &FileWatchSigner<u8>, state: &FileWatchState<Signer>) -> Signer {
    match watched.sign::<_, _, &'static str>(UseEvent::Locked(Some(state)), "h", "p") {
        UseStep::Done(Ok(request)) => {
            assert_eq!(request.header, "h");
            assert_eq!(request.payload, "p");
            *request.signer
        }
        _ => panic!("a state settles the outcome"),
    }
}

fn shown_jwk(watched: &FileWatchSigner<u8>, state: Option<&FileWatchState<Signer>>) -> Json {
    match watched.public_jwk(UseEvent::Locked(state)) {
        UseStep::Done(value) => value,
        _ => panic!("a state settles the outcome"),
    }
}

#[test]
fn signer_starts_ready() {
    let (watched, state) = start(KeyFile::Valid("one", "pub")).expect("the key loads");
    assert_eq!(watched.algorithm(), 7);
    assert_eq!(watched.verification_method_id(), "did:web:relay#key");
    assert_eq!(active(&watched, &state), "one");
    assert!(shown_jwk(&watched, Some(&state)).same(&jwk("pub")));
    assert!(matches!(
        watched.readiness(UseEvent::Locked(Some(&state))),
        UseStep::Done(KeyReadiness::Ready)
    ));
}

#[test]
fn signer_does_not_start_without_a_key() {
    match start(KeyFile::Unreadable) {
        Err(SignerError::KeyLoad { reason }) => {
            assert_eq!(reason, "file_watch key file could not be read");
        }
        _ => panic!("an unreadable file is reported"),
    }
    match start(KeyFile::Invalid("no d")) {
        Err(SignerError::Refused(reason)) => assert_eq!(reason, "no d"),
        _ => panic!("a refusal is passed on"),
    }
}

#[test]
fn valid_replacement_becomes_active() {
    let (watched, mut state) = start(KeyFile::Valid("one", "pub")).expect("the key loads");
    assert_eq!(readiness(&watched, &mut state, KeyFile::Valid("two", "pub")), KeyReadiness::Ready);
    assert_eq!(active(&watched, &state), "two");
}

#[test]
fn bad_replacements_degrade_and_keep_the_last_good_signer() {
    let (watched, mut state) = start(KeyFile::Valid("one", "pub")).expect("the key loads");
    let bad = [
        KeyFile::Unreadable,
        KeyFile::Invalid("no d"),
        KeyFile::Valid("two", "another"),
    ];
    for file in bad {
        assert_eq!(readiness(&watched, &mut state, file), KeyReadiness::Degraded);
        assert_eq!(active(&watched, &state), "one");
        assert!(shown_jwk(&watched, Some(&state)).same(&jwk("pub")));
    }
    assert_eq!(readiness(&watched, &mut state, KeyFile::Valid("three", "pub")), KeyReadiness::Ready);
    assert_eq!(active(&watched, &state), "three");
}

#[test]
fn state_that_cannot_be_locked_shows_nothing() {
    let (watched, _) = start(KeyFile::Valid("one", "pub")).expect("the key loads");
    assert!(matches!(
        watched.readiness::<Signer>(UseEvent::Locked(None)),
        UseStep::Done(KeyReadiness::NotReady)
    ));
    assert!(shown_jwk(&watched, None).same(&Json::Null));
    assert!(matches!(
        watched.sign::<Signer, _, &'static str>(UseEvent::Locked(None), "h", "p"),
        UseStep::Done(Err(SignerError::Unavailable))
    ));
}

#[test]
fn every_use_starts_with_a_refresh() {
    let (watched, _) = start(KeyFile::Valid("one", "pub")).expect("the key loads");
    assert!(matches!(watched.public_jwk::<Signer>(UseEvent::Begin), UseStep::Refresh));
    assert!(matches!(watched.public_jwk::<Signer>(UseEvent::Refreshed), UseStep::Lock));
    assert!(matches!(
        watched.sign::<Signer, _, &'static str>(UseEvent::Begin, "h", "p"),
        UseStep::Refresh
    ));
    assert!(matches!(
        watched.sign::<Signer, _, &'static str>(UseEvent::Refreshed, "h", "p"),
        UseStep::Lock
    ));
}
