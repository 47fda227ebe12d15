//! A signer whose private key stands in a local file that is read again on each use.
//!
//! A valid replacement of the file for the same public key becomes active without a restart. A
//! file that cannot be read, that holds no valid key or that holds another key degrades the
//! readiness and leaves the last good signer in place.
//!
//! Reading the file, parsing the key, locking the state and signing are the caller's. The
//! functions here take what the caller has just learned, an event, and say what to do next, a
//! step, until the step is [`KeyStep::Done`] or [`UseStep::Done`].
use crate::json::{same_json, Json, JsonView};
use vstd::prelude::*;

verus! {

/// Whether a signer can be relied on.
#[derive(Clone, Copy, Debug, PartialEq, Eq, Structural)]
pub enum KeyReadiness {
    /// The key file holds the active key.
    Ready,
    /// The active key is the last good one, and the key file no longer holds it.
    Degraded,
    /// There is no active key.
    NotReady,
}

/// Why there is no signer or no signature. `E` is what parsing and signing report.
#[derive(Debug)]
pub enum SignerError<E> {
    /// The key could not be loaded.
    KeyLoad { reason: &'static str },
    /// The signer's state is not available.
    Unavailable,
    /// The key was refused.
    Refused(E),
}

/// The mathematical value of a [`SignerError`].
pub enum SignerErrorView<E> {
    KeyLoad { reason: Seq<char> },
    Unavailable,
    Refused(E),
}

impl<E> View for SignerError<E> {
    type V = SignerErrorView<E>;

    open spec fn view(&self) -> SignerErrorView<E> {
        match self {
            SignerError::KeyLoad { reason } => SignerErrorView::KeyLoad { reason: reason@ },
            SignerError::Unavailable => SignerErrorView::Unavailable,
            SignerError::Refused(error) => SignerErrorView::Refused(*error),
        }
    }
}

/// What is known while the key file is loaded. `S` is the signer that a key makes, and `E` is what
/// parsing reports.
pub enum KeyEvent<S, E> {
    /// Nothing yet.
    Begin,
    /// The file could not be read.
    Unreadable,
    /// The file was read.
    Read,
    /// The file's text was refused as a key.
    Refused(E),
    /// The file's text made this signer, whose public key is `public_jwk`.
    Loaded { signer: S, public_jwk: Json },
}

/// The mathematical value of a [`KeyEvent`].
pub enum KeyEventView<S, E> {
    Begin,
    Unreadable,
    Read,
    Refused(E),
    Loaded { signer: S, public_jwk: JsonView },
}

impl<S, E> View for KeyEvent<S, E> {
    type V = KeyEventView<S, E>;

    open spec fn view(&self) -> KeyEventView<S, E> {
        match self {
            KeyEvent::Begin => KeyEventView::Begin,
            KeyEvent::Unreadable => KeyEventView::Unreadable,
            KeyEvent::Read => KeyEventView::Read,
            KeyEvent::Refused(error) => KeyEventView::Refused(*error),
            KeyEvent::Loaded { signer, public_jwk } => KeyEventView::Loaded {
                signer: *signer,
                public_jwk: public_jwk@,
            },
        }
    }
}

/// What to do next while the key file is loaded. `A` is a signing algorithm.
pub enum KeyStep<A, T> {
    /// Read the key file.
    ReadFile,
    /// Make a signer of the text that was read, for this algorithm and verification method.
    Parse { algorithm: A, verification_method_id: String },
    /// Nothing: this is the outcome.
    Done(T),
}

/// The mathematical value of a [`KeyStep`].
pub enum KeyStepView<A, V> {
    ReadFile,
    Parse { algorithm: A, verification_method_id: Seq<char> },
    Done(V),
}

impl<A, T: View> View for KeyStep<A, T> {
    type V = KeyStepView<A, T::V>;

    open spec fn view(&self) -> KeyStepView<A, T::V> {
        match self {
            KeyStep::ReadFile => KeyStepView::ReadFile,
            KeyStep::Parse { algorithm, verification_method_id } => KeyStepView::Parse {
                algorithm: *algorithm,
                verification_method_id: verification_method_id@,
            },
            KeyStep::Done(outcome) => KeyStepView::Done(outcome@),
        }
    }
}

/// The part of the signer that changes while it is in use: the active signer, its public key, and
/// how ready it is.
pub struct FileWatchState<S> {
    signer: S,
    public_jwk: Json,
    readiness: KeyReadiness,
}

/// The mathematical value of a [`FileWatchState`].
pub struct FileWatchStateView<S> {
    pub signer: S,
    pub public_jwk: JsonView,
    pub readiness: KeyReadiness,
}

impl<S> View for FileWatchState<S> {
    type V = FileWatchStateView<S>;

    closed spec fn view(&self) -> FileWatchStateView<S> {
        FileWatchStateView {
            signer: self.signer,
            public_jwk: self.public_jwk@,
            readiness: self.readiness,
        }
    }
}

/// What a load of the key file does to the state.
pub enum StateChange<S> {
    /// The loaded signer becomes the active one.
    Adopt { signer: S, public_jwk: Json },
    /// The active signer stays, and is no longer what the file holds.
    Degrade,
}

/// The mathematical value of a [`StateChange`].
pub enum StateChangeView<S> {
    Adopt { signer: S, public_jwk: JsonView },
    Degrade,
}

impl<S> View for StateChange<S> {
    type V = StateChangeView<S>;

    open spec fn view(&self) -> StateChangeView<S> {
        match self {
            StateChange::Adopt { signer, public_jwk } => StateChangeView::Adopt {
                signer: *signer,
                public_jwk: public_jwk@,
            },
            StateChange::Degrade => StateChangeView::Degrade,
        }
    }
}

/// The state after a change.
pub open spec fn changed<S>(
    state: FileWatchStateView<S>,
    change: StateChangeView<S>,
) -> FileWatchStateView<S> {
    match change {
        StateChangeView::Adopt { signer, public_jwk } => FileWatchStateView {
            signer,
            public_jwk,
            readiness: KeyReadiness::Ready,
        },
        StateChangeView::Degrade => FileWatchStateView { readiness: KeyReadiness::Degraded, ..state },
    }
}

impl<S> FileWatchState<S> {
    /// Makes the change.
    pub fn apply(&mut self, change: StateChange<S>)
        ensures
            final(self)@ == changed(old(self)@, change@),
            change matches StateChange::Adopt { signer, public_jwk } ==> final(self)@.signer
                == signer && final(self)@.public_jwk == public_jwk@ && final(self)@.readiness
                == KeyReadiness::Ready,
            change is Degrade ==> final(self)@.signer == old(self)@.signer
                && final(self)@.public_jwk == old(self)@.public_jwk && final(self)@.readiness
                == KeyReadiness::Degraded,
    {
        match change {
            StateChange::Adopt { signer, public_jwk } => {
                self.signer = signer;
                self.public_jwk = public_jwk;
                self.readiness = KeyReadiness::Ready;
            },
            StateChange::Degrade => {
                self.readiness = KeyReadiness::Degraded;
            },
        }
    }
}

/// A signer that is backed by a local file with a private JWK: the part that never changes.
pub struct FileWatchSigner<A> {
    algorithm: A,
    verification_method_id: String,
    expected_public_jwk: Json,
}

/// The mathematical value of a [`FileWatchSigner`].
pub struct FileWatchSignerView<A> {
    pub algorithm: A,
    pub verification_method_id: Seq<char>,
    pub expected_public_jwk: JsonView,
}

impl<A> View for FileWatchSigner<A> {
    type V = FileWatchSignerView<A>;

    closed spec fn view(&self) -> FileWatchSignerView<A> {
        FileWatchSignerView {
            algorithm: self.algorithm,
            verification_method_id: self.verification_method_id@,
            expected_public_jwk: self.expected_public_jwk@,
        }
    }
}

/// What starting a signer ends with.
pub type Started<A, S, E> = Result<(FileWatchSigner<A>, FileWatchState<S>), SignerError<E>>;

/// The mathematical value of a [`Started`].
pub type StartedView<A, S, E> = Result<
    (FileWatchSignerView<A>, FileWatchStateView<S>),
    SignerErrorView<E>,
>;

/// The value of a step of starting a signer.
pub open spec fn start_step_view<A, S, E>(step: KeyStep<A, Started<A, S, E>>) -> KeyStepView<
    A,
    StartedView<A, S, E>,
> {
    match step {
        KeyStep::ReadFile => KeyStepView::ReadFile,
        KeyStep::Parse { algorithm, verification_method_id } => KeyStepView::Parse {
            algorithm,
            verification_method_id: verification_method_id@,
        },
        KeyStep::Done(Ok((signer, state))) => KeyStepView::Done(Ok((signer@, state@))),
        KeyStep::Done(Err(error)) => KeyStepView::Done(Err(error@)),
    }
}

/// The steps of starting a signer: the first key that loads is the active one, and its public key
/// is the one that every later key is held against.
pub open spec fn start_step<A, S, E>(
    algorithm: A,
    verification_method_id: Seq<char>,
    event: KeyEventView<S, E>,
) -> KeyStepView<A, StartedView<A, S, E>> {
    match event {
        KeyEventView::Begin => KeyStepView::ReadFile,
        KeyEventView::Unreadable => KeyStepView::Done(
            Err(SignerErrorView::KeyLoad { reason: "file_watch key file could not be read"@ }),
        ),
        KeyEventView::Read => KeyStepView::Parse { algorithm, verification_method_id },
        KeyEventView::Refused(error) => KeyStepView::Done(Err(SignerErrorView::Refused(error))),
        KeyEventView::Loaded { signer, public_jwk } => KeyStepView::Done(
            Ok(
                (
                    FileWatchSignerView {
                        algorithm,
                        verification_method_id,
                        expected_public_jwk: public_jwk,
                    },
                    FileWatchStateView { signer, public_jwk, readiness: KeyReadiness::Ready },
                ),
            ),
        ),
    }
}

/// The steps of a refresh: a key is adopted if and only if it loads and its public key is the
/// expected one.
pub open spec fn refresh_step<A, S, E>(
    watched: FileWatchSignerView<A>,
    event: KeyEventView<S, E>,
) -> KeyStepView<A, StateChangeView<S>> {
    match event {
        KeyEventView::Begin => KeyStepView::ReadFile,
        KeyEventView::Unreadable => KeyStepView::Done(StateChangeView::Degrade),
        KeyEventView::Read => KeyStepView::Parse {
            algorithm: watched.algorithm,
            verification_method_id: watched.verification_method_id,
        },
        KeyEventView::Refused(_) => KeyStepView::Done(StateChangeView::Degrade),
        KeyEventView::Loaded { signer, public_jwk } => if same_json(
            public_jwk,
            watched.expected_public_jwk,
        ) {
            KeyStepView::Done(StateChangeView::Adopt { signer, public_jwk })
        } else {
            KeyStepView::Done(StateChangeView::Degrade)
        },
    }
}

/// What is known while the signer is used.
pub enum UseEvent<'a, S> {
    /// Nothing yet.
    Begin,
    /// The key file was loaded again, and the state changed accordingly where it could be locked.
    Refreshed,
    /// This is the state, if it could be locked for reading.
    Locked(Option<&'a FileWatchState<S>>),
}

/// The mathematical value of a [`UseEvent`].
pub enum UseEventView<S> {
    Begin,
    Refreshed,
    Locked(Option<FileWatchStateView<S>>),
}

impl<'a, S> View for UseEvent<'a, S> {
    type V = UseEventView<S>;

    open spec fn view(&self) -> UseEventView<S> {
        match self {
            UseEvent::Begin => UseEventView::Begin,
            UseEvent::Refreshed => UseEventView::Refreshed,
            UseEvent::Locked(Some(state)) => UseEventView::Locked(Some(state@)),
            UseEvent::Locked(None) => UseEventView::Locked(None),
        }
    }
}

/// What to do next while the signer is used.
pub enum UseStep<T> {
    /// Load the key file again and change the state accordingly.
    Refresh,
    /// Lock the state for reading.
    Lock,
    /// Nothing: this is the outcome.
    Done(T),
}

/// The steps of a use: the key file is loaded again before the state is read.
pub open spec fn use_step<S, T>(
    event: UseEventView<S>,
    read: spec_fn(Option<FileWatchStateView<S>>) -> T,
) -> UseStep<T> {
    match event {
        UseEventView::Begin => UseStep::Refresh,
        UseEventView::Refreshed => UseStep::Lock,
        UseEventView::Locked(state) => UseStep::Done(read(state)),
    }
}

/// The public key that a state shows: null where there is no state.
pub open spec fn shown_jwk<S>(state: Option<FileWatchStateView<S>>) -> JsonView {
    match state {
        Some(state) => state.public_jwk,
        None => JsonView::Null,
    }
}

/// The readiness that a state shows.
pub open spec fn shown_readiness<S>(state: Option<FileWatchStateView<S>>) -> KeyReadiness {
    match state {
        Some(state) => state.readiness,
        None => KeyReadiness::NotReady,
    }
}

/// What is to be signed, and with which signer.
pub struct SignRequest<'a, S, V> {
    pub signer: &'a S,
    pub header: V,
    pub payload: V,
}

/// What a state makes of a request to sign: the active signer signs.
pub open spec fn shown_request<'a, S, V, E>(
    state: Option<FileWatchStateView<S>>,
    header: V,
    payload: V,
) -> Result<SignRequest<'a, S, V>, SignerErrorView<E>> {
    match state {
        Some(state) => Ok(SignRequest { signer: &state.signer, header, payload }),
        None => Err(SignerErrorView::Unavailable),
    }
}

/// The value of a step of showing the public key.
pub open spec fn jwk_step_view(step: UseStep<Json>) -> UseStep<JsonView> {
    match step {
        UseStep::Refresh => UseStep::Refresh,
        UseStep::Lock => UseStep::Lock,
        UseStep::Done(value) => UseStep::Done(value@),
    }
}

/// The value of a step of signing.
pub open spec fn sign_step_view<'a, S, V, E>(
    step: UseStep<Result<SignRequest<'a, S, V>, SignerError<E>>>,
) -> UseStep<Result<SignRequest<'a, S, V>, SignerErrorView<E>>> {
    match step {
        UseStep::Refresh => UseStep::Refresh,
        UseStep::Lock => UseStep::Lock,
        UseStep::Done(Ok(request)) => UseStep::Done(Ok(request)),
        UseStep::Done(Err(error)) => UseStep::Done(Err(error@)),
    }
}

impl<A: Copy> FileWatchSigner<A> {
    /// Starts a signer for the configured algorithm and the verification method.
    pub fn from_config<S, E>(
        signing_algorithm: A,
        verification_method_id: String,
        event: KeyEvent<S, E>,
    ) -> (r: KeyStep<A, Started<A, S, E>>)
        ensures
            start_step_view(r) == start_step(signing_algorithm, verification_method_id@, event@),
            event is Begin ==> r is ReadFile,
            event is Unreadable ==> (r matches KeyStep::Done(
                Err(SignerError::KeyLoad { reason }),
            ) && reason@ == "file_watch key file could not be read"@),
            event is Read ==> (r matches KeyStep::Parse { algorithm, verification_method_id: id }
                && algorithm == signing_algorithm && id@ == verification_method_id@),
            event matches KeyEvent::Refused(error) ==> (r matches KeyStep::Done(
                Err(SignerError::Refused(reported)),
            ) && reported == error),
            event matches KeyEvent::Loaded { signer, public_jwk } ==> (r matches KeyStep::Done(
                Ok((watched, state)),
            ) && watched@.algorithm == signing_algorithm && watched@.verification_method_id
                == verification_method_id@ && watched@.expected_public_jwk == public_jwk@
                && state@.signer == signer && state@.public_jwk == public_jwk@ && state@.readiness
                == KeyReadiness::Ready),
    {
        match event {
            KeyEvent::Begin => KeyStep::ReadFile,
            KeyEvent::Unreadable => KeyStep::Done(
                Err(SignerError::KeyLoad { reason: "file_watch key file could not be read" }),
            ),
            KeyEvent::Read => KeyStep::Parse {
                algorithm: signing_algorithm,
                verification_method_id,
            },
            KeyEvent::Refused(error) => KeyStep::Done(Err(SignerError::Refused(error))),
            KeyEvent::Loaded { signer, public_jwk } => {
                let expected_public_jwk: Json = public_jwk.clone();
                KeyStep::Done(
                    Ok(
                        (
                            FileWatchSigner {
                                algorithm: signing_algorithm,
                                verification_method_id,
                                expected_public_jwk,
                            },
                            FileWatchState { signer, public_jwk, readiness: KeyReadiness::Ready },
                        ),
                    ),
                )
            },
        }
    }

    /// Loads the key file again and says what that does to the state.
    pub fn refresh<S, E>(&self, event: KeyEvent<S, E>) -> (r: KeyStep<A, StateChange<S>>)
        ensures
            r@ == refresh_step(self@, event@),
            event is Begin ==> r is ReadFile,
            event is Unreadable ==> r matches KeyStep::Done(StateChange::Degrade),
            event is Read ==> (r matches KeyStep::Parse { algorithm, verification_method_id: id }
                && algorithm == self@.algorithm && id@ == self@.verification_method_id),
            event is Refused ==> r matches KeyStep::Done(StateChange::Degrade),
            event matches KeyEvent::Loaded { signer, public_jwk } ==> if same_json(
                public_jwk@,
                self@.expected_public_jwk,
            ) {
                r matches KeyStep::Done(StateChange::Adopt { signer: active, public_jwk: shown })
                    && active == signer && shown@ == public_jwk@
            } else {
                r matches KeyStep::Done(StateChange::Degrade)
            },
    {
        match event {
            KeyEvent::Begin => KeyStep::ReadFile,
            KeyEvent::Unreadable => KeyStep::Done(StateChange::Degrade),
            KeyEvent::Read => KeyStep::Parse {
                algorithm: self.algorithm,
                verification_method_id: self.verification_method_id.clone(),
            },
            KeyEvent::Refused(_) => KeyStep::Done(StateChange::Degrade),
            KeyEvent::Loaded { signer, public_jwk } => {
                if public_jwk.same(&self.expected_public_jwk) {
                    KeyStep::Done(StateChange::Adopt { signer, public_jwk })
                } else {
                    KeyStep::Done(StateChange::Degrade)
                }
            },
        }
    }

    /// The algorithm that the signer signs with.
    pub fn algorithm(&self) -> (r: A)
        ensures
            r == self@.algorithm,
    {
        self.algorithm
    }

    /// The verification method that the signer signs for.
    pub fn verification_method_id(&self) -> (r: &str)
        ensures
            r@ == self@.verification_method_id,
    {
        self.verification_method_id.as_str()
    }

    /// Signs with the active signer, after a refresh.
    pub fn sign<'a, S, V, E>(&self, event: UseEvent<'a, S>, header: V, payload: V) -> (r: UseStep<
        Result<SignRequest<'a, S, V>, SignerError<E>>,
    >)
        ensures
            sign_step_view(r) == use_step(
                event@,
                |state: Option<FileWatchStateView<S>>|
                    shown_request::<S, V, E>(state, header, payload),
            ),
            event is Begin ==> r is Refresh,
            event is Refreshed ==> r is Lock,
            event matches UseEvent::Locked(Some(state)) ==> (r matches UseStep::Done(Ok(request))
                && *request.signer == state@.signer && request.header == header && request.payload
                == payload),
            event matches UseEvent::Locked(None) ==> r matches UseStep::Done(
                Err(SignerError::Unavailable),
            ),
    {
        match event {
            UseEvent::Begin => UseStep::Refresh,
            UseEvent::Refreshed => UseStep::Lock,
            UseEvent::Locked(Some(state)) => UseStep::Done(
                Ok(SignRequest { signer: &state.signer, header, payload }),
            ),
            UseEvent::Locked(None) => UseStep::Done(Err(SignerError::Unavailable)),
        }
    }

    /// The public key of the active signer, after a refresh.
    pub fn public_jwk<S>(&self, event: UseEvent<'_, S>) -> (r: UseStep<Json>)
        ensures
            jwk_step_view(r) == use_step(
                event@,
                |state: Option<FileWatchStateView<S>>| shown_jwk(state),
            ),
            event is Begin ==> r is Refresh,
            event is Refreshed ==> r is Lock,
            event matches UseEvent::Locked(Some(state)) ==> (r matches UseStep::Done(shown)
                && shown@ == state@.public_jwk),
            event matches UseEvent::Locked(None) ==> (r matches UseStep::Done(shown) && shown@
                == JsonView::Null),
    {
        match event {
            UseEvent::Begin => UseStep::Refresh,
            UseEvent::Refreshed => UseStep::Lock,
            UseEvent::Locked(Some(state)) => UseStep::Done(state.public_jwk.clone()),
            UseEvent::Locked(None) => UseStep::Done(Json::Null),
        }
    }

    /// How ready the signer is, after a refresh.
    pub fn readiness<S>(&self, event: UseEvent<'_, S>) -> (r: UseStep<KeyReadiness>)
        ensures
            r == use_step(
                event@,
                |state: Option<FileWatchStateView<S>>| shown_readiness(state),
            ),
            event is Begin ==> r is Refresh,
            event is Refreshed ==> r is Lock,
            event matches UseEvent::Locked(Some(state)) ==> (r matches UseStep::Done(shown) && shown
                == state@.readiness),
            event matches UseEvent::Locked(None) ==> r matches UseStep::Done(
                KeyReadiness::NotReady,
            ),
    {
        match event {
            UseEvent::Begin => UseStep::Refresh,
            UseEvent::Refreshed => UseStep::Lock,
            UseEvent::Locked(Some(state)) => UseStep::Done(state.readiness),
            UseEvent::Locked(None) => UseStep::Done(KeyReadiness::NotReady),
        }
    }
}

} // verus!
