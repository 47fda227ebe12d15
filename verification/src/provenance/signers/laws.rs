//! What holds of a signer over its life.
use crate::json::{
    float_free, law_same_json_is_identity_without_floats, law_same_json_reflexive,
    law_same_json_symmetric, law_same_objects_agree_in_texts, same_json, JsonView,
};
use crate::provenance::signers::file_watch::{
    changed, refresh_step, shown_jwk, shown_readiness, shown_request, start_step, use_step,
    FileWatchSignerView, FileWatchStateView, KeyEvent, KeyEventView, KeyReadiness, KeyStepView,
    SignerError, SignerErrorView, StartedView, StateChange, StateChangeView, UseEventView, UseStep,
};
use vstd::prelude::*;

verus! {

/// What a load of the key file meets.
pub enum KeyFile<S, E> {
    /// The file cannot be read.
    Unreadable,
    /// The file holds no valid key.
    Invalid(E),
    /// The file holds a key that makes this signer, whose public key is `public_jwk`.
    Valid { signer: S, public_jwk: JsonView },
}

/// Following the steps of a load with what the key file holds.
pub open spec fn run_load<A, S, E, V>(
    file: KeyFile<S, E>,
    step: spec_fn(KeyEventView<S, E>) -> KeyStepView<A, V>,
    event: KeyEventView<S, E>,
    steps: nat,
) -> Option<V>
    decreases steps,
{
    if steps == 0 {
        None
    } else {
        match step(event) {
            KeyStepView::ReadFile => {
                let answer = if file is Unreadable {
                    KeyEventView::Unreadable
                } else {
                    KeyEventView::Read
                };
                run_load(file, step, answer, (steps - 1) as nat)
            },
            KeyStepView::Parse { algorithm, verification_method_id } => {
                let answer = match file {
                    KeyFile::Unreadable => KeyEventView::Unreadable,
                    KeyFile::Invalid(error) => KeyEventView::Refused(error),
                    KeyFile::Valid { signer, public_jwk } => KeyEventView::Loaded {
                        signer,
                        public_jwk,
                    },
                };
                run_load(file, step, answer, (steps - 1) as nat)
            },
            KeyStepView::Done(outcome) => Some(outcome),
        }
    }
}

/// The file holds a key with the expected public key.
pub open spec fn holds_expected_key<A, S, E>(
    watched: FileWatchSignerView<A>,
    file: KeyFile<S, E>,
) -> bool {
    file matches KeyFile::Valid { public_jwk, .. } && same_json(
        public_jwk,
        watched.expected_public_jwk,
    )
}

/// What a refresh does to the state, given what the key file holds.
pub open spec fn refresh_change<A, S, E>(
    watched: FileWatchSignerView<A>,
    file: KeyFile<S, E>,
) -> StateChangeView<S> {
    if holds_expected_key(watched, file) {
        StateChangeView::Adopt { signer: file->signer, public_jwk: file->public_jwk }
    } else {
        StateChangeView::Degrade
    }
}

/// The state after a refresh.
pub open spec fn refreshed<A, S, E>(
    watched: FileWatchSignerView<A>,
    state: FileWatchStateView<S>,
    file: KeyFile<S, E>,
) -> FileWatchStateView<S> {
    changed(state, refresh_change(watched, file))
}

/// The active signer's public key is the expected one.
pub open spec fn keeps_identity<A, S>(
    watched: FileWatchSignerView<A>,
    state: FileWatchStateView<S>,
) -> bool {
    same_json(state.public_jwk, watched.expected_public_jwk)
}

/// A signer starts if and only if the key file holds a valid key. Its first state is ready, with
/// that key as the active and the expected one. A file that cannot be read and a key that is
/// refused are told apart.
pub proof fn law_start_run<A, S, E>(
    algorithm: A,
    verification_method_id: Seq<char>,
    file: KeyFile<S, E>,
)
    ensures
        ({
            let outcome = run_load(
                file,
                |event: KeyEventView<S, E>| start_step(algorithm, verification_method_id, event),
                KeyEventView::Begin,
                3,
            );
            &&& outcome is Some
            &&& match (file, outcome->0) {
                (KeyFile::Unreadable, Err(SignerErrorView::KeyLoad { reason })) => reason
                    == "file_watch key file could not be read"@,
                (KeyFile::Invalid(error), Err(SignerErrorView::Refused(reported))) => reported
                    == error,
                (KeyFile::Valid { signer, public_jwk }, Ok((watched, state))) => {
                    &&& watched.algorithm == algorithm
                    &&& watched.verification_method_id == verification_method_id
                    &&& watched.expected_public_jwk == public_jwk
                    &&& state.signer == signer
                    &&& state.public_jwk == public_jwk
                    &&& state.readiness == KeyReadiness::Ready
                    &&& keeps_identity(watched, state)
                },
                _ => false,
            }
        }),
{
    reveal_with_fuel(run_load, 4);
    if let KeyFile::Valid { signer, public_jwk } = file {
        law_same_json_reflexive(public_jwk);
    }
}

/// A refresh takes at most three steps, and what it does to the state depends on what the key file
/// holds alone.
pub proof fn law_refresh_run<A, S, E>(watched: FileWatchSignerView<A>, file: KeyFile<S, E>)
    ensures
        run_load(
            file,
            |event: KeyEventView<S, E>| refresh_step(watched, event),
            KeyEventView::Begin,
            3,
        ) == Some(refresh_change(watched, file)),
{
    reveal_with_fuel(run_load, 4);
}

/// A valid replacement for the same public key becomes active and makes the signer ready.
pub proof fn law_valid_replacement_becomes_active<A, S, E>(
    watched: FileWatchSignerView<A>,
    state: FileWatchStateView<S>,
    file: KeyFile<S, E>,
)
    requires
        holds_expected_key(watched, file),
    ensures
        refreshed(watched, state, file).signer == file->signer,
        refreshed(watched, state, file).readiness == KeyReadiness::Ready,
{
}

/// A file that cannot be read, that holds no valid key or that holds another key degrades the
/// readiness and leaves the last good signer and its public key in place.
pub proof fn law_bad_replacement_degrades<A, S, E>(
    watched: FileWatchSignerView<A>,
    state: FileWatchStateView<S>,
    file: KeyFile<S, E>,
)
    requires
        !holds_expected_key(watched, file),
    ensures
        refreshed(watched, state, file).signer == state.signer,
        refreshed(watched, state, file).public_jwk == state.public_jwk,
        refreshed(watched, state, file).readiness == KeyReadiness::Degraded,
{
}

/// The state after one refresh for each of `files`, in order.
pub open spec fn refreshed_by_all<A, S, E>(
    watched: FileWatchSignerView<A>,
    state: FileWatchStateView<S>,
    files: Seq<KeyFile<S, E>>,
) -> FileWatchStateView<S>
    decreases files.len(),
{
    if files.len() == 0 {
        state
    } else {
        refreshed(watched, refreshed_by_all(watched, state, files.drop_last()), files.last())
    }
}

/// Whatever the key file holds over time, the active signer's public key stays the expected one,
/// and after a refresh the signer is ready if and only if the file then held the expected key.
pub proof fn law_identity_never_changes<A, S, E>(
    watched: FileWatchSignerView<A>,
    state: FileWatchStateView<S>,
    files: Seq<KeyFile<S, E>>,
)
    requires
        keeps_identity(watched, state),
    ensures
        keeps_identity(watched, refreshed_by_all(watched, state, files)),
        files.len() > 0 ==> refreshed_by_all(watched, state, files).readiness
            == if holds_expected_key(watched, files.last()) {
            KeyReadiness::Ready
        } else {
            KeyReadiness::Degraded
        },
    decreases files.len(),
{
    if files.len() > 0 {
        law_identity_never_changes(watched, state, files.drop_last());
    }
}

/// The active signer is the one that the file held at the last refresh at which it held the
/// expected key: files after that one do not matter.
pub proof fn law_last_good_signer_is_active<A, S, E>(
    watched: FileWatchSignerView<A>,
    state: FileWatchStateView<S>,
    files: Seq<KeyFile<S, E>>,
    last: int,
)
    requires
        0 <= last < files.len(),
        holds_expected_key(watched, files[last]),
        forall|i: int| last < i < files.len() ==> !holds_expected_key(watched, #[trigger] files[i]),
    ensures
        refreshed_by_all(watched, state, files).signer == files[last]->signer,
    decreases files.len(),
{
    if last < files.len() - 1 {
        assert(!holds_expected_key(watched, files[files.len() - 1]));
        law_last_good_signer_is_active(watched, state, files.drop_last(), last);
    }
}

/// Following the steps of a use, given what the key file holds. The state is `None` where it can
/// not be locked.
pub open spec fn run_use<A, S, E, T>(
    watched: FileWatchSignerView<A>,
    state: Option<FileWatchStateView<S>>,
    file: KeyFile<S, E>,
    step: spec_fn(UseEventView<S>) -> UseStep<T>,
    event: UseEventView<S>,
    steps: nat,
) -> Option<T>
    decreases steps,
{
    if steps == 0 {
        None
    } else {
        match step(event) {
            UseStep::Refresh => {
                let next = match state {
                    Some(state) => Some(refreshed(watched, state, file)),
                    None => None,
                };
                run_use(watched, next, file, step, UseEventView::Refreshed, (steps - 1) as nat)
            },
            UseStep::Lock => run_use(
                watched,
                state,
                file,
                step,
                UseEventView::Locked(state),
                (steps - 1) as nat,
            ),
            UseStep::Done(outcome) => Some(outcome),
        }
    }
}

/// Every use reads the state as it is after the key file was loaded again, so that it never goes
/// by what the file held before. A state that cannot be locked is not read: there is then no
/// readiness, no public key and no signature.
pub proof fn law_every_use_refreshes<A, S, E, T, V>(
    watched: FileWatchSignerView<A>,
    state: Option<FileWatchStateView<S>>,
    file: KeyFile<S, E>,
    read: spec_fn(Option<FileWatchStateView<S>>) -> T,
    header: V,
    payload: V,
)
    ensures
        run_use(
            watched,
            state,
            file,
            |event: UseEventView<S>| use_step(event, read),
            UseEventView::Begin,
            3,
        ) == Some(
            read(
                match state {
                    Some(state) => Some(refreshed(watched, state, file)),
                    None => None,
                },
            ),
        ),
        shown_readiness(None::<FileWatchStateView<S>>) == KeyReadiness::NotReady,
        shown_jwk(None::<FileWatchStateView<S>>) == JsonView::Null,
        shown_request::<S, V, E>(None, header, payload) is Err,
        shown_request::<S, V, E>(None, header, payload)->Err_0 == SignerErrorView::<E>::Unavailable,
{
    reveal_with_fuel(run_use, 4);
}

/// While a signer is started or refreshed, a key is parsed only after the file was read, and for
/// exactly the algorithm and the verification method that the signer is configured with.
pub proof fn law_keys_are_parsed_as_configured<A, S, E>(
    watched: FileWatchSignerView<A>,
    event: KeyEventView<S, E>,
)
    ensures
        (match start_step(watched.algorithm, watched.verification_method_id, event) {
            KeyStepView::Parse { algorithm, verification_method_id } => event is Read && algorithm
                == watched.algorithm && verification_method_id == watched.verification_method_id,
            _ => !(event is Read),
        }),
        (match refresh_step(watched, event) {
            KeyStepView::Parse { algorithm, verification_method_id } => event is Read && algorithm
                == watched.algorithm && verification_method_id == watched.verification_method_id,
            _ => !(event is Read),
        }),
{
}

/// The file is read first, and only first. A start ends with the key that was loaded as the active
/// and the expected one, for the configured algorithm and verification method, or with what kept
/// the key from loading.
pub proof fn law_start_ends_with_what_was_loaded<A, S, E>(
    algorithm: A,
    verification_method_id: Seq<char>,
    event: KeyEventView<S, E>,
)
    ensures
        match start_step(algorithm, verification_method_id, event) {
            KeyStepView::ReadFile => event is Begin,
            KeyStepView::Parse { .. } => event is Read,
            KeyStepView::Done(Ok((watched, state))) => {
                &&& event == KeyEventView::<S, E>::Loaded {
                    signer: state.signer,
                    public_jwk: state.public_jwk,
                }
                &&& watched.expected_public_jwk == state.public_jwk
                &&& watched.algorithm == algorithm
                &&& watched.verification_method_id == verification_method_id
                &&& state.readiness == KeyReadiness::Ready
            },
            KeyStepView::Done(Err(SignerErrorView::KeyLoad { reason })) => event is Unreadable
                && reason == "file_watch key file could not be read"@,
            KeyStepView::Done(Err(SignerErrorView::Refused(error))) => event
                == KeyEventView::<S, E>::Refused(error),
            KeyStepView::Done(Err(SignerErrorView::Unavailable)) => false,
        },
{
}

/// A refresh adopts a signer if and only if it was just loaded and its public key is the expected
/// one, and adopts it with the public key it was loaded with. A load that ends otherwise degrades.
pub proof fn law_refresh_adopts_the_expected_key_only<A, S, E>(
    watched: FileWatchSignerView<A>,
    event: KeyEventView<S, E>,
    signer: S,
    public_jwk: JsonView,
)
    ensures
        refresh_step(watched, event) == KeyStepView::<A, StateChangeView<S>>::Done(
            StateChangeView::Adopt { signer, public_jwk },
        ) <==> event == (KeyEventView::<S, E>::Loaded { signer, public_jwk }) && same_json(
            public_jwk,
            watched.expected_public_jwk,
        ),
        refresh_step(watched, event) == KeyStepView::<A, StateChangeView<S>>::Done(
            StateChangeView::Degrade,
        ) <==> event is Unreadable || event is Refused || (event is Loaded && !same_json(
            event->public_jwk,
            watched.expected_public_jwk,
        )),
        refresh_step(watched, event) is ReadFile <==> event is Begin,
{
}

/// A key whose public key differs from the expected one in any text is another key: it degrades
/// the signer, whatever else the two public keys have in common.
pub proof fn law_another_public_key_degrades<A, S, E>(
    watched: FileWatchSignerView<A>,
    signer: S,
    public_jwk: JsonView,
    member: Seq<char>,
)
    requires
        watched.expected_public_jwk is Object,
        watched.expected_public_jwk->Object_0.contains_key(member),
        watched.expected_public_jwk->Object_0[member] is Text,
        !(public_jwk is Object) || !public_jwk->Object_0.contains_key(member)
            || public_jwk->Object_0[member] != watched.expected_public_jwk->Object_0[member],
    ensures
        refresh_step(watched, KeyEventView::<S, E>::Loaded { signer, public_jwk }) == KeyStepView::<
            A,
            StateChangeView<S>,
        >::Done(StateChangeView::Degrade),
{
    if same_json(public_jwk, watched.expected_public_jwk) {
        law_same_json_symmetric(public_jwk, watched.expected_public_jwk);
        law_same_objects_agree_in_texts(
            watched.expected_public_jwk->Object_0,
            public_jwk->Object_0,
            member,
        );
    }
}

/// A public key without floating-point numbers is adopted if and only if it is exactly the expected
/// one.
pub proof fn law_public_keys_are_compared_exactly<A, S, E>(
    watched: FileWatchSignerView<A>,
    signer: S,
    public_jwk: JsonView,
)
    requires
        float_free(public_jwk),
    ensures
        refresh_step(watched, KeyEventView::<S, E>::Loaded { signer, public_jwk }) == (if public_jwk
            == watched.expected_public_jwk {
            KeyStepView::<A, StateChangeView<S>>::Done(
                StateChangeView::Adopt { signer, public_jwk },
            )
        } else {
            KeyStepView::<A, StateChangeView<S>>::Done(StateChangeView::Degrade)
        }),
{
    law_same_json_is_identity_without_floats(public_jwk, watched.expected_public_jwk);
}

/// A change adopts a signer with its public key and makes it ready, or leaves both as they are and
/// degrades. What the state was before does not matter to what is adopted.
pub proof fn law_changes_replace_or_keep<S>(
    state: FileWatchStateView<S>,
    signer: S,
    public_jwk: JsonView,
)
    ensures
        changed(state, StateChangeView::Adopt { signer, public_jwk }).signer == signer,
        changed(state, StateChangeView::Adopt { signer, public_jwk }).public_jwk == public_jwk,
        changed(state, StateChangeView::Adopt { signer, public_jwk }).readiness
            == KeyReadiness::Ready,
        changed(state, StateChangeView::<S>::Degrade).signer == state.signer,
        changed(state, StateChangeView::<S>::Degrade).public_jwk == state.public_jwk,
        changed(state, StateChangeView::<S>::Degrade).readiness == KeyReadiness::Degraded,
{
}

/// With the state locked, the active signer is asked to sign the given header and the given
/// payload, each as what it is and as it is, whatever key is active and however ready it is.
pub proof fn law_active_signer_signs_what_was_given<S, V, E>(
    state: FileWatchStateView<S>,
    header: V,
    payload: V,
)
    ensures
        ({
            let step = use_step(
                UseEventView::Locked(Some(state)),
                |state: Option<FileWatchStateView<S>>|
                    shown_request::<S, V, E>(state, header, payload),
            );
            &&& step is Done
            &&& step->Done_0 is Ok
            &&& *step->Done_0->Ok_0.signer == state.signer
            &&& step->Done_0->Ok_0.header == header
            &&& step->Done_0->Ok_0.payload == payload
        }),
{
}

/// With the state locked, the public key and the readiness that are shown are those of the state.
pub proof fn law_state_is_shown_as_it_is<S>(state: FileWatchStateView<S>)
    ensures
        use_step(
            UseEventView::Locked(Some(state)),
            |state: Option<FileWatchStateView<S>>| shown_jwk(state),
        ) == UseStep::Done(state.public_jwk),
        use_step(
            UseEventView::Locked(Some(state)),
            |state: Option<FileWatchStateView<S>>| shown_readiness(state),
        ) == UseStep::Done(state.readiness),
{
}

/// Whatever the key file holds over time, a signer that keeps its identity shows a public key that
/// is equal to the expected one; without floating-point numbers in it, exactly that one.
pub proof fn law_shown_key_is_the_expected_one<A, S, E>(
    watched: FileWatchSignerView<A>,
    state: FileWatchStateView<S>,
    files: Seq<KeyFile<S, E>>,
)
    requires
        keeps_identity(watched, state),
    ensures
        same_json(
            shown_jwk(Some(refreshed_by_all(watched, state, files))),
            watched.expected_public_jwk,
        ),
        float_free(watched.expected_public_jwk) ==> shown_jwk(
            Some(refreshed_by_all(watched, state, files)),
        ) == watched.expected_public_jwk,
{
    law_identity_never_changes(watched, state, files);
    let shown = refreshed_by_all(watched, state, files).public_jwk;
    if float_free(watched.expected_public_jwk) {
        law_same_json_symmetric(shown, watched.expected_public_jwk);
        law_same_json_is_identity_without_floats(watched.expected_public_jwk, shown);
    }
}

/// What a load of the key file says, what it does to the state, and what a signer is are taken as
/// they are: the same signer, the same public key, the same reason.
pub proof fn law_signer_views_are_faithful<S, E>(
    event: KeyEvent<S, E>,
    change: StateChange<S>,
    error: SignerError<E>,
)
    ensures
        event is Begin <==> event@ is Begin,
        event is Unreadable <==> event@ is Unreadable,
        event is Read <==> event@ is Read,
        event matches KeyEvent::Refused(reported) ==> event@ == KeyEventView::<S, E>::Refused(
            reported,
        ),
        event matches KeyEvent::Loaded { signer, public_jwk } ==> event@ == (KeyEventView::<
            S,
            E,
        >::Loaded { signer, public_jwk: public_jwk@ }),
        change matches StateChange::Adopt { signer, public_jwk } ==> change@ == (
        StateChangeView::Adopt { signer, public_jwk: public_jwk@ }),
        change is Degrade <==> change@ is Degrade,
        error matches SignerError::KeyLoad { reason } ==> error@ == (SignerErrorView::<
            E,
        >::KeyLoad { reason: reason@ }),
        error is Unavailable <==> error@ is Unavailable,
        error matches SignerError::Refused(reported) ==> error@ == SignerErrorView::<E>::Refused(
            reported,
        ),
{
}

} // verus!
