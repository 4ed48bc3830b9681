//! What holds of the engine whatever its caller reports, and of every
//! request that runs to its end without a fault.

use vstd::prelude::*;
use crate::engine::Action;
use crate::engine::EngineView;
use crate::engine::Event;
use crate::engine::Outcome;
use crate::engine::Phase;
use crate::engine::ToggleError;
use crate::engine::ToggleRequest;
use crate::feature::Direction;
use crate::feature::MarkerKey;
use crate::feature::MarkerState;
use crate::rehearsal::effect_actions;
use crate::rehearsal::key_actions;
use crate::rehearsal::key_markers;
use crate::rehearsal::key_outcome;
use crate::rehearsal::legal;
use crate::rehearsal::settle;
use crate::rehearsal::touches;
use crate::rehearsal::Settled;
use crate::variants::lemma_expand_ordered;

verus! {

/// Whether `action` concerns `key`.
pub open spec fn concerns(action: Action, key: MarkerKey) -> bool {
    match action {
        Action::Query(k) => k == key,
        Action::Create(k) => k == key,
        Action::Remove(k) => k == key,
        Action::Run(k, _) => k == key,
        Action::Finish => false,
    }
}

/// Until it has finished, the engine acts on the key in progress and on no
/// other; once finished it asks for nothing.
pub proof fn lemma_acts_on_current_key(engine: EngineView)
    requires
        engine.wf(),
    ensures
        engine.finished() <==> engine.action() == Action::Finish,
        !engine.finished() ==> concerns(engine.action(), engine.current_key()),
{
}

/// One key's end does not stop the next: once the key in progress has its
/// outcome, whatever it is, the engine queries the key after it, or has
/// finished where there is none.
pub proof fn lemma_next_key_follows(engine: EngineView, outcome: Outcome)
    requires
        engine.wf(),
        !engine.finished(),
    ensures
        engine.conclude(outcome).wf(),
        engine.conclude(outcome).action() == if engine.outcomes.len() + 1 < engine.keys.len() {
            Action::Query(engine.keys[engine.outcomes.len() as int + 1])
        } else {
            Action::Finish
        },
{
}

/// An event never rewrites what is done: the request stays the same, the
/// outcomes so far stay as they are, and at most one outcome is added.
pub proof fn lemma_advance_extends(engine: EngineView, event: Event)
    requires
        engine.wf(),
    ensures
        engine.advance(event).wf(),
        engine.advance(event).direction == engine.direction,
        engine.advance(event).keys == engine.keys,
        engine.outcomes.len() <= engine.advance(event).outcomes.len() <= engine.outcomes.len() + 1,
        engine.advance(event).outcomes.take(engine.outcomes.len() as int) == engine.outcomes,
{
    let next = engine.advance(event);
    assert(next.outcomes.take(engine.outcomes.len() as int) =~= engine.outcomes);
}

/// An illegal transition is rejected before anything is changed, whatever
/// the caller reports later: as soon as the query shows the key in the
/// state asked for, the key ends with `AlreadyInState`, without a change of
/// its marker or an effector step having been asked for.
pub proof fn lemma_illegal_rejected(engine: EngineView, event: Event)
    requires
        engine.wf(),
        !engine.finished(),
        engine.phase == Phase::Query,
        event == (match engine.direction {
            Direction::Enable => Event::Present,
            Direction::Disable => Event::Absent,
        }),
    ensures
        engine.action() == Action::Query(engine.current_key()),
        engine.advance(event) == engine.conclude(
            Outcome::Failed(
                ToggleError::AlreadyInState {
                    key: engine.current_key(),
                    state: engine.direction.spec_target(),
                },
            ),
        ),
{
}

/// A failure ends the key at once: a marker that could not be changed, or a
/// step that failed, is the key's outcome, and no further step of the key is
/// asked for.
pub proof fn lemma_failure_ends_key(engine: EngineView, event: Event)
    requires
        engine.wf(),
        engine.accepts(event),
        event is StoreFailed || event == Event::StepFailed,
    ensures
        engine.advance(event).outcomes.len() == engine.outcomes.len() + 1,
        engine.advance(event).outcomes.last() is Failed,
        engine.advance(event).phase == Phase::Query,
        event matches Event::StoreFailed(fault) ==> engine.advance(event).outcomes.last()
            == Outcome::Failed(
            ToggleError::Persistence {
                key: engine.current_key(),
                direction: engine.direction,
                fault,
            },
        ),
        event == Event::StepFailed ==> (engine.action() matches Action::Run(key, step)
            && engine.advance(event).outcomes.last() == Outcome::Failed(
            ToggleError::Effector { key, step },
        )),
{
}

/// The marker comes first: an effector step is asked for only right after
/// the marker of the same key was changed, or after the step before it
/// succeeded.
pub proof fn lemma_step_follows_success(engine: EngineView, event: Event)
    requires
        engine.wf(),
        engine.accepts(event),
        engine.advance(event).action() is Run,
    ensures
        concerns(engine.advance(event).action(), engine.current_key()),
        (engine.action() == (match engine.direction {
            Direction::Enable => Action::Create(engine.current_key()),
            Direction::Disable => Action::Remove(engine.current_key()),
        }) && event == Event::Stored) || (engine.action() is Run && event == Event::StepOk),
{
}

/// The keys of a request are distinct, between one and six in number, and
/// all belong to the requested feature.
pub proof fn lemma_request_keys(request: ToggleRequest)
    ensures
        request.spec_keys().no_duplicates(),
        1 <= request.spec_keys().len() <= 6,
        forall|i: int|
            0 <= i < request.spec_keys().len() ==> (#[trigger] request.spec_keys()[i]).spec_feature()
                == request.feature,
{
    let keys = request.spec_keys();
    if request.feature.spec_single_key() is None {
        let expanded = request.variants.spec_expand();
        lemma_expand_ordered(request.variants);
        assert forall|i: int, j: int| 0 <= i < keys.len() && 0 <= j < keys.len() && i != j implies keys[i]
            != keys[j] by {
            assert(keys[i] == MarkerKey::Xanmod(expanded[i]));
            assert(keys[j] == MarkerKey::Xanmod(expanded[j]));
        }
    }
}

/// A key is among `keys` exactly when it is the last of them or among those
/// before the last.
proof fn lemma_contains_last(keys: Seq<MarkerKey>, key: MarkerKey)
    requires
        keys.len() > 0,
    ensures
        keys.contains(key) <==> (keys.drop_last().contains(key) || keys.last() == key),
{
    let front = keys.drop_last();
    if keys.contains(key) {
        let i = choose|i: int| 0 <= i < keys.len() && keys[i] == key;
        if i < keys.len() - 1 {
            assert(front[i] == key);
        }
    }
    if front.contains(key) {
        let i = choose|i: int| 0 <= i < front.len() && front[i] == key;
        assert(keys[i] == key);
    }
    if keys.last() == key {
        assert(keys[keys.len() - 1] == key);
    }
}

/// Every key gets an outcome, and the markers end as asked: each requested
/// key is present after an enable and absent after a disable, whether its
/// own transition was applied or rejected, and no other marker changes.
pub proof fn lemma_settled_markers(
    markers: Set<MarkerKey>,
    direction: Direction,
    keys: Seq<MarkerKey>,
)
    ensures
        settle(markers, direction, keys).outcomes.len() == keys.len(),
        forall|key: MarkerKey|
            #[trigger] settle(markers, direction, keys).markers.contains(key) <==> if keys.contains(
                key,
            ) {
                direction == Direction::Enable
            } else {
                markers.contains(key)
            },
    decreases keys.len(),
{
    if keys.len() > 0 {
        let front = keys.drop_last();
        lemma_settled_markers(markers, direction, front);
        let before = settle(markers, direction, front);
        let after = settle(markers, direction, keys);
        assert(after.markers == key_markers(before.markers, direction, keys.last()));
        assert forall|key: MarkerKey| #[trigger]
            after.markers.contains(key) <==> if keys.contains(key) {
                direction == Direction::Enable
            } else {
                markers.contains(key)
            } by {
            lemma_contains_last(keys, key);
        }
    }
}

/// Each key is judged on its own: where the keys are distinct, the outcome
/// of a key is what its state before the run decides, whatever became of
/// the keys before it. A key already in the state asked for is rejected,
/// and every other key is applied.
pub proof fn lemma_settled_outcome(
    markers: Set<MarkerKey>,
    direction: Direction,
    keys: Seq<MarkerKey>,
    i: int,
)
    requires
        keys.no_duplicates(),
        0 <= i < keys.len(),
    ensures
        settle(markers, direction, keys).outcomes.len() == keys.len(),
        settle(markers, direction, keys).outcomes[i] == key_outcome(markers, direction, keys[i]),
    decreases keys.len(),
{
    let front = keys.drop_last();
    lemma_settled_markers(markers, direction, keys);
    lemma_settled_markers(markers, direction, front);
    if i < keys.len() - 1 {
        lemma_settled_outcome(markers, direction, front, i);
    } else {
        if front.contains(keys.last()) {
            let j = choose|j: int| 0 <= j < front.len() && front[j] == keys.last();
            assert(keys[j] == keys[keys.len() - 1]);
        }
    }
}

/// The actions of one key change no marker but its own and run no step on
/// behalf of another key.
proof fn lemma_key_actions_own(
    markers: Set<MarkerKey>,
    direction: Direction,
    key: MarkerKey,
    other: MarkerKey,
)
    requires
        other != key,
    ensures
        forall|n: int|
            0 <= n < key_actions(markers, direction, key).len() ==> !touches(
                #[trigger] key_actions(markers, direction, key)[n],
                other,
            ),
{
    let effects = effect_actions(direction, key);
    assert forall|n: int| 0 <= n < key_actions(markers, direction, key).len() implies !touches(
        #[trigger] key_actions(markers, direction, key)[n],
        other,
    ) by {
        if legal(markers, direction, key) && n >= 2 {
            assert(key_actions(markers, direction, key)[n] == effects[n - 2]);
        }
    }
}

/// A run leaves alone every key that is not among its keys.
proof fn lemma_unrequested_untouched(
    markers: Set<MarkerKey>,
    direction: Direction,
    keys: Seq<MarkerKey>,
    other: MarkerKey,
)
    requires
        !keys.contains(other),
    ensures
        forall|n: int|
            0 <= n < settle(markers, direction, keys).actions.len() ==> !touches(
                #[trigger] settle(markers, direction, keys).actions[n],
                other,
            ),
    decreases keys.len(),
{
    if keys.len() > 0 {
        let front = keys.drop_last();
        let before = settle(markers, direction, front);
        lemma_contains_last(keys, other);
        lemma_unrequested_untouched(markers, direction, front, other);
        lemma_key_actions_own(before.markers, direction, keys.last(), other);
    }
}

/// A rejected key has no side effect: where the keys are distinct and a key
/// is already in the state asked for, no action of the whole run creates or
/// removes its marker or runs an effector step on its behalf.
pub proof fn lemma_rejected_untouched(
    markers: Set<MarkerKey>,
    direction: Direction,
    keys: Seq<MarkerKey>,
    i: int,
)
    requires
        keys.no_duplicates(),
        0 <= i < keys.len(),
        !legal(markers, direction, keys[i]),
    ensures
        forall|n: int|
            0 <= n < settle(markers, direction, keys).actions.len() ==> !touches(
                #[trigger] settle(markers, direction, keys).actions[n],
                keys[i],
            ),
        settle(markers, direction, keys).markers.contains(keys[i]) == markers.contains(keys[i]),
    decreases keys.len(),
{
    let front = keys.drop_last();
    let before = settle(markers, direction, front);
    lemma_settled_markers(markers, direction, keys);
    lemma_settled_markers(markers, direction, front);
    assert(keys.contains(keys[i]));
    if i < keys.len() - 1 {
        lemma_rejected_untouched(markers, direction, front, i);
        lemma_key_actions_own(before.markers, direction, keys.last(), keys[i]);
    } else {
        if front.contains(keys.last()) {
            let j = choose|j: int| 0 <= j < front.len() && front[j] == keys.last();
            assert(keys[j] == keys[keys.len() - 1]);
        }
        lemma_unrequested_untouched(markers, direction, front, keys.last());
        assert(key_actions(before.markers, direction, keys.last()) == seq![
            Action::Query(keys.last()),
        ]);
    }
}

/// Where a run over one key ends.
proof fn lemma_settle_one(markers: Set<MarkerKey>, direction: Direction, key: MarkerKey)
    ensures
        settle(markers, direction, seq![key]) == (Settled {
            markers: key_markers(markers, direction, key),
            outcomes: seq![key_outcome(markers, direction, key)],
            actions: key_actions(markers, direction, key),
        }),
{
    let keys = seq![key];
    assert(keys.drop_last() =~= Seq::<MarkerKey>::empty());
    let before = settle(markers, direction, keys.drop_last());
    let after = settle(markers, direction, keys);
    assert(after.outcomes =~= seq![key_outcome(markers, direction, key)]);
    assert(after.actions =~= key_actions(markers, direction, key));
}

/// Enabling a single-valued feature whose marker is present is rejected
/// with `AlreadyInState`, and has no effect: the marker is queried and
/// nothing else is asked for, and the markers stay as they were.
pub proof fn lemma_enable_enabled(request: ToggleRequest, markers: Set<MarkerKey>)
    requires
        request.direction == Direction::Enable,
        request.feature.spec_single_key() matches Some(key) && markers.contains(key),
    ensures
        settle(markers, request.direction, request.spec_keys()) == (Settled {
            markers,
            outcomes: seq![
                Outcome::Failed(
                    ToggleError::AlreadyInState {
                        key: request.feature.spec_single_key()->0,
                        state: MarkerState::Enabled,
                    },
                ),
            ],
            actions: seq![Action::Query(request.feature.spec_single_key()->0)],
        }),
{
    let key = request.feature.spec_single_key()->0;
    lemma_settle_one(markers, request.direction, key);
    assert(markers.insert(key) =~= markers);
}

/// Disabling a single-valued feature whose marker is absent is rejected
/// with `AlreadyInState`, and has no effect: the marker is queried and
/// nothing else is asked for, and the markers stay as they were.
pub proof fn lemma_disable_disabled(request: ToggleRequest, markers: Set<MarkerKey>)
    requires
        request.direction == Direction::Disable,
        request.feature.spec_single_key() matches Some(key) && !markers.contains(key),
    ensures
        settle(markers, request.direction, request.spec_keys()) == (Settled {
            markers,
            outcomes: seq![
                Outcome::Failed(
                    ToggleError::AlreadyInState {
                        key: request.feature.spec_single_key()->0,
                        state: MarkerState::Disabled,
                    },
                ),
            ],
            actions: seq![Action::Query(request.feature.spec_single_key()->0)],
        }),
{
    let key = request.feature.spec_single_key()->0;
    lemma_settle_one(markers, request.direction, key);
    assert(markers.remove(key) =~= markers);
}

/// A request for several variants succeeds in part: each requested variant
/// that is already in the state asked for is rejected with
/// `AlreadyInState` and nothing is done on its behalf, every other
/// requested variant is applied, and in the end all of them are in the
/// state asked for.
pub proof fn lemma_partial_success(request: ToggleRequest, markers: Set<MarkerKey>, i: int)
    requires
        0 <= i < request.spec_keys().len(),
    ensures
        settle(markers, request.direction, request.spec_keys()).outcomes.len()
            == request.spec_keys().len(),
        settle(markers, request.direction, request.spec_keys()).outcomes[i] == (if legal(
            markers,
            request.direction,
            request.spec_keys()[i],
        ) {
            Outcome::Applied
        } else {
            Outcome::Failed(
                ToggleError::AlreadyInState {
                    key: request.spec_keys()[i],
                    state: request.direction.spec_target(),
                },
            )
        }),
        !legal(markers, request.direction, request.spec_keys()[i]) ==> forall|n: int|
            0 <= n < settle(markers, request.direction, request.spec_keys()).actions.len()
                ==> !touches(
                #[trigger] settle(markers, request.direction, request.spec_keys()).actions[n],
                request.spec_keys()[i],
            ),
        settle(markers, request.direction, request.spec_keys()).markers.contains(
            request.spec_keys()[i],
        ) == (request.direction == Direction::Enable),
{
    let keys = request.spec_keys();
    lemma_request_keys(request);
    lemma_settled_outcome(markers, request.direction, keys, i);
    lemma_settled_markers(markers, request.direction, keys);
    assert(keys.contains(keys[i]));
    if !legal(markers, request.direction, keys[i]) {
        lemma_rejected_untouched(markers, request.direction, keys, i);
    }
}

} // verus!
