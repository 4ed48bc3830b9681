//! A request run to its end against a marker store held in memory, with
//! every effector step succeeding: what the engine asks for, in order, what
//! becomes of the markers, and how each key ends.

use vstd::prelude::*;
use crate::engine::lemma_progress;
use crate::effector::spec_steps;
use crate::effector::EffectorStep;
use crate::engine::Action;
use crate::engine::Engine;
use crate::engine::EngineView;
use crate::engine::Event;
use crate::engine::Outcome;
use crate::engine::Phase;
use crate::engine::ToggleError;
use crate::engine::ToggleRequest;
use crate::feature::Direction;
use crate::feature::MarkerKey;
use crate::feature::MarkerState;
use crate::store::MarkerStore;

verus! {

/// The state of `key` among `markers`.
pub open spec fn state_of(markers: Set<MarkerKey>, key: MarkerKey) -> MarkerState {
    if markers.contains(key) {
        MarkerState::Enabled
    } else {
        MarkerState::Disabled
    }
}

/// Whether the transition of `key` is legal: the key is not yet in the state
/// that the direction leads to.
pub open spec fn legal(markers: Set<MarkerKey>, direction: Direction, key: MarkerKey) -> bool {
    state_of(markers, key) != direction.spec_target()
}

/// How the transition of `key` ends when nothing fails: rejected where it is
/// illegal, applied otherwise.
pub open spec fn key_outcome(
    markers: Set<MarkerKey>,
    direction: Direction,
    key: MarkerKey,
) -> Outcome {
    if legal(markers, direction, key) {
        Outcome::Applied
    } else {
        Outcome::Failed(
            ToggleError::AlreadyInState { key, state: direction.spec_target() },
        )
    }
}

/// The markers after the transition of `key`. A rejected transition leaves
/// them as they are: the key is already where the direction leads.
pub open spec fn key_markers(
    markers: Set<MarkerKey>,
    direction: Direction,
    key: MarkerKey,
) -> Set<MarkerKey> {
    match direction {
        Direction::Enable => markers.insert(key),
        Direction::Disable => markers.remove(key),
    }
}

/// The action that changes the marker of `key`.
pub open spec fn store_action(direction: Direction, key: MarkerKey) -> Action {
    match direction {
        Direction::Enable => Action::Create(key),
        Direction::Disable => Action::Remove(key),
    }
}

/// The effector actions of `key`, in order.
pub open spec fn effect_actions(direction: Direction, key: MarkerKey) -> Seq<Action> {
    spec_steps(key.spec_feature(), direction).map_values(|step: EffectorStep| Action::Run(key, step))
}

/// The actions asked for on behalf of `key` when nothing fails: the query
/// alone where the transition is illegal; otherwise the query, the change of
/// the marker, then the effector steps.
pub open spec fn key_actions(
    markers: Set<MarkerKey>,
    direction: Direction,
    key: MarkerKey,
) -> Seq<Action> {
    if legal(markers, direction, key) {
        seq![Action::Query(key), store_action(direction, key)] + effect_actions(direction, key)
    } else {
        seq![Action::Query(key)]
    }
}

/// Where a run ends.
pub struct Settled {
    /// The markers that are present.
    pub markers: Set<MarkerKey>,
    /// The outcome of each key, in processing order.
    pub outcomes: Seq<Outcome>,
    /// The actions that were asked for, in order.
    pub actions: Seq<Action>,
}

/// Where a run over `keys`, one after the other, ends when it starts from
/// `markers` and nothing fails.
pub open spec fn settle(
    markers: Set<MarkerKey>,
    direction: Direction,
    keys: Seq<MarkerKey>,
) -> Settled
    decreases keys.len(),
{
    if keys.len() == 0 {
        Settled { markers, outcomes: Seq::empty(), actions: Seq::empty() }
    } else {
        let before = settle(markers, direction, keys.drop_last());
        let key = keys.last();
        Settled {
            markers: key_markers(before.markers, direction, key),
            outcomes: before.outcomes.push(key_outcome(before.markers, direction, key)),
            actions: before.actions + key_actions(before.markers, direction, key),
        }
    }
}

/// Whether `action` changes the marker of `key` or runs an effector step on
/// its behalf.
pub open spec fn touches(action: Action, key: MarkerKey) -> bool {
    match action {
        Action::Create(k) => k == key,
        Action::Remove(k) => k == key,
        Action::Run(k, _) => k == key,
        _ => false,
    }
}

/// What holds between the engine, the store and the log while a run from
/// `start` is under way.
spec fn in_step(
    engine: EngineView,
    start: Set<MarkerKey>,
    markers: Set<MarkerKey>,
    actions: Seq<Action>,
) -> bool {
    let done = settle(start, engine.direction, engine.keys.take(engine.outcomes.len() as int));
    let key = engine.current_key();
    &&& engine.wf()
    &&& engine.outcomes == done.outcomes
    &&& match engine.phase {
        Phase::Query => markers == done.markers && actions == done.actions,
        Phase::Store => {
            &&& legal(done.markers, engine.direction, key)
            &&& markers == done.markers
            &&& actions == done.actions.push(Action::Query(key))
        },
        Phase::Effect(i) => {
            &&& legal(done.markers, engine.direction, key)
            &&& markers == key_markers(done.markers, engine.direction, key)
            &&& actions == done.actions + seq![
                Action::Query(key),
                store_action(engine.direction, key),
            ] + effect_actions(engine.direction, key).take(i as int)
        },
    }
}

/// One more key settled: the run over the first `i + 1` keys is the run
/// over the first `i`, followed by the transition of the key at `i`.
proof fn lemma_settle_next(
    markers: Set<MarkerKey>,
    direction: Direction,
    keys: Seq<MarkerKey>,
    i: int,
)
    requires
        0 <= i < keys.len(),
    ensures
        settle(markers, direction, keys.take(i + 1)) == ({
            let before = settle(markers, direction, keys.take(i));
            Settled {
                markers: key_markers(before.markers, direction, keys[i]),
                outcomes: before.outcomes.push(key_outcome(before.markers, direction, keys[i])),
                actions: before.actions + key_actions(before.markers, direction, keys[i]),
            }
        }),
{
    assert(keys.take(i + 1).drop_last() =~= keys.take(i));
    assert(keys.take(i + 1).last() == keys[i]);
}

/// Runs `request` to its end against `store`, with every effector step
/// succeeding. Returns the finished engine and the actions it asked for, in
/// order.
pub fn rehearse(request: ToggleRequest, store: &mut MarkerStore) -> (run: (Engine, Vec<Action>))
    ensures
        run.0@.wf(),
        run.0@.finished(),
        run.0@.direction == request.direction,
        run.0@.keys == request.spec_keys(),
        run.0@.outcomes == settle(
            old(store)@,
            request.direction,
            request.spec_keys(),
        ).outcomes,
        run.1@ == settle(old(store)@, request.direction, request.spec_keys()).actions,
        final(store)@ == settle(old(store)@, request.direction, request.spec_keys()).markers,
{
    let ghost start = store@;
    let mut engine = Engine::new(request);
    let mut actions: Vec<Action> = Vec::new();
    proof {
        assert(engine@.keys.take(0) =~= Seq::<MarkerKey>::empty());
    }
    loop
        invariant
            engine@.direction == request.direction,
            engine@.keys == request.spec_keys(),
            in_step(engine@, start, store@, actions@),
        ensures
            engine@.finished(),
        decreases engine@.remaining(),
    {
        let ghost before = engine@;
        let ghost log = actions@;
        let ghost i = before.outcomes.len() as int;
        let ghost done = settle(start, before.direction, before.keys.take(i));
        let action = engine.action();
        let event = match action {
            Action::Finish => {
                break ;
            },
            Action::Query(key) => Event::of_query(store.is_present(key)),
            Action::Create(key) => Event::of_store(store.create(key)),
            Action::Remove(key) => Event::of_store(store.remove(key)),
            Action::Run(_, _) => Event::of_exit(Some(0)),
        };
        actions.push(action);
        engine.advance(event);
        proof {
            let key = before.current_key();
            let effects = effect_actions(before.direction, key);
            let steps = before.current_steps();
            lemma_progress(before, event);
            lemma_settle_next(start, before.direction, before.keys, i);
            assert(effects.len() == steps.len());
            match before.phase {
                Phase::Query => {
                    if !legal(done.markers, before.direction, key) {
                        assert(key_markers(done.markers, before.direction, key) =~= done.markers);
                        assert(done.actions.push(action) =~= done.actions + seq![action]);
                    }
                },
                Phase::Store => {
                    assert(log.push(action) =~= done.actions + seq![
                        Action::Query(key),
                        store_action(before.direction, key),
                    ] + effects.take(0));
                    if steps.len() == 0 {
                        assert(effects.take(0) =~= effects);
                        assert(log.push(action) =~= done.actions + (seq![
                            Action::Query(key),
                            store_action(before.direction, key),
                        ] + effects));
                    }
                },
                Phase::Effect(j) => {
                    assert(action == effects[j as int]);
                    assert(effects.take(j as int).push(action) =~= effects.take(j + 1));
                    assert(log.push(action) =~= done.actions + seq![
                        Action::Query(key),
                        store_action(before.direction, key),
                    ] + effects.take(j + 1));
                    if j + 1 >= steps.len() {
                        assert(effects.take(j + 1) =~= effects);
                        assert(log.push(action) =~= done.actions + (seq![
                            Action::Query(key),
                            store_action(before.direction, key),
                        ] + effects));
                    }
                },
            }
        }
    }
    proof {
        assert(engine@.keys.take(engine@.outcomes.len() as int) =~= engine@.keys);
    }
    (engine, actions)
}

} // verus!
