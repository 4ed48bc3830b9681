//! The toggle engine: what a request does, one action at a time.
//!
//! The engine never touches the disk or the system. It names the next
//! action, the caller performs it and reports the event, and the engine
//! decides what follows. For each marker key of a request, in order: query
//! the marker; reject the transition if the key is already in the state
//! asked for; otherwise change the marker, then run the feature's effector
//! steps one by one, stopping at the first that fails. A key's failure never
//! stops the keys after it.

use vstd::prelude::*;
use crate::effector::spec_steps;
use crate::effector::steps;
use crate::effector::EffectorStep;
use crate::feature::Direction;
use crate::feature::Feature;
use crate::feature::MarkerKey;
use crate::feature::MarkerState;
use crate::feature::Variant;
use crate::store::StoreFault;
use crate::variants::expand;
use crate::variants::XanmodVariants;

verus! {

/// Why the transition of one marker key did not complete.
#[derive(Clone, Copy, Debug, PartialEq, Eq, Structural)]
pub enum ToggleError {
    /// The key was already in the state asked for. Nothing was changed.
    AlreadyInState { key: MarkerKey, state: MarkerState },
    /// The marker could not be created, on the way to enabled, or removed,
    /// on the way to disabled. No effector step ran.
    Persistence { key: MarkerKey, direction: Direction, fault: StoreFault },
    /// An effector step failed. The marker stays changed, and the steps
    /// after the failed one did not run.
    Effector { key: MarkerKey, step: EffectorStep },
}

/// How the transition of one marker key ended.
#[derive(Clone, Copy, Debug, PartialEq, Eq, Structural)]
pub enum Outcome {
    /// The marker was changed and every effector step succeeded.
    Applied,
    /// The transition stopped with an error.
    Failed(ToggleError),
}

/// What the engine asks its caller to do next.
#[derive(Clone, Copy, Debug, PartialEq, Eq, Structural)]
pub enum Action {
    /// Look up whether the marker is present.
    Query(MarkerKey),
    /// Persist the marker.
    Create(MarkerKey),
    /// Delete the marker.
    Remove(MarkerKey),
    /// Run one effector step on behalf of the key.
    Run(MarkerKey, EffectorStep),
    /// Nothing is left to do.
    Finish,
}

/// What happened when the caller performed an action.
#[derive(Clone, Copy, Debug, PartialEq, Eq, Structural)]
pub enum Event {
    /// The queried marker is present.
    Present,
    /// The queried marker is absent.
    Absent,
    /// The marker was created or removed.
    Stored,
    /// The marker could not be created or removed.
    StoreFailed(StoreFault),
    /// The effector step succeeded.
    StepOk,
    /// The effector step failed or could not be started.
    StepFailed,
}

impl Event {
    /// The event of a query that found the marker present or absent.
    pub open spec fn spec_of_query(present: bool) -> Event {
        if present {
            Event::Present
        } else {
            Event::Absent
        }
    }

    /// The event of a query that found the marker present or absent.
    pub fn of_query(present: bool) -> (event: Event)
        ensures
            event == Event::spec_of_query(present),
    {
        if present {
            Event::Present
        } else {
            Event::Absent
        }
    }

    /// The event of an attempt to create or remove a marker.
    pub open spec fn spec_of_store(result: Result<(), StoreFault>) -> Event {
        match result {
            Ok(_) => Event::Stored,
            Err(fault) => Event::StoreFailed(fault),
        }
    }

    /// The event of an attempt to create or remove a marker.
    pub fn of_store(result: Result<(), StoreFault>) -> (event: Event)
        ensures
            event == Event::spec_of_store(result),
    {
        match result {
            Ok(_) => Event::Stored,
            Err(fault) => Event::StoreFailed(fault),
        }
    }

    /// The event of a command that was run to its end: a success exactly
    /// when its exit code is zero. A command that could not be started, or
    /// that a signal ended, has no exit code.
    pub open spec fn spec_of_exit(code: Option<i32>) -> Event {
        if code == Some(0i32) {
            Event::StepOk
        } else {
            Event::StepFailed
        }
    }

    /// The event of a command that was run to its end: a success exactly
    /// when its exit code is zero.
    pub fn of_exit(code: Option<i32>) -> (event: Event)
        ensures
            event == Event::spec_of_exit(code),
    {
        match code {
            Some(0) => Event::StepOk,
            _ => Event::StepFailed,
        }
    }
}

/// Where the engine stands within the current key.
#[derive(Clone, Copy, Debug, PartialEq, Eq, Structural)]
pub enum Phase {
    /// The marker is to be queried.
    Query,
    /// The marker is to be created or removed.
    Store,
    /// The effector step at this index is to be run.
    Effect(usize),
}

/// A request to enable or disable a feature. The variant flags count only
/// for the XanMod kernel.
#[derive(Clone, Copy, Debug, PartialEq, Eq, Structural)]
pub struct ToggleRequest {
    pub feature: Feature,
    pub variants: XanmodVariants,
    pub direction: Direction,
}

impl ToggleRequest {
    /// The request to move a single-valued feature in `direction`, with no
    /// variant flag set.
    pub open spec fn spec_single(feature: Feature, direction: Direction) -> ToggleRequest {
        ToggleRequest {
            feature,
            variants: XanmodVariants {
                stable: false,
                edge: false,
                lts: false,
                realtime: false,
                tasktype: false,
                realtime_edge: false,
            },
            direction,
        }
    }

    /// The request to move a single-valued feature in `direction`, with no
    /// variant flag set. For the XanMod kernel this asks for the stable
    /// variant.
    pub fn single(feature: Feature, direction: Direction) -> (request: ToggleRequest)
        ensures
            request == ToggleRequest::spec_single(feature, direction),
    {
        ToggleRequest {
            feature,
            variants: XanmodVariants {
                stable: false,
                edge: false,
                lts: false,
                realtime: false,
                tasktype: false,
                realtime_edge: false,
            },
            direction,
        }
    }

    /// The request to move the flagged XanMod variants in `direction`.
    pub open spec fn spec_xanmod(variants: XanmodVariants, direction: Direction) -> ToggleRequest {
        ToggleRequest { feature: Feature::Xanmod, variants, direction }
    }

    /// The request to move the flagged XanMod variants in `direction`.
    pub fn xanmod(variants: XanmodVariants, direction: Direction) -> (request: ToggleRequest)
        ensures
            request == ToggleRequest::spec_xanmod(variants, direction),
    {
        ToggleRequest { feature: Feature::Xanmod, variants, direction }
    }

    /// The marker keys the request concerns, in processing order: the single
    /// key of a single-valued feature, or one XanMod key per expanded
    /// variant.
    pub open spec fn spec_keys(self) -> Seq<MarkerKey> {
        match self.feature.spec_single_key() {
            Some(key) => seq![key],
            None => self.variants.spec_expand().map_values(|v: Variant| MarkerKey::Xanmod(v)),
        }
    }

    /// The marker keys the request concerns, in processing order.
    pub fn keys(&self) -> (keys: Vec<MarkerKey>)
        ensures
            keys@ == self.spec_keys(),
    {
        let mut keys: Vec<MarkerKey> = Vec::new();
        match self.feature.single_key() {
            Some(key) => {
                keys.push(key);
                assert(keys@ =~= seq![key]);
            },
            None => {
                let variants = expand(&self.variants, self.direction);
                let mut i: usize = 0;
                while i < variants.len()
                    invariant
                        i <= variants@.len(),
                        keys@ == variants@.take(i as int).map_values(
                            |v: Variant| MarkerKey::Xanmod(v),
                        ),
                    decreases variants@.len() - i,
                {
                    keys.push(MarkerKey::Xanmod(variants[i]));
                    assert(keys@ =~= variants@.take(i + 1).map_values(
                        |v: Variant| MarkerKey::Xanmod(v),
                    ));
                    i = i + 1;
                }
                assert(variants@.take(i as int) =~= variants@);
            },
        }
        keys
    }
}

/// The mathematical state of an engine.
pub struct EngineView {
    /// The direction of the request.
    pub direction: Direction,
    /// The keys of the request, in processing order.
    pub keys: Seq<MarkerKey>,
    /// The outcomes of the keys that are done, in the same order.
    pub outcomes: Seq<Outcome>,
    /// The phase of the key in progress.
    pub phase: Phase,
}

impl EngineView {
    /// The state before anything was done for `request`.
    pub open spec fn initial(request: ToggleRequest) -> EngineView {
        EngineView {
            direction: request.direction,
            keys: request.spec_keys(),
            outcomes: Seq::empty(),
            phase: Phase::Query,
        }
    }

    /// Whether every key has its outcome.
    pub open spec fn finished(self) -> bool {
        self.outcomes.len() >= self.keys.len()
    }

    /// The key in progress.
    pub open spec fn current_key(self) -> MarkerKey
        recommends
            !self.finished(),
    {
        self.keys[self.outcomes.len() as int]
    }

    /// The effector steps of the key in progress.
    pub open spec fn current_steps(self) -> Seq<EffectorStep>
        recommends
            !self.finished(),
    {
        spec_steps(self.current_key().spec_feature(), self.direction)
    }

    /// The states an engine can be in: no more outcomes than keys, the query
    /// phase once finished, and an effector phase only at a step that the
    /// key in progress has.
    pub open spec fn wf(self) -> bool {
        &&& self.outcomes.len() <= self.keys.len()
        &&& self.finished() ==> self.phase == Phase::Query
        &&& self.phase matches Phase::Effect(i) ==> i < self.current_steps().len()
    }

    /// The action that the engine asks for in this state.
    pub open spec fn action(self) -> Action {
        if self.finished() {
            Action::Finish
        } else {
            match self.phase {
                Phase::Query => Action::Query(self.current_key()),
                Phase::Store => match self.direction {
                    Direction::Enable => Action::Create(self.current_key()),
                    Direction::Disable => Action::Remove(self.current_key()),
                },
                Phase::Effect(i) => Action::Run(self.current_key(), self.current_steps()[i as int]),
            }
        }
    }

    /// Whether `event` answers the action that the engine asks for.
    pub open spec fn accepts(self, event: Event) -> bool {
        !self.finished() && match self.phase {
            Phase::Query => event == Event::Present || event == Event::Absent,
            Phase::Store => event == Event::Stored || event is StoreFailed,
            Phase::Effect(_) => event == Event::StepOk || event == Event::StepFailed,
        }
    }

    /// How far the engine is within the key in progress: the number of
    /// actions already performed for it.
    pub open spec fn progress(self) -> int {
        match self.phase {
            Phase::Query => 0,
            Phase::Store => 1,
            Phase::Effect(i) => 2 + i,
        }
    }

    /// A bound on the number of actions that the engine still asks for: at
    /// most eight per key, less those already performed for the key in
    /// progress.
    pub open spec fn remaining(self) -> int {
        (self.keys.len() - self.outcomes.len()) * 8 - self.progress()
    }

    /// The state in which the key in progress has ended with `outcome`.
    pub open spec fn conclude(self, outcome: Outcome) -> EngineView {
        EngineView { outcomes: self.outcomes.push(outcome), phase: Phase::Query, ..self }
    }

    /// The state in which the key in progress has moved on to `phase`.
    pub open spec fn enter(self, phase: Phase) -> EngineView {
        EngineView { phase, ..self }
    }

    /// The state after `event`. An event that does not answer the pending
    /// action changes nothing.
    pub open spec fn advance(self, event: Event) -> EngineView {
        if !self.accepts(event) {
            self
        } else {
            let key = self.current_key();
            let steps = self.current_steps();
            match self.phase {
                Phase::Query => {
                    let state = if event == Event::Present {
                        MarkerState::Enabled
                    } else {
                        MarkerState::Disabled
                    };
                    if state == self.direction.spec_target() {
                        self.conclude(Outcome::Failed(ToggleError::AlreadyInState { key, state }))
                    } else {
                        self.enter(Phase::Store)
                    }
                },
                Phase::Store => match event {
                    Event::StoreFailed(fault) => self.conclude(
                        Outcome::Failed(
                            ToggleError::Persistence { key, direction: self.direction, fault },
                        ),
                    ),
                    _ => if steps.len() == 0 {
                        self.conclude(Outcome::Applied)
                    } else {
                        self.enter(Phase::Effect(0))
                    },
                },
                Phase::Effect(i) => if event == Event::StepFailed {
                    self.conclude(
                        Outcome::Failed(ToggleError::Effector { key, step: steps[i as int] }),
                    )
                } else if i + 1 < steps.len() {
                    self.enter(Phase::Effect((i + 1) as usize))
                } else {
                    self.conclude(Outcome::Applied)
                },
            }
        }
    }
}

/// Every run ends: each event that answers the pending action brings the
/// engine strictly closer to its end, and an engine that is not finished
/// still has something to ask for.
pub proof fn lemma_progress(engine: EngineView, event: Event)
    requires
        engine.wf(),
        engine.accepts(event),
    ensures
        0 <= engine.advance(event).remaining() < engine.remaining(),
        engine.advance(event).finished() <==> engine.advance(event).remaining() == 0,
{
    crate::effector::lemma_steps_bounded(engine.current_key().spec_feature(), engine.direction);
    let next = engine.advance(event);
    if !next.finished() {
        crate::effector::lemma_steps_bounded(next.current_key().spec_feature(), next.direction);
    }
}

/// Whether `error` is the failure of the first key that failed.
pub open spec fn is_first_failure(outcomes: Seq<Outcome>, error: ToggleError) -> bool {
    exists|i: int|
        0 <= i < outcomes.len() && #[trigger] outcomes[i] == Outcome::Failed(error) && forall|
            j: int,
        |
            0 <= j < i ==> #[trigger] outcomes[j] == Outcome::Applied
}

/// Whether every outcome is a success.
pub open spec fn all_applied(outcomes: Seq<Outcome>) -> bool {
    forall|i: int| 0 <= i < outcomes.len() ==> #[trigger] outcomes[i] == Outcome::Applied
}

/// The engine for one request.
#[derive(Debug)]
pub struct Engine {
    direction: Direction,
    keys: Vec<MarkerKey>,
    outcomes: Vec<Outcome>,
    phase: Phase,
}

impl View for Engine {
    type V = EngineView;

    closed spec fn view(&self) -> EngineView {
        EngineView {
            direction: self.direction,
            keys: self.keys@,
            outcomes: self.outcomes@,
            phase: self.phase,
        }
    }
}

impl Engine {
    /// The engine for `request`, with nothing done yet.
    pub fn new(request: ToggleRequest) -> (engine: Engine)
        ensures
            engine@ == EngineView::initial(request),
            engine@.wf(),
    {
        let keys = request.keys();
        Engine { direction: request.direction, keys, outcomes: Vec::new(), phase: Phase::Query }
    }

    /// The direction of the request.
    pub fn direction(&self) -> (direction: Direction)
        ensures
            direction == self@.direction,
    {
        self.direction
    }

    /// The keys of the request, in processing order.
    pub fn keys(&self) -> (keys: &Vec<MarkerKey>)
        ensures
            keys@ == self@.keys,
    {
        &self.keys
    }

    /// The outcomes of the keys that are done, in processing order.
    pub fn outcomes(&self) -> (outcomes: &Vec<Outcome>)
        ensures
            outcomes@ == self@.outcomes,
    {
        &self.outcomes
    }

    /// Whether every key has its outcome.
    pub fn is_finished(&self) -> (finished: bool)
        ensures
            finished == self@.finished(),
    {
        self.outcomes.len() >= self.keys.len()
    }

    /// The action to perform next.
    pub fn action(&self) -> (action: Action)
        requires
            self@.wf(),
        ensures
            action == self@.action(),
    {
        if self.outcomes.len() >= self.keys.len() {
            return Action::Finish;
        }
        let key = self.keys[self.outcomes.len()];
        match self.phase {
            Phase::Query => Action::Query(key),
            Phase::Store => match self.direction {
                Direction::Enable => Action::Create(key),
                Direction::Disable => Action::Remove(key),
            },
            Phase::Effect(i) => {
                let steps = steps(key.feature(), self.direction);
                Action::Run(key, steps[i])
            },
        }
    }

    /// Takes in what happened when the pending action was performed, and
    /// says whether the event answered that action. One that did not is
    /// ignored.
    pub fn advance(&mut self, event: Event) -> (accepted: bool)
        requires
            old(self)@.wf(),
        ensures
            accepted == old(self)@.accepts(event),
            final(self)@ == old(self)@.advance(event),
            final(self)@.wf(),
    {
        if self.outcomes.len() >= self.keys.len() {
            return false;
        }
        let key = self.keys[self.outcomes.len()];
        let steps = steps(key.feature(), self.direction);
        match self.phase {
            Phase::Query => {
                let state = match event {
                    Event::Present => MarkerState::Enabled,
                    Event::Absent => MarkerState::Disabled,
                    _ => {
                        return false;
                    },
                };
                if state == self.direction.target() {
                    self.outcomes.push(
                        Outcome::Failed(ToggleError::AlreadyInState { key, state }),
                    );
                } else {
                    self.phase = Phase::Store;
                }
            },
            Phase::Store => {
                match event {
                    Event::Stored => {
                        if steps.len() == 0 {
                            self.outcomes.push(Outcome::Applied);
                            self.phase = Phase::Query;
                        } else {
                            self.phase = Phase::Effect(0);
                        }
                    },
                    Event::StoreFailed(fault) => {
                        self.outcomes.push(
                            Outcome::Failed(
                                ToggleError::Persistence { key, direction: self.direction, fault },
                            ),
                        );
                        self.phase = Phase::Query;
                    },
                    _ => {
                        return false;
                    },
                }
            },
            Phase::Effect(i) => {
                match event {
                    Event::StepOk => {
                        if i + 1 < steps.len() {
                            self.phase = Phase::Effect(i + 1);
                        } else {
                            self.outcomes.push(Outcome::Applied);
                            self.phase = Phase::Query;
                        }
                    },
                    Event::StepFailed => {
                        self.outcomes.push(
                            Outcome::Failed(ToggleError::Effector { key, step: steps[i] }),
                        );
                        self.phase = Phase::Query;
                    },
                    _ => {
                        return false;
                    },
                }
            },
        }
        true
    }

    /// The result of the request so far: the error of the first key that
    /// failed, or success where none did.
    pub fn result(&self) -> (result: Result<(), ToggleError>)
        ensures
            result is Ok <==> all_applied(self@.outcomes),
            result matches Err(error) ==> is_first_failure(self@.outcomes, error),
    {
        let mut i: usize = 0;
        while i < self.outcomes.len()
            invariant
                i <= self.outcomes@.len(),
                forall|j: int| 0 <= j < i ==> #[trigger] self.outcomes@[j] == Outcome::Applied,
            decreases self.outcomes@.len() - i,
        {
            match self.outcomes[i] {
                Outcome::Failed(error) => {
                    return Err(error);
                },
                Outcome::Applied => {},
            }
            i = i + 1;
        }
        Ok(())
    }
}

} // verus!
