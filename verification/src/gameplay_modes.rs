use vstd::prelude::*;
use std::collections::HashMap;
use std::collections::HashSet;
use crate::gameplay_attributes::SetTrajectory;
use crate::gameplay_style::StyleModifiers;
use crate::model::ModelId;
use crate::updatable::{
    among, exclude_all, include_all, lemma_keys_cover, lemma_members_cover, remove_all, upsert_all,
    Updatable,
};
use vstd::std_specs::iter::IteratorSpec;

verus! {

broadcast use vstd::std_specs::hash::group_hash_axioms;

/// The number of a stage: its place in the list of stages of its mode.
#[derive(Clone, Copy, Debug, Hash, PartialEq, Eq, Structural)]
pub struct StageId(pub u32);

impl StageId {
    pub fn new(value: u32) -> (r: Self)
        ensures
            r == StageId(value),
    {
        StageId(value)
    }

    pub fn get(self) -> (r: u32)
        ensures
            r == self.0,
    {
        self.0
    }
}

/// The number of an ordered checkpoint: its place in the order in which the ordered
/// checkpoints of a stage are to be visited.
#[derive(Clone, Copy, Debug, Hash, PartialEq, Eq, Structural)]
pub struct CheckpointId(pub u32);

impl CheckpointId {
    pub fn new(value: u32) -> (r: Self)
        ensures
            r == CheckpointId(value),
    {
        CheckpointId(value)
    }

    pub fn get(self) -> (r: u32)
        ensures
            r == self.0,
    {
        self.0
    }
}

/// The number of a mode: its place in the list of modes.
#[derive(Clone, Copy, Debug, Hash, PartialEq, Eq, Structural)]
pub struct ModeId(pub u32);

impl ModeId {
    /// The number of the main mode.
    pub const MAIN: u32 = 0;

    /// The number of the bonus mode.
    pub const BONUS: u32 = 1;

    pub fn new(value: u32) -> (r: Self)
        ensures
            r == ModeId(value),
    {
        ModeId(value)
    }

    pub fn get(self) -> (r: u32)
        ensures
            r == self.0,
    {
        self.0
    }
}

/// What a model does to the stage of a run that crosses it.
#[derive(Clone, Copy, Debug, Hash, PartialEq, Eq, Structural)]
pub enum StageElementBehaviour {
    /// The spawn of a stage: the body must stand on it.
    SpawnAt,
    Trigger,
    Teleport,
    Platform,
    /// Acts as a trigger until every checkpoint of the current stage has been visited.
    Check,
    /// A checkpoint of a stage, ordered or unordered.
    Checkpoint,
}

/// The behaviour of a model with respect to stages: which stage it belongs to, whether it may
/// move a run back to a lower stage, and what it does.
#[derive(Clone, Copy, Debug, Hash, PartialEq, Eq, Structural)]
pub struct StageElement {
    pub stage_id: StageId,
    pub force: bool,
    pub behaviour: StageElementBehaviour,
}

impl StageElement {
    pub fn new(stage_id: StageId, force: bool, behaviour: StageElementBehaviour) -> (r: Self)
        ensures
            r == (StageElement { stage_id, force, behaviour }),
    {
        StageElement { stage_id, force, behaviour }
    }

    pub fn stage_id(&self) -> (r: StageId)
        ensures
            r == self.stage_id,
    {
        self.stage_id
    }

    pub fn force(&self) -> (r: bool)
        ensures
            r == self.force,
    {
        self.force
    }

    pub fn behaviour(&self) -> (r: StageElementBehaviour)
        ensures
            r == self.behaviour,
    {
        self.behaviour
    }

    /// Whether the element moves a run that crosses it: a spawn, a trigger, a teleport and a
    /// platform always do, a check while a checkpoint of the current stage is still to be
    /// visited, a checkpoint never.
    pub open spec fn triggers(&self, checkpoints_complete: bool) -> bool {
        match self.behaviour {
            StageElementBehaviour::SpawnAt
            | StageElementBehaviour::Trigger
            | StageElementBehaviour::Teleport
            | StageElementBehaviour::Platform => true,
            StageElementBehaviour::Check => !checkpoints_complete,
            StageElementBehaviour::Checkpoint => false,
        }
    }

    /// The stage of a run after it has crossed the element at the stage `current`. An element
    /// that triggers moves the run to its own stage, unless that stage is lower than `current`
    /// and the element does not force it.
    pub open spec fn spec_next_stage(&self, current: StageId, checkpoints_complete: bool) -> StageId {
        if self.triggers(checkpoints_complete) && (self.force || self.stage_id.0 >= current.0) {
            self.stage_id
        } else {
            current
        }
    }

    /// The stage of a run after it has crossed the element at the stage `current`, where
    /// `checkpoints_complete` says whether every checkpoint of the current stage has been
    /// visited.
    #[verifier::when_used_as_spec(spec_next_stage)]
    pub fn next_stage(&self, current: StageId, checkpoints_complete: bool) -> (r: StageId)
        ensures
            r == self.spec_next_stage(current, checkpoints_complete),
    {
        let triggers = match self.behaviour {
            StageElementBehaviour::SpawnAt
            | StageElementBehaviour::Trigger
            | StageElementBehaviour::Teleport
            | StageElementBehaviour::Platform => true,
            StageElementBehaviour::Check => !checkpoints_complete,
            StageElementBehaviour::Checkpoint => false,
        };
        if triggers && (self.force || self.stage_id.0 >= current.0) {
            self.stage_id
        } else {
            current
        }
    }
}

/// How much of the velocity is kept on a spawn.
#[derive(Clone, Copy, Debug, Hash, PartialEq, Eq, Structural)]
pub enum ClipVelocity {
    /// The velocity is set to that of the spawn.
    All,
    /// The velocity out of the plane of the spawn is clipped.
    Normal,
    /// The velocity is kept.
    Nothing,
}

/// What a spawn does to the body besides placing it.
#[derive(Clone, Copy, Debug, Hash, PartialEq, Eq)]
pub struct SpawnBehaviour {
    /// Whether the camera is turned to the direction of the spawn.
    pub set_camera_angles: bool,
    pub set_velocity: Option<SetTrajectory>,
}

/// The meaning of a model for the run as a whole.
#[derive(Clone, Copy, Debug, Hash, PartialEq, Eq, Structural)]
pub enum ZoneBehaviour {
    /// Where a reset returns the body.
    Start,
    /// Touching it completes the run.
    Finish,
    /// Touching it makes the run invalid.
    Anticheat,
}

pub type Zone = ZoneBehaviour;

/// A stage as a mathematical value. The maps and sets are keyed by the numbers of the
/// checkpoint ids and model ids.
pub struct StageView {
    pub spawn: ModelId,
    pub spawn_behaviour: SpawnBehaviour,
    pub ordered_checkpoints: Map<u32, ModelId>,
    pub unordered_checkpoints: Set<u32>,
}

/// A diff of a stage as a mathematical value.
pub struct StageUpdateView {
    pub ordered_checkpoints: Map<u32, ModelId>,
    pub unordered_checkpoints: Set<u32>,
}

impl StageView {
    /// The stage after the checkpoints of `update` have been written into it.
    pub open spec fn inserted(self, update: StageUpdateView) -> StageView {
        StageView {
            ordered_checkpoints: self.ordered_checkpoints.union_prefer_right(
                update.ordered_checkpoints,
            ),
            unordered_checkpoints: self.unordered_checkpoints.union(update.unordered_checkpoints),
            ..self
        }
    }

    /// The stage after the checkpoints that `update` names have been deleted from it.
    pub open spec fn removed(self, update: StageUpdateView) -> StageView {
        StageView {
            ordered_checkpoints: self.ordered_checkpoints.remove_keys(
                update.ordered_checkpoints.dom(),
            ),
            unordered_checkpoints: self.unordered_checkpoints.difference(
                update.unordered_checkpoints,
            ),
            ..self
        }
    }

    /// Whether the model with the number `model` is a checkpoint of the stage, ordered or
    /// unordered.
    pub open spec fn has_checkpoint(self, model: u32) -> bool {
        self.unordered_checkpoints.contains(model) || exists|c: u32|
            self.ordered_checkpoints.contains_key(c) && (#[trigger] self.ordered_checkpoints[c]).0
                == model
    }

    /// Whether the model with the number `model` is the spawn of the stage or one of its
    /// checkpoints.
    pub open spec fn mentions(self, model: u32) -> bool {
        self.spawn.0 == model || self.has_checkpoint(model)
    }

    /// Whether every checkpoint of the stage has been visited, where the ordered checkpoints
    /// below `ordered_visited` and the unordered checkpoints in `unordered_visited` have been.
    pub open spec fn is_complete(self, ordered_visited: int, unordered_visited: Set<u32>) -> bool {
        &&& forall|c: u32| #[trigger] self.ordered_checkpoints.contains_key(c) ==> c < ordered_visited
        &&& self.unordered_checkpoints.subset_of(unordered_visited)
    }
}

impl StageView {
    /// The stage element that a model which the stage mentions has in the lookup tables, where
    /// the stage has the number `stage_id`: a checkpoint if the model is one of the stage's
    /// checkpoints, else the spawn of the stage.
    pub open spec fn derived_element(self, stage_id: StageId, model: u32) -> StageElement {
        StageElement {
            stage_id,
            force: false,
            behaviour: if self.has_checkpoint(model) {
                StageElementBehaviour::Checkpoint
            } else {
                StageElementBehaviour::SpawnAt
            },
        }
    }

    /// The table `elements` after the spawn and the checkpoints of the stage have been
    /// registered in it under the stage number `stage_id`.
    pub open spec fn registered(self, elements: Map<u32, StageElement>, stage_id: StageId) -> Map<
        u32,
        StageElement,
    > {
        Map::new(
            |model: u32| elements.contains_key(model) || self.mentions(model),
            |model: u32|
                if self.mentions(model) {
                    self.derived_element(stage_id, model)
                } else {
                    elements[model]
                },
        )
    }
}

/// The place of the last of the first `n` stages that mentions the model with the number
/// `model`; none where none of them does.
pub open spec fn last_mention(stages: Seq<StageView>, n: int, model: u32) -> Option<int>
    decreases n,
{
    if n <= 0 {
        None
    } else if stages[n - 1].mentions(model) {
        Some(n - 1)
    } else {
        last_mention(stages, n - 1, model)
    }
}

/// The table of stage elements that the first `n` stages derive from `elements`: a model that
/// one of them mentions gets the element derived from the last stage that mentions it; every
/// other model keeps what `elements` has for it.
pub open spec fn denormalized_elements(
    elements: Map<u32, StageElement>,
    stages: Seq<StageView>,
    n: int,
) -> Map<u32, StageElement> {
    Map::new(
        |model: u32| elements.contains_key(model) || last_mention(stages, n, model) is Some,
        |model: u32|
            match last_mention(stages, n, model) {
                Some(i) => stages[i].derived_element(StageId(i as u32), model),
                None => elements[model],
            },
    )
}

/// Whether one of the first `n` keys in `keys` is an ordered checkpoint that is the model with
/// the number `model`.
pub open spec fn checkpoint_among(
    keys: Seq<&u32>,
    n: int,
    ordered: Map<u32, ModelId>,
    model: u32,
) -> bool {
    exists|j: int| 0 <= j < n && (#[trigger] ordered[*keys[j]]).0 == model
}

/// The numbers of the models in `models`.
pub open spec fn model_numbers(models: Seq<ModelId>) -> Set<u32> {
    Set::new(|m: u32| exists|j: int| 0 <= j < models.len() && (#[trigger] models[j]).0 == m)
}

/// Whether the model with the number `number` is in `models`.
fn contains_model(models: &[ModelId], number: u32) -> (r: bool)
    ensures
        r == model_numbers(models@).contains(number),
{
    let mut found = false;
    let mut j: usize = 0;
    while j < models.len()
        invariant
            j <= models.len(),
            found == (exists|i: int| 0 <= i < j && (#[trigger] models@[i]).0 == number),
        decreases models.len() - j,
    {
        if models[j].0 == number {
            found = true;
        }
        j += 1;
    }
    found
}

/// A model is a checkpoint of a stage if and only if it is an unordered checkpoint or is found
/// among the ordered checkpoints by going through all of their keys.
proof fn lemma_checkpoints_covered(keys: Seq<&u32>, stage: StageView, model: u32)
    requires
        forall|j: int|
            0 <= j < keys.len() ==> stage.ordered_checkpoints.contains_key(*#[trigger] keys[j]),
        forall|c: u32|
            stage.ordered_checkpoints.contains_key(c) ==> among(keys, keys.len() as int, c),
    ensures
        stage.has_checkpoint(model) == (stage.unordered_checkpoints.contains(model)
            || checkpoint_among(keys, keys.len() as int, stage.ordered_checkpoints, model)),
{
    let ordered = stage.ordered_checkpoints;
    if checkpoint_among(keys, keys.len() as int, ordered, model) {
        let j = choose|j: int| 0 <= j < keys.len() && (#[trigger] ordered[*keys[j]]).0 == model;
        assert(ordered.contains_key(*keys[j]));
        assert(stage.has_checkpoint(model));
    }
    if exists|c: u32| ordered.contains_key(c) && (#[trigger] ordered[c]).0 == model {
        let c = choose|c: u32| ordered.contains_key(c) && (#[trigger] ordered[c]).0 == model;
        assert(among(keys, keys.len() as int, c));
        let j = choose|j: int| 0 <= j < keys.len() && *#[trigger] keys[j] == c;
        assert(ordered[*keys[j]].0 == model);
    }
}

/// A segment of a mode: a spawn, checkpoints to be visited in the order of their ids, and
/// checkpoints to be visited in any order.
pub struct Stage {
    spawn: ModelId,
    spawn_behaviour: SpawnBehaviour,
    ordered_checkpoints: HashMap<u32, ModelId>,
    unordered_checkpoints: HashSet<u32>,
}

impl View for Stage {
    type V = StageView;

    closed spec fn view(&self) -> StageView {
        StageView {
            spawn: self.spawn,
            spawn_behaviour: self.spawn_behaviour,
            ordered_checkpoints: self.ordered_checkpoints@,
            unordered_checkpoints: self.unordered_checkpoints@,
        }
    }
}

/// A diff of a stage: ordered checkpoints by their ids, and unordered checkpoints.
pub struct StageUpdate {
    ordered_checkpoints: HashMap<u32, ModelId>,
    unordered_checkpoints: HashSet<u32>,
}

impl View for StageUpdate {
    type V = StageUpdateView;

    closed spec fn view(&self) -> StageUpdateView {
        StageUpdateView {
            ordered_checkpoints: self.ordered_checkpoints@,
            unordered_checkpoints: self.unordered_checkpoints@,
        }
    }
}

impl StageUpdate {
    /// The diff of the one ordered checkpoint `checkpoint_id`, which is the model `model_id`.
    pub fn ordered_checkpoint(checkpoint_id: CheckpointId, model_id: ModelId) -> (r: Self)
        ensures
            r@.ordered_checkpoints == Map::<u32, ModelId>::empty().insert(checkpoint_id.0, model_id),
            r@.unordered_checkpoints == Set::<u32>::empty(),
    {
        let mut ordered_checkpoints: HashMap<u32, ModelId> = HashMap::new();
        ordered_checkpoints.insert(checkpoint_id.0, model_id);
        StageUpdate { ordered_checkpoints, unordered_checkpoints: HashSet::new() }
    }

    /// The diff of the one unordered checkpoint `model_id`.
    pub fn unordered_checkpoint(model_id: ModelId) -> (r: Self)
        ensures
            r@.ordered_checkpoints == Map::<u32, ModelId>::empty(),
            r@.unordered_checkpoints == Set::<u32>::empty().insert(model_id.0),
    {
        let mut unordered_checkpoints: HashSet<u32> = HashSet::new();
        unordered_checkpoints.insert(model_id.0);
        StageUpdate { ordered_checkpoints: HashMap::new(), unordered_checkpoints }
    }
}

impl Default for StageUpdate {
    /// The diff that changes nothing.
    fn default() -> (r: Self)
        ensures
            r@.ordered_checkpoints == Map::<u32, ModelId>::empty(),
            r@.unordered_checkpoints == Set::<u32>::empty(),
    {
        StageUpdate { ordered_checkpoints: HashMap::new(), unordered_checkpoints: HashSet::new() }
    }
}

impl Stage {
    /// The stage with the spawn `spawn` and no checkpoint.
    pub fn empty(spawn: ModelId, spawn_behaviour: SpawnBehaviour) -> (r: Self)
        ensures
            r@ == (StageView {
                spawn,
                spawn_behaviour,
                ordered_checkpoints: Map::empty(),
                unordered_checkpoints: Set::empty(),
            }),
    {
        Stage {
            spawn,
            spawn_behaviour,
            ordered_checkpoints: HashMap::new(),
            unordered_checkpoints: HashSet::new(),
        }
    }

    pub fn spawn(&self) -> (r: ModelId)
        ensures
            r == self@.spawn,
    {
        self.spawn
    }

    pub fn spawn_behaviour(&self) -> (r: SpawnBehaviour)
        ensures
            r == self@.spawn_behaviour,
    {
        self.spawn_behaviour
    }

    /// The model of the ordered checkpoint `checkpoint_id`; none where the stage has no such
    /// checkpoint.
    pub fn ordered_checkpoint(&self, checkpoint_id: CheckpointId) -> (r: Option<ModelId>)
        ensures
            r == (if self@.ordered_checkpoints.contains_key(checkpoint_id.0) {
                Some(self@.ordered_checkpoints[checkpoint_id.0])
            } else {
                None
            }),
    {
        match self.ordered_checkpoints.get(&checkpoint_id.0) {
            Some(model_id) => Some(*model_id),
            None => None,
        }
    }

    /// Whether the model is an unordered checkpoint of the stage.
    pub fn is_unordered_checkpoint(&self, model_id: ModelId) -> (r: bool)
        ensures
            r == self@.unordered_checkpoints.contains(model_id.0),
    {
        self.unordered_checkpoints.contains(&model_id.0)
    }

    /// Whether the model is the ordered checkpoint that comes next after `ordered_visited`
    /// ordered checkpoints have been visited in the order of their ids.
    pub fn is_next_ordered_checkpoint(&self, ordered_visited: u64, model_id: ModelId) -> (r: bool)
        ensures
            r == (ordered_visited <= u32::MAX && self@.ordered_checkpoints.contains_key(
                ordered_visited as u32,
            ) && self@.ordered_checkpoints[ordered_visited as u32] == model_id),
    {
        if ordered_visited > 0xffff_ffff {
            return false;
        }
        let next = ordered_visited as u32;
        match self.ordered_checkpoints.get(&next) {
            Some(model) => model.0 == model_id.0,
            None => false,
        }
    }

    /// Whether every checkpoint of the stage has been visited, where the ordered checkpoints
    /// with an id below `ordered_visited` and the unordered checkpoints among
    /// `unordered_visited` have been.
    pub fn is_complete(&self, ordered_visited: u64, unordered_visited: &[ModelId]) -> (r: bool)
        ensures
            r == self@.is_complete(ordered_visited as int, model_numbers(unordered_visited@)),
    {
        let ghost visited = model_numbers(unordered_visited@);
        let mut complete = true;
        let keys = self.ordered_checkpoints.keys();
        proof {
            lemma_keys_cover(keys.remaining(), self.ordered_checkpoints@);
        }
        let ghost all_keys = keys.remaining();
        for k in it: keys
            invariant
                it.seq() == all_keys,
                complete == (forall|j: int|
                    0 <= j < it.index() ==> *#[trigger] all_keys[j] < ordered_visited),
        {
            if *k as u64 >= ordered_visited {
                complete = false;
            }
        }
        let ghost ordered_done = complete;
        let members = self.unordered_checkpoints.iter();
        proof {
            lemma_members_cover(members.remaining(), self.unordered_checkpoints@);
        }
        let ghost all_members = members.remaining();
        for m in it: members
            invariant
                it.seq() == all_members,
                visited == model_numbers(unordered_visited@),
                complete == (ordered_done && forall|j: int|
                    0 <= j < it.index() ==> visited.contains(*#[trigger] all_members[j])),
        {
            if !contains_model(unordered_visited, *m) {
                complete = false;
            }
        }
        proof {
            let ordered = self@.ordered_checkpoints;
            let unordered = self@.unordered_checkpoints;
            if ordered_done {
                assert forall|c: u32| #[trigger] ordered.contains_key(c) implies c
                    < ordered_visited by {
                    assert(among(all_keys, all_keys.len() as int, c));
                }
            }
            if complete {
                assert forall|x: u32| unordered.contains(x) implies visited.contains(x) by {
                    assert(among(all_members, all_members.len() as int, x));
                }
            }
            if self@.is_complete(ordered_visited as int, visited) {
                assert forall|j: int| 0 <= j < all_keys.len() implies *#[trigger] all_keys[j]
                    < ordered_visited by {
                    assert(ordered.contains_key(*all_keys[j]));
                }
                assert forall|j: int| 0 <= j < all_members.len() implies visited.contains(
                    *#[trigger] all_members[j],
                ) by {
                    assert(unordered.contains(*all_members[j]));
                }
            }
        }
        complete
    }

    /// Registers the spawn of the stage and then its checkpoints in `elements`, under the stage
    /// number `stage_id`.
    fn register(&self, elements: &mut HashMap<u32, StageElement>, stage_id: StageId)
        ensures
            final(elements)@ == self@.registered(old(elements)@, stage_id),
    {
        let ghost before = elements@;
        let ghost ordered = self.ordered_checkpoints@;
        elements.insert(
            self.spawn.0,
            StageElement { stage_id, force: false, behaviour: StageElementBehaviour::SpawnAt },
        );
        let ghost with_spawn = elements@;
        let checkpoint = StageElement {
            stage_id,
            force: false,
            behaviour: StageElementBehaviour::Checkpoint,
        };
        let keys = self.ordered_checkpoints.keys();
        proof {
            lemma_keys_cover(keys.remaining(), ordered);
        }
        let ghost all_keys = keys.remaining();
        for k in it: keys
            invariant
                it.seq() == all_keys,
                ordered == self.ordered_checkpoints@,
                forall|j: int| 0 <= j < it.seq().len() ==> ordered.contains_key(*#[trigger] it.seq()[j]),
                forall|x: u32| #[trigger]
                    elements@.contains_key(x) <==> (with_spawn.contains_key(x) || checkpoint_among(
                        it.seq(),
                        it.index(),
                        ordered,
                        x,
                    )),
                forall|x: u32| #[trigger]
                    elements@.contains_key(x) ==> elements@[x] == (if checkpoint_among(
                        it.seq(),
                        it.index(),
                        ordered,
                        x,
                    ) {
                        checkpoint
                    } else {
                        with_spawn[x]
                    }),
        {
            let ghost seen = it.index();
            let ghost table = elements@;
            match self.ordered_checkpoints.get(k) {
                Some(model_id) => {
                    elements.insert(model_id.0, checkpoint);
                },
                None => {},
            }
            proof {
                let model = ordered[*k].0;
                assert(ordered[*all_keys[seen]].0 == model);
                assert(checkpoint_among(all_keys, seen + 1, ordered, model));
                assert forall|x: u32|
                    checkpoint_among(all_keys, seen + 1, ordered, x) <==> (checkpoint_among(
                        all_keys,
                        seen,
                        ordered,
                        x,
                    ) || x == model) by {
                    if checkpoint_among(all_keys, seen + 1, ordered, x) {
                        let j = choose|j: int|
                            0 <= j < seen + 1 && (#[trigger] ordered[*all_keys[j]]).0 == x;
                        if j < seen {
                            assert(checkpoint_among(all_keys, seen, ordered, x));
                        }
                    }
                    if checkpoint_among(all_keys, seen, ordered, x) {
                        let j = choose|j: int|
                            0 <= j < seen && (#[trigger] ordered[*all_keys[j]]).0 == x;
                        assert(0 <= j < seen + 1);
                    }
                }
                assert(elements@ == table.insert(model, checkpoint));
            }
        }
        let ghost with_ordered = elements@;
        let members = self.unordered_checkpoints.iter();
        proof {
            lemma_members_cover(members.remaining(), self.unordered_checkpoints@);
        }
        for m in it: members
            invariant
                forall|x: u32|
                    self.unordered_checkpoints@.contains(x) ==> among(
                        it.seq(),
                        it.seq().len() as int,
                        x,
                    ),
                forall|j: int|
                    0 <= j < it.seq().len() ==> self.unordered_checkpoints@.contains(
                        *#[trigger] it.seq()[j],
                    ),
                forall|x: u32| #[trigger]
                    elements@.contains_key(x) <==> (with_ordered.contains_key(x) || among(
                        it.seq(),
                        it.index(),
                        x,
                    )),
                forall|x: u32| #[trigger]
                    elements@.contains_key(x) ==> elements@[x] == (if among(
                        it.seq(),
                        it.index(),
                        x,
                    ) {
                        checkpoint
                    } else {
                        with_ordered[x]
                    }),
        {
            elements.insert(*m, checkpoint);
        }
        proof {
            let target = self@.registered(before, stage_id);
            assert forall|x: u32| elements@.contains_key(x) == target.contains_key(x) by {
                lemma_checkpoints_covered(all_keys, self@, x);
                assert(with_ordered.contains_key(x) == (with_spawn.contains_key(x)
                    || checkpoint_among(all_keys, all_keys.len() as int, ordered, x)));
            }
            assert forall|x: u32| elements@.contains_key(x) implies elements@[x] == target[x] by {
                lemma_checkpoints_covered(all_keys, self@, x);
                assert(with_ordered.contains_key(x) == (with_spawn.contains_key(x)
                    || checkpoint_among(all_keys, all_keys.len() as int, ordered, x)));
            }
            assert(elements@ =~= target);
        }
    }

    /// Writes the checkpoints of `update` into the stage.
    pub fn insert_from(&mut self, update: &StageUpdate)
        ensures
            final(self)@ == old(self)@.inserted(update@),
    {
        upsert_all(&mut self.ordered_checkpoints, &update.ordered_checkpoints);
        include_all(&mut self.unordered_checkpoints, &update.unordered_checkpoints);
    }

    /// Deletes the checkpoints that `update` names from the stage.
    pub fn remove_from(&mut self, update: &StageUpdate)
        ensures
            final(self)@ == old(self)@.removed(update@),
    {
        remove_all(&mut self.ordered_checkpoints, &update.ordered_checkpoints);
        exclude_all(&mut self.unordered_checkpoints, &update.unordered_checkpoints);
    }
}

impl Updatable<StageUpdate> for Stage {
    /// Writes the checkpoints of `update` into the stage.
    fn insert(&mut self, update: StageUpdate)
        ensures
            final(self)@ == old(self)@.inserted(update@),
    {
        self.insert_from(&update);
    }

    /// Deletes the checkpoints that `update` names from the stage.
    fn remove(&mut self, update: StageUpdate)
        ensures
            final(self)@ == old(self)@.removed(update@),
    {
        self.remove_from(&update);
    }
}

/// A diff of a mode as a mathematical value. The maps are keyed by the numbers of the model
/// ids and stage ids.
pub struct ModeUpdateView {
    pub zones: Map<u32, ZoneBehaviour>,
    pub stages: Map<u32, StageUpdateView>,
    pub elements: Map<u32, StageElement>,
    pub jump_limit: Map<u32, u32>,
}

/// A mode as a mathematical value. The maps are keyed by the numbers of the model ids.
pub struct ModeView {
    pub style: StyleModifiers,
    pub start: ModelId,
    pub zones: Map<u32, ZoneBehaviour>,
    pub stages: Seq<StageView>,
    pub elements: Map<u32, StageElement>,
    pub jump_limit: Map<u32, u32>,
}

impl ModeView {
    /// Whether `update` holds a diff for the stage at the place `i`.
    pub open spec fn targets_stage(self, update: ModeUpdateView, i: int) -> bool {
        0 <= i < self.stages.len() && i <= u32::MAX && update.stages.contains_key(i as u32)
    }

    /// The mode after the entries of `update` have been written into it. A diff for a stage
    /// that the mode does not have is dropped.
    pub open spec fn inserted(self, update: ModeUpdateView) -> ModeView {
        ModeView {
            zones: self.zones.union_prefer_right(update.zones),
            stages: Seq::new(
                self.stages.len(),
                |i: int|
                    if self.targets_stage(update, i) {
                        self.stages[i].inserted(update.stages[i as u32])
                    } else {
                        self.stages[i]
                    },
            ),
            elements: self.elements.union_prefer_right(update.elements),
            jump_limit: self.jump_limit.union_prefer_right(update.jump_limit),
            ..self
        }
    }

    /// The mode with its lookup tables derived from its start and its stages: the start is
    /// the start zone, and each model that a stage mentions is the stage element derived from
    /// the last stage that mentions it.
    pub open spec fn denormalized(self) -> ModeView {
        ModeView {
            zones: self.zones.insert(self.start.0, ZoneBehaviour::Start),
            elements: denormalized_elements(self.elements, self.stages, self.stages.len() as int),
            ..self
        }
    }

    /// The mode after the keys of `update` have been deleted from it. A diff for a stage that
    /// the mode does not have is dropped.
    pub open spec fn removed(self, update: ModeUpdateView) -> ModeView {
        ModeView {
            zones: self.zones.remove_keys(update.zones.dom()),
            stages: Seq::new(
                self.stages.len(),
                |i: int|
                    if self.targets_stage(update, i) {
                        self.stages[i].removed(update.stages[i as u32])
                    } else {
                        self.stages[i]
                    },
            ),
            elements: self.elements.remove_keys(update.elements.dom()),
            jump_limit: self.jump_limit.remove_keys(update.jump_limit.dom()),
            ..self
        }
    }
}

/// A diff of a mode: zones, stage elements and jump limits by model, and diffs of stages by
/// stage.
pub struct ModeUpdate {
    zones: HashMap<u32, ZoneBehaviour>,
    stages: HashMap<u32, StageUpdate>,
    elements: HashMap<u32, StageElement>,
    jump_limit: HashMap<u32, u32>,
}

impl View for ModeUpdate {
    type V = ModeUpdateView;

    closed spec fn view(&self) -> ModeUpdateView {
        ModeUpdateView {
            zones: self.zones@,
            stages: self.stages@.map_values(|s: StageUpdate| s@),
            elements: self.elements@,
            jump_limit: self.jump_limit@,
        }
    }
}

/// A ruleset over the models of a map: where a run starts, which models are zones, the stages
/// in order, and what each model does to the stage of a run and to its jumps.
pub struct Mode {
    style: StyleModifiers,
    start: ModelId,
    zones: HashMap<u32, ZoneBehaviour>,
    stages: Vec<Stage>,
    elements: HashMap<u32, StageElement>,
    jump_limit: HashMap<u32, u32>,
}

impl View for Mode {
    type V = ModeView;

    closed spec fn view(&self) -> ModeView {
        ModeView {
            style: self.style,
            start: self.start,
            zones: self.zones@,
            stages: self.stages@.map_values(|s: Stage| s@),
            elements: self.elements@,
            jump_limit: self.jump_limit@,
        }
    }
}

impl Mode {
    /// Writes the entries of `update` into the mode.
    pub fn insert_from(&mut self, update: &ModeUpdate)
        ensures
            final(self)@ == old(self)@.inserted(update@),
    {
        let ghost before = self@;
        upsert_all(&mut self.zones, &update.zones);
        upsert_all(&mut self.elements, &update.elements);
        upsert_all(&mut self.jump_limit, &update.jump_limit);
        let keys = update.stages.keys();
        proof {
            lemma_keys_cover(keys.remaining(), update.stages@);
        }
        for k in it: keys
            invariant
                it.seq().no_duplicates(),
                forall|j: int|
                    0 <= j < it.seq().len() ==> update.stages@.contains_key(*#[trigger] it.seq()[j]),
                forall|x: u32|
                    update.stages@.contains_key(x) ==> among(it.seq(), it.seq().len() as int, x),
                self.stages.len() == before.stages.len(),
                self.style == before.style,
                self.start == before.start,
                self.zones@ == before.zones.union_prefer_right(update@.zones),
                self.elements@ == before.elements.union_prefer_right(update@.elements),
                self.jump_limit@ == before.jump_limit.union_prefer_right(update@.jump_limit),
                forall|i: int|
                    0 <= i < self.stages.len() ==> (#[trigger] self.stages[i])@ == (if i <= u32::MAX
                        && among(it.seq(), it.index(), i as u32) {
                        before.stages[i].inserted(update@.stages[i as u32])
                    } else {
                        before.stages[i]
                    }),
        {
            let index = *k as usize;
            if index < self.stages.len() {
                match update.stages.get(k) {
                    Some(stage_update) => {
                        self.stages[index].insert_from(stage_update);
                    },
                    None => {},
                }
            }
        }
        assert(self@.stages =~= before.inserted(update@).stages);
    }

    /// Deletes the keys of `update` from the mode.
    pub fn remove_from(&mut self, update: &ModeUpdate)
        ensures
            final(self)@ == old(self)@.removed(update@),
    {
        let ghost before = self@;
        remove_all(&mut self.zones, &update.zones);
        remove_all(&mut self.elements, &update.elements);
        remove_all(&mut self.jump_limit, &update.jump_limit);
        let keys = update.stages.keys();
        proof {
            lemma_keys_cover(keys.remaining(), update.stages@);
        }
        for k in it: keys
            invariant
                it.seq().no_duplicates(),
                forall|j: int|
                    0 <= j < it.seq().len() ==> update.stages@.contains_key(*#[trigger] it.seq()[j]),
                forall|x: u32|
                    update.stages@.contains_key(x) ==> among(it.seq(), it.seq().len() as int, x),
                self.stages.len() == before.stages.len(),
                self.style == before.style,
                self.start == before.start,
                self.zones@ == before.zones.remove_keys(update@.zones.dom()),
                self.elements@ == before.elements.remove_keys(update@.elements.dom()),
                self.jump_limit@ == before.jump_limit.remove_keys(update@.jump_limit.dom()),
                forall|i: int|
                    0 <= i < self.stages.len() ==> (#[trigger] self.stages[i])@ == (if i <= u32::MAX
                        && among(it.seq(), it.index(), i as u32) {
                        before.stages[i].removed(update@.stages[i as u32])
                    } else {
                        before.stages[i]
                    }),
        {
            let index = *k as usize;
            if index < self.stages.len() {
                match update.stages.get(k) {
                    Some(stage_update) => {
                        self.stages[index].remove_from(stage_update);
                    },
                    None => {},
                }
            }
        }
        assert(self@.stages =~= before.removed(update@).stages);
    }

    /// Derives the lookup tables from the start and the stages: the start becomes the start
    /// zone, the spawn of each stage a spawn element of that stage, and each checkpoint of a
    /// stage a checkpoint element of that stage. Where several stages mention a model, the last
    /// of them decides; within a stage a checkpoint goes before the spawn. Nothing is removed
    /// from the tables.
    pub fn denormalize_data(&mut self)
        ensures
            final(self)@ == old(self)@.denormalized(),
    {
        let ghost before = self@;
        self.zones.insert(self.start.0, ZoneBehaviour::Start);
        let mut i: usize = 0;
        assert(self.elements@ =~= denormalized_elements(before.elements, before.stages, 0));
        while i < self.stages.len()
            invariant
                i <= self.stages.len(),
                self.style == before.style,
                self.start == before.start,
                self.zones@ == before.zones.insert(before.start.0, ZoneBehaviour::Start),
                self.jump_limit@ == before.jump_limit,
                self@.stages == before.stages,
                self.elements@ == denormalized_elements(before.elements, before.stages, i as int),
            decreases self.stages.len() - i,
        {
            let stage_id = StageId(#[verifier::truncate] (i as u32));
            self.stages[i].register(&mut self.elements, stage_id);
            proof {
                assert(self@.stages =~= before.stages);
                assert(self.elements@ =~= denormalized_elements(
                    before.elements,
                    before.stages,
                    i + 1,
                ));
            }
            i += 1;
        }
    }

    /// The mode with the style `style` and the start `start`, and with no zone, stage, stage
    /// element or jump limit.
    pub fn empty(style: StyleModifiers, start: ModelId) -> (r: Self)
        ensures
            r@ == (ModeView {
                style,
                start,
                zones: Map::empty(),
                stages: Seq::empty(),
                elements: Map::empty(),
                jump_limit: Map::empty(),
            }),
    {
        let r = Mode {
            style,
            start,
            zones: HashMap::new(),
            stages: Vec::new(),
            elements: HashMap::new(),
            jump_limit: HashMap::new(),
        };
        assert(r@.stages =~= Seq::empty());
        r
    }

    /// The model to which a reset returns the body.
    pub fn get_start(&self) -> (r: ModelId)
        ensures
            r == self@.start,
    {
        self.start
    }

    /// The movement tuning of the mode.
    pub fn get_style(&self) -> (r: &StyleModifiers)
        ensures
            *r == self@.style,
    {
        &self.style
    }

    /// Appends `stage` to the stages of the mode.
    pub fn push_stage(&mut self, stage: Stage)
        ensures
            final(self)@ == (ModeView { stages: old(self)@.stages.push(stage@), ..old(self)@ }),
    {
        self.stages.push(stage);
        assert(self@.stages =~= old(self)@.stages.push(stage@));
    }

    /// The number of stages.
    pub fn stage_count(&self) -> (r: usize)
        ensures
            r == self@.stages.len(),
    {
        self.stages.len()
    }

    /// The stage `stage_id`; none where the mode has no such stage.
    pub fn get_stage(&self, stage_id: StageId) -> (r: Option<&Stage>)
        ensures
            stage_id.0 < self@.stages.len() ==> r is Some && r->0@ == self@.stages[stage_id.0 as int],
            stage_id.0 >= self@.stages.len() ==> r is None,
    {
        let index = stage_id.0 as usize;
        if index < self.stages.len() {
            Some(&self.stages[index])
        } else {
            None
        }
    }

    /// The spawn of the stage `stage`; none where the mode has no such stage.
    pub fn get_spawn_model_id(&self, stage: StageId) -> (r: Option<ModelId>)
        ensures
            r == (if stage.0 < self@.stages.len() {
                Some(self@.stages[stage.0 as int].spawn)
            } else {
                None
            }),
    {
        match self.get_stage(stage) {
            Some(s) => Some(s.spawn),
            None => None,
        }
    }

    /// The zone that the model is; none where it is no zone.
    pub fn get_zone(&self, model_id: ModelId) -> (r: Option<ZoneBehaviour>)
        ensures
            r == (if self@.zones.contains_key(model_id.0) {
                Some(self@.zones[model_id.0])
            } else {
                None
            }),
    {
        match self.zones.get(&model_id.0) {
            Some(zone) => Some(*zone),
            None => None,
        }
    }

    /// The stage element that the model is; none where it is no stage element.
    pub fn get_element(&self, model_id: ModelId) -> (r: Option<StageElement>)
        ensures
            r == (if self@.elements.contains_key(model_id.0) {
                Some(self@.elements[model_id.0])
            } else {
                None
            }),
    {
        match self.elements.get(&model_id.0) {
            Some(element) => Some(*element),
            None => None,
        }
    }

    /// The number of jumps allowed on the model; none where the model sets no limit.
    pub fn get_jump_limit(&self, model_id: ModelId) -> (r: Option<u32>)
        ensures
            r == (if self@.jump_limit.contains_key(model_id.0) {
                Some(self@.jump_limit[model_id.0])
            } else {
                None
            }),
    {
        match self.jump_limit.get(&model_id.0) {
            Some(limit) => Some(*limit),
            None => None,
        }
    }
}

impl Updatable<ModeUpdate> for Mode {
    /// Writes the entries of `update` into the mode.
    fn insert(&mut self, update: ModeUpdate)
        ensures
            final(self)@ == old(self)@.inserted(update@),
    {
        self.insert_from(&update);
    }

    /// Deletes the keys of `update` from the mode.
    fn remove(&mut self, update: ModeUpdate)
        ensures
            final(self)@ == old(self)@.removed(update@),
    {
        self.remove_from(&update);
    }
}

impl ModeUpdateView {
    /// The diff that changes nothing.
    pub open spec fn empty() -> ModeUpdateView {
        ModeUpdateView {
            zones: Map::empty(),
            stages: Map::empty(),
            elements: Map::empty(),
            jump_limit: Map::empty(),
        }
    }
}

impl Default for ModeUpdate {
    /// The diff that changes nothing.
    fn default() -> (r: Self)
        ensures
            r@ == ModeUpdateView::empty(),
    {
        let r = ModeUpdate {
            zones: HashMap::new(),
            stages: HashMap::new(),
            elements: HashMap::new(),
            jump_limit: HashMap::new(),
        };
        assert(r@.stages =~= Map::empty());
        r
    }
}

impl ModeUpdate {
    /// The diff that makes the model `model_id` the zone `zone`.
    pub fn zone(model_id: ModelId, zone: ZoneBehaviour) -> (r: Self)
        ensures
            r@ == (ModeUpdateView {
                zones: Map::empty().insert(model_id.0, zone),
                ..ModeUpdateView::empty()
            }),
    {
        let mut r = ModeUpdate::default();
        r.zones.insert(model_id.0, zone);
        assert(r@.stages =~= Map::empty());
        r
    }

    /// The diff that holds `stage_update` for the stage `stage_id`.
    pub fn stage(stage_id: StageId, stage_update: StageUpdate) -> (r: Self)
        ensures
            r@ == (ModeUpdateView {
                stages: Map::empty().insert(stage_id.0, stage_update@),
                ..ModeUpdateView::empty()
            }),
    {
        let mut r = ModeUpdate::default();
        r.stages.insert(stage_id.0, stage_update);
        assert(r@.stages =~= Map::empty().insert(stage_id.0, stage_update@));
        r
    }

    /// The diff that makes the model `model_id` the stage element `element`.
    pub fn element(model_id: ModelId, element: StageElement) -> (r: Self)
        ensures
            r@ == (ModeUpdateView {
                elements: Map::empty().insert(model_id.0, element),
                ..ModeUpdateView::empty()
            }),
    {
        let mut r = ModeUpdate::default();
        r.elements.insert(model_id.0, element);
        assert(r@.stages =~= Map::empty());
        r
    }

    /// The diff that allows `limit` jumps on the model `model_id`.
    pub fn jump_limit(model_id: ModelId, limit: u32) -> (r: Self)
        ensures
            r@ == (ModeUpdateView {
                jump_limit: Map::empty().insert(model_id.0, limit),
                ..ModeUpdateView::empty()
            }),
    {
        let mut r = ModeUpdate::default();
        r.jump_limit.insert(model_id.0, limit);
        assert(r@.stages =~= Map::empty());
        r
    }
}

/// Deriving the lookup tables a second time changes nothing: the tables after two derivations
/// in a row are those after one.
pub proof fn lemma_denormalize_idempotent(mode: ModeView)
    ensures
        mode.denormalized().denormalized() == mode.denormalized(),
{
    let once = mode.denormalized();
    let twice = once.denormalized();
    assert(twice.zones =~= once.zones);
    assert(twice.elements =~= once.elements);
}

/// Deriving the lookup tables registers the start as the start zone, and each model that a
/// stage mentions as an element of the last stage that mentions it: as a checkpoint where it
/// is one of that stage's checkpoints, else as its spawn. It removes no entry.
pub proof fn lemma_denormalize_registers(mode: ModeView, i: int, model: u32)
    requires
        0 <= i < mode.stages.len(),
        mode.stages[i].mentions(model),
    ensures
        mode.denormalized().zones.contains_key(mode.start.0),
        mode.denormalized().zones[mode.start.0] == ZoneBehaviour::Start,
        mode.denormalized().elements.contains_key(model),
        last_mention(mode.stages, mode.stages.len() as int, model) is Some,
        ({
            let last = last_mention(mode.stages, mode.stages.len() as int, model)->0;
            &&& i <= last < mode.stages.len()
            &&& mode.stages[last].mentions(model)
            &&& forall|j: int| last < j < mode.stages.len() ==> !mode.stages[j].mentions(model)
            &&& mode.denormalized().elements[model] == mode.stages[last].derived_element(
                StageId(last as u32),
                model,
            )
        }),
        forall|m: u32| #[trigger]
            mode.zones.contains_key(m) ==> mode.denormalized().zones.contains_key(m),
        forall|m: u32| #[trigger]
            mode.elements.contains_key(m) ==> mode.denormalized().elements.contains_key(m),
{
    lemma_last_mention(mode.stages, mode.stages.len() as int, i, model);
}

/// The last of the first `n` stages that mentions a model is at or after any of them that
/// mentions it, mentions it, and is followed by none that does.
pub proof fn lemma_last_mention(stages: Seq<StageView>, n: int, i: int, model: u32)
    requires
        0 <= i < n <= stages.len(),
        stages[i].mentions(model),
    ensures
        last_mention(stages, n, model) is Some,
        i <= last_mention(stages, n, model)->0 < n,
        stages[last_mention(stages, n, model)->0].mentions(model),
        forall|j: int| last_mention(stages, n, model)->0 < j < n ==> !stages[j].mentions(model),
    decreases n,
{
    if !stages[n - 1].mentions(model) {
        lemma_last_mention(stages, n - 1, i, model);
    }
}

impl ModeUpdateView {
    /// Whether the diff only adds to `mode`: none of its zones, stage elements and jump limits
    /// is for a model that `mode` already has one for, and none of its checkpoints for a stage
    /// of `mode` is one that the stage already has.
    pub open spec fn only_adds_to(self, mode: ModeView) -> bool {
        &&& self.zones.dom().disjoint(mode.zones.dom())
        &&& self.elements.dom().disjoint(mode.elements.dom())
        &&& self.jump_limit.dom().disjoint(mode.jump_limit.dom())
        &&& forall|i: int| #[trigger]
            mode.targets_stage(self, i) ==> self.stages[i as u32].only_adds_to(mode.stages[i])
    }
}

impl StageUpdateView {
    /// Whether the diff only adds to `stage`: none of its checkpoints is one that `stage`
    /// already has.
    pub open spec fn only_adds_to(self, stage: StageView) -> bool {
        &&& self.ordered_checkpoints.dom().disjoint(stage.ordered_checkpoints.dom())
        &&& self.unordered_checkpoints.disjoint(stage.unordered_checkpoints)
    }
}

/// Writing a diff that only adds checkpoints into a stage and then deleting the same diff from
/// it gives the stage back.
pub proof fn lemma_stage_insert_remove(stage: StageView, update: StageUpdateView)
    requires
        update.only_adds_to(stage),
    ensures
        stage.inserted(update).removed(update) == stage,
{
    let back = stage.inserted(update).removed(update);
    assert(back.ordered_checkpoints =~= stage.ordered_checkpoints);
    assert(back.unordered_checkpoints =~= stage.unordered_checkpoints);
}

/// Writing a diff that only adds new keys into a mode and then deleting the same diff from it
/// gives the mode back, key for key.
pub proof fn lemma_mode_insert_remove(mode: ModeView, update: ModeUpdateView)
    requires
        update.only_adds_to(mode),
    ensures
        mode.inserted(update).removed(update) == mode,
{
    let written = mode.inserted(update);
    let back = written.removed(update);
    assert(back.zones =~= mode.zones);
    assert(back.elements =~= mode.elements);
    assert(back.jump_limit =~= mode.jump_limit);
    assert forall|i: int| 0 <= i < mode.stages.len() implies back.stages[i] == mode.stages[i] by {
        if mode.targets_stage(update, i) {
            assert(written.targets_stage(update, i));
            lemma_stage_insert_remove(mode.stages[i], update.stages[i as u32]);
        } else {
            assert(!written.targets_stage(update, i));
        }
    }
    assert(back.stages =~= mode.stages);
}

/// A diff for a stage that the mode does not have changes no stage, whether it is written or
/// deleted.
pub proof fn lemma_stale_stage_dropped(mode: ModeView, stage_id: StageId, update: StageUpdateView)
    requires
        stage_id.0 >= mode.stages.len(),
    ensures
        ({
            let diff = ModeUpdateView {
                stages: Map::empty().insert(stage_id.0, update),
                ..ModeUpdateView::empty()
            };
            mode.inserted(diff) == mode && mode.removed(diff) == mode
        }),
{
    let diff = ModeUpdateView {
        stages: Map::empty().insert(stage_id.0, update),
        ..ModeUpdateView::empty()
    };
    let written = mode.inserted(diff);
    let deleted = mode.removed(diff);
    assert(written.zones =~= mode.zones);
    assert(written.elements =~= mode.elements);
    assert(written.jump_limit =~= mode.jump_limit);
    assert(written.stages =~= mode.stages);
    assert(deleted.zones =~= mode.zones);
    assert(deleted.elements =~= mode.elements);
    assert(deleted.jump_limit =~= mode.jump_limit);
    assert(deleted.stages =~= mode.stages);
}

/// The stage of a run after it has crossed the elements of `steps` in order, starting at the
/// stage `current`. Each step holds the element and whether every checkpoint of the stage
/// that the run was in had been visited.
pub open spec fn stage_after(current: StageId, steps: Seq<(StageElement, bool)>) -> StageId
    decreases steps.len(),
{
    if steps.len() == 0 {
        current
    } else {
        let last = steps.last();
        last.0.spec_next_stage(stage_after(current, steps.drop_last()), last.1)
    }
}

/// An element that does not force never lowers the stage of a run.
pub proof fn lemma_unforced_step_monotonic(
    element: StageElement,
    current: StageId,
    checkpoints_complete: bool,
)
    requires
        !element.force,
    ensures
        element.spec_next_stage(current, checkpoints_complete).0 >= current.0,
{
}

/// Along any sequence of crossings of elements that do not force, the stage of the run never
/// decreases: the stage after the first `j` crossings is at least that after the first `i`.
pub proof fn lemma_unforced_progression_monotonic(
    current: StageId,
    steps: Seq<(StageElement, bool)>,
    i: int,
    j: int,
)
    requires
        0 <= i <= j <= steps.len(),
        forall|k: int| 0 <= k < steps.len() ==> !(#[trigger] steps[k]).0.force,
    ensures
        stage_after(current, steps.take(i)).0 <= stage_after(current, steps.take(j)).0,
    decreases j - i,
{
    if i < j {
        lemma_unforced_progression_monotonic(current, steps, i, j - 1);
        let longer = steps.take(j);
        assert(longer.drop_last() =~= steps.take(j - 1));
        assert(longer.last() == steps[j - 1]);
    }
}

/// An element that forces and triggers moves the run to its stage, also where that stage is
/// the current one or a lower one.
pub proof fn lemma_forced_regression(
    element: StageElement,
    current: StageId,
    checkpoints_complete: bool,
)
    requires
        element.force,
        element.triggers(checkpoints_complete),
    ensures
        element.spec_next_stage(current, checkpoints_complete) == element.stage_id,
{
}

/// A check acts as a trigger of the same stage would if and only if a checkpoint of the
/// current stage is still to be visited: an ordered one at or above the number visited in
/// order, or an unordered one that is not among those visited. Once all are visited it leaves
/// the stage of the run as it is.
pub proof fn lemma_check_is_trigger_until_complete(
    stage_id: StageId,
    force: bool,
    current: StageId,
    stage: StageView,
    ordered_visited: int,
    unordered_visited: Set<u32>,
)
    ensures
        ({
            let check = StageElement { stage_id, force, behaviour: StageElementBehaviour::Check };
            let trigger = StageElement { stage_id, force, behaviour: StageElementBehaviour::Trigger };
            let complete = stage.is_complete(ordered_visited, unordered_visited);
            let pending = (exists|c: u32| #[trigger]
                stage.ordered_checkpoints.contains_key(c) && c >= ordered_visited) || (exists|m: u32|
             #[trigger] stage.unordered_checkpoints.contains(m) && !unordered_visited.contains(m));
            &&& complete == !pending
            &&& check.triggers(complete) == pending
            &&& pending ==> check.spec_next_stage(current, complete) == trigger.spec_next_stage(
                current,
                complete,
            )
            &&& !pending ==> check.spec_next_stage(current, complete) == current
        }),
{
}

/// The modes of a map in order. A mode is found by its place in the list.
pub struct Modes {
    modes: Vec<Mode>,
}

impl View for Modes {
    type V = Seq<ModeView>;

    closed spec fn view(&self) -> Seq<ModeView> {
        self.modes@.map_values(|m: Mode| m@)
    }
}

impl Default for Modes {
    /// No mode.
    fn default() -> (r: Self)
        ensures
            r@ == Seq::<ModeView>::empty(),
    {
        let r = Modes { modes: Vec::new() };
        assert(r@ =~= Seq::empty());
        r
    }
}

/// Whether `update` holds a diff for the mode at the place `i` of `modes`.
pub open spec fn targets_mode(modes: Seq<ModeView>, update: Map<u32, ModeUpdateView>, i: int) -> bool {
    0 <= i < modes.len() && i <= u32::MAX && update.contains_key(i as u32)
}

/// The modes after each diff of `update` has been written into the mode that it is for. A diff
/// for a mode that is not there is dropped.
pub open spec fn modes_inserted(modes: Seq<ModeView>, update: Map<u32, ModeUpdateView>) -> Seq<
    ModeView,
> {
    Seq::new(
        modes.len(),
        |i: int|
            if targets_mode(modes, update, i) {
                modes[i].inserted(update[i as u32])
            } else {
                modes[i]
            },
    )
}

/// The modes after the keys of each diff of `update` have been deleted from the mode that it
/// is for. A diff for a mode that is not there is dropped.
pub open spec fn modes_removed(modes: Seq<ModeView>, update: Map<u32, ModeUpdateView>) -> Seq<
    ModeView,
> {
    Seq::new(
        modes.len(),
        |i: int|
            if targets_mode(modes, update, i) {
                modes[i].removed(update[i as u32])
            } else {
                modes[i]
            },
    )
}

/// Writing diffs that only add new keys into the modes and then deleting the same diffs from
/// them gives the modes back.
pub proof fn lemma_modes_insert_remove(modes: Seq<ModeView>, update: Map<u32, ModeUpdateView>)
    requires
        forall|i: int| #[trigger]
            targets_mode(modes, update, i) ==> update[i as u32].only_adds_to(modes[i]),
    ensures
        modes_removed(modes_inserted(modes, update), update) == modes,
{
    let written = modes_inserted(modes, update);
    let back = modes_removed(written, update);
    assert forall|i: int| 0 <= i < modes.len() implies back[i] == modes[i] by {
        if targets_mode(modes, update, i) {
            assert(targets_mode(written, update, i));
            lemma_mode_insert_remove(modes[i], update[i as u32]);
        } else {
            assert(!targets_mode(written, update, i));
        }
    }
    assert(back =~= modes);
}

/// A diff of the modes: diffs of modes by mode.
pub struct ModesUpdate {
    modes: HashMap<u32, ModeUpdate>,
}

impl View for ModesUpdate {
    type V = Map<u32, ModeUpdateView>;

    closed spec fn view(&self) -> Map<u32, ModeUpdateView> {
        self.modes@.map_values(|m: ModeUpdate| m@)
    }
}

impl Default for ModesUpdate {
    /// The diff that changes nothing.
    fn default() -> (r: Self)
        ensures
            r@ == Map::<u32, ModeUpdateView>::empty(),
    {
        let r = ModesUpdate { modes: HashMap::new() };
        assert(r@ =~= Map::empty());
        r
    }
}

impl ModesUpdate {
    /// The diff that holds `mode_update` for the mode `mode_id`.
    pub fn mode(mode_id: ModeId, mode_update: ModeUpdate) -> (r: Self)
        ensures
            r@ == Map::<u32, ModeUpdateView>::empty().insert(mode_id.0, mode_update@),
    {
        let mut modes: HashMap<u32, ModeUpdate> = HashMap::new();
        modes.insert(mode_id.0, mode_update);
        let r = ModesUpdate { modes };
        assert(r@ =~= Map::empty().insert(mode_id.0, mode_update@));
        r
    }
}

impl Updatable<ModesUpdate> for Modes {
    /// Writes each diff of `update` into the mode that it is for.
    fn insert(&mut self, update: ModesUpdate)
        ensures
            final(self)@ == modes_inserted(old(self)@, update@),
    {
        let ghost before = self@;
        let keys = update.modes.keys();
        proof {
            lemma_keys_cover(keys.remaining(), update.modes@);
        }
        for k in it: keys
            invariant
                it.seq().no_duplicates(),
                forall|j: int|
                    0 <= j < it.seq().len() ==> update.modes@.contains_key(*#[trigger] it.seq()[j]),
                forall|x: u32|
                    update.modes@.contains_key(x) ==> among(it.seq(), it.seq().len() as int, x),
                self.modes.len() == before.len(),
                forall|i: int|
                    0 <= i < self.modes.len() ==> (#[trigger] self.modes[i])@ == (if i <= u32::MAX
                        && among(it.seq(), it.index(), i as u32) {
                        before[i].inserted(update@[i as u32])
                    } else {
                        before[i]
                    }),
        {
            let index = *k as usize;
            if index < self.modes.len() {
                match update.modes.get(k) {
                    Some(mode_update) => {
                        self.modes[index].insert_from(mode_update);
                    },
                    None => {},
                }
            }
        }
        assert(self@ =~= modes_inserted(before, update@));
    }

    /// Deletes the keys of each diff of `update` from the mode that it is for.
    fn remove(&mut self, update: ModesUpdate)
        ensures
            final(self)@ == modes_removed(old(self)@, update@),
    {
        let ghost before = self@;
        let keys = update.modes.keys();
        proof {
            lemma_keys_cover(keys.remaining(), update.modes@);
        }
        for k in it: keys
            invariant
                it.seq().no_duplicates(),
                forall|j: int|
                    0 <= j < it.seq().len() ==> update.modes@.contains_key(*#[trigger] it.seq()[j]),
                forall|x: u32|
                    update.modes@.contains_key(x) ==> among(it.seq(), it.seq().len() as int, x),
                self.modes.len() == before.len(),
                forall|i: int|
                    0 <= i < self.modes.len() ==> (#[trigger] self.modes[i])@ == (if i <= u32::MAX
                        && among(it.seq(), it.index(), i as u32) {
                        before[i].removed(update@[i as u32])
                    } else {
                        before[i]
                    }),
        {
            let index = *k as usize;
            if index < self.modes.len() {
                match update.modes.get(k) {
                    Some(mode_update) => {
                        self.modes[index].remove_from(mode_update);
                    },
                    None => {},
                }
            }
        }
        assert(self@ =~= modes_removed(before, update@));
    }
}

impl Modes {
    /// Removes every mode.
    pub fn clear(&mut self)
        ensures
            final(self)@ == Seq::<ModeView>::empty(),
    {
        self.modes.clear();
        assert(self@ =~= Seq::empty());
    }

    /// The mode `mode`; none where there is no such mode.
    pub fn get_mode(&self, mode: ModeId) -> (r: Option<&Mode>)
        ensures
            mode.0 < self@.len() ==> r is Some && r->0@ == self@[mode.0 as int],
            mode.0 >= self@.len() ==> r is None,
    {
        let index = mode.0 as usize;
        if index < self.modes.len() {
            Some(&self.modes[index])
        } else {
            None
        }
    }

    /// Appends `mode` to the modes.
    pub fn insert(&mut self, mode: Mode)
        ensures
            final(self)@ == old(self)@.push(mode@),
    {
        self.modes.push(mode);
        assert(self@ =~= old(self)@.push(mode@));
    }

    /// The number of modes.
    pub fn len(&self) -> (r: usize)
        ensures
            r == self@.len(),
    {
        self.modes.len()
    }
}

} // verus!
