//! The state of a running session and its turn scheduler. The scheduler
//! drives round-robin progression: one invocation gives one actor the
//! opportunity to act, gated on its accumulated energy, resolves the ranked
//! outcome of the chosen action, deducts its cost and may mutate the actor's
//! genome before the cursor advances.

use vstd::prelude::*;
use vstd::string::StringExecFns;

use crate::game_objects::GameObjects;
use crate::game_rng::GameRng;
use crate::genetics::bundles_ok;
use crate::genetics::decode_spec;
use crate::genetics::simplified_spec;
use crate::genetics::GeneLibrary;
use crate::object::is_player_spec;
use crate::object::Object;
use crate::util::decimal_chars;
use crate::util::decimal_string;

verus! {

/// The class of a log message, deciding its colour at the display edge.
#[derive(Clone, Copy, PartialEq, Eq, Structural, Debug)]
pub enum MsgClass {
    Info,
    Action,
    Alert,
    Story,
}

/// Messages are expressed as classed text.
pub type Messages = Vec<(String, MsgClass)>;

/// The message log can add text from any string collection.
pub trait MessageLog: View<V = Seq<(String, MsgClass)>> {
    /// Append one message with its class.
    fn add(&mut self, message: String, class: MsgClass)
        ensures
            final(self)@ == old(self)@.push((message, class)),
    ;
}

impl MessageLog for Vec<(String, MsgClass)> {
    fn add(&mut self, message: String, class: MsgClass) {
        self.push((message, class));
    }
}

/// A world position, as the display and visibility layers use it.
#[derive(Clone, Copy, PartialEq, Eq, Structural, Debug)]
pub struct Position {
    pub x: i32,
    pub y: i32,
}

/// Specification of animations and their parameters.
#[derive(Clone, Copy, PartialEq, Eq, Structural, Debug)]
pub enum AnimationType {
    /// Gradual transition of the world hue and or brightness.
    ColorTransition,
    /// A cell flashes with a specific character.
    FlashEffect,
}

/// Results from processing an actor's action for that turn, in ascending
/// rank.
#[derive(Debug, Clone, PartialEq)]
pub enum ObjectProcResult {
    /// The actor did not act and is still pondering its turn.
    NoAction,
    /// An action completed but requires no visual feedback.
    NoFeedback,
    /// Check whether the actor has entered the player's field of view.
    CheckEnterFOV,
    /// Display a message if its origin is visible to the player.
    Message { msg: String, class: MsgClass, origin: Position },
    /// Play the given animation to visualise the action.
    Animate { anim_type: AnimationType },
    /// The action completed and requires a field-of-view update.
    UpdateFOV,
    /// Trigger a full re-render of the game world.
    ReRender,
}

/// The total order over turn outcomes, ascending in significance.
pub open spec fn rank_spec(r: ObjectProcResult) -> int {
    match r {
        ObjectProcResult::NoAction => 0,
        ObjectProcResult::NoFeedback => 1,
        ObjectProcResult::CheckEnterFOV => 2,
        ObjectProcResult::Message { .. } => 3,
        ObjectProcResult::Animate { .. } => 4,
        ObjectProcResult::UpdateFOV => 5,
        ObjectProcResult::ReRender => 6,
    }
}

impl ObjectProcResult {
    /// The rank of this result in the outcome order.
    pub fn rank(&self) -> (n: u8)
        ensures
            n as int == rank_spec(*self),
    {
        match self {
            ObjectProcResult::NoAction => 0,
            ObjectProcResult::NoFeedback => 1,
            ObjectProcResult::CheckEnterFOV => 2,
            ObjectProcResult::Message { .. } => 3,
            ObjectProcResult::Animate { .. } => 4,
            ObjectProcResult::UpdateFOV => 5,
            ObjectProcResult::ReRender => 6,
        }
    }

    /// Whether this is the rank-zero result of a discarded turn.
    pub fn is_no_action(&self) -> (b: bool)
        ensures
            b == (*self matches ObjectProcResult::NoAction),
    {
        matches!(self, ObjectProcResult::NoAction)
    }
}

/// What executing an action reports back: a provisional result, a domain
/// failure, or a side effect to resolve before the primary effect.
#[derive(Debug, PartialEq)]
pub enum ActionResult {
    /// The action completed; the callback is a provisional result.
    Success { callback: ObjectProcResult },
    /// A domain failure: the attempted action is discarded without cost.
    Failure,
    /// A side effect: the sub-action resolves first, then the primary
    /// effect, and the higher-ranked of the two results is reported.
    Consequence { sub_action: Box<ActionResult>, primary: Box<ActionResult> },
}

/// How an executed action resolves. Two callbacks are reinterpreted:
/// entering the field of view becomes a view update for the player, a
/// re-render for an actor the observer now sees, and silence otherwise; an
/// animation of an unseen actor is downgraded to silence. Failures resolve
/// to the rank-zero result; a consequence resolves both halves and keeps the
/// higher rank, ties going to the primary effect.
pub open spec fn resolve_spec(
    ar: ActionResult,
    is_player: bool,
    actor_in_fov: bool,
) -> ObjectProcResult
    decreases ar,
{
    match ar {
        ActionResult::Success { callback } => match callback {
            ObjectProcResult::CheckEnterFOV => if is_player {
                ObjectProcResult::UpdateFOV
            } else if actor_in_fov {
                ObjectProcResult::ReRender
            } else {
                ObjectProcResult::NoFeedback
            },
            ObjectProcResult::Animate { anim_type } => if actor_in_fov {
                ObjectProcResult::Animate { anim_type }
            } else {
                ObjectProcResult::NoFeedback
            },
            _ => callback,
        },
        ActionResult::Failure => ObjectProcResult::NoAction,
        ActionResult::Consequence { sub_action, primary } => {
            let consequence_result = resolve_spec(*sub_action, is_player, actor_in_fov);
            let primary_result = resolve_spec(*primary, is_player, actor_in_fov);
            if rank_spec(consequence_result) > rank_spec(primary_result) {
                consequence_result
            } else {
                primary_result
            }
        },
    }
}

/// Process what an executed action reported: reinterpret the provisional
/// callback against the acting actor's visibility, discard failures, and
/// merge a consequence with its primary effect by rank.
pub fn process_action(action_result: ActionResult, is_player: bool, actor_in_fov: bool) -> (r:
    ObjectProcResult)
    ensures
        r == resolve_spec(action_result, is_player, actor_in_fov),
    decreases action_result,
{
    match action_result {
        ActionResult::Success { callback } => match callback {
            ObjectProcResult::CheckEnterFOV => {
                if is_player {
                    // the player is surely inside its own field of view
                    ObjectProcResult::UpdateFOV
                } else if actor_in_fov {
                    // the actor stepped into view: show the world anew
                    ObjectProcResult::ReRender
                } else {
                    ObjectProcResult::NoFeedback
                }
            },
            ObjectProcResult::Animate { anim_type } => {
                // only play animations the observer can see
                if actor_in_fov {
                    ObjectProcResult::Animate { anim_type }
                } else {
                    ObjectProcResult::NoFeedback
                }
            },
            other => other,
        },
        ActionResult::Failure => ObjectProcResult::NoAction,
        ActionResult::Consequence { sub_action, primary } => {
            // resolve the side effect first, then the primary effect
            let consequence_result = process_action(*sub_action, is_player, actor_in_fov);
            let primary_result = process_action(*primary, is_player, actor_in_fov);
            if consequence_result.rank() > primary_result.rank() {
                consequence_result
            } else {
                primary_result
            }
        },
    }
}

/// Rank merge: a consequence resolves to the maximum-rank result among its
/// sub-action's resolution and the primary resolution, the primary winning
/// ties.
pub proof fn lemma_rank_merge(ar: ActionResult, is_player: bool, actor_in_fov: bool)
    requires
        ar is Consequence,
    ensures
        match ar {
            ActionResult::Consequence { sub_action, primary } => {
                let s = resolve_spec(*sub_action, is_player, actor_in_fov);
                let p = resolve_spec(*primary, is_player, actor_in_fov);
                let m = resolve_spec(ar, is_player, actor_in_fov);
                &&& rank_spec(m) == vstd::math::max(rank_spec(s), rank_spec(p))
                &&& (m == s || m == p)
            },
            _ => true,
        },
{
}

/// The candidate action an actor chose for its turn, as the host's decision
/// capability reports it: the outcome its execution produced and the energy
/// it costs.
#[derive(Debug, PartialEq)]
pub struct TurnDecision {
    pub outcome: ActionResult,
    pub energy_cost: u32,
}

/// Answers of the external visibility capability about the acting actor.
#[derive(Clone, Copy, PartialEq, Eq, Structural, Debug)]
pub struct Visibility {
    /// Whether the actor stands inside the player's field of view.
    pub actor_in_fov: bool,
    /// Whether the actor stands within the player's sensing range.
    pub actor_in_sense_range: bool,
}

/// Presets of the running session.
#[derive(Clone, Copy, PartialEq, Eq, Structural, Debug)]
pub struct GameEnv {
    pub debug_mode: bool,
    pub rng_seeding: bool,
}

impl GameEnv {
    /// Default presets: nothing switched on.
    pub fn new() -> (env: GameEnv)
        ensures
            env == (GameEnv { debug_mode: false, rng_seeding: false }),
    {
        GameEnv { debug_mode: false, rng_seeding: false }
    }

    /// Switch debug mode.
    pub fn set_debug_mode(&mut self, debug_mode: bool)
        ensures
            *final(self) == (GameEnv { debug_mode, ..*old(self) }),
    {
        self.debug_mode = debug_mode;
    }

    /// Switch fixed seeding.
    pub fn set_rng_seeding(&mut self, rng_seeding: bool)
        ensures
            *final(self) == (GameEnv { rng_seeding, ..*old(self) }),
    {
        self.rng_seeding = rng_seeding;
    }
}

/// The player index after the select phase: the cursor slot, when the actor
/// there is player-controlled.
pub open spec fn step_player_index(objs: Seq<Option<Object>>, idx: int, pidx: int) -> int {
    if 0 <= idx < objs.len() && (objs[idx] matches Some(o) && is_player_spec(o)) {
        idx
    } else {
        pidx
    }
}

/// The result one scheduler invocation reports: a vacant or missing slot
/// ponders on, an actor below its storage cap metabolizes, an actor without
/// a candidate action ponders on, and otherwise the candidate's outcome is
/// resolved against the actor's visibility.
pub open spec fn step_result(
    objs: Seq<Option<Object>>,
    idx: int,
    pidx: int,
    decision: Option<TurnDecision>,
    vis: Visibility,
) -> ObjectProcResult {
    if 0 <= idx < objs.len() {
        match objs[idx] {
            Some(o) => if o.energy < o.energy_storage {
                ObjectProcResult::NoFeedback
            } else {
                match decision {
                    Some(d) => resolve_spec(
                        d.outcome,
                        step_player_index(objs, idx, pidx) == idx,
                        vis.actor_in_fov,
                    ),
                    None => ObjectProcResult::NoAction,
                }
            },
            None => ObjectProcResult::NoAction,
        }
    } else {
        ObjectProcResult::NoAction
    }
}

/// Whether the cursor moves on: only a step that reports more than the
/// rank-zero result consumes the scheduling slot.
pub open spec fn step_advances(
    objs: Seq<Option<Object>>,
    idx: int,
    pidx: int,
    decision: Option<TurnDecision>,
    vis: Visibility,
) -> bool {
    !(step_result(objs, idx, pidx, decision, vis) matches ObjectProcResult::NoAction)
}

/// The cursor after one invocation: the next slot in cyclic order when the
/// step advanced, the same slot otherwise, so that an actor that failed to
/// act is retried on the following invocation.
pub open spec fn step_next_index(
    objs: Seq<Option<Object>>,
    idx: int,
    pidx: int,
    decision: Option<TurnDecision>,
    vis: Visibility,
) -> int {
    if step_advances(objs, idx, pidx, decision, vis) {
        (idx + 1) % (objs.len() as int)
    } else {
        idx
    }
}

/// What the turn counter gains: one exactly when the advancing cursor comes
/// back to the player's slot.
pub open spec fn step_turn_delta(
    objs: Seq<Option<Object>>,
    idx: int,
    pidx: int,
    decision: Option<TurnDecision>,
    vis: Visibility,
) -> int {
    if step_advances(objs, idx, pidx, decision, vis) && step_next_index(
        objs,
        idx,
        pidx,
        decision,
        vis,
    ) == step_player_index(objs, idx, pidx) {
        1
    } else {
        0
    }
}

/// The actor with one unit of energy gained by metabolism.
pub open spec fn metabolized(o: Object) -> Object {
    Object { energy: (o.energy + 1) as u32, ..o }
}

/// The actor after the action's cost is deducted, clamped at zero.
pub open spec fn after_cost(o: Object, cost: u32) -> Object {
    Object {
        energy: if cost <= o.energy {
            (o.energy - cost) as u32
        } else {
            0u32
        },
        ..o
    }
}

/// `post` is `pre` with the masked bits of one genome byte flipped and every
/// capability bundle re-decoded from the whole new genome; everything else
/// is kept.
pub open spec fn mutated_exact(pre: Object, post: Object, byte_index: int, mask: u8) -> bool {
    let raw2 = pre.dna.raw@.update(byte_index, pre.dna.raw@[byte_index] ^ mask);
    let ts = decode_spec(raw2);
    &&& post.name == pre.name
    &&& post.control == pre.control
    &&& post.energy == pre.energy
    &&& post.energy_storage == pre.energy_storage
    &&& post.gene_stability == pre.gene_stability
    &&& post.dna.raw@ == raw2
    &&& post.dna.simplified@ == simplified_spec(ts)
    &&& bundles_ok(ts, post.sensors, post.processors, post.actuators)
}

/// What the log gains when a genome mutated: the player is always told of
/// their own mutation, with the old byte value spelled out; a mutation of
/// another actor is noted exactly when that actor is within the player's
/// sensing range.
pub open spec fn mutation_logged(
    log0: Seq<(String, MsgClass)>,
    log1: Seq<(String, MsgClass)>,
    name: Seq<char>,
    old_byte: u8,
    is_player: bool,
    in_sense_range: bool,
) -> bool {
    if is_player {
        &&& log1.len() == log0.len() + 1
        &&& log1.subrange(0, log0.len() as int) == log0
        &&& log1.last().0@ == "A mutation occurred in your genome "@ + decimal_chars(
            old_byte as int,
        )
        &&& log1.last().1 == MsgClass::Alert
    } else if in_sense_range {
        &&& log1.len() == log0.len() + 1
        &&& log1.subrange(0, log0.len() as int) == log0
        &&& log1.last().0@ == name + " mutated!"@
        &&& log1.last().1 == MsgClass::Info
    } else {
        log1 == log0
    }
}

/// Relates actor and log across the post-action phase of a completed
/// action: the energy cost is deducted, then either the genome stays and the
/// log is untouched, or one random bit of one random genome byte flips, the
/// bundles are re-decoded from scratch and the mutation is logged.
pub open spec fn post_action_ok(
    pre: Object,
    cost: u32,
    post: Object,
    log0: Seq<(String, MsgClass)>,
    log1: Seq<(String, MsgClass)>,
    is_player: bool,
    vis: Visibility,
) -> bool {
    let paid = after_cost(pre, cost);
    ||| (post == paid && log1 == log0)
    ||| (paid.dna.raw@.len() > 0 && exists|bi: int, k: int|
        0 <= bi < paid.dna.raw@.len() && 0 <= k < 8 && mutated_exact(paid, post, bi, 1u8 << k)
            && mutation_logged(
            log0,
            log1,
            paid.name@,
            paid.dna.raw@[bi],
            is_player,
            vis.actor_in_sense_range,
        ))
}

/// All information necessary to represent the current state of a session,
/// except the actor collection.
pub struct GameState {
    pub env: GameEnv,
    pub rng: GameRng,
    pub log: Messages,
    pub turn: u128,
    pub dungeon_level: u32,
    pub gene_library: GeneLibrary,
    pub current_obj_index: usize,
    pub current_player_index: usize,
}

impl GameState {
    /// A fresh session: empty log, turn zero, the cursor and the player both
    /// at the first slot, and a generator built from the given seed.
    pub fn new(env: GameEnv, level: u32, seed: u64) -> (state: GameState)
        ensures
            state.env == env,
            state.log@ == Seq::<(String, MsgClass)>::empty(),
            state.turn == 0,
            state.dungeon_level == level,
            state.gene_library.wf(),
            state.current_obj_index == 0,
            state.current_player_index == crate::player::PLAYER,
    {
        GameState {
            env,
            rng: GameRng::new_from_u64_seed(seed),
            log: Vec::new(),
            turn: 0,
            dungeon_level: level,
            gene_library: GeneLibrary::new(),
            current_obj_index: 0,
            current_player_index: crate::player::PLAYER,
        }
    }

    /// Whether the cursor stands on the player.
    pub fn is_players_turn(&self) -> (b: bool)
        ensures
            b == (self.current_obj_index == self.current_player_index),
    {
        self.current_obj_index == self.current_player_index
    }

    /// Give the actor under the cursor its opportunity to act.
    ///
    /// The actor is detached from the shared collection for the duration of
    /// the step and reattached before returning. Below its storage cap it
    /// metabolizes; otherwise the candidate action the host's decision
    /// capability supplied is resolved, and if anything came of it the cost
    /// is deducted, the genome mutates with chance one minus its stability,
    /// and the cursor advances - a turn completes when it returns to the
    /// player.
    pub fn process_object(
        &mut self,
        objects: &mut GameObjects,
        decision: Option<TurnDecision>,
        vis: Visibility,
    ) -> (result: ObjectProcResult)
        requires
            old(self).gene_library.wf(),
            old(self).turn < u128::MAX,
        ensures
            ({
                let objs0 = old(objects)@;
                let idx = old(self).current_obj_index as int;
                let pidx0 = old(self).current_player_index as int;
                let pidx1 = step_player_index(objs0, idx, pidx0);
                &&& result == step_result(objs0, idx, pidx0, decision, vis)
                &&& final(self).current_player_index == pidx1
                &&& final(self).current_obj_index == step_next_index(
                    objs0,
                    idx,
                    pidx0,
                    decision,
                    vis,
                )
                &&& final(self).turn == old(self).turn + step_turn_delta(
                    objs0,
                    idx,
                    pidx0,
                    decision,
                    vis,
                )
                &&& final(self).env == old(self).env
                &&& final(self).dungeon_level == old(self).dungeon_level
                &&& final(self).gene_library == old(self).gene_library
                &&& final(objects)@.len() == objs0.len()
                &&& forall|j: int|
                    0 <= j < objs0.len() && j != idx ==> final(objects)@[j] == objs0[j]
                &&& if 0 <= idx < objs0.len() {
                    match objs0[idx] {
                        Some(o) => if o.energy < o.energy_storage {
                            &&& final(objects)@[idx] == Some(metabolized(o))
                            &&& final(self).log == old(self).log
                        } else {
                            match decision {
                                Some(d) => if (result matches ObjectProcResult::NoAction) {
                                    &&& final(objects)@[idx] == Some(o)
                                    &&& final(self).log == old(self).log
                                } else {
                                    &&& final(objects)@[idx] matches Some(o2) && post_action_ok(
                                        o,
                                        d.energy_cost,
                                        o2,
                                        old(self).log@,
                                        final(self).log@,
                                        idx == pidx1,
                                        vis,
                                    )
                                },
                                None => {
                                    &&& final(objects)@[idx] == Some(o)
                                    &&& final(self).log == old(self).log
                                },
                            }
                        },
                        None => {
                            &&& final(objects)@ == objs0
                            &&& final(self).log == old(self).log
                        },
                    }
                } else {
                    &&& final(objects)@ == objs0
                    &&& final(self).log == old(self).log
                }
            }),
    {
        let ghost objs0 = objects@;
        let ghost pidx0 = self.current_player_index as int;
        let idx = self.current_obj_index;
        let mut result = ObjectProcResult::NoAction;
        // unpack the actor to process its next action
        if let Some(mut active_object) = objects.extract(idx) {
            if active_object.is_player() {
                self.current_player_index = idx;
            }
            let is_player = idx == self.current_player_index;
            // TURN ACTION PHASE: only act if enough energy is available
            if active_object.energy < active_object.energy_storage {
                result = ObjectProcResult::NoFeedback;
                active_object.metabolize();
            } else if let Some(next_action) = decision {
                let energy_cost = next_action.energy_cost;

                // perform the action
                result = process_action(next_action.outcome, is_player, vis.actor_in_fov);

                // AFTER ACTION PHASE
                if !result.is_no_action() {
                    if energy_cost <= active_object.energy {
                        active_object.energy = active_object.energy - energy_cost;
                    } else {
                        active_object.energy = 0;
                    }
                    let ghost paid = active_object;

                    let mutation_chance: u32 = if active_object.gene_stability >= 1000 {
                        0
                    } else {
                        1000 - active_object.gene_stability
                    };
                    if !active_object.dna.raw.is_empty() && self.rng.flip_with_prob(
                        mutation_chance,
                    ) {
                        // mutate the actor's genome by randomly flipping a bit
                        let random_gene = self.rng.gen_range(0, active_object.dna.raw.len());
                        let old_gene = active_object.dna.raw[random_gene];
                        let mask = self.rng.random_bit();
                        let (sensors, processors, actuators, dna) = self.gene_library.mutate_dna(
                            &active_object.dna,
                            random_gene,
                            mask,
                        );
                        active_object.change_genome(sensors, processors, actuators, dna);
                        if is_player {
                            let mut msg = String::from_str("A mutation occurred in your genome ");
                            msg.append(decimal_string(old_gene as u128).as_str());
                            self.log.push((msg, MsgClass::Alert));
                        } else if vis.actor_in_sense_range {
                            let mut msg = String::from_str(active_object.name.as_str());
                            msg.append(" mutated!");
                            self.log.push((msg, MsgClass::Info));
                        }
                        proof {
                            let o = objs0[idx as int]->Some_0;
                            let k = choose|k: int| 0 <= k < 8 && mask == (1u8 << k);
                            assert(paid == after_cost(o, energy_cost));
                            assert(mutated_exact(paid, active_object, random_gene as int, 1u8 << k));
                            assert(self.log@.subrange(0, old(self).log@.len() as int)
                                =~= old(self).log@);
                            assert(mutation_logged(
                                old(self).log@,
                                self.log@,
                                paid.name@,
                                paid.dna.raw@[random_gene as int],
                                is_player,
                                vis.actor_in_sense_range,
                            ));
                            assert(is_player == (idx as int == step_player_index(
                                objs0,
                                idx as int,
                                pidx0,
                            )));
                            assert(post_action_ok(
                                o,
                                energy_cost,
                                active_object,
                                old(self).log@,
                                self.log@,
                                is_player,
                                vis,
                            ));
                        }
                    }
                }
            }

            // FINISH TURN PHASE: return the actor to the collection
            objects.restore(idx, active_object);
        }

        // only move the cursor if the actor has made a move
        if !result.is_no_action() {
            let num = objects.get_num_objects();
            self.current_obj_index = (idx + 1) % num;
            // also increase the turn count once we are back at the player
            if self.current_obj_index == self.current_player_index {
                self.turn = self.turn + 1;
            }
        }
        result
    }
}

/// Energy gating: an actor below its storage cap always metabolizes and
/// never takes an action that step, whatever candidate action was on offer;
/// the step reports exactly the silent rank-one result, so no energy cost is
/// deducted.
pub proof fn lemma_energy_gating(
    objs: Seq<Option<Object>>,
    idx: int,
    pidx: int,
    decision: Option<TurnDecision>,
    vis: Visibility,
    o: Object,
)
    requires
        0 <= idx < objs.len(),
        objs[idx] == Some(o),
        o.energy < o.energy_storage,
    ensures
        step_result(objs, idx, pidx, decision, vis) == ObjectProcResult::NoFeedback,
{
}

/// Failure non-advancement, one step: when an acting actor's candidate
/// resolves to a failure, the step reports the rank-zero result and neither
/// the cursor nor the turn counter moves.
pub proof fn lemma_failure_no_advance(
    objs: Seq<Option<Object>>,
    idx: int,
    pidx: int,
    d: TurnDecision,
    vis: Visibility,
    o: Object,
)
    requires
        0 <= idx < objs.len(),
        objs[idx] == Some(o),
        o.energy >= o.energy_storage,
        d.outcome is Failure,
    ensures
        step_result(objs, idx, pidx, Some(d), vis) matches ObjectProcResult::NoAction,
        step_next_index(objs, idx, pidx, Some(d), vis) == idx,
        step_turn_delta(objs, idx, pidx, Some(d), vis) == 0,
{
}

/// Failure non-advancement over three invocations: an actor whose action
/// resolves to a failure three steps in a row holds the cursor in place
/// across all three, whatever else changed around it.
pub proof fn lemma_failure_three_steps(
    objs1: Seq<Option<Object>>,
    objs2: Seq<Option<Object>>,
    objs3: Seq<Option<Object>>,
    idx: int,
    pidx1: int,
    pidx2: int,
    pidx3: int,
    d1: TurnDecision,
    d2: TurnDecision,
    d3: TurnDecision,
    vis1: Visibility,
    vis2: Visibility,
    vis3: Visibility,
    o1: Object,
    o2: Object,
    o3: Object,
)
    requires
        0 <= idx < objs1.len() && objs1[idx] == Some(o1) && o1.energy >= o1.energy_storage,
        0 <= idx < objs2.len() && objs2[idx] == Some(o2) && o2.energy >= o2.energy_storage,
        0 <= idx < objs3.len() && objs3[idx] == Some(o3) && o3.energy >= o3.energy_storage,
        d1.outcome is Failure,
        d2.outcome is Failure,
        d3.outcome is Failure,
    ensures
        step_next_index(objs1, idx, pidx1, Some(d1), vis1) == idx,
        step_next_index(objs2, idx, pidx2, Some(d2), vis2) == idx,
        step_next_index(objs3, idx, pidx3, Some(d3), vis3) == idx,
        step_turn_delta(objs1, idx, pidx1, Some(d1), vis1) == 0,
        step_turn_delta(objs2, idx, pidx2, Some(d2), vis2) == 0,
        step_turn_delta(objs3, idx, pidx3, Some(d3), vis3) == 0,
{
    lemma_failure_no_advance(objs1, idx, pidx1, d1, vis1, o1);
    lemma_failure_no_advance(objs2, idx, pidx2, d2, vis2, o2);
    lemma_failure_no_advance(objs3, idx, pidx3, d3, vis3, o3);
}

/// Turn counter cadence: with three actors, the player in the first slot
/// and every step completing an action, the cursor walks the slots in order
/// and the turn counter increments exactly at the third invocation, when
/// the cursor returns to the player - once every three invocations.
pub proof fn lemma_turn_cadence(
    objs1: Seq<Option<Object>>,
    objs2: Seq<Option<Object>>,
    objs3: Seq<Option<Object>>,
    pidx0: int,
    d1: Option<TurnDecision>,
    d2: Option<TurnDecision>,
    d3: Option<TurnDecision>,
    vis1: Visibility,
    vis2: Visibility,
    vis3: Visibility,
    o1: Object,
    o2: Object,
    o3: Object,
)
    requires
        objs1.len() == 3 && objs2.len() == 3 && objs3.len() == 3,
        objs1[0] == Some(o1) && is_player_spec(o1),
        objs2[1] == Some(o2) && !is_player_spec(o2),
        objs3[2] == Some(o3) && !is_player_spec(o3),
        step_advances(objs1, 0, pidx0, d1, vis1),
        step_advances(objs2, 1, 0, d2, vis2),
        step_advances(objs3, 2, 0, d3, vis3),
    ensures
        step_player_index(objs1, 0, pidx0) == 0,
        step_next_index(objs1, 0, pidx0, d1, vis1) == 1,
        step_turn_delta(objs1, 0, pidx0, d1, vis1) == 0,
        step_player_index(objs2, 1, 0) == 0,
        step_next_index(objs2, 1, 0, d2, vis2) == 2,
        step_turn_delta(objs2, 1, 0, d2, vis2) == 0,
        step_player_index(objs3, 2, 0) == 0,
        step_next_index(objs3, 2, 0, d3, vis3) == 0,
        step_turn_delta(objs3, 2, 0, d3, vis3) == 1,
{
}

/// Mutably borrow two separate elements of the given slice. The indexes must
/// be distinct and in bounds; everything else in the slice stays put.
pub fn mut_two<T>(items: &mut [T], first_index: usize, second_index: usize) -> (r: (
    &mut T,
    &mut T,
))
    requires
        first_index != second_index,
        first_index < old(items)@.len(),
        second_index < old(items)@.len(),
    ensures
        *r.0 == old(items)@[first_index as int],
        *r.1 == old(items)@[second_index as int],
        final(items)@ == old(items)@.update(first_index as int, *final(r.0)).update(
            second_index as int,
            *final(r.1),
        ),
{
    let split_at_index = if first_index < second_index {
        second_index
    } else {
        first_index
    };
    let (first_slice, second_slice) = items.split_at_mut(split_at_index);
    if first_index < second_index {
        (&mut first_slice[first_index], &mut second_slice[0])
    } else {
        (&mut second_slice[0], &mut first_slice[second_index])
    }
}

/// A value that depends on the dungeon level: the last table entry whose
/// level does not exceed the given one decides, and 0 is the default.
pub struct Transition {
    pub level: u32,
    pub value: u32,
}

/// The value of the deepest table entry reached by `level`, scanning the
/// table from the back; 0 when no entry is reached.
pub open spec fn dungeon_level_value(table: Seq<Transition>, level: u32) -> u32
    decreases table.len(),
{
    if table.len() == 0 {
        0u32
    } else if table.last().level <= level {
        table.last().value
    } else {
        dungeon_level_value(table.drop_last(), level)
    }
}

/// Return a value that depends on the dungeon level.
/// The table specifies what value occurs after each level, default is 0.
pub fn from_dungeon_level(table: &[Transition], level: u32) -> (v: u32)
    ensures
        v == dungeon_level_value(table@, level),
{
    let mut i = table.len();
    proof {
        assert(table@.subrange(0, table@.len() as int) =~= table@);
    }
    while i > 0
        invariant
            i <= table@.len(),
            dungeon_level_value(table@, level) == dungeon_level_value(
                table@.subrange(0, i as int),
                level,
            ),
        decreases i,
    {
        i = i - 1;
        let t = &table[i];
        proof {
            assert(table@.subrange(0, i + 1).last() == table@[i as int]);
            assert(table@.subrange(0, i + 1).drop_last() =~= table@.subrange(0, i as int));
        }
        if level >= t.level {
            return t.value;
        }
    }
    proof {
        assert(table@.subrange(0, 0) =~= Seq::<Transition>::empty());
    }
    0
}

} // verus!
