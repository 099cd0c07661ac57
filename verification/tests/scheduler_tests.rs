use innit::ai::PassiveAi;
use innit::game_objects::GameObjects;
use innit::game_state::mut_two;
use innit::game_state::process_action;
use innit::game_state::ActionResult;
use innit::game_state::AnimationType;
use innit::game_state::GameEnv;
use innit::game_state::GameState;
use innit::game_state::MessageLog;
use innit::game_state::MsgClass;
use innit::game_state::ObjectProcResult;
use innit::game_state::Position;
use innit::game_state::TurnDecision;
use innit::game_state::Visibility;
use innit::genetics::GeneLibrary;
use innit::object::AiControl;
use innit::object::Controller;
use innit::object::Object;
use innit::player::PlayerCtrl;

fn visible() -> Visibility {
    Visibility { actor_in_fov: true, actor_in_sense_range: true }
}

fn player(name: &str) -> Object {
    let mut o = Object::new();
    o.name = String::from(name);
    o.control = Some(Controller::Player(PlayerCtrl::new()));
    o
}

fn npc(name: &str) -> Object {
    let mut o = Object::new();
    o.name = String::from(name);
    o.control = Some(Controller::Npc(AiControl::Passive(PassiveAi::new())));
    o
}

fn pass_decision(cost: u32) -> Option<TurnDecision> {
    Some(TurnDecision {
        outcome: ActionResult::Success { callback: ObjectProcResult::NoFeedback },
        energy_cost: cost,
    })
}

fn state() -> GameState {
    GameState::new(GameEnv::new(), 1, 42)
}

#[test]
fn energy_gated_actor_metabolizes_and_never_acts() {
    let mut s = state();
    let mut objects = GameObjects::new();
    let mut o = player("microbe");
    o.energy = 2;
    o.energy_storage = 5;
    objects.push(o);
    // a costly action is on offer, but the actor is below its storage cap
    let result = s.process_object(&mut objects, pass_decision(99), visible());
    assert_eq!(result, ObjectProcResult::NoFeedback);
    let processed = objects.get(0).as_ref().unwrap();
    // metabolism gained one unit; no action cost touched the energy
    assert_eq!(processed.energy, 3);
}

#[test]
fn actor_without_candidate_action_keeps_pondering() {
    let mut s = state();
    let mut objects = GameObjects::new();
    let mut o = player("microbe");
    o.energy = 5;
    o.energy_storage = 5;
    objects.push(o);
    let result = s.process_object(&mut objects, None, visible());
    assert_eq!(result, ObjectProcResult::NoAction);
    assert_eq!(s.current_obj_index, 0);
    assert_eq!(s.turn, 0);
    assert_eq!(objects.get(0).as_ref().unwrap().energy, 5);
}

#[test]
fn completed_action_costs_energy_and_advances() {
    let mut s = state();
    let mut objects = GameObjects::new();
    let mut o = player("microbe");
    o.energy = 5;
    o.energy_storage = 5;
    objects.push(o);
    objects.push(npc("bacterium"));
    let result = s.process_object(&mut objects, pass_decision(2), visible());
    assert_eq!(result, ObjectProcResult::NoFeedback);
    assert_eq!(objects.get(0).as_ref().unwrap().energy, 3);
    assert_eq!(s.current_obj_index, 1);
}

#[test]
fn turn_counter_cadence_over_three_actors() {
    let mut s = state();
    let mut objects = GameObjects::new();
    for o in [player("microbe"), npc("virus"), npc("bacterium")] {
        objects.push(o);
    }
    assert_eq!(s.turn, 0);
    // every step completes an action; the turn increments exactly when the
    // cursor returns to the player's slot
    for step in 0..9 {
        let before = s.turn;
        let result = s.process_object(&mut objects, pass_decision(0), visible());
        assert_eq!(result, ObjectProcResult::NoFeedback);
        let expected_delta = if step % 3 == 2 { 1 } else { 0 };
        assert_eq!(s.turn, before + expected_delta, "at step {}", step);
    }
    assert_eq!(s.turn, 3);
    assert_eq!(s.current_obj_index, 0);
}

#[test]
fn failing_actor_holds_the_cursor_three_steps() {
    let mut s = state();
    let mut objects = GameObjects::new();
    for o in [player("microbe"), npc("virus"), npc("bacterium")] {
        objects.push(o);
    }
    s.current_obj_index = 1;
    for _ in 0..3 {
        let d = Some(TurnDecision { outcome: ActionResult::Failure, energy_cost: 1 });
        let result = s.process_object(&mut objects, d, visible());
        assert_eq!(result, ObjectProcResult::NoAction);
        assert_eq!(s.current_obj_index, 1);
        assert_eq!(s.turn, 0);
    }
    // the failing actor paid nothing
    assert_eq!(objects.get(1).as_ref().unwrap().energy, 0);
}

#[test]
fn vacant_slot_reports_no_action() {
    let mut s = state();
    let mut objects = GameObjects::new();
    objects.push(npc("bacterium"));
    let extracted = objects.extract(0);
    assert!(extracted.is_some());
    let result = s.process_object(&mut objects, pass_decision(0), visible());
    assert_eq!(result, ObjectProcResult::NoAction);
    assert_eq!(s.current_obj_index, 0);
}

#[test]
fn player_slot_is_recorded_when_the_player_acts() {
    let mut s = state();
    s.current_player_index = 9;
    s.current_obj_index = 0;
    let mut objects = GameObjects::new();
    objects.push(player("microbe"));
    s.process_object(&mut objects, None, visible());
    assert_eq!(s.current_player_index, 0);
}

#[test]
fn unstable_genome_mutates_and_is_logged() {
    let mut s = state();
    let mut objects = GameObjects::new();
    let lib = GeneLibrary::new();
    let mut o = player("microbe");
    let (sensors, processors, actuators, mut dna) = lib.decode_dna(&[0, 1, 1]);
    dna.raw = vec![0, 1, 1];
    o.sensors = sensors;
    o.processors = processors;
    o.actuators = actuators;
    o.dna = dna;
    o.gene_stability = 0;
    objects.push(o);
    let result = s.process_object(&mut objects, pass_decision(0), visible());
    assert_eq!(result, ObjectProcResult::NoFeedback);
    let mutated = objects.get(0).as_ref().unwrap();
    // exactly one bit of one byte flipped
    let diff: u32 = mutated
        .dna
        .raw
        .iter()
        .zip([0u8, 1, 1].iter())
        .map(|(a, b)| (a ^ b).count_ones())
        .sum();
    assert_eq!(diff, 1);
    // the player is always told of their own mutation
    assert_eq!(s.log.len(), 1);
    assert!(s.log[0].0.starts_with("A mutation occurred in your genome "));
    assert_eq!(s.log[0].1, MsgClass::Alert);
}

#[test]
fn stable_genome_never_mutates() {
    let mut s = state();
    let mut objects = GameObjects::new();
    let mut o = npc("bacterium");
    o.dna.raw = vec![0, 1, 1];
    o.gene_stability = 1000;
    objects.push(o);
    for _ in 0..20 {
        s.current_obj_index = 0;
        s.process_object(&mut objects, pass_decision(0), visible());
    }
    assert_eq!(objects.get(0).as_ref().unwrap().dna.raw, vec![0, 1, 1]);
    assert!(s.log.is_empty());
}

#[test]
fn scheduler_is_deterministic_given_a_fixed_seed() {
    let mut runs: Vec<(Vec<u8>, usize, u128, usize)> = Vec::new();
    for _ in 0..2 {
        let mut s = state();
        let mut objects = GameObjects::new();
        let mut o = player("microbe");
        o.dna.raw = vec![0, 1, 1, 0, 1, 3, 0, 1, 5];
        o.gene_stability = 500;
        objects.push(o);
        objects.push(npc("virus"));
        for _ in 0..12 {
            s.process_object(&mut objects, pass_decision(0), visible());
        }
        let genome = objects.get(0).as_ref().unwrap().dna.raw.clone();
        runs.push((genome, s.log.len(), s.turn, s.current_obj_index));
    }
    assert_eq!(runs[0], runs[1]);
}

#[test]
fn check_enter_fov_is_reinterpreted() {
    let success = |r| ActionResult::Success { callback: r };
    assert_eq!(
        process_action(success(ObjectProcResult::CheckEnterFOV), true, false),
        ObjectProcResult::UpdateFOV
    );
    assert_eq!(
        process_action(success(ObjectProcResult::CheckEnterFOV), false, true),
        ObjectProcResult::ReRender
    );
    assert_eq!(
        process_action(success(ObjectProcResult::CheckEnterFOV), false, false),
        ObjectProcResult::NoFeedback
    );
}

#[test]
fn animations_play_only_in_view() {
    let animate = ActionResult::Success {
        callback: ObjectProcResult::Animate { anim_type: AnimationType::FlashEffect },
    };
    assert_eq!(
        process_action(animate, false, true),
        ObjectProcResult::Animate { anim_type: AnimationType::FlashEffect }
    );
    let animate = ActionResult::Success {
        callback: ObjectProcResult::Animate { anim_type: AnimationType::ColorTransition },
    };
    assert_eq!(process_action(animate, true, false), ObjectProcResult::NoFeedback);
}

#[test]
fn other_callbacks_pass_through_unchanged() {
    let msg = ObjectProcResult::Message {
        msg: String::from("ouch"),
        class: MsgClass::Action,
        origin: Position { x: 3, y: 4 },
    };
    let r = process_action(ActionResult::Success { callback: msg.clone() }, false, false);
    assert_eq!(r, msg);
    let r = process_action(
        ActionResult::Success { callback: ObjectProcResult::ReRender },
        false,
        false,
    );
    assert_eq!(r, ObjectProcResult::ReRender);
}

#[test]
fn failure_resolves_to_no_action() {
    assert_eq!(process_action(ActionResult::Failure, true, true), ObjectProcResult::NoAction);
}

#[test]
fn consequence_merges_by_rank() {
    // a consequence message and a primary view update: the higher rank wins
    let merged = process_action(
        ActionResult::Consequence {
            sub_action: Box::new(ActionResult::Success {
                callback: ObjectProcResult::Message {
                    msg: String::from("sizzle"),
                    class: MsgClass::Info,
                    origin: Position { x: 0, y: 0 },
                },
            }),
            primary: Box::new(ActionResult::Success { callback: ObjectProcResult::UpdateFOV }),
        },
        true,
        true,
    );
    assert_eq!(merged, ObjectProcResult::UpdateFOV);

    // the other way around the message still wins by rank
    let merged = process_action(
        ActionResult::Consequence {
            sub_action: Box::new(ActionResult::Success { callback: ObjectProcResult::UpdateFOV }),
            primary: Box::new(ActionResult::Success {
                callback: ObjectProcResult::NoFeedback,
            }),
        },
        true,
        true,
    );
    assert_eq!(merged, ObjectProcResult::UpdateFOV);

    // a failed consequence does not drag a successful primary down
    let merged = process_action(
        ActionResult::Consequence {
            sub_action: Box::new(ActionResult::Failure),
            primary: Box::new(ActionResult::Success { callback: ObjectProcResult::ReRender }),
        },
        false,
        false,
    );
    assert_eq!(merged, ObjectProcResult::ReRender);
}

#[test]
fn message_log_appends() {
    let mut log: Vec<(String, MsgClass)> = Vec::new();
    log.add(String::from("Welcome microbe!"), MsgClass::Story);
    log.add(String::from("danger"), MsgClass::Alert);
    assert_eq!(log.len(), 2);
    assert_eq!(log[0], (String::from("Welcome microbe!"), MsgClass::Story));
    assert_eq!(log[1].1, MsgClass::Alert);
}

#[test]
fn is_players_turn_follows_the_cursor() {
    let mut s = state();
    assert!(s.is_players_turn());
    s.current_obj_index = 2;
    assert!(!s.is_players_turn());
}

#[test]
fn extract_and_restore_roundtrip() {
    let mut objects = GameObjects::new();
    objects.push(npc("a"));
    objects.push(npc("b"));
    assert_eq!(objects.get_num_objects(), 2);
    let taken = objects.extract(1).unwrap();
    assert_eq!(taken.name, "b");
    assert!(objects.get(1).is_none());
    assert!(objects.extract(1).is_none());
    assert!(objects.extract(7).is_none());
    objects.restore(1, taken);
    assert_eq!(objects.get(1).as_ref().unwrap().name, "b");
}

#[test]
fn mut_two_borrows_two_separate_elements() {
    let mut items = [10, 20, 30, 40];
    {
        let (a, b) = mut_two(&mut items, 1, 3);
        assert_eq!((*a, *b), (20, 40));
        *a += 1;
        *b += 2;
    }
    assert_eq!(items, [10, 21, 30, 42]);
    {
        let (a, b) = mut_two(&mut items, 2, 0);
        assert_eq!((*a, *b), (30, 10));
    }
}
