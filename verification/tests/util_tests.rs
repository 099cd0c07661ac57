use innit::action::Action;
use innit::action::Target;
use innit::action::TargetCategory;
use innit::game_state::from_dungeon_level;
use innit::game_state::Transition;
use innit::genome_editor::GenomeEditingState;
use innit::inventory::Inventory;
use innit::modulus;
use innit::object::Object;
use innit::player::PlayerCtrl;
use innit::player::PLAYER;
use innit::timer::Timer;
use innit::util::decimal_string;
use innit::util::time_from;

#[test]
fn modulus_is_the_remainder() {
    assert_eq!(modulus(17, 5), 2);
    assert_eq!(modulus(0, 3), 0);
    assert_eq!(modulus(999, 1000), 999);
}

#[test]
fn decimal_rendering_matches_the_standard_one() {
    for n in [0u128, 7, 10, 999, 1000, 123456789] {
        assert_eq!(decimal_string(n), n.to_string());
    }
}

#[test]
fn time_from_splits_nanoseconds() {
    assert_eq!(time_from(0), "0:0:0:0");
    assert_eq!(time_from(999), "0:0:0:999");
    assert_eq!(time_from(1_000), "0:0:1:0");
    assert_eq!(time_from(123_456_789_012), "123:456:789:12");
}

#[test]
fn timer_reports_under_its_message() {
    let mut t = Timer::new("world generation");
    let line = t.summary("finished", 1_002_003_004);
    assert_eq!(line, "world generation finished in 1:2:3:4");
    let lap_line = t.lap();
    assert!(lap_line.starts_with("world generation currently in "));
    let first = t.stop();
    let second = t.stop();
    let _ = first;
    assert_eq!(second, 0);
}

#[test]
fn timer_stop_silent_stops() {
    let mut t = Timer::new("probe");
    let _ = t.stop_silent();
    assert_eq!(t.stop(), 0);
}

#[test]
fn dungeon_level_table_picks_the_deepest_reached_entry() {
    let table = [
        Transition { level: 1, value: 2 },
        Transition { level: 4, value: 3 },
        Transition { level: 7, value: 5 },
    ];
    assert_eq!(from_dungeon_level(&table, 0), 0);
    assert_eq!(from_dungeon_level(&table, 1), 2);
    assert_eq!(from_dungeon_level(&table, 3), 2);
    assert_eq!(from_dungeon_level(&table, 4), 3);
    assert_eq!(from_dungeon_level(&table, 6), 3);
    assert_eq!(from_dungeon_level(&table, 7), 5);
    assert_eq!(from_dungeon_level(&table, 99), 5);
}

#[test]
fn from_dungeon_level_of_empty_table_defaults_to_zero() {
    assert_eq!(from_dungeon_level(&[], 10), 0);
}

#[test]
fn genome_editing_states_carry_their_labels() {
    assert_eq!(GenomeEditingState::Idle.label(), "");
    assert_eq!(GenomeEditingState::Move.label(), "Move");
    assert_eq!(GenomeEditingState::Cut.label(), "Cut");
    assert_eq!(GenomeEditingState::FlipBit.label(), "Flip a Bit");
    assert_eq!(GenomeEditingState::Duplicate.label(), "Duplicate");
    assert_eq!(GenomeEditingState::Add.label(), "Add new");
    assert_eq!(GenomeEditingState::Done.label(), "Done");
}

#[test]
fn player_control_starts_with_pass_actions() {
    let p = PlayerCtrl::new();
    assert_eq!(p.primary_action, Action::Pass);
    assert_eq!(p.secondary_action, Action::Pass);
    assert_eq!(p.quick1_action, Action::Pass);
    assert_eq!(p.quick2_action, Action::Pass);
    assert!(p.next_action.is_none());
    assert_eq!(PLAYER, 0);
}

#[test]
fn inventory_starts_empty() {
    let inv = Inventory::new();
    assert!(inv.items.is_empty());
    assert!(inv.inv_actions.is_empty());
}

#[test]
fn blank_object_is_inert() {
    let o = Object::new();
    assert!(o.control.is_none());
    assert_eq!(o.energy, 0);
    assert_eq!(o.gene_stability, 1000);
    assert!(o.dna.raw.is_empty());
    assert!(!o.is_player());
}

#[test]
fn actions_know_their_cost_and_target_category() {
    let pass = Action::Pass;
    assert_eq!(pass.get_energy_cost(), 0);
    assert_eq!(pass.get_target_category(), TargetCategory::NoTarget);
    let mut mv = Action::Move { direction: Target::Center, distance: 2 };
    assert_eq!(mv.get_energy_cost(), 1);
    assert_eq!(mv.get_target_category(), TargetCategory::EmptyObject);
    mv.set_target(Target::West);
    assert_eq!(mv, Action::Move { direction: Target::West, distance: 2 });
    let mut p = Action::Pass;
    p.set_target(Target::North);
    assert_eq!(p, Action::Pass);
}
