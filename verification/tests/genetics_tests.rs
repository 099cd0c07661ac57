use innit::game_rng::GameRng;
use innit::genetics::build_player_action;
use innit::genetics::ActionPrototype;
use innit::genetics::GeneLibrary;
use innit::genetics::SubTrait;
use innit::genetics::SuperTrait;
use innit::genetics::TraitAction;
use innit::genetics::TraitAttribute;
use innit::action::Action;
use innit::action::Target;
use innit::game_input::PlayAction;
use innit::game_input::PlayActionParameter;
use innit::generate_gray_code;

#[test]
fn gray_code_has_sixteen_entries() {
    let codes = generate_gray_code(4);
    assert_eq!(
        codes,
        vec![0, 1, 3, 2, 6, 7, 5, 4, 12, 13, 15, 14, 10, 11, 9, 8]
    );
}

#[test]
fn gray_code_neighbours_differ_in_one_bit() {
    let codes = generate_gray_code(4);
    for w in codes.windows(2) {
        assert_eq!((w[0] ^ w[1]).count_ones(), 1);
    }
}

#[test]
fn code_zero_is_reserved_for_the_sentinel() {
    let lib = GeneLibrary::new();
    assert_eq!(lib.code_for(0), 0);
    assert_eq!(lib.trait_for(0), None);
}

#[test]
fn every_trait_code_is_nonzero() {
    let lib = GeneLibrary::new();
    for index in 1..=lib.trait_count() {
        let code = lib.code_for(index);
        assert_ne!(code, 0);
        assert!(lib.trait_for(code).is_some());
    }
}

#[test]
fn trait_table_assigns_from_index_one() {
    let lib = GeneLibrary::new();
    assert_eq!(
        lib.trait_for(1),
        Some(SubTrait::StAttribute(TraitAttribute::SensingRange))
    );
    assert_eq!(lib.trait_for(3), Some(SubTrait::StAction(TraitAction::Sense)));
    assert_eq!(lib.trait_for(2), Some(SubTrait::StAction(TraitAction::Quick)));
    assert_eq!(lib.trait_for(13), Some(SubTrait::StAttribute(TraitAttribute::Hp)));
    assert_eq!(lib.trait_for(15), Some(SubTrait::StAction(TraitAction::Rest)));
    assert_eq!(lib.trait_for(200), None);
}

#[test]
fn decoding_empty_genome_yields_nothing() {
    let lib = GeneLibrary::new();
    let (s, p, a, d) = lib.decode_dna(&[]);
    assert!(s.actions.is_empty());
    assert_eq!(s.sense_range, 0);
    assert!(p.actions.is_empty());
    assert!(a.actions.is_empty());
    assert_eq!(a.hp, 0);
    assert!(d.simplified.is_empty());
}

#[test]
fn decoding_genomes_shorter_than_three_bytes_yields_nothing() {
    let lib = GeneLibrary::new();
    for raw in [vec![0u8], vec![0u8, 5u8], vec![255u8], vec![13u8, 13u8]] {
        let (s, _p, a, d) = lib.decode_dna(&raw);
        assert_eq!(s.sense_range, 0);
        assert_eq!(a.hp, 0);
        assert!(d.simplified.is_empty());
    }
}

#[test]
fn decoding_one_record_yields_one_occurrence() {
    let lib = GeneLibrary::new();
    // marker, declared length one, the sensing-range code
    let (s, p, a, d) = lib.decode_dna(&[0, 1, 1]);
    assert_eq!(s.sense_range, 1);
    assert!(s.actions.is_empty());
    assert!(p.actions.is_empty());
    assert!(a.actions.is_empty());
    assert_eq!(d.simplified, vec![SuperTrait::Sensing]);
}

#[test]
fn repeated_occurrences_accumulate_into_one_prototype() {
    let lib = GeneLibrary::new();
    // three genes encoding the move action, one encoding attack
    let raw = [0, 1, 5, 0, 1, 5, 0, 1, 5, 0, 1, 4];
    let (_s, _p, a, d) = lib.decode_dna(&raw);
    assert_eq!(
        a.actions,
        vec![
            ActionPrototype { trait_id: TraitAction::Move, parameter: 3 },
            ActionPrototype { trait_id: TraitAction::Attack, parameter: 1 },
        ]
    );
    assert_eq!(d.simplified.len(), 4);
}

#[test]
fn truncated_gene_decodes_what_fits() {
    let lib = GeneLibrary::new();
    // the declared length of two runs one byte past the end of the buffer
    let (s, _p, a, d) = lib.decode_dna(&[0, 2, 13]);
    assert_eq!(a.hp, 1);
    assert_eq!(s.sense_range, 0);
    assert_eq!(d.simplified, vec![SuperTrait::Actuating]);
}

#[test]
fn unrecognized_codes_are_skipped_silently() {
    let lib = GeneLibrary::new();
    let (s, p, a, d) = lib.decode_dna(&[0, 3, 200, 14, 9]);
    assert!(s.actions.is_empty() && p.actions.is_empty() && a.actions.is_empty());
    assert_eq!(s.sense_range, 0);
    assert_eq!(a.hp, 0);
    assert!(d.simplified.is_empty());
}

#[test]
fn overlapping_genes_are_decoded_in_both_windows() {
    let lib = GeneLibrary::new();
    // the first gene declares a length of five, so a second marker and its
    // gene fall inside the first window
    let raw = [0, 5, 1, 0, 1, 3];
    let (s, _p, _a, d) = lib.decode_dna(&raw);
    assert_eq!(s.sense_range, 2);
    assert_eq!(
        s.actions,
        vec![ActionPrototype { trait_id: TraitAction::Sense, parameter: 1 }]
    );
    assert_eq!(
        d.simplified,
        vec![SuperTrait::Sensing, SuperTrait::Sensing, SuperTrait::Sensing]
    );
}

#[test]
fn arbitrary_bytes_always_decode() {
    let lib = GeneLibrary::new();
    let mut rng = GameRng::new_from_u64_seed(99);
    for len in 0..64usize {
        let mut raw = Vec::new();
        for _ in 0..len {
            raw.push(rng.gen_range(0, 256) as u8);
        }
        let (_s, _p, _a, d) = lib.decode_dna(&raw);
        assert!(d.simplified.len() <= raw.len());
    }
}

#[test]
fn generated_genome_roundtrips_pick_count() {
    let lib = GeneLibrary::new();
    let mut rng = GameRng::new_from_u64_seed(2024);
    for n in [0usize, 1, 5, 32] {
        let raw = lib.new_dna(&mut rng, n);
        assert_eq!(raw.len(), 3 * n);
        let (s, p, a, d) = lib.decode_dna(&raw);
        // exactly one occurrence per pick, distributed over the buckets
        assert_eq!(d.simplified.len(), n);
        let action_total: i32 = s
            .actions
            .iter()
            .chain(p.actions.iter())
            .chain(a.actions.iter())
            .map(|proto| proto.parameter)
            .sum();
        assert_eq!(action_total + s.sense_range + a.hp, n as i32);
    }
}

#[test]
fn new_genetics_carries_the_raw_genome() {
    let lib = GeneLibrary::new();
    let mut rng = GameRng::new_from_u64_seed(7);
    let (s, p, a, d) = lib.new_genetics(&mut rng, 8);
    assert_eq!(d.raw.len(), 24);
    let (s2, p2, a2, d2) = lib.decode_dna(&d.raw);
    assert_eq!(s, s2);
    assert_eq!(p, p2);
    assert_eq!(a, a2);
    assert_eq!(d.simplified, d2.simplified);
}

#[test]
fn mutation_flips_exactly_the_masked_bit() {
    let lib = GeneLibrary::new();
    let (_s, _p, _a, d) = lib.decode_dna(&[0, 1, 1]);
    let mut genome = d;
    genome.raw = vec![0, 1, 1];
    let (_s2, _p2, a2, d2) = lib.mutate_dna(&genome, 2, 0b0000_1100);
    // 1 ^ 0b1100 == 13, the hit-point code
    assert_eq!(d2.raw, vec![0, 1, 13]);
    assert_eq!(a2.hp, 1);
    assert_eq!(d2.simplified, vec![SuperTrait::Actuating]);
}

#[test]
fn mutation_determinism_given_a_fixed_seed() {
    let lib = GeneLibrary::new();
    let mut rng1 = GameRng::new_from_u64_seed(5150);
    let mut rng2 = GameRng::new_from_u64_seed(5150);
    let raw1 = lib.new_dna(&mut rng1, 12);
    let raw2 = lib.new_dna(&mut rng2, 12);
    assert_eq!(raw1, raw2);
    // the same seed draws the same byte and the same bit
    let byte1 = rng1.gen_range(0, raw1.len());
    let byte2 = rng2.gen_range(0, raw2.len());
    assert_eq!(byte1, byte2);
    let mask1 = rng1.random_bit();
    let mask2 = rng2.random_bit();
    assert_eq!(mask1, mask2);
    let genome1 = innit::genetics::Dna { raw: raw1, simplified: vec![] };
    let genome2 = innit::genetics::Dna { raw: raw2, simplified: vec![] };
    let (s1, p1, a1, d1) = lib.mutate_dna(&genome1, byte1, mask1);
    let (s2, p2, a2, d2) = lib.mutate_dna(&genome2, byte2, mask2);
    assert_eq!(d1.raw, d2.raw);
    assert_eq!(d1.simplified, d2.simplified);
    assert_eq!(s1, s2);
    assert_eq!(p1, p2);
    assert_eq!(a1, a2);
}

#[test]
fn gen_range_stays_inside_its_bounds() {
    let mut rng = GameRng::new_from_u64_seed(1);
    for _ in 0..200 {
        let v = rng.gen_range(3, 17);
        assert!((3..17).contains(&v));
    }
    assert_eq!(rng.gen_range(5, 6), 5);
}

#[test]
fn random_bit_is_a_power_of_two() {
    let mut rng = GameRng::new_from_u64_seed(2);
    for _ in 0..100 {
        let b = rng.random_bit();
        assert_eq!(b.count_ones(), 1);
    }
}

#[test]
fn init_genes_keeps_the_fixed_table() {
    let mut lib = GeneLibrary::new();
    let before = lib.clone();
    lib.init_genes(vec![innit::genetics::GeneRecord {
        name: String::from("spike"),
        super_trait: SuperTrait::Actuating,
        action: TraitAction::Attack,
    }]);
    assert_eq!(lib, before);
}

#[test]
fn player_move_input_builds_a_move_action() {
    let prototype = ActionPrototype { trait_id: TraitAction::Move, parameter: 3 };
    let input = PlayAction {
        trait_id: SubTrait::StAction(TraitAction::Move),
        param: PlayActionParameter::Orientation(Target::North),
    };
    let action = build_player_action(input, &prototype);
    assert_eq!(action, Action::Move { direction: Target::North, distance: 3 });
}

#[test]
fn other_player_input_builds_the_pass_action() {
    let prototype = ActionPrototype { trait_id: TraitAction::Rest, parameter: 1 };
    let input = PlayAction {
        trait_id: SubTrait::StAction(TraitAction::Rest),
        param: PlayActionParameter::Undirected,
    };
    assert_eq!(build_player_action(input, &prototype), Action::Pass);
}
