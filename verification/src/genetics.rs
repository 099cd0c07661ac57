//! The genome holds all inheritable information of an actor. This module
//! decodes a raw byte genome into capability bundles and builds fresh genomes
//! from randomly picked gene records.
//!
//! ## Gene types
//!
//! * sensor - gathering information about the environment
//! * processor - decision making
//! * actuator - interacting with other objects and the game world
//!
//! ## Shape of the genome
//!
//! A gene is a contiguous run of bytes inside the genome. The byte value zero
//! marks the start of a gene; the byte after the marker declares how many of
//! the following bytes are read as trait codes. Genes can overlap: parsing of
//! the next gene resumes in the middle of a previous one when a new marker
//! appears before the declared length is exhausted. A trait grows stronger
//! with the cumulative number of its occurrences, not with a potency field.

use vstd::prelude::*;

use crate::action::Action;
use crate::game_input::PlayAction;
use crate::game_input::PlayActionParameter;
use crate::game_rng::GameRng;
use crate::util::gray_byte;

verus! {

/// The three fixed gene families. Every sub-trait belongs to exactly one.
#[derive(Clone, Copy, PartialEq, Eq, Structural, Debug, Hash)]
pub enum SuperTrait {
    Sensing,
    Processing,
    Actuating,
}

/// An attribute contributes a scalar to a capability bundle.
#[derive(Clone, Copy, PartialEq, Eq, Structural, Debug, Hash)]
pub enum TraitAttribute {
    SensingRange,
    Hp,
}

/// An action trait contributes to an action-prototype count.
#[derive(Clone, Copy, PartialEq, Eq, Structural, Debug, Hash)]
pub enum TraitAction {
    Sense,
    Quick,
    Primary,
    Secondary,
    Move,
    Attack,
    Defend,
    Rest,
}

/// A sub-trait is either an attribute or an action.
#[derive(Clone, Copy, PartialEq, Eq, Structural, Debug, Hash)]
pub enum SubTrait {
    StAttribute(TraitAttribute),
    StAction(TraitAction),
}

/// An action prototype pairs an action trait with a parameter equal to the
/// number of times the trait occurred in the genome.
#[derive(Clone, Copy, PartialEq, Eq, Structural, Debug, Hash)]
pub struct ActionPrototype {
    pub trait_id: TraitAction,
    pub parameter: i32,
}

/// The action a player input builds: a directed move when the input
/// addresses the move trait and carries a direction, the pass otherwise.
pub open spec fn player_action_spec(input: PlayAction, prototype: ActionPrototype) -> Action {
    match input {
        PlayAction {
            trait_id: SubTrait::StAction(TraitAction::Move),
            param: PlayActionParameter::Orientation(dir),
        } => Action::Move { direction: dir, distance: prototype.parameter },
        _ => Action::Pass,
    }
}

/// Construct a new player action from an input and the action prototype the
/// input addresses: the prototype's parameter becomes the action's strength.
pub fn build_player_action(input: PlayAction, prototype: &ActionPrototype) -> (a: Action)
    ensures
        a == player_action_spec(input, *prototype),
{
    match input {
        PlayAction {
            trait_id: SubTrait::StAction(TraitAction::Move),
            param: PlayActionParameter::Orientation(dir),
        } => Action::Move { direction: dir, distance: prototype.parameter },
        _ => Action::Pass,
    }
}

/// The fixed classification of every sub-trait into its gene family.
pub open spec fn super_of(t: SubTrait) -> SuperTrait {
    match t {
        SubTrait::StAttribute(TraitAttribute::SensingRange) => SuperTrait::Sensing,
        SubTrait::StAttribute(TraitAttribute::Hp) => SuperTrait::Actuating,
        SubTrait::StAction(TraitAction::Sense) => SuperTrait::Sensing,
        SubTrait::StAction(TraitAction::Quick) => SuperTrait::Processing,
        SubTrait::StAction(TraitAction::Primary) => SuperTrait::Processing,
        SubTrait::StAction(TraitAction::Secondary) => SuperTrait::Processing,
        SubTrait::StAction(TraitAction::Move) => SuperTrait::Actuating,
        SubTrait::StAction(TraitAction::Attack) => SuperTrait::Actuating,
        SubTrait::StAction(TraitAction::Defend) => SuperTrait::Actuating,
        SubTrait::StAction(TraitAction::Rest) => SuperTrait::Actuating,
    }
}

/// Executable twin of [`super_of`].
pub fn super_trait_of(t: SubTrait) -> (s: SuperTrait)
    ensures
        s == super_of(t),
{
    match t {
        SubTrait::StAttribute(TraitAttribute::SensingRange) => SuperTrait::Sensing,
        SubTrait::StAttribute(TraitAttribute::Hp) => SuperTrait::Actuating,
        SubTrait::StAction(TraitAction::Sense) => SuperTrait::Sensing,
        SubTrait::StAction(TraitAction::Quick) => SuperTrait::Processing,
        SubTrait::StAction(TraitAction::Primary) => SuperTrait::Processing,
        SubTrait::StAction(TraitAction::Secondary) => SuperTrait::Processing,
        SubTrait::StAction(TraitAction::Move) => SuperTrait::Actuating,
        SubTrait::StAction(TraitAction::Attack) => SuperTrait::Actuating,
        SubTrait::StAction(TraitAction::Defend) => SuperTrait::Actuating,
        SubTrait::StAction(TraitAction::Rest) => SuperTrait::Actuating,
    }
}

/// The ten sub-traits in the order in which their codes are assigned.
pub open spec fn canonical_traits() -> Seq<SubTrait> {
    seq![
        SubTrait::StAttribute(TraitAttribute::SensingRange),
        SubTrait::StAction(TraitAction::Sense),
        SubTrait::StAction(TraitAction::Quick),
        SubTrait::StAction(TraitAction::Primary),
        SubTrait::StAction(TraitAction::Secondary),
        SubTrait::StAction(TraitAction::Move),
        SubTrait::StAction(TraitAction::Attack),
        SubTrait::StAction(TraitAction::Defend),
        SubTrait::StAttribute(TraitAttribute::Hp),
        SubTrait::StAction(TraitAction::Rest),
    ]
}

/// The sub-trait a byte decodes to. Trait assignment starts at Gray-code
/// index 1 because code 0 is the gene-start sentinel; every byte outside the
/// table decodes to nothing, which is not an error.
pub open spec fn trait_of_code(code: u8) -> Option<SubTrait> {
    if code == 1 {
        Some(SubTrait::StAttribute(TraitAttribute::SensingRange))
    } else if code == 3 {
        Some(SubTrait::StAction(TraitAction::Sense))
    } else if code == 2 {
        Some(SubTrait::StAction(TraitAction::Quick))
    } else if code == 6 {
        Some(SubTrait::StAction(TraitAction::Primary))
    } else if code == 7 {
        Some(SubTrait::StAction(TraitAction::Secondary))
    } else if code == 5 {
        Some(SubTrait::StAction(TraitAction::Move))
    } else if code == 4 {
        Some(SubTrait::StAction(TraitAction::Attack))
    } else if code == 12 {
        Some(SubTrait::StAction(TraitAction::Defend))
    } else if code == 13 {
        Some(SubTrait::StAttribute(TraitAttribute::Hp))
    } else if code == 15 {
        Some(SubTrait::StAction(TraitAction::Rest))
    } else {
        None
    }
}

/// The Gray codes of indexes 1 through 10 are exactly the ten trait codes,
/// in canonical order.
pub proof fn lemma_gray_trait_codes()
    ensures
        gray_byte(1) == 1,
        gray_byte(2) == 3,
        gray_byte(3) == 2,
        gray_byte(4) == 6,
        gray_byte(5) == 7,
        gray_byte(6) == 5,
        gray_byte(7) == 4,
        gray_byte(8) == 12,
        gray_byte(9) == 13,
        gray_byte(10) == 15,
        gray_byte(0) == 0,
{
    assert(1u8 ^ (1u8 >> 1u8) == 1 && 2u8 ^ (2u8 >> 1u8) == 3 && 3u8 ^ (3u8 >> 1u8) == 2
        && 4u8 ^ (4u8 >> 1u8) == 6 && 5u8 ^ (5u8 >> 1u8) == 7 && 6u8 ^ (6u8 >> 1u8) == 5
        && 7u8 ^ (7u8 >> 1u8) == 4 && 8u8 ^ (8u8 >> 1u8) == 12 && 9u8 ^ (9u8 >> 1u8) == 13
        && 10u8 ^ (10u8 >> 1u8) == 15 && 0u8 ^ (0u8 >> 1u8) == 0) by (bit_vector);
}

/// Code 0 is reserved for the gene-start sentinel: it is the Gray code of
/// index 0 and is never assigned to a trait.
pub proof fn lemma_sentinel_reserved()
    ensures
        gray_byte(0) == 0,
        trait_of_code(0) is None,
{
    lemma_gray_trait_codes();
}

/// Truncation safety at the smallest sizes: a genome shorter than three
/// bytes holds no complete gene and decodes to nothing.
pub proof fn lemma_short_genome_decodes_empty(dna: Seq<u8>)
    requires
        dna.len() < 3,
    ensures
        decode_spec(dna) == Seq::<SubTrait>::empty(),
{
}

/// The trait occurrences inside one gene window: every byte of `dna` at an
/// index in `[i, end]` that lies inside the buffer and carries a recognized
/// code contributes one occurrence, in index order.
pub open spec fn window_spec(dna: Seq<u8>, i: int, end: int) -> Seq<SubTrait>
    decreases end + 1 - i,
{
    if i > end || i < 0 || i >= dna.len() {
        Seq::empty()
    } else {
        match trait_of_code(dna[i]) {
            Some(t) => seq![t] + window_spec(dna, i + 1, end),
            None => window_spec(dna, i + 1, end),
        }
    }
}

/// The last index a gene starting at `start` may read: one byte past the
/// start holds the declared length, and the window is clamped to the buffer.
pub open spec fn gene_end(dna: Seq<u8>, start: int) -> int {
    vstd::math::min(dna.len() as int, start + 1 + dna[start + 1])
}

/// All trait occurrences decoded from `dna` when scanning genes from `start`
/// on: a gene needs at least a marker byte, a length byte and one code byte
/// before the buffer ends, so scanning stops within two bytes of the end.
pub open spec fn decode_from(dna: Seq<u8>, start: int) -> Seq<SubTrait>
    decreases dna.len() + 1 - start,
{
    if start < 0 || start + 2 >= dna.len() {
        Seq::empty()
    } else {
        window_spec(dna, start + 2, gene_end(dna, start)) + decode_from(
            dna,
            gene_end(dna, start) + 1,
        )
    }
}

/// The full decode of a genome: the stream of recognized trait occurrences.
/// Total for every byte sequence; genomes shorter than three bytes decode to
/// nothing.
pub open spec fn decode_spec(dna: Seq<u8>) -> Seq<SubTrait> {
    decode_from(dna, 0)
}

/// How often `x` occurs in the decoded stream.
pub open spec fn count_occ(ts: Seq<SubTrait>, x: SubTrait) -> int
    decreases ts.len(),
{
    if ts.len() == 0 {
        0
    } else {
        count_occ(ts.drop_last(), x) + if ts.last() == x {
            1int
        } else {
            0int
        }
    }
}

/// Appending one occurrence raises exactly its own count.
pub proof fn lemma_count_occ_push(ts: Seq<SubTrait>, t: SubTrait, x: SubTrait)
    ensures
        count_occ(ts.push(t), x) == count_occ(ts, x) + if t == x {
            1int
        } else {
            0int
        },
{
    assert(ts.push(t).drop_last() =~= ts);
}

/// A count is never negative.
pub proof fn lemma_count_occ_nonneg(ts: Seq<SubTrait>, x: SubTrait)
    ensures
        0 <= count_occ(ts, x) <= ts.len(),
    decreases ts.len(),
{
    if ts.len() > 0 {
        lemma_count_occ_nonneg(ts.drop_last(), x);
    }
}

/// A scalar accumulated one occurrence at a time, clamped to what an `i32`
/// can hold.
pub open spec fn cap_i32(n: int) -> int {
    if n > i32::MAX {
        i32::MAX as int
    } else {
        n
    }
}

/// The gene family of each occurrence, in decode order.
pub open spec fn simplified_spec(ts: Seq<SubTrait>) -> Seq<SuperTrait> {
    ts.map_values(|t: SubTrait| super_of(t))
}

/// The action traits of the sensing family, in the order prototypes are
/// emitted.
pub open spec fn sensing_order() -> Seq<TraitAction> {
    seq![TraitAction::Sense]
}

/// The action traits of the processing family, in emission order.
pub open spec fn processing_order() -> Seq<TraitAction> {
    seq![TraitAction::Quick, TraitAction::Primary, TraitAction::Secondary]
}

/// The action traits of the actuating family, in emission order.
pub open spec fn actuating_order() -> Seq<TraitAction> {
    seq![TraitAction::Move, TraitAction::Attack, TraitAction::Defend, TraitAction::Rest]
}

/// One action prototype per action trait of `order` that occurs in `ts`,
/// with the occurrence count as its parameter; traits without occurrences
/// yield none.
pub open spec fn protos_spec(ts: Seq<SubTrait>, order: Seq<TraitAction>) -> Seq<ActionPrototype>
    decreases order.len(),
{
    if order.len() == 0 {
        Seq::empty()
    } else {
        let c = count_occ(ts, SubTrait::StAction(order.first()));
        let rest = protos_spec(ts, order.drop_first());
        if c > 0 {
            seq![ActionPrototype { trait_id: order.first(), parameter: cap_i32(c) as i32 }] + rest
        } else {
            rest
        }
    }
}

/// What the three capability bundles hold for a decoded stream `ts`.
pub open spec fn bundles_ok(ts: Seq<SubTrait>, s: Sensors, p: Processors, a: Actuators) -> bool {
    &&& s.actions@ == protos_spec(ts, sensing_order())
    &&& s.sense_range == cap_i32(count_occ(ts, SubTrait::StAttribute(TraitAttribute::SensingRange)))
    &&& p.actions@ == protos_spec(ts, processing_order())
    &&& a.actions@ == protos_spec(ts, actuating_order())
    &&& a.hp == cap_i32(count_occ(ts, SubTrait::StAttribute(TraitAttribute::Hp)))
}

/// The sensing bundle: how far the actor senses and which sensing actions it
/// can take.
#[derive(Debug, Clone, PartialEq)]
pub struct Sensors {
    pub actions: Vec<ActionPrototype>,
    pub sense_range: i32,
}

impl Sensors {
    /// An empty sensing bundle.
    pub fn new() -> (s: Sensors)
        ensures
            s.actions@ == Seq::<ActionPrototype>::empty(),
            s.sense_range == 0,
    {
        Sensors { actions: Vec::new(), sense_range: 0 }
    }
}

/// The processing bundle: the decision-making actions of the actor.
#[derive(Debug, Clone, PartialEq)]
pub struct Processors {
    pub actions: Vec<ActionPrototype>,
}

impl Processors {
    /// An empty processing bundle.
    pub fn new() -> (p: Processors)
        ensures
            p.actions@ == Seq::<ActionPrototype>::empty(),
    {
        Processors { actions: Vec::new() }
    }
}

/// The actuating bundle: the actor's hit-point pool and the actions with
/// which it works on the world.
#[derive(Debug, Clone, PartialEq)]
pub struct Actuators {
    pub actions: Vec<ActionPrototype>,
    pub hp: i32,
}

impl Actuators {
    /// An empty actuating bundle.
    pub fn new() -> (a: Actuators)
        ensures
            a.actions@ == Seq::<ActionPrototype>::empty(),
            a.hp == 0,
    {
        Actuators { actions: Vec::new(), hp: 0 }
    }
}

/// A genome: the raw bytes plus, per recognized occurrence, the gene family
/// it fell into, in decode order. `simplified` counts occurrences, not bytes,
/// so its length is independent of `raw.len()`.
#[derive(Debug, Clone, PartialEq)]
pub struct Dna {
    pub raw: Vec<u8>,
    pub simplified: Vec<SuperTrait>,
}

impl Dna {
    /// An empty genome.
    pub fn new() -> (d: Dna)
        ensures
            d.raw@ == Seq::<u8>::empty(),
            d.simplified@ == Seq::<SuperTrait>::empty(),
    {
        Dna { raw: Vec::new(), simplified: Vec::new() }
    }
}

/// One gene description from the bootstrap gene library: a name, the family
/// it belongs to and the action it encodes.
#[derive(Debug, Clone, PartialEq)]
pub struct GeneRecord {
    pub name: String,
    pub super_trait: SuperTrait,
    pub action: TraitAction,
}

/// The pairs the code table holds, in assignment order: the Gray code of
/// index `i + 1` mapped to the canonical trait `i`.
pub open spec fn code_table_spec() -> Seq<(u8, SubTrait)> {
    Seq::new(10, |i: int| (gray_byte((i + 1) as u8), canonical_traits()[i]))
}

/// The pairs of the family table: every sub-trait beside its fixed family.
pub open spec fn family_table_spec() -> Seq<(SubTrait, SuperTrait)> {
    Seq::new(10, |i: int| (canonical_traits()[i], super_of(canonical_traits()[i])))
}

/// Owns the fixed mapping between small integer codes and traits, and the
/// classification of every trait into its gene family.
#[derive(Debug, Clone, PartialEq)]
pub struct GeneLibrary {
    /// Maps a non-zero Gray code to the sub-trait it encodes.
    gray_to_trait: Vec<(u8, SubTrait)>,
    /// Maps every sub-trait to its fixed gene family.
    pub trait_to_super: Vec<(SubTrait, SuperTrait)>,
    /// The Gray-code sequence; the code of index `i` sits at entry `i`.
    gray_code: Vec<u8>,
    /// The number of assigned traits.
    trait_count: usize,
}

impl GeneLibrary {
    /// The tables hold exactly the fixed assignment: sixteen Gray codes,
    /// ten traits assigned from code index 1 on, and the total family map.
    pub closed spec fn wf(&self) -> bool {
        &&& self.gray_code@.len() == 16
        &&& forall|i: int| 0 <= i < 16 ==> self.gray_code@[i] == gray_byte(i as u8)
        &&& self.gray_to_trait@ == code_table_spec()
        &&& self.trait_to_super@ == family_table_spec()
        &&& self.trait_count == 10
    }

    /// Build the fixed code and family tables.
    pub fn new() -> (lib: GeneLibrary)
        ensures
            lib.wf(),
    {
        let gray_code = crate::util::generate_gray_code(4);
        proof {
            assert(1usize << 4u32 == 16) by (bit_vector);
        }
        let mut gray_to_trait: Vec<(u8, SubTrait)> = Vec::new();
        gray_to_trait.push((gray_code[1], SubTrait::StAttribute(TraitAttribute::SensingRange)));
        gray_to_trait.push((gray_code[2], SubTrait::StAction(TraitAction::Sense)));
        gray_to_trait.push((gray_code[3], SubTrait::StAction(TraitAction::Quick)));
        gray_to_trait.push((gray_code[4], SubTrait::StAction(TraitAction::Primary)));
        gray_to_trait.push((gray_code[5], SubTrait::StAction(TraitAction::Secondary)));
        gray_to_trait.push((gray_code[6], SubTrait::StAction(TraitAction::Move)));
        gray_to_trait.push((gray_code[7], SubTrait::StAction(TraitAction::Attack)));
        gray_to_trait.push((gray_code[8], SubTrait::StAction(TraitAction::Defend)));
        gray_to_trait.push((gray_code[9], SubTrait::StAttribute(TraitAttribute::Hp)));
        gray_to_trait.push((gray_code[10], SubTrait::StAction(TraitAction::Rest)));
        assert(gray_to_trait@ =~= code_table_spec());

        let mut trait_to_super: Vec<(SubTrait, SuperTrait)> = Vec::new();
        trait_to_super.push(
            (SubTrait::StAttribute(TraitAttribute::SensingRange), SuperTrait::Sensing),
        );
        trait_to_super.push((SubTrait::StAction(TraitAction::Sense), SuperTrait::Sensing));
        trait_to_super.push((SubTrait::StAction(TraitAction::Quick), SuperTrait::Processing));
        trait_to_super.push((SubTrait::StAction(TraitAction::Primary), SuperTrait::Processing));
        trait_to_super.push((SubTrait::StAction(TraitAction::Secondary), SuperTrait::Processing));
        trait_to_super.push((SubTrait::StAction(TraitAction::Move), SuperTrait::Actuating));
        trait_to_super.push((SubTrait::StAction(TraitAction::Attack), SuperTrait::Actuating));
        trait_to_super.push((SubTrait::StAction(TraitAction::Defend), SuperTrait::Actuating));
        trait_to_super.push((SubTrait::StAttribute(TraitAttribute::Hp), SuperTrait::Actuating));
        trait_to_super.push((SubTrait::StAction(TraitAction::Rest), SuperTrait::Actuating));
        assert(trait_to_super@ =~= family_table_spec());

        GeneLibrary { gray_to_trait, trait_to_super, gray_code, trait_count: 10 }
    }

    /// The number of assigned traits.
    pub fn trait_count(&self) -> (n: usize)
        requires
            self.wf(),
        ensures
            n == 10,
    {
        self.trait_count
    }

    /// The Gray code of a table index.
    pub fn code_for(&self, index: usize) -> (code: u8)
        requires
            self.wf(),
            index < 16,
        ensures
            code == gray_byte(index as u8),
    {
        self.gray_code[index]
    }

    /// Look a byte up in the code table; bytes outside the table resolve to
    /// nothing, which is not an error.
    pub fn trait_for(&self, code: u8) -> (t: Option<SubTrait>)
        requires
            self.wf(),
        ensures
            t == trait_of_code(code),
    {
        proof {
            lemma_gray_trait_codes();
        }
        let n = self.gray_to_trait.len();
        let mut i: usize = 0;
        while i < n
            invariant
                self.wf(),
                n == 10,
                i <= n,
                forall|j: int| 0 <= j < i ==> code_table_spec()[j].0 != code,
            decreases n - i,
        {
            let pair = self.gray_to_trait[i];
            if pair.0 == code {
                proof {
                    lemma_gray_trait_codes();
                    assert(code_table_spec()[i as int].0 == gray_byte((i + 1) as u8));
                }
                return Some(pair.1);
            }
            i = i + 1;
        }
        proof {
            lemma_gray_trait_codes();
            assert(code_table_spec()[0].0 == 1);
            assert(code_table_spec()[1].0 == 3);
            assert(code_table_spec()[2].0 == 2);
            assert(code_table_spec()[3].0 == 6);
            assert(code_table_spec()[4].0 == 7);
            assert(code_table_spec()[5].0 == 5);
            assert(code_table_spec()[6].0 == 4);
            assert(code_table_spec()[7].0 == 12);
            assert(code_table_spec()[8].0 == 13);
            assert(code_table_spec()[9].0 == 15);
        }
        None
    }
}

impl GeneLibrary {
    /// Decode one gene. `start_ptr` sits on the gene-start marker; the next
    /// byte declares the gene length, clamped to the buffer, and every byte
    /// of the window after it is looked up in the code table. Returns the
    /// cursor for the next gene and the refreshed frontier; reaching the end
    /// of the buffer mid-gene merely stops the scan, it is not an error.
    #[verifier::loop_isolation(false)]
    fn decode_gene(
        &self,
        dna: &[u8],
        start_ptr: usize,
        end_ptr: usize,
        trait_builder: &mut TraitBuilder,
    ) -> (r: (usize, usize))
        requires
            self.wf(),
            old(trait_builder).wf(),
            start_ptr + 2 < dna@.len(),
            end_ptr == dna@.len(),
        ensures
            final(trait_builder).wf(),
            final(trait_builder).recorded() == old(trait_builder).recorded() + window_spec(
                dna@,
                start_ptr + 2,
                gene_end(dna@, start_ptr as int),
            ),
            r.0 as int == vstd::math::min(
                gene_end(dna@, start_ptr as int) + 1,
                dna@.len() as int,
            ),
            r.1 == dna@.len(),
    {
        let ghost old_recorded = trait_builder.recorded();
        let ghost s2 = start_ptr + 2int;
        let mut cursor = start_ptr + 1;
        // read the declared gene length and clamp the window to the buffer
        let len_byte = dna[cursor] as usize;
        let mut end = end_ptr;
        if len_byte < end - cursor {
            end = cursor + len_byte;
        }
        cursor = cursor + 1;
        proof {
            assert(end as int == gene_end(dna@, start_ptr as int));
        }
        let ghost gend = end as int;
        let ghost mut done: Seq<SubTrait> = Seq::empty();
        // read trait codes - actions and attributes
        let mut i = cursor;
        while i <= end
            invariant
                self.wf(),
                trait_builder.wf(),
                s2 <= i,
                i <= dna@.len(),
                i <= end + 1,
                end as int == gend,
                gend <= dna@.len(),
                trait_builder.recorded() == old_recorded + done,
                window_spec(dna@, s2, gend) == done + window_spec(dna@, i as int, gend),
            decreases end + 1 - i,
        {
            // the genome ended mid-gene: stop and report the position
            if i >= dna.len() {
                proof {
                    assert(window_spec(dna@, i as int, gend) =~= Seq::<SubTrait>::empty());
                    assert(done =~= window_spec(dna@, s2, gend));
                    assert(old_recorded + done == trait_builder.recorded());
                }
                return (i, end);
            }
            let code = dna[i];
            match self.trait_for(code) {
                Some(SubTrait::StAttribute(attr)) => {
                    trait_builder.add_attribute(attr);
                    proof {
                        let t = SubTrait::StAttribute(attr);
                        assert(window_spec(dna@, i as int, gend) == seq![t] + window_spec(
                            dna@,
                            i + 1,
                            gend,
                        ));
                        assert(done + window_spec(dna@, i as int, gend) =~= done.push(t)
                            + window_spec(dna@, i + 1, gend));
                        done = done.push(t);
                    }
                },
                Some(SubTrait::StAction(actn)) => {
                    trait_builder.add_action(actn);
                    proof {
                        let t = SubTrait::StAction(actn);
                        assert(window_spec(dna@, i as int, gend) == seq![t] + window_spec(
                            dna@,
                            i + 1,
                            gend,
                        ));
                        assert(done + window_spec(dna@, i as int, gend) =~= done.push(t)
                            + window_spec(dna@, i + 1, gend));
                        done = done.push(t);
                    }
                },
                None => {},
            }
            i = i + 1;
        }
        proof {
            assert(window_spec(dna@, i as int, gend) =~= Seq::<SubTrait>::empty());
            assert(done =~= window_spec(dna@, s2, gend));
        }
        (end + 1, dna.len())
    }

    /// Decode a whole genome into the three capability bundles plus the
    /// simplified trace. Total for every byte sequence: truncated genes,
    /// out-of-range lengths and unrecognized codes are clamped or skipped,
    /// never an error, and genomes shorter than three bytes decode to
    /// nothing.
    #[verifier::loop_isolation(false)]
    pub fn decode_dna(&self, dna: &[u8]) -> (r: (Sensors, Processors, Actuators, Dna))
        requires
            self.wf(),
        ensures
            bundles_ok(decode_spec(dna@), r.0, r.1, r.2),
            r.3.raw@ == Seq::<u8>::empty(),
            r.3.simplified@ == simplified_spec(decode_spec(dna@)),
    {
        let mut start_ptr: usize = 0;
        let mut end_ptr: usize = dna.len();
        let mut trait_builder: TraitBuilder = TraitBuilder::new();

        proof {
            assert(decode_spec(dna@) == Seq::<SubTrait>::empty() + decode_from(dna@, 0));
            assert(Seq::<SubTrait>::empty() + decode_from(dna@, 0) =~= decode_from(dna@, 0));
        }
        while start_ptr < dna.len() && dna.len() - start_ptr > 2
            invariant
                self.wf(),
                trait_builder.wf(),
                start_ptr <= dna@.len(),
                end_ptr == dna@.len(),
                decode_spec(dna@) == trait_builder.recorded() + decode_from(
                    dna@,
                    start_ptr as int,
                ),
            decreases dna@.len() - start_ptr,
        {
            let ghost pre = trait_builder.recorded();
            let ghost sp = start_ptr as int;
            let (s_ptr, e_ptr) = self.decode_gene(dna, start_ptr, end_ptr, &mut trait_builder);
            proof {
                let gend = gene_end(dna@, sp);
                assert(decode_from(dna@, sp) == window_spec(dna@, sp + 2, gend) + decode_from(
                    dna@,
                    gend + 1,
                ));
                if s_ptr as int != gend + 1 {
                    // the gene ran to the end of the buffer; both cursors are
                    // past any further gene
                    assert(s_ptr as int == dna@.len());
                    assert(decode_from(dna@, gend + 1) =~= Seq::<SubTrait>::empty());
                    assert(decode_from(dna@, s_ptr as int) =~= Seq::<SubTrait>::empty());
                }
                assert(pre + decode_from(dna@, sp) =~= trait_builder.recorded() + decode_from(
                    dna@,
                    s_ptr as int,
                ));
            }
            start_ptr = s_ptr;
            end_ptr = e_ptr;
        }
        proof {
            assert(decode_from(dna@, start_ptr as int) =~= Seq::<SubTrait>::empty());
            assert(trait_builder.recorded() =~= decode_spec(dna@));
        }
        trait_builder.finalize()
    }
}

/// Accumulates decoded trait occurrences into the three capability bundles.
/// Occurrences are recorded one at a time; finalization turns every non-zero
/// counter into one action prototype.
pub struct TraitBuilder {
    sensors: Sensors,
    processors: Processors,
    actuators: Actuators,
    sense_count: i32,
    quick_count: i32,
    primary_count: i32,
    secondary_count: i32,
    move_count: i32,
    attack_count: i32,
    defend_count: i32,
    rest_count: i32,
    dna: Dna,
    recorded_traits: Ghost<Seq<SubTrait>>,
}

impl TraitBuilder {
    /// The occurrences recorded so far, in order.
    pub closed spec fn recorded(&self) -> Seq<SubTrait> {
        self.recorded_traits@
    }

    /// Every counter and the simplified trace agree with the recorded
    /// occurrences; the action lists stay empty until finalization.
    pub closed spec fn wf(&self) -> bool {
        &&& self.sensors.actions@ == Seq::<ActionPrototype>::empty()
        &&& self.processors.actions@ == Seq::<ActionPrototype>::empty()
        &&& self.actuators.actions@ == Seq::<ActionPrototype>::empty()
        &&& self.sensors.sense_range == cap_i32(
            count_occ(self.recorded(), SubTrait::StAttribute(TraitAttribute::SensingRange)),
        )
        &&& self.actuators.hp == cap_i32(
            count_occ(self.recorded(), SubTrait::StAttribute(TraitAttribute::Hp)),
        )
        &&& self.sense_count == cap_i32(
            count_occ(self.recorded(), SubTrait::StAction(TraitAction::Sense)),
        )
        &&& self.quick_count == cap_i32(
            count_occ(self.recorded(), SubTrait::StAction(TraitAction::Quick)),
        )
        &&& self.primary_count == cap_i32(
            count_occ(self.recorded(), SubTrait::StAction(TraitAction::Primary)),
        )
        &&& self.secondary_count == cap_i32(
            count_occ(self.recorded(), SubTrait::StAction(TraitAction::Secondary)),
        )
        &&& self.move_count == cap_i32(
            count_occ(self.recorded(), SubTrait::StAction(TraitAction::Move)),
        )
        &&& self.attack_count == cap_i32(
            count_occ(self.recorded(), SubTrait::StAction(TraitAction::Attack)),
        )
        &&& self.defend_count == cap_i32(
            count_occ(self.recorded(), SubTrait::StAction(TraitAction::Defend)),
        )
        &&& self.rest_count == cap_i32(
            count_occ(self.recorded(), SubTrait::StAction(TraitAction::Rest)),
        )
        &&& self.dna.raw@ == Seq::<u8>::empty()
        &&& self.dna.simplified@ == simplified_spec(self.recorded())
    }

    /// A builder with nothing recorded.
    pub fn new() -> (tb: TraitBuilder)
        ensures
            tb.wf(),
            tb.recorded() == Seq::<SubTrait>::empty(),
    {
        let tb = TraitBuilder {
            sensors: Sensors::new(),
            processors: Processors::new(),
            actuators: Actuators::new(),
            sense_count: 0,
            quick_count: 0,
            primary_count: 0,
            secondary_count: 0,
            move_count: 0,
            attack_count: 0,
            defend_count: 0,
            rest_count: 0,
            dna: Dna::new(),
            recorded_traits: Ghost(Seq::empty()),
        };
        proof {
            assert(simplified_spec(Seq::<SubTrait>::empty()) =~= Seq::<SuperTrait>::empty());
        }
        tb
    }

    /// Record one attribute occurrence: bump its scalar and append its
    /// family to the simplified trace.
    pub fn add_attribute(&mut self, attr: TraitAttribute)
        requires
            old(self).wf(),
        ensures
            final(self).wf(),
            final(self).recorded() == old(self).recorded().push(SubTrait::StAttribute(attr)),
    {
        proof {
            lemma_count_occ_nonneg(
                self.recorded(),
                SubTrait::StAttribute(TraitAttribute::SensingRange),
            );
            lemma_count_occ_nonneg(self.recorded(), SubTrait::StAttribute(TraitAttribute::Hp));
            lemma_push_facts(self.recorded(), SubTrait::StAttribute(attr));
        }
        match attr {
            TraitAttribute::SensingRange => {
                self.dna.simplified.push(SuperTrait::Sensing);
                if self.sensors.sense_range < i32::MAX {
                    self.sensors.sense_range = self.sensors.sense_range + 1;
                }
            },
            TraitAttribute::Hp => {
                self.dna.simplified.push(SuperTrait::Actuating);
                if self.actuators.hp < i32::MAX {
                    self.actuators.hp = self.actuators.hp + 1;
                }
            },
        }
        proof {
            self.recorded_traits@ = self.recorded_traits@.push(SubTrait::StAttribute(attr));
        }
    }

    /// Record one action occurrence: bump the counter of its trait, bucketed
    /// by family, and append the family to the simplified trace.
    pub fn add_action(&mut self, actn: TraitAction)
        requires
            old(self).wf(),
        ensures
            final(self).wf(),
            final(self).recorded() == old(self).recorded().push(SubTrait::StAction(actn)),
    {
        proof {
            lemma_count_occ_nonneg(self.recorded(), SubTrait::StAction(actn));
            lemma_push_facts(self.recorded(), SubTrait::StAction(actn));
        }
        match actn {
            TraitAction::Sense => {
                self.dna.simplified.push(SuperTrait::Sensing);
                if self.sense_count < i32::MAX {
                    self.sense_count = self.sense_count + 1;
                }
            },
            TraitAction::Quick => {
                self.dna.simplified.push(SuperTrait::Processing);
                if self.quick_count < i32::MAX {
                    self.quick_count = self.quick_count + 1;
                }
            },
            TraitAction::Primary => {
                self.dna.simplified.push(SuperTrait::Processing);
                if self.primary_count < i32::MAX {
                    self.primary_count = self.primary_count + 1;
                }
            },
            TraitAction::Secondary => {
                self.dna.simplified.push(SuperTrait::Processing);
                if self.secondary_count < i32::MAX {
                    self.secondary_count = self.secondary_count + 1;
                }
            },
            TraitAction::Move => {
                self.dna.simplified.push(SuperTrait::Actuating);
                if self.move_count < i32::MAX {
                    self.move_count = self.move_count + 1;
                }
            },
            TraitAction::Attack => {
                self.dna.simplified.push(SuperTrait::Actuating);
                if self.attack_count < i32::MAX {
                    self.attack_count = self.attack_count + 1;
                }
            },
            TraitAction::Defend => {
                self.dna.simplified.push(SuperTrait::Actuating);
                if self.defend_count < i32::MAX {
                    self.defend_count = self.defend_count + 1;
                }
            },
            TraitAction::Rest => {
                self.dna.simplified.push(SuperTrait::Actuating);
                if self.rest_count < i32::MAX {
                    self.rest_count = self.rest_count + 1;
                }
            },
        }
        proof {
            self.recorded_traits@ = self.recorded_traits@.push(SubTrait::StAction(actn));
        }
    }

    /// Turn every non-zero counter into one action prototype per bucket and
    /// hand the three bundles plus the simplified trace out.
    pub fn finalize(self) -> (r: (Sensors, Processors, Actuators, Dna))
        requires
            self.wf(),
        ensures
            bundles_ok(self.recorded(), r.0, r.1, r.2),
            r.3.raw@ == Seq::<u8>::empty(),
            r.3.simplified@ == simplified_spec(self.recorded()),
    {
        let ghost ts = self.recorded();
        let TraitBuilder {
            mut sensors,
            mut processors,
            mut actuators,
            sense_count,
            quick_count,
            primary_count,
            secondary_count,
            move_count,
            attack_count,
            defend_count,
            rest_count,
            dna,
            recorded_traits: _,
        } = self;

        let mut sensor_actions: Vec<ActionPrototype> = Vec::new();
        if sense_count > 0 {
            sensor_actions.push(
                ActionPrototype { trait_id: TraitAction::Sense, parameter: sense_count },
            );
        }
        proof {
            lemma_protos_unfold(ts, sensing_order());
            assert(sensing_order().drop_first() =~= Seq::<TraitAction>::empty());
            assert(sensor_actions@ =~= protos_spec(ts, sensing_order()));
        }
        sensors.actions = sensor_actions;

        let mut processor_actions: Vec<ActionPrototype> = Vec::new();
        if quick_count > 0 {
            processor_actions.push(
                ActionPrototype { trait_id: TraitAction::Quick, parameter: quick_count },
            );
        }
        if primary_count > 0 {
            processor_actions.push(
                ActionPrototype { trait_id: TraitAction::Primary, parameter: primary_count },
            );
        }
        if secondary_count > 0 {
            processor_actions.push(
                ActionPrototype { trait_id: TraitAction::Secondary, parameter: secondary_count },
            );
        }
        proof {
            lemma_protos_unfold(ts, processing_order());
            lemma_protos_unfold(ts, processing_order().drop_first());
            lemma_protos_unfold(ts, processing_order().drop_first().drop_first());
            assert(processing_order().drop_first().drop_first().drop_first() =~= Seq::<
                TraitAction,
            >::empty());
            assert(processor_actions@ =~= protos_spec(ts, processing_order()));
        }
        processors.actions = processor_actions;

        let mut actuator_actions: Vec<ActionPrototype> = Vec::new();
        if move_count > 0 {
            actuator_actions.push(
                ActionPrototype { trait_id: TraitAction::Move, parameter: move_count },
            );
        }
        if attack_count > 0 {
            actuator_actions.push(
                ActionPrototype { trait_id: TraitAction::Attack, parameter: attack_count },
            );
        }
        if defend_count > 0 {
            actuator_actions.push(
                ActionPrototype { trait_id: TraitAction::Defend, parameter: defend_count },
            );
        }
        if rest_count > 0 {
            actuator_actions.push(
                ActionPrototype { trait_id: TraitAction::Rest, parameter: rest_count },
            );
        }
        proof {
            lemma_protos_unfold(ts, actuating_order());
            lemma_protos_unfold(ts, actuating_order().drop_first());
            lemma_protos_unfold(ts, actuating_order().drop_first().drop_first());
            lemma_protos_unfold(ts, actuating_order().drop_first().drop_first().drop_first());
            assert(actuating_order().drop_first().drop_first().drop_first().drop_first() =~= Seq::<
                TraitAction,
            >::empty());
            assert(actuator_actions@ =~= protos_spec(ts, actuating_order()));
        }
        actuators.actions = actuator_actions;

        (sensors, processors, actuators, dna)
    }
}

/// Pushing an occurrence extends the simplified trace by its family and
/// changes no other count.
proof fn lemma_push_facts(ts: Seq<SubTrait>, t: SubTrait)
    ensures
        simplified_spec(ts.push(t)) == simplified_spec(ts).push(super_of(t)),
        forall|x: SubTrait| #[trigger] count_occ(ts.push(t), x) == count_occ(ts, x) + if t == x {
            1int
        } else {
            0int
        },
{
    assert(simplified_spec(ts.push(t)) =~= simplified_spec(ts).push(super_of(t)));
    assert forall|x: SubTrait| #[trigger] count_occ(ts.push(t), x) == count_occ(ts, x) + if t == x {
        1int
    } else {
        0int
    } by {
        lemma_count_occ_push(ts, t, x);
    }
}

/// One unfolding step of the prototype list for a non-empty emission order.
proof fn lemma_protos_unfold(ts: Seq<SubTrait>, order: Seq<TraitAction>)
    requires
        order.len() > 0,
    ensures
        protos_spec(ts, order) == if count_occ(ts, SubTrait::StAction(order.first())) > 0 {
            seq![
                ActionPrototype {
                    trait_id: order.first(),
                    parameter: cap_i32(count_occ(ts, SubTrait::StAction(order.first()))) as i32,
                },
            ] + protos_spec(ts, order.drop_first())
        } else {
            protos_spec(ts, order.drop_first())
        },
{
}

/// The three bytes of one freshly generated gene: the start marker, a
/// declared length of one, and the code of the picked trait.
pub open spec fn gene_record_bytes(t: int) -> Seq<u8> {
    seq![0u8, 1u8, gray_byte((t + 1) as u8)]
}

/// A genome built from a sequence of trait picks, one gene record each.
pub open spec fn genome_of(picks: Seq<int>) -> Seq<u8>
    decreases picks.len(),
{
    if picks.len() == 0 {
        Seq::empty()
    } else {
        gene_record_bytes(picks.first()) + genome_of(picks.drop_first())
    }
}

/// `n` picks, each naming one of the ten canonical traits.
pub open spec fn valid_picks(picks: Seq<int>, n: int) -> bool {
    &&& picks.len() == n
    &&& forall|i: int| 0 <= i < picks.len() ==> 0 <= #[trigger] picks[i] < 10
}

/// A genome grows by one record per pick.
pub proof fn lemma_genome_of_push(picks: Seq<int>, t: int)
    ensures
        genome_of(picks.push(t)) == genome_of(picks) + gene_record_bytes(t),
    decreases picks.len(),
{
    if picks.len() == 0 {
        let e: Seq<int> = Seq::empty();
        assert(picks.push(t).drop_first() =~= e);
        assert(genome_of(e) == Seq::<u8>::empty());
        assert(genome_of(picks.push(t)) == gene_record_bytes(t) + genome_of(e));
        assert(genome_of(picks.push(t)) =~= genome_of(picks) + gene_record_bytes(t));
    } else {
        assert(picks.push(t).drop_first() =~= picks.drop_first().push(t));
        lemma_genome_of_push(picks.drop_first(), t);
        assert(gene_record_bytes(picks.first()) + (genome_of(picks.drop_first())
            + gene_record_bytes(t)) =~= (gene_record_bytes(picks.first()) + genome_of(
            picks.drop_first(),
        )) + gene_record_bytes(t));
    }
}

/// Each pick contributes exactly three bytes.
pub proof fn lemma_genome_of_len(picks: Seq<int>)
    ensures
        genome_of(picks).len() == 3 * picks.len(),
    decreases picks.len(),
{
    if picks.len() > 0 {
        lemma_genome_of_len(picks.drop_first());
    }
}

/// The code of a canonical pick decodes back to that very trait.
proof fn lemma_code_decodes(t: int)
    requires
        0 <= t < 10,
    ensures
        trait_of_code(gray_byte((t + 1) as u8)) == Some(canonical_traits()[t]),
{
    lemma_gray_trait_codes();
    if t == 0 {
    } else if t == 1 {
    } else if t == 2 {
    } else if t == 3 {
    } else if t == 4 {
    } else if t == 5 {
    } else if t == 6 {
    } else if t == 7 {
    } else if t == 8 {
    } else {
        assert(t == 9);
    }
}

/// Scanning a genome from just past a whole number of leading records sees
/// exactly what scanning the remaining records alone sees.
proof fn lemma_window_shift(pre: Seq<u8>, suf: Seq<u8>, i: int, end: int)
    requires
        i >= 0,
    ensures
        window_spec(pre + suf, pre.len() + i, pre.len() + end) == window_spec(suf, i, end),
    decreases end + 1 - i,
{
    if i > end || i >= suf.len() {
        assert(window_spec(pre + suf, pre.len() + i, pre.len() + end) =~= Seq::<
            SubTrait,
        >::empty());
        assert(window_spec(suf, i, end) =~= Seq::<SubTrait>::empty());
    } else {
        assert((pre + suf)[pre.len() + i] == suf[i]);
        lemma_window_shift(pre, suf, i + 1, end);
    }
}

/// Decoding a genome from an offset that skips `pre` decodes `suf` alone.
proof fn lemma_decode_shift(pre: Seq<u8>, suf: Seq<u8>, start: int)
    requires
        start >= 0,
    ensures
        decode_from(pre + suf, pre.len() + start, ) == decode_from(suf, start),
    decreases suf.len() + 1 - start,
{
    if start + 2 >= suf.len() {
        assert(decode_from(pre + suf, pre.len() + start) =~= Seq::<SubTrait>::empty());
        assert(decode_from(suf, start) =~= Seq::<SubTrait>::empty());
    } else {
        assert((pre + suf)[pre.len() + start + 1] == suf[start + 1]);
        assert(gene_end(pre + suf, pre.len() + start) == pre.len() + gene_end(suf, start));
        lemma_window_shift(pre, suf, start + 2, gene_end(suf, start));
        lemma_decode_shift(pre, suf, gene_end(suf, start) + 1);
    }
}

/// Round-trip cardinality: a genome built from `n` canonical picks, whose
/// records do not overlap, decodes to exactly those `n` occurrences, in
/// order - none lost, none duplicated.
pub proof fn lemma_genome_roundtrip(picks: Seq<int>)
    requires
        forall|i: int| 0 <= i < picks.len() ==> 0 <= #[trigger] picks[i] < 10,
    ensures
        decode_spec(genome_of(picks)) == picks.map_values(
            |t: int| canonical_traits()[t],
        ),
        decode_spec(genome_of(picks)).len() == picks.len(),
    decreases picks.len(),
{
    let f = |t: int| canonical_traits()[t];
    if picks.len() == 0 {
        assert(decode_spec(genome_of(picks)) =~= picks.map_values(f));
    } else {
        let t = picks.first();
        let rec = gene_record_bytes(t);
        let rest = genome_of(picks.drop_first());
        let g = genome_of(picks);
        lemma_genome_of_len(picks.drop_first());
        assert(g == rec + rest);
        assert(g.len() == 3 + rest.len());
        assert(g[1] == 1u8);
        assert(gene_end(g, 0) == 2);
        lemma_code_decodes(t);
        assert(g[2] == gray_byte((t + 1) as u8));
        assert(window_spec(g, 3, 2) =~= Seq::<SubTrait>::empty());
        assert(window_spec(g, 2, 2) == seq![canonical_traits()[t]] + window_spec(g, 3, 2));
        lemma_decode_shift(rec, rest, 0);
        assert(decode_from(g, 3) == decode_from(rest, 0));
        lemma_genome_roundtrip(picks.drop_first());
        assert(decode_spec(g) == window_spec(g, 2, 2) + decode_from(g, 3));
        assert(window_spec(g, 2, 2) =~= seq![canonical_traits()[t]]);
        assert(decode_spec(g) == seq![canonical_traits()[t]] + picks.drop_first().map_values(f));
        assert(seq![canonical_traits()[t]] + picks.drop_first().map_values(f) =~= picks.map_values(
            f,
        ));
    }
}

impl GeneLibrary {
    /// Build a fresh genome of `avg_genome_len` gene records, each picking a
    /// uniformly random trait: marker byte, length one, trait code. Which
    /// traits are picked is up to the generator; the genome always has the
    /// record shape.
    #[verifier::loop_isolation(false)]
    pub fn new_dna(&self, game_rng: &mut GameRng, avg_genome_len: usize) -> (dna: Vec<u8>)
        requires
            self.wf(),
            avg_genome_len <= usize::MAX / 3,
        ensures
            exists|picks: Seq<int>|
                valid_picks(picks, avg_genome_len as int) && dna@ == genome_of(picks),
            dna@.len() == 3 * avg_genome_len,
    {
        let mut dna: Vec<u8> = Vec::new();
        let ghost mut picks: Seq<int> = Seq::empty();
        let mut count: usize = 0;
        proof {
            assert(dna@ =~= genome_of(picks));
        }
        // randomly grab a trait and add a gene record for it
        while count < avg_genome_len
            invariant
                count <= avg_genome_len,
                valid_picks(picks, count as int),
                dna@ == genome_of(picks),
            decreases avg_genome_len - count,
        {
            proof {
                lemma_genome_of_len(picks);
            }
            // the genome start marker
            dna.push(0u8);
            // the declared gene length
            dna.push(1u8);
            // pick a random trait from the table and add its code
            let trait_num = game_rng.gen_range(0, self.trait_count);
            dna.push(self.gray_code[trait_num + 1]);
            proof {
                lemma_genome_of_push(picks, trait_num as int);
                picks = picks.push(trait_num as int);
                assert(dna@ =~= genome_of(picks));
            }
            count = count + 1;
        }
        proof {
            lemma_genome_of_len(picks);
        }
        dna
    }

    /// Combine [`GeneLibrary::new_dna`] and [`GeneLibrary::decode_dna`] into
    /// a single call: generate a genome and hand it out decoded, raw bytes
    /// included.
    pub fn new_genetics(&self, game_rng: &mut GameRng, avg_genome_len: usize) -> (r: (
        Sensors,
        Processors,
        Actuators,
        Dna,
    ))
        requires
            self.wf(),
            avg_genome_len <= usize::MAX / 3,
        ensures
            exists|picks: Seq<int>|
                valid_picks(picks, avg_genome_len as int) && r.3.raw@ == genome_of(picks),
            bundles_ok(decode_spec(r.3.raw@), r.0, r.1, r.2),
            r.3.simplified@ == simplified_spec(decode_spec(r.3.raw@)),
    {
        let dna = self.new_dna(game_rng, avg_genome_len);
        let (s, p, a, mut d) = self.decode_dna(dna.as_slice());
        d.raw = dna;
        (s, p, a, d)
    }

    /// Flip the masked bits of one genome byte and re-decode the whole
    /// genome from scratch: a single flipped bit can turn a marker into a
    /// data byte or back, moving gene boundaries globally. The result is a
    /// function of the genome, the byte index and the mask alone.
    pub fn mutate_dna(&self, dna: &Dna, byte_index: usize, bit_mask: u8) -> (r: (
        Sensors,
        Processors,
        Actuators,
        Dna,
    ))
        requires
            self.wf(),
            byte_index < dna.raw@.len(),
        ensures
            r.3.raw@ == dna.raw@.update(
                byte_index as int,
                dna.raw@[byte_index as int] ^ bit_mask,
            ),
            bundles_ok(decode_spec(r.3.raw@), r.0, r.1, r.2),
            r.3.simplified@ == simplified_spec(decode_spec(r.3.raw@)),
    {
        let mut raw2: Vec<u8> = Vec::new();
        let n = dna.raw.len();
        let mut i: usize = 0;
        while i < n
            invariant
                n == dna.raw@.len(),
                i <= n,
                raw2@ == dna.raw@.subrange(0, i as int),
            decreases n - i,
        {
            raw2.push(dna.raw[i]);
            proof {
                assert(raw2@ =~= dna.raw@.subrange(0, i + 1));
            }
            i = i + 1;
        }
        proof {
            assert(raw2@ =~= dna.raw@);
        }
        let flipped = raw2[byte_index] ^ bit_mask;
        raw2.set(byte_index, flipped);
        let (s, p, a, mut d) = self.decode_dna(raw2.as_slice());
        d.raw = raw2;
        (s, p, a, d)
    }

    /// Note a gene record from the bootstrap gene library. The built-in
    /// fixed table is authoritative, so the record is acknowledged and the
    /// tables stay as they are.
    pub fn add_gene(&mut self, _gene: GeneRecord)
        ensures
            *final(self) == *old(self),
    {
    }

    /// Feed the records of the bootstrap gene library in, one by one. The
    /// caller reads and parses the bootstrap file; a missing or malformed
    /// file simply yields no records, which is not fatal.
    #[verifier::loop_isolation(false)]
    pub fn init_genes(&mut self, genes: Vec<GeneRecord>)
        ensures
            *final(self) == *old(self),
    {
        let n = genes.len();
        let mut i: usize = 0;
        while i < n
            invariant
                *self == *old(self),
            decreases n - i,
        {
            let gene = genes[i].clone();
            self.add_gene(gene);
            i = i + 1;
        }
    }
}

} // verus!
