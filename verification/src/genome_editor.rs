//! The states of the genome editor, with which the player manipulates their
//! own genome. The editor's screen layout and input handling live with the
//! host; the state taxonomy and its labels live here.

use vstd::prelude::*;

verus! {

/// Determines which features of the editor are enabled.
#[derive(Clone, Copy, PartialEq, Eq, Structural, Debug)]
pub enum GenomeEditorFeatureSet {
    /// Moving and cutting.
    Reduce,
    /// Editing without moving or extending, like flipping bits.
    InPlace,
    /// Copying and adding new genes.
    Extend,
}

/// The edit function the editor currently performs.
#[derive(Clone, Copy, PartialEq, Eq, Structural, Debug)]
pub enum GenomeEditingState {
    Idle,
    Move,
    Cut,
    FlipBit,
    Duplicate,
    Add,
    Done,
}

/// The label under which each edit function is shown.
pub open spec fn editing_label_spec(s: GenomeEditingState) -> Seq<char> {
    match s {
        GenomeEditingState::Idle => ""@,
        GenomeEditingState::Move => "Move"@,
        GenomeEditingState::Cut => "Cut"@,
        GenomeEditingState::FlipBit => "Flip a Bit"@,
        GenomeEditingState::Duplicate => "Duplicate"@,
        GenomeEditingState::Add => "Add new"@,
        GenomeEditingState::Done => "Done"@,
    }
}

impl GenomeEditingState {
    /// The label under which this edit function is shown.
    pub fn label(&self) -> (s: &'static str)
        ensures
            s@ == editing_label_spec(*self),
    {
        match self {
            GenomeEditingState::Idle => "",
            GenomeEditingState::Move => "Move",
            GenomeEditingState::Cut => "Cut",
            GenomeEditingState::FlipBit => "Flip a Bit",
            GenomeEditingState::Duplicate => "Duplicate",
            GenomeEditingState::Add => "Add new",
            GenomeEditingState::Done => "Done",
        }
    }
}

} // verus!
