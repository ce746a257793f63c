use vstd::prelude::*;

verus! {

/// One of the three moves a player can commit to.
#[derive(Clone, Copy, Debug, PartialEq, Eq, Structural)]
pub enum Choice {
    Bonk,
    Paper,
    Scissors,
}

impl Choice {
    /// The fixed byte that stands for a choice in a commitment preimage.
    pub open spec fn spec_tag(self) -> u8 {
        match self {
            Choice::Bonk => 1,
            Choice::Paper => 2,
            Choice::Scissors => 3,
        }
    }

    pub fn tag(&self) -> (r: u8)
        ensures
            r == self.spec_tag(),
    {
        match self {
            Choice::Bonk => 1,
            Choice::Paper => 2,
            Choice::Scissors => 3,
        }
    }

    /// The choice whose tag is `t`, if there is one.
    pub fn from_tag(t: u8) -> (r: Option<Choice>)
        ensures
            r matches Some(c) ==> c.spec_tag() == t,
            r is None <==> !(1 <= t <= 3),
    {
        if t == 1 {
            Some(Choice::Bonk)
        } else if t == 2 {
            Some(Choice::Paper)
        } else if t == 3 {
            Some(Choice::Scissors)
        } else {
            None
        }
    }
}

/// Cyclic dominance: bonk beats scissors, paper beats bonk, scissors beats paper.
pub open spec fn spec_beats(a: Choice, b: Choice) -> bool {
    match (a, b) {
        (Choice::Bonk, Choice::Scissors) => true,
        (Choice::Paper, Choice::Bonk) => true,
        (Choice::Scissors, Choice::Paper) => true,
        _ => false,
    }
}

/// Whether `a` beats `b`.
pub fn beats(a: Choice, b: Choice) -> (r: bool)
    ensures
        r == spec_beats(a, b),
{
    match (a, b) {
        (Choice::Bonk, Choice::Scissors) => true,
        (Choice::Paper, Choice::Bonk) => true,
        (Choice::Scissors, Choice::Paper) => true,
        _ => false,
    }
}

/// Dominance is total and irreflexive: of two different choices exactly one
/// beats the other, and no choice beats itself.
pub proof fn lemma_dominance_total_irreflexive(a: Choice, b: Choice)
    ensures
        a != b ==> (spec_beats(a, b) != spec_beats(b, a)),
        !spec_beats(a, a),
{
}

/// Distinct choices have distinct tags.
pub proof fn lemma_tag_injective(a: Choice, b: Choice)
    ensures
        a.spec_tag() == b.spec_tag() ==> a == b,
{
}

} // verus!
