use rand::Rng;
use vstd::prelude::*;

verus! {

/// One of the six outcomes a single die can show.
#[derive(Debug, PartialEq, Eq, Clone, Copy, Structural)]
pub enum DieFace {
    One,
    Two,
    Three,
    Energy,
    Claw,
    Heart,
}

/// How many dice in `s` show the face `f`.
pub open spec fn count_face(s: Seq<DieFace>, f: DieFace) -> nat
    decreases s.len(),
{
    if s.len() == 0 {
        0
    } else {
        count_face(s.drop_last(), f) + (if s.last() == f { 1nat } else { 0nat })
    }
}

/// The counts of the six faces partition a roll: over any sequence of faces,
/// the per-face counts sum to the sequence's length.
pub proof fn lemma_face_counts_total(s: Seq<DieFace>)
    ensures
        count_face(s, DieFace::One) + count_face(s, DieFace::Two) + count_face(s, DieFace::Three)
            + count_face(s, DieFace::Energy) + count_face(s, DieFace::Claw)
            + count_face(s, DieFace::Heart) == s.len(),
    decreases s.len(),
{
    if s.len() > 0 {
        lemma_face_counts_total(s.drop_last());
    }
}

/// The tally of one six-die roll: how many dice showed each face.
#[derive(Debug, PartialEq, Eq, Clone, Copy, Structural)]
pub struct FaceTally {
    pub ones: u8,
    pub twos: u8,
    pub threes: u8,
    pub energy: u8,
    pub claws: u8,
    pub hearts: u8,
}

impl FaceTally {
    /// The tally agrees with the roll: each field counts its face.
    pub open spec fn counts(self, roll: Seq<DieFace>) -> bool {
        &&& self.ones == count_face(roll, DieFace::One)
        &&& self.twos == count_face(roll, DieFace::Two)
        &&& self.threes == count_face(roll, DieFace::Three)
        &&& self.energy == count_face(roll, DieFace::Energy)
        &&& self.claws == count_face(roll, DieFace::Claw)
        &&& self.hearts == count_face(roll, DieFace::Heart)
    }
}

/// Tally the six faces of a roll. The six counts sum to exactly 6.
pub fn tally(roll: &[DieFace; 6]) -> (t: FaceTally)
    ensures
        t.counts(roll@),
        t.ones + t.twos + t.threes + t.energy + t.claws + t.hearts == 6,
{
    let mut t = FaceTally { ones: 0, twos: 0, threes: 0, energy: 0, claws: 0, hearts: 0 };
    for i in 0..6
        invariant
            t.counts(roll@.take(i as int)),
            t.ones <= i && t.twos <= i && t.threes <= i,
            t.energy <= i && t.claws <= i && t.hearts <= i,
    {
        proof {
            assert(roll@.take(i + 1).drop_last() =~= roll@.take(i as int));
            assert(roll@.take(i + 1).last() == roll@[i as int]);
        }
        match roll[i] {
            DieFace::One => t.ones = t.ones + 1,
            DieFace::Two => t.twos = t.twos + 1,
            DieFace::Three => t.threes = t.threes + 1,
            DieFace::Energy => t.energy = t.energy + 1,
            DieFace::Claw => t.claws = t.claws + 1,
            DieFace::Heart => t.hearts = t.hearts + 1,
        }
    }
    proof {
        assert(roll@.take(6) =~= roll@);
        lemma_face_counts_total(roll@);
    }
    t
}

/// Relies on rand::thread_rng and rand::Rng::gen_range: a draw from the
/// nonempty range 1..=6 lies in that range.
#[verifier::external_body]
fn random_die_value() -> (r: u8)
    ensures
        1 <= r <= 6,
{
    rand::thread_rng().gen_range(1..=6)
}

/// The face shown for a raw die value in 1..=6.
pub fn face_of_value(v: u8) -> (f: DieFace)
    requires
        1 <= v <= 6,
    ensures
        f == (match v {
            1u8 => DieFace::One,
            2u8 => DieFace::Two,
            3u8 => DieFace::Three,
            4u8 => DieFace::Energy,
            5u8 => DieFace::Claw,
            _ => DieFace::Heart,
        }),
{
    match v {
        1 => DieFace::One,
        2 => DieFace::Two,
        3 => DieFace::Three,
        4 => DieFace::Energy,
        5 => DieFace::Claw,
        _ => DieFace::Heart,
    }
}

/// Roll one die: draw a uniform value and map it to its face.
fn roll_one() -> DieFace {
    face_of_value(random_die_value())
}

/// Roll six dice. Each draw is independent; nothing beyond the count of
/// dice can be promised of a random roll.
pub fn roll_dice() -> (roll: [DieFace; 6])
    ensures
        roll@.len() == 6,
{
    [roll_one(), roll_one(), roll_one(), roll_one(), roll_one(), roll_one()]
}

} // verus!
