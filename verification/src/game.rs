use crate::dice::{count_face, tally, DieFace};
use crate::player::{same_identity, Player};
use crate::{add_clamped, sub_floored};
use vstd::prelude::*;

verus! {

/// Where turn resolution stands: finished, or blocked on one of the three
/// yes/no decisions that the external driver must answer.
#[derive(Debug, PartialEq, Eq, Clone, Copy, Structural)]
pub enum TurnPhase {
    /// Resolution is complete; no decision is pending.
    Done,
    /// The occupant has attacked and may now concede the zone.
    AwaitConcedeAfterAttack,
    /// A challenger rolled attacks at an occupied zone; the occupant may
    /// concede to the challenge.
    AwaitChallengeConcede,
    /// The zone is vacant; the active player may enter it.
    AwaitEnter,
}

/// The number-matching score of a roll: for each face value among 1, 2, 3
/// that shows at least three times, that value in points, added up.
pub open spec fn match_bonus(roll: Seq<DieFace>) -> int {
    (if count_face(roll, DieFace::One) >= 3 {
        1int
    } else {
        0int
    }) + (if count_face(roll, DieFace::Two) >= 3 {
        2int
    } else {
        0int
    }) + (if count_face(roll, DieFace::Three) >= 3 {
        3int
    } else {
        0int
    })
}

/// How a roll changes the active player's own stats: the number-matching
/// bonus on score, one energy per Energy face, and one health per Heart face
/// unless the player occupies the zone, which suppresses healing entirely.
pub open spec fn roll_applied(a: Player, b: Player, roll: Seq<DieFace>, occupant: bool) -> bool {
    &&& same_identity(a, b)
    &&& b.victory_points == add_clamped(a.victory_points as int, match_bonus(roll), MAX_VP as int)
    &&& b.energy == add_clamped(a.energy as int, count_face(roll, DieFace::Energy) as int, u8::MAX as int)
    &&& b.hp == (if occupant {
        a.hp as int
    } else {
        add_clamped(a.hp as int, count_face(roll, DieFace::Heart) as int, MAX_HP as int)
    })
}

/// How the game ends: a player reached the score cap while alive, exactly one
/// player is left alive, or every player fell in the same step.
#[derive(Debug, PartialEq, Eq, Clone, Copy, Structural)]
pub enum Outcome {
    /// The player with this identifier reached the score cap with health left.
    ScoreVictory(u32),
    /// The player with this identifier is the only one with health left.
    LastStanding(u32),
    /// No player has health left.
    Draw,
}

/// The player is not eliminated.
pub open spec fn is_alive(p: Player) -> bool {
    p.hp > 0
}

/// The player wins on score: alive and at or over the score cap.
pub open spec fn is_score_winner(p: Player) -> bool {
    p.hp > 0 && p.victory_points >= MAX_VP
}

/// The identifier of the first player in registry scan order satisfying
/// `pred`, or `None` if none does.
pub open spec fn first_match(s: Seq<Player>, pred: spec_fn(Player) -> bool) -> Option<u32>
    decreases s.len(),
{
    if s.len() == 0 {
        None
    } else if pred(s.first()) {
        Some(s.first().id)
    } else {
        first_match(s.drop_first(), pred)
    }
}

/// How many players in `s` satisfy `pred`.
pub open spec fn count_matching(s: Seq<Player>, pred: spec_fn(Player) -> bool) -> nat
    decreases s.len(),
{
    if s.len() == 0 {
        0
    } else {
        count_matching(s.drop_last(), pred) + (if pred(s.last()) {
            1nat
        } else {
            0nat
        })
    }
}

/// The terminal condition over a registry: the first alive player at the
/// score cap wins on score; failing that, a single alive player is the last
/// one standing; zero alive players is a draw; otherwise the game goes on.
pub open spec fn victory_outcome(s: Seq<Player>) -> Option<Outcome> {
    match first_match(s, |p: Player| is_score_winner(p)) {
        Some(id) => Some(Outcome::ScoreVictory(id)),
        None => if count_matching(s, |p: Player| is_alive(p)) == 1 {
            match first_match(s, |p: Player| is_alive(p)) {
                Some(id) => Some(Outcome::LastStanding(id)),
                None => None,
            }
        } else if count_matching(s, |p: Player| is_alive(p)) == 0 {
            Some(Outcome::Draw)
        } else {
            None
        },
    }
}

/// If the first `i` players fail `pred` and player `i` satisfies it, the
/// scan finds player `i`.
proof fn lemma_first_match_found(s: Seq<Player>, pred: spec_fn(Player) -> bool, i: int)
    requires
        0 <= i < s.len(),
        pred(s[i]),
        forall|j: int| 0 <= j < i ==> !pred(#[trigger] s[j]),
    ensures
        first_match(s, pred) == Some(s[i].id),
    decreases i,
{
    if i == 0 {
    } else {
        assert(!pred(s.first()));
        assert(s.drop_first()[i - 1] == s[i]);
        assert(forall|j: int| 0 <= j < i - 1 ==> !pred(#[trigger] s.drop_first()[j]));
        lemma_first_match_found(s.drop_first(), pred, i - 1);
    }
}

/// If no player satisfies `pred`, the scan finds none.
proof fn lemma_first_match_none(s: Seq<Player>, pred: spec_fn(Player) -> bool)
    requires
        forall|j: int| 0 <= j < s.len() ==> !pred(#[trigger] s[j]),
    ensures
        first_match(s, pred) is None,
    decreases s.len(),
{
    if s.len() > 0 {
        assert(forall|j: int| 0 <= j < s.len() - 1 ==> !pred(#[trigger] s.drop_first()[j]));
        lemma_first_match_none(s.drop_first(), pred);
    }
}

/// In a well-formed game no player's health exceeds the health cap and no
/// player's score exceeds the score cap; both are unsigned, so neither is
/// ever negative. Every mutating method of `Game` keeps the game well-formed,
/// so these bounds hold after arbitrary sequences of resolver calls.
pub proof fn lemma_stat_bounds(g: Game)
    requires
        g.wf(),
    ensures
        forall|i: int|
            0 <= i < g.players@.len() ==> {
                let p = #[trigger] g.players@[i];
                p.hp <= MAX_HP && p.victory_points <= MAX_VP
            },
{
}

/// At most one player occupies the zone: any two occupants are the same
/// player, since occupancy is a single optional identifier.
pub proof fn lemma_single_occupant(g: Game, id1: u32, id2: u32)
    requires
        g.is_occupant(id1),
        g.is_occupant(id2),
    ensures
        id1 == id2,
{
}

/// How a roll leaves a non-active player: identity, score and energy as they
/// were, and health down by `dmg`, floored at zero.
pub open spec fn damaged(a: Player, b: Player, dmg: int) -> bool {
    &&& same_identity(a, b)
    &&& b.victory_points == a.victory_points
    &&& b.energy == a.energy
    &&& b.hp == sub_floored(a.hp as int, dmg)
}

/// The cap on a player's health.
pub const MAX_HP: u8 = 12;

/// The cap on a player's score; reaching it wins the game.
pub const MAX_VP: u8 = 20;

/// The fewest players a game admits.
pub const MIN_PLAYERS: usize = 2;

/// The most players a game admits.
pub const MAX_PLAYERS: usize = 6;

/// The whole game state: the player registry, in creation order, and the
/// identifier of the zone occupant, if any. Identifiers are assigned 1, 2, ...
/// in registry order and never change, so player `id` sits at index `id - 1`.
pub struct Game {
    pub players: Vec<Player>,
    pub tokyo_controller_id: Option<u32>,
    pub max_hp: u8,
    pub max_vp: u8,
}

impl Game {
    /// Well-formedness: the configured caps, a player count within bounds,
    /// identifiers equal to index plus one (hence unique), every stat within
    /// its cap, and any zone occupant a registered player.
    pub open spec fn wf(self) -> bool {
        &&& MIN_PLAYERS <= self.players@.len() <= MAX_PLAYERS
        &&& self.max_hp == MAX_HP
        &&& self.max_vp == MAX_VP
        &&& forall|i: int|
            0 <= i < self.players@.len() ==> {
                let p = #[trigger] self.players@[i];
                &&& p.id == i + 1
                &&& p.hp <= MAX_HP
                &&& p.victory_points <= MAX_VP
            }
        &&& match self.tokyo_controller_id {
            Some(id) => 1 <= id <= self.players@.len(),
            None => true,
        }
    }

    /// The identifier belongs to a registered player.
    pub open spec fn valid_player(self, id: u32) -> bool {
        1 <= id <= self.players@.len()
    }

    /// The record of the player with this identifier.
    pub open spec fn player_of(self, id: u32) -> Player
        recommends
            self.valid_player(id),
    {
        self.players@[id - 1]
    }

    /// This player occupies the zone.
    pub open spec fn is_occupant(self, id: u32) -> bool {
        self.tokyo_controller_id == Some(id)
    }

    /// A fresh game: one new player per name, identifiers 1, 2, ... in the
    /// order given, and the zone vacant.
    pub fn new(player_names: Vec<String>) -> (g: Game)
        requires
            MIN_PLAYERS <= player_names@.len() <= MAX_PLAYERS,
        ensures
            g.wf(),
            g.players@.len() == player_names@.len(),
            g.tokyo_controller_id is None,
            forall|i: int|
                0 <= i < player_names@.len() ==> {
                    let p = #[trigger] g.players@[i];
                    &&& p.id == i + 1
                    &&& p.name == player_names@[i]
                    &&& p.hp == 10
                    &&& p.victory_points == 0
                    &&& p.energy == 0
                },
    {
        let mut players: Vec<Player> = Vec::new();
        let n = player_names.len();
        for i in 0..n
            invariant
                n == player_names@.len() <= MAX_PLAYERS,
                players@.len() == i,
                forall|j: int|
                    0 <= j < i ==> {
                        let p = #[trigger] players@[j];
                        &&& p.id == j + 1
                        &&& p.name == player_names@[j]
                        &&& p.hp == 10
                        &&& p.victory_points == 0
                        &&& p.energy == 0
                    },
        {
            let name = player_names[i].clone();
            players.push(Player::new((i + 1) as u32, name));
        }
        Game { players, tokyo_controller_id: None, max_hp: MAX_HP, max_vp: MAX_VP }
    }

    /// Read-only lookup by identifier: the player whose `id` matches, or
    /// `None` for a stale identifier.
    pub fn get_player(&self, player_id: u32) -> (r: Option<&Player>)
        requires
            self.wf(),
        ensures
            match r {
                Some(p) => self.valid_player(player_id) && *p == self.player_of(player_id),
                None => !self.valid_player(player_id),
            },
    {
        let n = self.players.len();
        for i in 0..n
            invariant
                self.wf(),
                n == self.players@.len(),
                forall|j: int| 0 <= j < i ==> (#[trigger] self.players@[j]).id != player_id,
        {
            if self.players[i].id == player_id {
                proof {
                    assert(self.players@[i as int].id == i + 1);
                }
                return Some(&self.players[i]);
            }
        }
        proof {
            if 1 <= player_id && player_id <= self.players@.len() {
                assert(self.players@[player_id - 1].id == player_id);
                assert(false);
            }
        }
        None
    }

    /// Mutable lookup by identifier. A stale identifier is a programming
    /// error, never expected in play, so a registered one is demanded here.
    pub fn get_player_mut(&mut self, player_id: u32) -> (p: &mut Player)
        requires
            old(self).wf(),
            old(self).valid_player(player_id),
        ensures
            *p == old(self).player_of(player_id),
            final(self).players@ == old(self).players@.update(player_id - 1, *final(p)),
            final(self).tokyo_controller_id == old(self).tokyo_controller_id,
            final(self).max_hp == old(self).max_hp,
            final(self).max_vp == old(self).max_vp,
    {
        let idx = (player_id - 1) as usize;
        &mut self.players[idx]
    }

    /// The passive zone reward at the start of the occupant's turn: if the
    /// zone is occupied, its occupant gains 2 score, clamped to the cap;
    /// a vacant zone changes nothing. Occupancy itself never changes here.
    pub fn apply_tokyo_control_points(&mut self)
        requires
            old(self).wf(),
        ensures
            final(self).wf(),
            final(self).tokyo_controller_id == old(self).tokyo_controller_id,
            final(self).players@.len() == old(self).players@.len(),
            match old(self).tokyo_controller_id {
                Some(id) => {
                    let a = old(self).player_of(id);
                    let b = final(self).player_of(id);
                    &&& same_identity(a, b)
                    &&& b.hp == a.hp
                    &&& b.energy == a.energy
                    &&& b.victory_points == add_clamped(a.victory_points as int, 2, MAX_VP as int)
                    &&& forall|j: int|
                        0 <= j < old(self).players@.len() && j != id - 1
                            ==> final(self).players@[j] == #[trigger] old(self).players@[j]
                },
                None => final(self).players@ == old(self).players@,
            },
    {
        let max_vp = self.max_vp;
        if let Some(controller_id) = self.tokyo_controller_id {
            let idx = (controller_id - 1) as usize;
            self.players[idx].add_score(2, max_vp);
        }
    }

    /// Apply the unconditional effects of a roll for the active player, in
    /// order: number-matching score, energy, healing (suppressed for the
    /// occupant), and, if the occupant rolled any Attack faces, damage to
    /// every other player. Occupancy never changes here; the returned phase
    /// says which decision, if any, the driver must answer next:
    /// no Attack faces end the turn, an attacking occupant may concede, a
    /// challenger of an occupied zone triggers a concession query, and
    /// Attack faces at a vacant zone trigger an entry query.
    pub fn resolve_roll_effects(&mut self, player_id: u32, roll: &[DieFace; 6]) -> (phase:
        TurnPhase)
        requires
            old(self).wf(),
            old(self).valid_player(player_id),
        ensures
            final(self).wf(),
            final(self).tokyo_controller_id == old(self).tokyo_controller_id,
            final(self).players@.len() == old(self).players@.len(),
            roll_applied(
                old(self).player_of(player_id),
                final(self).player_of(player_id),
                roll@,
                old(self).is_occupant(player_id),
            ),
            forall|j: int|
                0 <= j < old(self).players@.len() && j != player_id - 1 ==> damaged(
                    #[trigger] old(self).players@[j],
                    final(self).players@[j],
                    if old(self).is_occupant(player_id) {
                        count_face(roll@, DieFace::Claw) as int
                    } else {
                        0int
                    },
                ),
            phase == (if count_face(roll@, DieFace::Claw) == 0 {
                TurnPhase::Done
            } else if old(self).is_occupant(player_id) {
                TurnPhase::AwaitConcedeAfterAttack
            } else if old(self).tokyo_controller_id is Some {
                TurnPhase::AwaitChallengeConcede
            } else {
                TurnPhase::AwaitEnter
            }),
    {
        let t = tally(roll);
        let in_tokyo = match self.tokyo_controller_id {
            Some(id) => id == player_id,
            None => false,
        };
        let max_hp = self.max_hp;
        let max_vp = self.max_vp;
        let idx = (player_id - 1) as usize;

        let mut bonus: u8 = 0;
        if t.ones >= 3 {
            bonus = bonus + 1;
        }
        if t.twos >= 3 {
            bonus = bonus + 2;
        }
        if t.threes >= 3 {
            bonus = bonus + 3;
        }
        proof {
            assert(bonus as int == match_bonus(roll@));
        }
        self.players[idx].add_score(bonus, max_vp);
        self.players[idx].add_energy(t.energy);
        if !in_tokyo {
            self.players[idx].add_health(t.hearts, max_hp);
        }

        if t.claws > 0 {
            if in_tokyo {
                let ghost pre = *self;
                proof {
                    assert forall|j: int| 0 <= j < pre.players@.len() implies (
                    #[trigger] pre.players@[j]).id == j + 1 by {
                        assert(old(self).players@[j].id == j + 1);
                    }
                }
                let n = self.players.len();
                for i in 0..n
                    invariant
                        n == self.players@.len() == pre.players@.len(),
                        idx == player_id - 1 < n,
                        self.tokyo_controller_id == pre.tokyo_controller_id,
                        self.max_hp == pre.max_hp,
                        self.max_vp == pre.max_vp,
                        forall|j: int|
                            0 <= j < pre.players@.len() ==> (#[trigger] pre.players@[j]).id == j
                                + 1,
                        forall|j: int|
                            i <= j < n || j == idx ==> #[trigger] self.players@[j]
                                == pre.players@[j],
                        forall|j: int|
                            0 <= j < i && j != idx ==> damaged(
                                pre.players@[j],
                                #[trigger] self.players@[j],
                                t.claws as int,
                            ),
                {
                    if self.players[i].id != player_id {
                        self.players[i].subtract_health(t.claws);
                    }
                }
                TurnPhase::AwaitConcedeAfterAttack
            } else {
                if self.tokyo_controller_id.is_some() {
                    TurnPhase::AwaitChallengeConcede
                } else {
                    TurnPhase::AwaitEnter
                }
            }
        } else {
            TurnPhase::Done
        }
    }

    /// Evaluate the terminal conditions against the registry: the first
    /// alive player at the score cap in scan order wins on score; otherwise
    /// a single alive player is the last one standing, no alive player is a
    /// draw, and anything else means the game goes on.
    pub fn check_victory_condition(&self) -> (r: Option<Outcome>)
        requires
            self.wf(),
        ensures
            r == victory_outcome(self.players@),
    {
        let n = self.players.len();

        for i in 0..n
            invariant
                self.wf(),
                n == self.players@.len(),
                forall|j: int| 0 <= j < i ==> !is_score_winner(#[trigger] self.players@[j]),
        {
            if self.players[i].hp > 0 && self.players[i].victory_points >= self.max_vp {
                proof {
                    lemma_first_match_found(
                        self.players@,
                        |p: Player| is_score_winner(p),
                        i as int,
                    );
                }
                return Some(Outcome::ScoreVictory(self.players[i].id));
            }
        }
        proof {
            lemma_first_match_none(self.players@, |p: Player| is_score_winner(p));
        }

        let mut alive: usize = 0;
        let mut first_alive_id: Option<u32> = None;
        for i in 0..n
            invariant
                self.wf(),
                n == self.players@.len(),
                alive <= i,
                alive == count_matching(self.players@.take(i as int), |p: Player| is_alive(p)),
                match first_alive_id {
                    Some(id) => first_match(self.players@, |p: Player| is_alive(p)) == Some(id),
                    None => forall|j: int| 0 <= j < i ==> !is_alive(#[trigger] self.players@[j]),
                },
                (first_alive_id is None) <==> (alive == 0),
        {
            proof {
                assert(self.players@.take(i + 1).drop_last() =~= self.players@.take(i as int));
                assert(self.players@.take(i + 1).last() == self.players@[i as int]);
            }
            if self.players[i].hp > 0 {
                if alive == 0 {
                    proof {
                        lemma_first_match_found(self.players@, |p: Player| is_alive(p), i as int);
                    }
                    first_alive_id = Some(self.players[i].id);
                }
                alive = alive + 1;
            }
        }
        proof {
            assert(self.players@.take(n as int) =~= self.players@);
        }

        if alive == 1 {
            match first_alive_id {
                Some(id) => {
                    return Some(Outcome::LastStanding(id));
                },
                None => {},
            }
        }
        if alive == 0 {
            return Some(Outcome::Draw);
        }
        None
    }

    /// Answer one pending decision and move resolution forward. A conceding
    /// occupant (after attacking, or to a challenge) vacates the zone; a
    /// concession to a challenge leaves the entry decision pending next; an
    /// answered entry puts the active player into the zone with 1 score,
    /// clamped to the cap. A declined decision changes nothing. Player stats
    /// change only on entry, and only the active player's score.
    pub fn answer_decision(&mut self, player_id: u32, phase: TurnPhase, answer: bool) -> (next:
        TurnPhase)
        requires
            old(self).wf(),
            old(self).valid_player(player_id),
            phase != TurnPhase::Done,
            phase == TurnPhase::AwaitConcedeAfterAttack ==> old(self).is_occupant(player_id),
            phase == TurnPhase::AwaitChallengeConcede ==> old(self).tokyo_controller_id is Some
                && !old(self).is_occupant(player_id),
            phase == TurnPhase::AwaitEnter ==> old(self).tokyo_controller_id is None,
        ensures
            final(self).wf(),
            final(self).players@.len() == old(self).players@.len(),
            next == (if phase == TurnPhase::AwaitChallengeConcede && answer {
                TurnPhase::AwaitEnter
            } else {
                TurnPhase::Done
            }),
            final(self).tokyo_controller_id == (match phase {
                TurnPhase::Done => old(self).tokyo_controller_id,
                TurnPhase::AwaitConcedeAfterAttack => if answer {
                    Option::<u32>::None
                } else {
                    old(self).tokyo_controller_id
                },
                TurnPhase::AwaitChallengeConcede => if answer {
                    Option::<u32>::None
                } else {
                    old(self).tokyo_controller_id
                },
                TurnPhase::AwaitEnter => if answer {
                    Some(player_id)
                } else {
                    Option::<u32>::None
                },
            }),
            phase == TurnPhase::AwaitEnter && answer ==> {
                let a = old(self).player_of(player_id);
                let b = final(self).player_of(player_id);
                &&& same_identity(a, b)
                &&& b.hp == a.hp
                &&& b.energy == a.energy
                &&& b.victory_points == add_clamped(a.victory_points as int, 1, MAX_VP as int)
                &&& forall|j: int|
                    0 <= j < old(self).players@.len() && j != player_id - 1
                        ==> final(self).players@[j] == #[trigger] old(self).players@[j]
            },
            !(phase == TurnPhase::AwaitEnter && answer)
                ==> final(self).players@ == old(self).players@,
    {
        match phase {
            TurnPhase::Done => TurnPhase::Done,
            TurnPhase::AwaitConcedeAfterAttack => {
                if answer {
                    self.tokyo_controller_id = None;
                }
                TurnPhase::Done
            },
            TurnPhase::AwaitChallengeConcede => {
                if answer {
                    self.tokyo_controller_id = None;
                    TurnPhase::AwaitEnter
                } else {
                    TurnPhase::Done
                }
            },
            TurnPhase::AwaitEnter => {
                if answer {
                    self.tokyo_controller_id = Some(player_id);
                    let max_vp = self.max_vp;
                    let idx = (player_id - 1) as usize;
                    self.players[idx].add_score(1, max_vp);
                }
                TurnPhase::Done
            },
        }
    }
}

} // verus!
