use crate::{add_clamped, sub_floored};
use vstd::prelude::*;

verus! {

/// One monster's record: a stable identifier, a display name, and the three
/// mutable stats. Health and score are clamped to their caps by the mutation
/// operations below; energy saturates only at the numeric-type boundary.
#[derive(Debug)]
pub struct Player {
    pub id: u32,
    pub name: String,
    pub hp: u8,
    pub victory_points: u8,
    pub energy: u8,
}

/// The two players agree on identifier and name.
pub open spec fn same_identity(a: Player, b: Player) -> bool {
    b.id == a.id && b.name == a.name
}

impl Player {
    /// A fresh player: 10 health, no points, no energy.
    pub fn new(id: u32, name: String) -> (p: Player)
        ensures
            p.id == id,
            p.name == name,
            p.hp == 10,
            p.victory_points == 0,
            p.energy == 0,
    {
        Player { id, name, hp: 10, victory_points: 0, energy: 0 }
    }

    /// Add score, saturating and clamped above at `cap`. Nothing else changes.
    pub fn add_score(&mut self, amount: u8, cap: u8)
        ensures
            final(self).victory_points == add_clamped(
                old(self).victory_points as int,
                amount as int,
                cap as int,
            ),
            same_identity(*old(self), *final(self)),
            final(self).hp == old(self).hp,
            final(self).energy == old(self).energy,
    {
        let v = self.victory_points.saturating_add(amount);
        self.victory_points = if v > cap {
            cap
        } else {
            v
        };
    }

    /// Add health, saturating and clamped above at `cap`. Nothing else changes.
    pub fn add_health(&mut self, amount: u8, cap: u8)
        ensures
            final(self).hp == add_clamped(old(self).hp as int, amount as int, cap as int),
            same_identity(*old(self), *final(self)),
            final(self).victory_points == old(self).victory_points,
            final(self).energy == old(self).energy,
    {
        let v = self.hp.saturating_add(amount);
        self.hp = if v > cap {
            cap
        } else {
            v
        };
    }

    /// Add energy, saturating at the numeric-type boundary only.
    pub fn add_energy(&mut self, amount: u8)
        ensures
            final(self).energy == add_clamped(old(self).energy as int, amount as int, u8::MAX as int),
            same_identity(*old(self), *final(self)),
            final(self).hp == old(self).hp,
            final(self).victory_points == old(self).victory_points,
    {
        self.energy = self.energy.saturating_add(amount);
    }

    /// Subtract health, floored at zero. Nothing else changes.
    pub fn subtract_health(&mut self, amount: u8)
        ensures
            final(self).hp == sub_floored(old(self).hp as int, amount as int),
            same_identity(*old(self), *final(self)),
            final(self).victory_points == old(self).victory_points,
            final(self).energy == old(self).energy,
    {
        self.hp = self.hp.saturating_sub(amount);
    }
}

} // verus!
