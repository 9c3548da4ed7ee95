//! A plain-value model of the game domain that the host queries. The live
//! game controller is owned outside this crate, behind a lock; a caller
//! copies out of it, while holding the lock, exactly what these functions
//! read: each unit's identifier and its readiness, and the planet. The lock
//! is released before any of the results are handed onward, so nothing here
//! ever spans a suspension point.

use vstd::prelude::*;

verus! {

/// One unit as a snapshot sees it: its identifier and whether the readiness
/// predicate holds for it this turn.
#[derive(Clone, Copy, PartialEq, Eq, Structural, Debug)]
pub struct Unit {
    /// The unit's identifier.
    pub id: i64,
    /// Whether the unit is ready to move.
    pub move_ready: bool,
}

/// Which planet the current game is played on.
#[derive(Clone, Copy, PartialEq, Eq, Structural, Debug)]
pub enum Planet {
    /// The home planet.
    Earth,
    /// The other planet.
    Mars,
}

/// A copy of the shared domain state taken at one instant, under the domain
/// lock. Later domain mutation does not affect a snapshot.
pub struct GameSnapshot {
    /// The planet of the current game.
    pub planet: Planet,
    /// The units visible at the instant of the snapshot, in domain order.
    pub units: Vec<Unit>,
}

/// The identifiers of all units, in domain order.
pub open spec fn all_ids(units: Seq<Unit>) -> Seq<i64>
    decreases units.len(),
{
    if units.len() == 0 {
        Seq::empty()
    } else {
        all_ids(units.drop_last()).push(units.last().id)
    }
}

/// The identifiers of the units that are ready to move, in domain order.
pub open spec fn ready_ids(units: Seq<Unit>) -> Seq<i64>
    decreases units.len(),
{
    if units.len() == 0 {
        Seq::empty()
    } else if units.last().move_ready {
        ready_ids(units.drop_last()).push(units.last().id)
    } else {
        ready_ids(units.drop_last())
    }
}

impl GameSnapshot {
    /// Every unit's identifier, in domain order.
    pub fn unit_ids(&self) -> (r: Vec<i64>)
        ensures
            r@ == all_ids(self.units@),
    {
        let mut out: Vec<i64> = Vec::new();
        let mut i: usize = 0;
        while i < self.units.len()
            invariant
                i <= self.units.len(),
                out@ == all_ids(self.units@.take(i as int)),
            decreases self.units.len() - i,
        {
            out.push(self.units[i].id);
            proof {
                let pre = self.units@.take(i as int);
                let post = self.units@.take(i as int + 1);
                assert(post.drop_last() =~= pre);
                assert(post.last() == self.units@[i as int]);
            }
            i = i + 1;
        }
        proof {
            assert(self.units@.take(self.units@.len() as int) =~= self.units@);
        }
        out
    }

    /// The identifiers of the units that are ready to move, in domain order.
    pub fn move_ready_ids(&self) -> (r: Vec<i64>)
        ensures
            r@ == ready_ids(self.units@),
    {
        let mut out: Vec<i64> = Vec::new();
        let mut i: usize = 0;
        while i < self.units.len()
            invariant
                i <= self.units.len(),
                out@ == ready_ids(self.units@.take(i as int)),
            decreases self.units.len() - i,
        {
            if self.units[i].move_ready {
                out.push(self.units[i].id);
            }
            proof {
                let pre = self.units@.take(i as int);
                let post = self.units@.take(i as int + 1);
                assert(post.drop_last() =~= pre);
                assert(post.last() == self.units@[i as int]);
            }
            i = i + 1;
        }
        proof {
            assert(self.units@.take(self.units@.len() as int) =~= self.units@);
        }
        out
    }

    /// The atom text naming the snapshot's planet.
    pub fn planet_atom(&self) -> (r: &'static str)
        ensures
            self.planet is Earth ==> r@ == "earth"@,
            self.planet is Mars ==> r@ == "mars"@,
    {
        match self.planet {
            Planet::Earth => "earth",
            Planet::Mars => "mars",
        }
    }
}

} // verus!
