use vstd::prelude::*;
use crate::sign::Sign;

verus! {

/// What an electron collides with.
#[derive(Clone, Copy, PartialEq, Eq, Debug, Structural)]
pub enum CollidableKind {
    Border,
    Ion,
    Electron,
}

/// How many electrons have reached a border while moving right (`elec_left`)
/// and while moving left (`elec_right`).
#[derive(Clone, Copy, PartialEq, Eq, Debug, Structural)]
pub struct CrossingCounts {
    pub elec_left: i32,
    pub elec_right: i32,
}

impl CrossingCounts {
    /// The counts after a collision with a thing of kind `kind` by an electron
    /// whose horizontal velocity has the sign `vel_x`.
    pub open spec fn spec_record(self, kind: CollidableKind, vel_x: Sign) -> CrossingCounts {
        if kind is Border && vel_x is Positive {
            CrossingCounts { elec_left: (self.elec_left + 1) as i32, ..self }
        } else if kind is Border && vel_x is Negative {
            CrossingCounts { elec_right: (self.elec_right + 1) as i32, ..self }
        } else {
            self
        }
    }

    /// The recording of this collision does not overflow a count.
    pub open spec fn can_record(self, kind: CollidableKind, vel_x: Sign) -> bool {
        &&& (kind is Border && vel_x is Positive ==> self.elec_left < i32::MAX)
        &&& (kind is Border && vel_x is Negative ==> self.elec_right < i32::MAX)
    }

    /// No crossing yet.
    pub fn new() -> (r: CrossingCounts)
        ensures
            r.elec_left == 0,
            r.elec_right == 0,
    {
        CrossingCounts { elec_left: 0, elec_right: 0 }
    }

    /// Records a collision: one crossing more on the side the electron moves
    /// to when it reaches a border, nothing for other collisions.
    pub fn record(&mut self, kind: CollidableKind, vel_x: Sign)
        requires
            old(self).can_record(kind, vel_x),
        ensures
            *final(self) == old(self).spec_record(kind, vel_x),
            kind is Border && vel_x is Positive ==> final(self).elec_left == old(self).elec_left + 1
                && final(self).elec_right == old(self).elec_right,
            kind is Border && vel_x is Negative ==> final(self).elec_right == old(self).elec_right
                + 1 && final(self).elec_left == old(self).elec_left,
            !(kind is Border && vel_x.is_nonzero()) ==> *final(self) == *old(self),
    {
        proof {
            lemma_record_sides(*old(self), kind, vel_x);
        }
        match kind {
            CollidableKind::Border => match vel_x {
                Sign::Positive => {
                    self.elec_left = self.elec_left + 1;
                },
                Sign::Negative => {
                    self.elec_right = self.elec_right + 1;
                },
                _ => {},
            },
            _ => {},
        }
    }
}

/// The counts never decrease, and each collision adds at most one crossing in
/// all: exactly one when an electron moving horizontally reaches a border.
pub proof fn lemma_record_counts_one(counts: CrossingCounts, kind: CollidableKind, vel_x: Sign)
    requires
        counts.can_record(kind, vel_x),
    ensures
        counts.spec_record(kind, vel_x).elec_left >= counts.elec_left,
        counts.spec_record(kind, vel_x).elec_right >= counts.elec_right,
        counts.spec_record(kind, vel_x).elec_left + counts.spec_record(kind, vel_x).elec_right
            == counts.elec_left + counts.elec_right + (if kind is Border && vel_x.is_nonzero() {
            1int
        } else {
            0int
        }),
{
}

/// A border reached while moving right adds one to `elec_left` and leaves
/// `elec_right` alone; a border reached while moving left adds one to
/// `elec_right` and leaves `elec_left` alone, whatever the counts were; any other
/// collision changes nothing.
pub proof fn lemma_record_sides(counts: CrossingCounts, kind: CollidableKind, vel_x: Sign)
    requires
        counts.can_record(kind, vel_x),
    ensures
        kind is Border && vel_x is Positive ==> counts.spec_record(kind, vel_x).elec_left
            == counts.elec_left + 1 && counts.spec_record(kind, vel_x).elec_right
            == counts.elec_right,
        kind is Border && vel_x is Negative ==> counts.spec_record(kind, vel_x).elec_right
            == counts.elec_right + 1 && counts.spec_record(kind, vel_x).elec_left
            == counts.elec_left,
        !(kind is Border && vel_x.is_nonzero()) ==> counts.spec_record(kind, vel_x) == counts,
{
}

} // verus!
