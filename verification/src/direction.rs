//! The four approaches to the junction and how they pair up.
use vstd::prelude::*;

verus! {

/// Cardinal direction identifying a traffic light installation.
#[derive(Debug, Clone, Copy, PartialEq, Eq, Hash, Structural)]
pub enum Direction {
    North,
    South,
    East,
    West,
}

/// Identifies a pair of opposing installations.
#[derive(Debug, Clone, Copy, PartialEq, Eq, Hash, Structural)]
pub enum PairId {
    NorthSouth,
    EastWest,
}

impl PairId {
    /// The other pair, whose road crosses this pair's road.
    pub open spec fn opposing(self) -> PairId {
        match self {
            PairId::NorthSouth => PairId::EastWest,
            PairId::EastWest => PairId::NorthSouth,
        }
    }

    /// The first member of the pair (North or East).
    pub open spec fn leader(self) -> Direction {
        match self {
            PairId::NorthSouth => Direction::North,
            PairId::EastWest => Direction::East,
        }
    }

    /// The second member of the pair (South or West).
    pub open spec fn follower(self) -> Direction {
        match self {
            PairId::NorthSouth => Direction::South,
            PairId::EastWest => Direction::West,
        }
    }
}

impl Direction {
    /// The pair this direction belongs to.
    pub open spec fn pair(self) -> PairId {
        match self {
            Direction::North | Direction::South => PairId::NorthSouth,
            Direction::East | Direction::West => PairId::EastWest,
        }
    }

    /// The opposing direction on the same road.
    pub open spec fn opposite(self) -> Direction {
        match self {
            Direction::North => Direction::South,
            Direction::South => Direction::North,
            Direction::East => Direction::West,
            Direction::West => Direction::East,
        }
    }

    /// Returns the pair this direction belongs to.
    pub fn pair_id(self) -> (p: PairId)
        ensures
            p == self.pair(),
    {
        match self {
            Direction::North | Direction::South => PairId::NorthSouth,
            Direction::East | Direction::West => PairId::EastWest,
        }
    }

    /// Returns the paired (opposing) direction.
    pub fn partner(self) -> (d: Direction)
        ensures
            d == self.opposite(),
    {
        match self {
            Direction::North => Direction::South,
            Direction::South => Direction::North,
            Direction::East => Direction::West,
            Direction::West => Direction::East,
        }
    }

    /// True when `self` and `other` are on perpendicular roads.
    pub open spec fn crosses(self, other: Direction) -> bool {
        self.pair() != other.pair() && self != other
    }

    /// True when each of `self` and `other` is the other's partner.
    pub open spec fn pairs_with(self, other: Direction) -> bool {
        self.opposite() == other && self == other.opposite()
    }

    /// Returns true if self and other are on perpendicular roads.
    pub fn intersects(self, other: Direction) -> (b: bool)
        ensures
            b == self.crosses(other),
    {
        self.pair_id() != other.pair_id() && self != other
    }

    /// Returns true if self and other are in the same pair.
    pub fn is_paired_with(self, other: Direction) -> (b: bool)
        ensures
            b == self.pairs_with(other),
    {
        if self.partner() == other && self == other.partner() {
            return true;
        }
        false
    }
}

/// Each direction's partner is another direction of the same pair, and the
/// partner of the partner is the direction itself.
pub proof fn lemma_partner_involution(d: Direction)
    ensures
        d.opposite() != d,
        d.opposite().pair() == d.pair(),
        d.opposite().opposite() == d,
        d.pairs_with(d.opposite()),
{
}

/// Two directions intersect exactly when they belong to different pairs: the
/// relation is symmetric, and no direction intersects itself or its partner.
pub proof fn lemma_crosses_iff_other_pair(a: Direction, b: Direction)
    ensures
        a.crosses(b) <==> a.pair() != b.pair(),
        a.crosses(b) <==> b.crosses(a),
        !a.crosses(a),
        !a.crosses(a.opposite()),
{
}

/// Two directions are paired exactly when they are distinct members of one pair,
/// that is when one is the partner of the other; the relation is symmetric.
pub proof fn lemma_pairs_with_iff_same_pair(a: Direction, b: Direction)
    ensures
        a.pairs_with(b) <==> (a.pair() == b.pair() && a != b),
        a.pairs_with(b) <==> b == a.opposite(),
        a.pairs_with(b) <==> b.pairs_with(a),
        a.pairs_with(b) ==> !a.crosses(b),
{
}

/// The members of a pair are partners of one another and belong to that pair;
/// the opposing pair is the other one.
pub proof fn lemma_pair_members(p: PairId)
    ensures
        p.leader().pair() == p,
        p.follower().pair() == p,
        p.leader().opposite() == p.follower(),
        p.opposing() != p,
        p.opposing().opposing() == p,
        p.leader().crosses(p.opposing().leader()),
{
}

} // verus!
