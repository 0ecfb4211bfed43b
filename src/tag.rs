use vstd::prelude::*;

verus! {

/// Number of defined categories; raw values from here up to 63 are reserved.
pub const TAG_COUNT: u8 = 7;

/// The semantic kind of a block.
///
/// Ordering contract: the variants are grouped so that their discriminants
/// form contiguous ranges. Passable kinds come first (below `Ore`), mineable
/// kinds next (above `ModPassable`, below `Void`), all others last. A new kind
/// must be inserted into its group's range, since the classifiers compare
/// discriminants and never look at individual variants.
#[derive(Clone, Copy, Debug, PartialEq, Eq, Structural)]
pub enum Tag {
    // Passable
    Empty,
    ModPassable,
    // Mineable
    Ore,
    Stone,
    Wall,
    // Other
    Void,
    ModSolid,
}

impl Tag {
    /// The discriminant of each kind, in declaration order.
    pub open spec fn spec_id(self) -> u8 {
        match self {
            Tag::Empty => 0,
            Tag::ModPassable => 1,
            Tag::Ore => 2,
            Tag::Stone => 3,
            Tag::Wall => 4,
            Tag::Void => 5,
            Tag::ModSolid => 6,
        }
    }

    /// The kind whose discriminant is `v`, if `v` is a defined one.
    pub open spec fn spec_from_raw(v: u8) -> Option<Tag> {
        if v == 0 {
            Some(Tag::Empty)
        } else if v == 1 {
            Some(Tag::ModPassable)
        } else if v == 2 {
            Some(Tag::Ore)
        } else if v == 3 {
            Some(Tag::Stone)
        } else if v == 4 {
            Some(Tag::Wall)
        } else if v == 5 {
            Some(Tag::Void)
        } else if v == 6 {
            Some(Tag::ModSolid)
        } else {
            None
        }
    }

    #[verifier::when_used_as_spec(spec_id)]
    pub fn id(self) -> (r: u8)
        ensures
            r == self.spec_id(),
            r < TAG_COUNT,
    {
        match self {
            Tag::Empty => 0,
            Tag::ModPassable => 1,
            Tag::Ore => 2,
            Tag::Stone => 3,
            Tag::Wall => 4,
            Tag::Void => 5,
            Tag::ModSolid => 6,
        }
    }

    /// Reads a raw discriminant; a reserved value gives `None` rather than
    /// being taken for some kind.
    #[verifier::when_used_as_spec(spec_from_raw)]
    pub fn from_raw(v: u8) -> (r: Option<Tag>)
        ensures
            r == Tag::spec_from_raw(v),
            r is Some <==> v < TAG_COUNT,
            r matches Some(t) ==> t.id() == v,
    {
        match v {
            0 => Some(Tag::Empty),
            1 => Some(Tag::ModPassable),
            2 => Some(Tag::Ore),
            3 => Some(Tag::Stone),
            4 => Some(Tag::Wall),
            5 => Some(Tag::Void),
            6 => Some(Tag::ModSolid),
            _ => None,
        }
    }

    /// Whether an entity may move through a block of this kind: every kind
    /// ordered before the first mineable one.
    pub fn is_passable(self) -> (r: bool)
        ensures
            r == (self.id() < Tag::Ore.id()),
    {
        self.id() < Tag::Ore.id()
    }

    /// Whether a block of this kind can be mined: every kind ordered after
    /// the last passable one and before the first of the others.
    pub fn is_mineable(self) -> (r: bool)
        ensures
            r == (Tag::ModPassable.id() < self.id() && self.id() < Tag::Void.id()),
    {
        Tag::ModPassable.id() < self.id() && self.id() < Tag::Void.id()
    }
}

} // verus!
