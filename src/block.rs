use vstd::prelude::*;

use crate::tag::{Tag, TAG_COUNT};

verus! {

/// Bits 0 to 5: the discriminant of the block's kind.
pub const TAG_MASK: u8 = 0x3f;

/// Bit 7: the block touches solid ground.
pub const GND_BIT: u8 = 0x80;

/// Bit 6: the block is exposed to open air.
pub const AIR_BIT: u8 = 0x40;

/// One block of the world in a single byte. The three fields occupy disjoint
/// bits and together cover the whole byte.
#[derive(Clone, Copy, Debug, PartialEq, Eq, Structural)]
pub struct Block(u8);

proof fn lemma_bits_with_tag(x: u8, t: u8)
    requires
        t < 64,
    ensures
        ((x & !TAG_MASK) | t) & TAG_MASK == t,
        ((x & !TAG_MASK) | t) & GND_BIT == x & GND_BIT,
        ((x & !TAG_MASK) | t) & AIR_BIT == x & AIR_BIT,
{
    assert(((x & !0x3fu8) | t) & 0x3f == t) by (bit_vector)
        requires
            t < 64,
    ;
    assert(((x & !0x3fu8) | t) & 0x80 == x & 0x80) by (bit_vector)
        requires
            t < 64,
    ;
    assert(((x & !0x3fu8) | t) & 0x40 == x & 0x40) by (bit_vector)
        requires
            t < 64,
    ;
}

proof fn lemma_bits_set(x: u8)
    ensures
        (x | GND_BIT) & TAG_MASK == x & TAG_MASK,
        (x | GND_BIT) & GND_BIT == GND_BIT,
        (x | GND_BIT) & AIR_BIT == x & AIR_BIT,
        (x | AIR_BIT) & TAG_MASK == x & TAG_MASK,
        (x | AIR_BIT) & GND_BIT == x & GND_BIT,
        (x | AIR_BIT) & AIR_BIT == AIR_BIT,
{
    assert((x | 0x80u8) & 0x3f == x & 0x3f) by (bit_vector);
    assert((x | 0x80u8) & 0x80 == 0x80) by (bit_vector);
    assert((x | 0x80u8) & 0x40 == x & 0x40) by (bit_vector);
    assert((x | 0x40u8) & 0x3f == x & 0x3f) by (bit_vector);
    assert((x | 0x40u8) & 0x80 == x & 0x80) by (bit_vector);
    assert((x | 0x40u8) & 0x40 == 0x40) by (bit_vector);
}

proof fn lemma_bits_clear(x: u8)
    ensures
        (x & !GND_BIT) & TAG_MASK == x & TAG_MASK,
        (x & !GND_BIT) & GND_BIT == 0,
        (x & !GND_BIT) & AIR_BIT == x & AIR_BIT,
        (x & !AIR_BIT) & TAG_MASK == x & TAG_MASK,
        (x & !AIR_BIT) & GND_BIT == x & GND_BIT,
        (x & !AIR_BIT) & AIR_BIT == 0,
{
    assert((x & !0x80u8) & 0x3f == x & 0x3f) by (bit_vector);
    assert((x & !0x80u8) & 0x80 == 0) by (bit_vector);
    assert((x & !0x80u8) & 0x40 == x & 0x40) by (bit_vector);
    assert((x & !0x40u8) & 0x3f == x & 0x3f) by (bit_vector);
    assert((x & !0x40u8) & 0x80 == x & 0x80) by (bit_vector);
    assert((x & !0x40u8) & 0x40 == 0) by (bit_vector);
}

proof fn lemma_bits_determine(x: u8, y: u8)
    requires
        x & TAG_MASK == y & TAG_MASK,
        x & GND_BIT == y & GND_BIT,
        x & AIR_BIT == y & AIR_BIT,
    ensures
        x == y,
{
    assert(x == y) by (bit_vector)
        requires
            x & 0x3f == y & 0x3f,
            x & 0x80 == y & 0x80,
            x & 0x40 == y & 0x40,
    ;
}

/// A flag bit is either clear or equal to its mask.
proof fn lemma_flag_bits(x: u8)
    ensures
        x & GND_BIT == 0 || x & GND_BIT == GND_BIT,
        x & AIR_BIT == 0 || x & AIR_BIT == AIR_BIT,
{
    assert(x & 0x80 == 0 || x & 0x80 == 0x80) by (bit_vector);
    assert(x & 0x40 == 0 || x & 0x40 == 0x40) by (bit_vector);
}

impl Block {
    /// The tag bits always hold a defined discriminant.
    #[verifier::type_invariant]
    closed spec fn inv(self) -> bool {
        self.0 & TAG_MASK < TAG_COUNT
    }

    // Mathematical forms of the operations below, used where the operations
    // appear in contracts and laws.
    pub closed spec fn spec_default() -> Block {
        Block(0)
    }

    pub closed spec fn spec_byte(self) -> u8 {
        self.0
    }

    pub closed spec fn spec_tag(self) -> Tag {
        match Tag::from_raw(self.0 & TAG_MASK) {
            Some(t) => t,
            // excluded by the type invariant
            None => Tag::Empty,
        }
    }

    pub closed spec fn spec_gnd(self) -> bool {
        self.0 & GND_BIT == GND_BIT
    }

    pub closed spec fn spec_air(self) -> bool {
        self.0 & AIR_BIT == AIR_BIT
    }

    pub closed spec fn spec_with_tag(self, t: Tag) -> Block {
        Block((self.0 & !TAG_MASK) | t.id())
    }

    pub closed spec fn spec_with_gnd(self, f: bool) -> Block {
        if f {
            Block(self.0 | GND_BIT)
        } else {
            Block(self.0 & !GND_BIT)
        }
    }

    pub closed spec fn spec_with_air(self, f: bool) -> Block {
        if f {
            Block(self.0 | AIR_BIT)
        } else {
            Block(self.0 & !AIR_BIT)
        }
    }

    /// Whether `b` is a byte that some block is stored as.
    pub open spec fn valid_byte(b: u8) -> bool {
        b & TAG_MASK < TAG_COUNT
    }

    /// The block stored as `b`, or `None` where its tag bits hold a reserved
    /// discriminant.
    pub fn from_byte(b: u8) -> (r: Option<Block>)
        ensures
            r is Some <==> Block::valid_byte(b),
            r matches Some(c) ==> c.byte() == b,
    {
        if b & TAG_MASK < TAG_COUNT {
            Some(Block(b))
        } else {
            None
        }
    }

    /// The byte that this block is stored as.
    #[verifier::when_used_as_spec(spec_byte)]
    pub fn byte(self) -> (r: u8)
        ensures
            r == self.spec_byte(),
            Block::valid_byte(r),
    {
        proof {
            use_type_invariant(self);
        }
        self.0
    }

    /// This block with its kind replaced by `t`; both flags are kept.
    #[verifier::when_used_as_spec(spec_with_tag)]
    pub fn with_tag(self, t: Tag) -> (r: Block)
        ensures
            r == self.spec_with_tag(t),
            r.tag() == t,
            r.gnd() == self.gnd(),
            r.air() == self.air(),
    {
        proof {
            lemma_with_tag_fields(self, t);
            lemma_bits_with_tag(self.0, t.id());
        }
        Block((self.0 & !TAG_MASK) | t.id())
    }

    /// The block's kind, read from the tag bits.
    #[verifier::when_used_as_spec(spec_tag)]
    pub fn tag(self) -> (r: Tag)
        ensures
            r == self.spec_tag(),
            r.id() == self.byte() & TAG_MASK,
    {
        proof {
            use_type_invariant(self);
        }
        Tag::from_raw(self.0 & TAG_MASK).unwrap()
    }

    /// This block with the ground flag set to `f`; kind and air flag are kept.
    #[verifier::when_used_as_spec(spec_with_gnd)]
    pub fn with_gnd(self, f: bool) -> (r: Block)
        ensures
            r == self.spec_with_gnd(f),
            r.tag() == self.tag(),
            r.gnd() == f,
            r.air() == self.air(),
    {
        proof {
            use_type_invariant(self);
            lemma_with_gnd_fields(self, f);
            lemma_bits_set(self.0);
            lemma_bits_clear(self.0);
        }
        if f {
            Block(self.0 | GND_BIT)
        } else {
            Block(self.0 & !GND_BIT)
        }
    }

    /// Whether the block touches solid ground.
    #[verifier::when_used_as_spec(spec_gnd)]
    pub fn gnd(self) -> (r: bool)
        ensures
            r == self.spec_gnd(),
            r == (self.byte() & GND_BIT != 0),
    {
        proof {
            lemma_flag_bits(self.0);
        }
        self.0 & GND_BIT == GND_BIT
    }

    /// This block with the air flag set to `f`; kind and ground flag are kept.
    #[verifier::when_used_as_spec(spec_with_air)]
    pub fn with_air(self, f: bool) -> (r: Block)
        ensures
            r == self.spec_with_air(f),
            r.tag() == self.tag(),
            r.gnd() == self.gnd(),
            r.air() == f,
    {
        proof {
            use_type_invariant(self);
            lemma_with_air_fields(self, f);
            lemma_bits_set(self.0);
            lemma_bits_clear(self.0);
        }
        if f {
            Block(self.0 | AIR_BIT)
        } else {
            Block(self.0 & !AIR_BIT)
        }
    }

    /// Whether the block is exposed to open air.
    #[verifier::when_used_as_spec(spec_air)]
    pub fn air(self) -> (r: bool)
        ensures
            r == self.spec_air(),
            r == (self.byte() & AIR_BIT != 0),
    {
        proof {
            lemma_flag_bits(self.0);
        }
        self.0 & AIR_BIT == AIR_BIT
    }
}

proof fn lemma_with_tag_fields(b: Block, t: Tag)
    ensures
        b.with_tag(t).tag() == t,
        b.with_tag(t).gnd() == b.gnd(),
        b.with_tag(t).air() == b.air(),
        b.with_tag(t).0 & TAG_MASK == t.id(),
        b.with_tag(t).0 & GND_BIT == b.0 & GND_BIT,
        b.with_tag(t).0 & AIR_BIT == b.0 & AIR_BIT,
{
    lemma_bits_with_tag(b.0, t.id());
}

proof fn lemma_with_gnd_fields(b: Block, f: bool)
    ensures
        b.with_gnd(f).tag() == b.tag(),
        b.with_gnd(f).gnd() == f,
        b.with_gnd(f).air() == b.air(),
        b.with_gnd(f).0 & TAG_MASK == b.0 & TAG_MASK,
        b.with_gnd(f).0 & GND_BIT == (if f { GND_BIT } else { 0 }),
        b.with_gnd(f).0 & AIR_BIT == b.0 & AIR_BIT,
{
    lemma_bits_set(b.0);
    lemma_bits_clear(b.0);
}

proof fn lemma_with_air_fields(b: Block, f: bool)
    ensures
        b.with_air(f).tag() == b.tag(),
        b.with_air(f).gnd() == b.gnd(),
        b.with_air(f).air() == f,
        b.with_air(f).0 & TAG_MASK == b.0 & TAG_MASK,
        b.with_air(f).0 & GND_BIT == b.0 & GND_BIT,
        b.with_air(f).0 & AIR_BIT == (if f { AIR_BIT } else { 0 }),
{
    lemma_bits_set(b.0);
    lemma_bits_clear(b.0);
}

/// `b` holds kind `t`, ground flag `g` and air flag `a`.
pub open spec fn has_fields(b: Block, t: Tag, g: bool, a: bool) -> bool {
    b.tag() == t && b.gnd() == g && b.air() == a
}

/// A stored block is determined by its kind and its two flags: the three
/// fields together cover the whole byte.
pub proof fn lemma_fields_determine(x: Block, y: Block)
    requires
        Block::valid_byte(x.byte()),
        Block::valid_byte(y.byte()),
        x.tag() == y.tag(),
        x.gnd() == y.gnd(),
        x.air() == y.air(),
    ensures
        x == y,
{
    lemma_flag_bits(x.0);
    lemma_flag_bits(y.0);
    lemma_bits_determine(x.0, y.0);
}

/// Writing the kind, the ground flag and the air flag, from any block and in
/// any order, gives a block that holds exactly the three values written; all
/// six orders give the same block.
pub proof fn lemma_field_isolation(b: Block, t: Tag, g: bool, a: bool)
    ensures
        has_fields(b.with_tag(t).with_gnd(g).with_air(a), t, g, a),
        has_fields(b.with_tag(t).with_air(a).with_gnd(g), t, g, a),
        has_fields(b.with_gnd(g).with_tag(t).with_air(a), t, g, a),
        has_fields(b.with_gnd(g).with_air(a).with_tag(t), t, g, a),
        has_fields(b.with_air(a).with_tag(t).with_gnd(g), t, g, a),
        has_fields(b.with_air(a).with_gnd(g).with_tag(t), t, g, a),
        b.with_tag(t).with_gnd(g).with_air(a) == b.with_tag(t).with_air(a).with_gnd(g),
        b.with_tag(t).with_gnd(g).with_air(a) == b.with_gnd(g).with_tag(t).with_air(a),
        b.with_tag(t).with_gnd(g).with_air(a) == b.with_gnd(g).with_air(a).with_tag(t),
        b.with_tag(t).with_gnd(g).with_air(a) == b.with_air(a).with_tag(t).with_gnd(g),
        b.with_tag(t).with_gnd(g).with_air(a) == b.with_air(a).with_gnd(g).with_tag(t),
{
    let x0 = b.with_tag(t);
    let x1 = x0.with_gnd(g);
    let x = x1.with_air(a);
    lemma_with_tag_fields(b, t);
    lemma_with_gnd_fields(x0, g);
    lemma_with_air_fields(x1, a);

    let y0 = x0.with_air(a);
    let y = y0.with_gnd(g);
    lemma_with_air_fields(x0, a);
    lemma_with_gnd_fields(y0, g);
    lemma_bits_determine(x.0, y.0);

    let z0 = b.with_gnd(g);
    let z1 = z0.with_tag(t);
    let z = z1.with_air(a);
    lemma_with_gnd_fields(b, g);
    lemma_with_tag_fields(z0, t);
    lemma_with_air_fields(z1, a);
    lemma_bits_determine(x.0, z.0);

    let u1 = z0.with_air(a);
    let u = u1.with_tag(t);
    lemma_with_air_fields(z0, a);
    lemma_with_tag_fields(u1, t);
    lemma_bits_determine(x.0, u.0);

    let v0 = b.with_air(a);
    let v1 = v0.with_tag(t);
    let v = v1.with_gnd(g);
    lemma_with_air_fields(b, a);
    lemma_with_tag_fields(v0, t);
    lemma_with_gnd_fields(v1, g);
    lemma_bits_determine(x.0, v.0);

    let w1 = v0.with_gnd(g);
    let w = w1.with_tag(t);
    lemma_with_gnd_fields(v0, g);
    lemma_with_tag_fields(w1, t);
    lemma_bits_determine(x.0, w.0);
}

/// Writing the same value to a field twice is the same as writing it once.
pub proof fn lemma_idempotent(b: Block, t: Tag, g: bool, a: bool)
    ensures
        b.with_tag(t).with_tag(t) == b.with_tag(t),
        b.with_gnd(g).with_gnd(g) == b.with_gnd(g),
        b.with_air(a).with_air(a) == b.with_air(a),
{
    lemma_with_tag_fields(b, t);
    lemma_with_tag_fields(b.with_tag(t), t);
    lemma_bits_determine(b.with_tag(t).with_tag(t).0, b.with_tag(t).0);
    lemma_with_gnd_fields(b, g);
    lemma_with_gnd_fields(b.with_gnd(g), g);
    lemma_bits_determine(b.with_gnd(g).with_gnd(g).0, b.with_gnd(g).0);
    lemma_with_air_fields(b, a);
    lemma_with_air_fields(b.with_air(a), a);
    lemma_bits_determine(b.with_air(a).with_air(a).0, b.with_air(a).0);
}

/// Every kind written into the default block reads back unchanged.
pub proof fn lemma_default_round_trip(t: Tag)
    ensures
        Block::spec_default().with_tag(t).tag() == t,
{
    lemma_with_tag_fields(Block::spec_default(), t);
}

/// The block reached from `b` by a sequence of flag writes, in order:
/// `(true, v)` sets the ground flag to `v`, `(false, v)` the air flag.
pub open spec fn write_flags(b: Block, ops: Seq<(bool, bool)>) -> Block
    decreases ops.len(),
{
    if ops.len() == 0 {
        b
    } else {
        let prev = write_flags(b, ops.drop_last());
        if ops.last().0 {
            prev.with_gnd(ops.last().1)
        } else {
            prev.with_air(ops.last().1)
        }
    }
}

/// The block reached from `b` by writing each kind of `tags` in order.
pub open spec fn write_tags(b: Block, tags: Seq<Tag>) -> Block
    decreases tags.len(),
{
    if tags.len() == 0 {
        b
    } else {
        write_tags(b, tags.drop_last()).with_tag(tags.last())
    }
}

/// No sequence of flag writes changes a block's kind.
pub proof fn lemma_flags_keep_tag(b: Block, ops: Seq<(bool, bool)>)
    ensures
        write_flags(b, ops).tag() == b.tag(),
    decreases ops.len(),
{
    if ops.len() > 0 {
        let prev = write_flags(b, ops.drop_last());
        lemma_flags_keep_tag(b, ops.drop_last());
        lemma_with_gnd_fields(prev, ops.last().1);
        lemma_with_air_fields(prev, ops.last().1);
    }
}

/// No sequence of kind writes changes either flag of a block.
pub proof fn lemma_tags_keep_flags(b: Block, tags: Seq<Tag>)
    ensures
        write_tags(b, tags).gnd() == b.gnd(),
        write_tags(b, tags).air() == b.air(),
    decreases tags.len(),
{
    if tags.len() > 0 {
        lemma_tags_keep_flags(b, tags.drop_last());
        lemma_with_tag_fields(write_tags(b, tags.drop_last()), tags.last());
    }
}

impl Default for Block {
    /// Kind `Empty`, neither flag set.
    fn default() -> (r: Block)
        ensures
            r == Block::spec_default(),
            r.tag() == Tag::Empty,
            !r.gnd(),
            !r.air(),
    {
        assert(0u8 & 0x3f == 0 && 0u8 & 0x80 == 0 && 0u8 & 0x40 == 0) by (bit_vector);
        Block(0)
    }
}

} // verus!
