use blockcell::{Block, Tag};

const ALL_TAGS: [Tag; 7] = [
    Tag::Empty,
    Tag::ModPassable,
    Tag::Ore,
    Tag::Stone,
    Tag::Wall,
    Tag::Void,
    Tag::ModSolid,
];

fn all_blocks() -> Vec<Block> {
    let mut out = Vec::new();
    for t in ALL_TAGS {
        for g in [false, true] {
            for a in [false, true] {
                out.push(Block::default().with_tag(t).with_gnd(g).with_air(a));
            }
        }
    }
    out
}

#[test]
fn default_is_empty_and_zero() {
    let b = Block::default();
    assert_eq!(b.tag(), Tag::Empty);
    assert!(!b.gnd());
    assert!(!b.air());
    assert_eq!(b.byte(), 0);
}

#[test]
fn field_isolation_in_every_order() {
    for b in all_blocks() {
        for t in ALL_TAGS {
            for g in [false, true] {
                for a in [false, true] {
                    let results = [
                        b.with_tag(t).with_gnd(g).with_air(a),
                        b.with_tag(t).with_air(a).with_gnd(g),
                        b.with_gnd(g).with_tag(t).with_air(a),
                        b.with_gnd(g).with_air(a).with_tag(t),
                        b.with_air(a).with_tag(t).with_gnd(g),
                        b.with_air(a).with_gnd(g).with_tag(t),
                    ];
                    for r in results {
                        assert_eq!(r.tag(), t);
                        assert_eq!(r.gnd(), g);
                        assert_eq!(r.air(), a);
                        assert_eq!(r, results[0]);
                    }
                }
            }
        }
    }
}

#[test]
fn writes_are_idempotent() {
    for b in all_blocks() {
        for t in ALL_TAGS {
            assert_eq!(b.with_tag(t).with_tag(t), b.with_tag(t));
        }
        for f in [false, true] {
            assert_eq!(b.with_gnd(f).with_gnd(f), b.with_gnd(f));
            assert_eq!(b.with_air(f).with_air(f), b.with_air(f));
        }
    }
}

#[test]
fn every_tag_round_trips() {
    for t in ALL_TAGS {
        assert_eq!(Block::default().with_tag(t).tag(), t);
    }
}

#[test]
fn flag_writes_never_touch_the_tag() {
    let b = Block::default().with_tag(Tag::Stone);
    let b = b.with_gnd(true).with_air(true).with_gnd(false).with_air(false).with_air(true);
    assert_eq!(b.tag(), Tag::Stone);
    assert!(!b.gnd());
    assert!(b.air());
}

#[test]
fn tag_writes_never_touch_the_flags() {
    let mut b = Block::default().with_gnd(true);
    for t in [Tag::ModSolid, Tag::Ore, Tag::Empty, Tag::Wall] {
        b = b.with_tag(t);
        assert!(b.gnd());
        assert!(!b.air());
    }
}

#[test]
fn byte_layout() {
    assert_eq!(Block::default().with_tag(Tag::Wall).byte(), 0x04);
    assert_eq!(Block::default().with_gnd(true).byte(), 0x80);
    assert_eq!(Block::default().with_air(true).byte(), 0x40);
    let b = Block::default().with_tag(Tag::ModSolid).with_gnd(true).with_air(true);
    assert_eq!(b.byte(), 0xc6);
}

#[test]
fn ids_follow_declaration_order() {
    for (i, t) in ALL_TAGS.iter().enumerate() {
        assert_eq!(t.id() as usize, i);
    }
}

#[test]
fn from_raw_accepts_defined_ids() {
    for t in ALL_TAGS {
        assert_eq!(Tag::from_raw(t.id()), Some(t));
    }
}

#[test]
fn from_raw_rejects_reserved_ids() {
    assert_eq!(Tag::from_raw(7), None);
    assert_eq!(Tag::from_raw(63), None);
    assert_eq!(Tag::from_raw(255), None);
}

#[test]
fn from_byte_round_trips_stored_blocks() {
    for b in all_blocks() {
        assert_eq!(Block::from_byte(b.byte()), Some(b));
    }
    let b = Block::from_byte(0xc3).unwrap();
    assert_eq!(b.tag(), Tag::Stone);
    assert!(b.gnd());
    assert!(b.air());
}

#[test]
fn from_byte_rejects_reserved_tag_bits() {
    assert_eq!(Block::from_byte(0x07), None);
    assert_eq!(Block::from_byte(0x3f), None);
    assert_eq!(Block::from_byte(0xff), None);
    assert_eq!(Block::from_byte(0x87), None);
}
