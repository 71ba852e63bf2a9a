use libearthquake::player::score::sprite_bitmask::{SpriteBitmask, MAX_SPRITE, MIN_SPRITE, NUM_CHANNELS, PALETTE, SCRIPT};

#[test]
fn sprite_bitmask_sprite_bitmask_default() {
    let bitmask = SpriteBitmask::default();
    for i in 0..NUM_CHANNELS {
        assert!(!bitmask.contains(i));
    }
    assert!(bitmask.is_empty());
}

#[test]
fn sprite_bitmask_sprite_bitmask_empty() {
    let bitmask = SpriteBitmask::empty();
    for i in 0..NUM_CHANNELS {
        assert!(!bitmask.contains(i));
    }
}

#[test]
fn sprite_bitmask_sprite_bitmask_all() {
    let bitmask = SpriteBitmask::all();
    for i in 0..NUM_CHANNELS {
        assert!(bitmask.contains(i));
    }
    assert!(!bitmask.is_empty());
}

#[test]
fn sprite_bitmask_sprite_bitmask_remove() {
    let mut bitmask = SpriteBitmask::all();
    bitmask.remove(0);
    assert!(!bitmask.contains(0));
    assert!(bitmask.contains(8));
}

#[test]
fn score_sprite_bitmask_default() {
    let bitmask = SpriteBitmask::default();
    for i in 0..NUM_CHANNELS {
        assert!(!bitmask.contains(i));
    }
    assert!(bitmask.is_empty());
}

#[test]
fn score_sprite_bitmask_empty() {
    let bitmask = SpriteBitmask::empty();
    for i in 0..NUM_CHANNELS {
        assert!(!bitmask.contains(i));
    }
}

#[test]
fn score_sprite_bitmask_all() {
    let bitmask = SpriteBitmask::all();
    for i in 0..NUM_CHANNELS {
        assert!(bitmask.contains(i));
    }
    assert!(!bitmask.is_empty());
}

#[test]
fn score_sprite_bitmask_remove() {
    let mut bitmask = SpriteBitmask::all();
    bitmask.remove(0);
    assert!(!bitmask.contains(0));
    assert!(bitmask.contains(8));
}

#[test]
fn sprite_bitmask_all_bytes() {
    let bits = SpriteBitmask::all().bits();
    for b in &bits[..19] {
        assert_eq!(*b, 0xff);
    }
    assert_eq!(bits[19], 0x0f);
}

#[test]
fn sprite_bitmask_set_then_contains() {
    let mut bitmask = SpriteBitmask::empty();
    bitmask.set(155).set(7);
    assert!(bitmask.contains(155));
    assert!(bitmask.contains(7));
    assert!(!bitmask.contains(154));
    assert!(!bitmask.is_empty());
    bitmask.remove(155).remove(7);
    assert!(bitmask.is_empty());
}

#[test]
fn sprite_bitmask_set_operations() {
    let mut a = SpriteBitmask::empty();
    a.set(1).set(10);
    let mut b = SpriteBitmask::empty();
    b.set(10).set(100);
    let and = a.bitand(b);
    assert!(and.contains(10) && !and.contains(1) && !and.contains(100));
    let or = a.bitor(b);
    assert!(or.contains(1) && or.contains(10) && or.contains(100));
    let sub = a.sub(b);
    assert!(sub.contains(1) && !sub.contains(10) && !sub.contains(100));
    let not = a.not();
    assert!(!not.contains(1) && not.contains(2) && not.contains(155));
    assert_eq!(not.bits()[19], 0xff);
}

#[test]
fn sprite_bitmask_or_masks_unused_bits() {
    let mut a = SpriteBitmask::empty();
    a.bitor_assign(SpriteBitmask::empty().not());
    assert_eq!(a.bits()[19], 0x0f);
    assert_eq!(a.bits()[0], 0xff);
}

#[test]
fn sprite_bitmask_iterates_in_order() {
    let mut bitmask = SpriteBitmask::empty();
    bitmask.set(SCRIPT).set(PALETTE).set(MIN_SPRITE).set(MAX_SPRITE);
    let mut iter = bitmask.iter();
    assert_eq!(iter.next(), Some(SCRIPT));
    assert_eq!(iter.next(), Some(PALETTE));
    assert_eq!(iter.next(), Some(MIN_SPRITE));
    assert_eq!(iter.next(), Some(MAX_SPRITE));
    assert_eq!(iter.next(), None);
    let mut back = bitmask.iter_back();
    assert_eq!(back.next(), Some(MAX_SPRITE));
    assert_eq!(back.next(), Some(MIN_SPRITE));
    assert_eq!(back.next(), Some(PALETTE));
    assert_eq!(back.next(), Some(SCRIPT));
    assert_eq!(back.next(), None);
    let mut sprites = bitmask.iter_sprites();
    assert_eq!(sprites.next(), Some(MIN_SPRITE));
    assert_eq!(sprites.next(), Some(MAX_SPRITE));
    assert_eq!(sprites.next(), None);
}

fn collect_forward(mut iter: libearthquake::player::score::sprite_bitmask::BitIter) -> Vec<usize> {
    let mut out = Vec::new();
    while let Some(c) = iter.next() {
        out.push(c);
    }
    out
}

#[test]
fn sprite_bitmask_iter_back_is_iter_reversed() {
    let mut bitmask = SpriteBitmask::empty();
    for c in [0, 3, 5, 6, 7, 40, 100, MAX_SPRITE] {
        bitmask.set(c);
    }
    let forward = collect_forward(bitmask.iter());
    let mut back = bitmask.iter_back();
    let mut backward = Vec::new();
    while let Some(c) = back.next() {
        backward.push(c);
    }
    let mut reversed = forward.clone();
    reversed.reverse();
    assert_eq!(backward, reversed);
    let sprites = collect_forward(bitmask.iter_sprites());
    let filtered: Vec<usize> = forward.iter().copied().filter(|&c| c >= MIN_SPRITE).collect();
    assert_eq!(sprites, filtered);
    assert_eq!(sprites, vec![6, 7, 40, 100, MAX_SPRITE]);
}

#[test]
fn sprite_bitmask_set_and_remove_change_one_bit() {
    let mut bitmask = SpriteBitmask([0xf0; 20]);
    let before = bitmask.bits();
    bitmask.set(9);
    let once = bitmask.bits();
    bitmask.set(9);
    assert_eq!(bitmask.bits(), once);
    let mut expected = before;
    expected[1] |= 0x02;
    assert_eq!(once, expected);
    bitmask.remove(9);
    assert_eq!(bitmask.bits(), before);
    assert_eq!(bitmask.bits()[19], 0xf0);
}
