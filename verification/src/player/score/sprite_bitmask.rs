//! A set of score channels, stored as one bit per channel.

use vstd::prelude::*;

verus! {

broadcast use vstd::array::group_array_axioms;

/// The number of sprite channels in a score frame.
pub const NUM_SPRITES: usize = 150;

/// The number of channels that precede the sprite channels (script, tempo,
/// transition, the two sound channels and the palette).
pub const NUM_NON_SPRITE_CHANNELS: usize = 6;

/// The first sprite channel.
pub const MIN_SPRITE: usize = NUM_NON_SPRITE_CHANNELS;

/// The last sprite channel.
pub const MAX_SPRITE: usize = NUM_SPRITES + NUM_NON_SPRITE_CHANNELS - 1;

/// The total number of channels.
pub const NUM_CHANNELS: usize = NUM_SPRITES + NUM_NON_SPRITE_CHANNELS;

/// The number of bytes used to store one bit per channel.
pub const SIZE: usize = 20;

/// The script channel.
pub const SCRIPT: usize = 0;
/// The tempo channel.
pub const TEMPO: usize = 1;
/// The transition channel.
pub const TRANSITION: usize = 2;
/// The second sound channel.
pub const SOUND_2: usize = 3;
/// The first sound channel.
pub const SOUND_1: usize = 4;
/// The palette channel.
pub const PALETTE: usize = 5;

/// The mask of the channel bits that are used in the last byte.
pub const LAST_BYTE_MASK: u8 = 0x0f;

/// Whether bit `j` (0 is least significant) of `b` is set.
pub open spec fn bit_of(b: u8, j: u8) -> bool {
    b & (1u8 << j) != 0
}

proof fn lemma_bit_set(b: u8, k: u8, j: u8)
    by (bit_vector)
    requires
        k < 8,
        j < 8,
    ensures
        bit_of(b | (1u8 << k), j) == (j == k || bit_of(b, j)),
{
}

proof fn lemma_bit_clear(b: u8, k: u8, j: u8)
    by (bit_vector)
    requires
        k < 8,
        j < 8,
    ensures
        bit_of(b & !(1u8 << k), j) == (j != k && bit_of(b, j)),
{
}

proof fn lemma_bit_ops(a: u8, b: u8, j: u8)
    by (bit_vector)
    requires
        j < 8,
    ensures
        bit_of(a & b, j) == (bit_of(a, j) && bit_of(b, j)),
        bit_of(a | b, j) == (bit_of(a, j) || bit_of(b, j)),
        bit_of(!a, j) == !bit_of(a, j),
        bit_of(a & !b, j) == (bit_of(a, j) && !bit_of(b, j)),
        bit_of(a | (b & 0x0f), j) == (bit_of(a, j) || (j < 4 && bit_of(b, j))),
{
}

proof fn lemma_bit_consts(j: u8)
    by (bit_vector)
    requires
        j < 8,
    ensures
        bit_of(0xff, j),
        !bit_of(0, j),
        bit_of(0x0f, j) == (j < 4),
        bit_of(0xffu8 & 0x0f, j) == (j < 4),
{
}

proof fn lemma_clean_kept(last: u8, k: u8, same_byte: bool)
    by (bit_vector)
    requires
        k < 8,
        same_byte ==> k < 4,
    ensures
        last & 0xf0 == 0 && same_byte ==> (last | (1u8 << k)) & 0xf0 == 0,
        last & 0xf0 == 0 ==> (last & !(1u8 << k)) & 0xf0 == 0,
{
}

proof fn lemma_clean_ops(a: u8, b: u8)
    by (bit_vector)
    ensures
        a & 0xf0 == 0 ==> (a & b) & 0xf0 == 0,
        a & 0xf0 == 0 ==> (a | (b & 0x0f)) & 0xf0 == 0,
        a & 0xf0 == 0 ==> (a & !b) & 0xf0 == 0,
{
}

proof fn lemma_clean_byte(b: u8)
    by (bit_vector)
    requires
        b & 0xf0 == 0,
        !bit_of(b, 0),
        !bit_of(b, 1),
        !bit_of(b, 2),
        !bit_of(b, 3),
    ensures
        b == 0,
{
}

proof fn lemma_zero_byte(b: u8)
    by (bit_vector)
    requires
        !bit_of(b, 0),
        !bit_of(b, 1),
        !bit_of(b, 2),
        !bit_of(b, 3),
        !bit_of(b, 4),
        !bit_of(b, 5),
        !bit_of(b, 6),
        !bit_of(b, 7),
    ensures
        b == 0,
{
}

/// Whether channel `c` is set in the given bytes.
pub open spec fn channel_set(bytes: Seq<u8>, c: int) -> bool {
    bit_of(bytes[c / 8], (c % 8) as u8)
}

/// A set of score channels.
#[derive(Clone, Copy, Debug)]
pub struct SpriteBitmask(pub [u8; SIZE]);

impl View for SpriteBitmask {
    type V = Seq<u8>;

    /// The raw bytes of the set.
    open spec fn view(&self) -> Seq<u8> {
        self.0@
    }
}

impl SpriteBitmask {
    /// Whether channel `c` is in the set.
    pub open spec fn has(self, c: int) -> bool {
        channel_set(self@, c)
    }

    /// Whether every byte of the set, including the unused bits of the last
    /// byte, is zero.
    pub open spec fn all_zero(self) -> bool {
        forall|i: int| 0 <= i < SIZE ==> #[trigger] self@[i] == 0
    }

    /// Whether no bit beyond the last channel is set.
    pub open spec fn clean(self) -> bool {
        self@[SIZE - 1] & 0xf0 == 0
    }

    /// The set of all channels.
    pub fn all() -> (r: Self)
        ensures
            forall|c: int| 0 <= c < NUM_CHANNELS ==> #[trigger] r.has(c),
            forall|k: int| 0 <= k < SIZE - 1 ==> #[trigger] r@[k] == 0xff,
            r@[SIZE - 1] == LAST_BYTE_MASK,
            !r.all_zero(),
            r.clean(),
    {
        let mut bits = [0xffu8; SIZE];
        bits[SIZE - 1] = bits[SIZE - 1] & LAST_BYTE_MASK;
        let r = SpriteBitmask(bits);
        assert forall|c: int| 0 <= c < NUM_CHANNELS implies #[trigger] r.has(c) by {
            lemma_bit_consts((c % 8) as u8);
        }
        assert(r@[0] == 0xff);
        assert(0xffu8 & 0x0f == 0x0f) by (bit_vector);
        assert(0x0fu8 & 0xf0 == 0) by (bit_vector);
        r
    }

    /// The raw bytes of the set.
    pub fn bits(&self) -> (r: [u8; SIZE])
        ensures
            r@ == self@,
    {
        self.0
    }

    /// Whether channel `bit` is in the set.
    pub fn contains(&self, bit: usize) -> (r: bool)
        requires
            bit < NUM_CHANNELS,
        ensures
            r == self.has(bit as int),
    {
        self.0[bit / 8] & (1u8 << ((bit % 8) as u8)) != 0
    }

    /// The empty set.
    pub fn empty() -> (r: Self)
        ensures
            r.all_zero(),
            forall|c: int| 0 <= c < NUM_CHANNELS ==> !#[trigger] r.has(c),
            r.clean(),
    {
        let r = SpriteBitmask([0u8; SIZE]);
        assert(0u8 & 0xf0 == 0) by (bit_vector);
        assert forall|c: int| 0 <= c < NUM_CHANNELS implies !#[trigger] r.has(c) by {
            lemma_bit_consts((c % 8) as u8);
        }
        r
    }

    /// Iterates over the channels in the set, lowest first.
    pub fn iter(&self) -> (r: BitIter)
        ensures
            r.owner() == *self,
            r.index() == 0,
            r.remaining() == channels_up(*self, 0),
    {
        BitIter { owner: *self, index: 0 }
    }

    /// Iterates over the channels in the set, highest first.
    pub fn iter_back(&self) -> (r: RevBitIter)
        ensures
            r.0.owner() == *self,
            r.0.index() == NUM_CHANNELS,
            r.0.remaining_back() == channels_down(*self, NUM_CHANNELS as int),
    {
        RevBitIter(BitIter { owner: *self, index: NUM_CHANNELS })
    }

    /// Iterates over the sprite channels in the set, lowest first.
    pub fn iter_sprites(&self) -> (r: BitIter)
        ensures
            r.owner() == *self,
            r.index() == MIN_SPRITE,
            r.remaining() == channels_up(*self, MIN_SPRITE as int),
    {
        BitIter { owner: *self, index: MIN_SPRITE }
    }

    /// Whether every byte of the set is zero.
    pub fn is_empty(&self) -> (r: bool)
        ensures
            r == self.all_zero(),
    {
        let mut i: usize = 0;
        while i < SIZE
            invariant
                i <= SIZE,
                forall|k: int| 0 <= k < i ==> #[trigger] self@[k] == 0,
            decreases SIZE - i,
        {
            if self.0[i] != 0 {
                assert(self@[i as int] != 0);
                return false;
            }
            i = i + 1;
        }
        true
    }

    /// Removes channel `bit` from the set.
    pub fn remove(&mut self, bit: usize) -> (r: &mut Self)
        requires
            bit < NUM_CHANNELS,
        ensures
            !r.has(bit as int),
            forall|c: int| 0 <= c < NUM_CHANNELS && c != bit ==> #[trigger] r.has(c) == old(self).has(c),
            r@ == old(self)@.update((bit / 8) as int, old(self)@[(bit / 8) as int] & !(1u8 << ((bit % 8) as u8))),
            old(self).clean() ==> r.clean(),
            *final(self) == *final(r),
    {
        let ghost before = *self;
        let i = bit / 8;
        let mask: u8 = 1u8 << ((bit % 8) as u8);
        self.0[i] = self.0[i] & !mask;
        proof {
            assert(self@ =~= before@.update(i as int, before@[i as int] & !mask));
            lemma_clean_kept(before@[SIZE - 1], (bit % 8) as u8, i == SIZE - 1);
            assert forall|c: int| 0 <= c < NUM_CHANNELS implies #[trigger] self.has(c) == (c != bit && before.has(c)) by {
                lemma_bit_clear(before@[(bit / 8) as int], (bit % 8) as u8, (c % 8) as u8);
            }
        }
        self
    }

    /// Adds channel `bit` to the set.
    pub fn set(&mut self, bit: usize) -> (r: &mut Self)
        requires
            bit < NUM_CHANNELS,
        ensures
            r.has(bit as int),
            forall|c: int| 0 <= c < NUM_CHANNELS && c != bit ==> #[trigger] r.has(c) == old(self).has(c),
            r@ == old(self)@.update((bit / 8) as int, old(self)@[(bit / 8) as int] | (1u8 << ((bit % 8) as u8))),
            old(self).clean() ==> r.clean(),
            *final(self) == *final(r),
    {
        let ghost before = *self;
        let i = bit / 8;
        let mask: u8 = 1u8 << ((bit % 8) as u8);
        self.0[i] = self.0[i] | mask;
        proof {
            assert(self@ =~= before@.update(i as int, before@[i as int] | mask));
            lemma_clean_kept(before@[SIZE - 1], (bit % 8) as u8, i == SIZE - 1);
            assert forall|c: int| 0 <= c < NUM_CHANNELS implies #[trigger] self.has(c) == (c == bit || before.has(c)) by {
                lemma_bit_set(before@[(bit / 8) as int], (bit % 8) as u8, (c % 8) as u8);
            }
        }
        self
    }
}

impl SpriteBitmask {
    /// The channels in both sets.
    pub fn bitand(self, rhs: Self) -> (r: Self)
        ensures
            forall|c: int| 0 <= c < NUM_CHANNELS ==> #[trigger] r.has(c) == (self.has(c) && rhs.has(c)),
            forall|k: int| 0 <= k < SIZE ==> #[trigger] r@[k] == self@[k] & rhs@[k],
            self.clean() ==> r.clean(),
    {
        let mut bits = self;
        bits.bitand_assign(rhs);
        bits
    }

    /// Keeps only the channels that are also in `rhs`.
    pub fn bitand_assign(&mut self, rhs: Self)
        ensures
            forall|c: int| 0 <= c < NUM_CHANNELS ==> #[trigger] final(self).has(c) == (old(self).has(c) && rhs.has(c)),
            forall|k: int| 0 <= k < SIZE ==> #[trigger] final(self)@[k] == old(self)@[k] & rhs@[k],
            old(self).clean() ==> final(self).clean(),
    {
        let ghost before = *self;
        let mut bits = self.0;
        let mut i: usize = 0;
        while i < SIZE
            invariant
                i <= SIZE,
                forall|k: int| 0 <= k < i ==> #[trigger] bits@[k] == (before@[k] & rhs@[k]),
                forall|k: int| i <= k < SIZE ==> #[trigger] bits@[k] == before@[k],
            decreases SIZE - i,
        {
            bits[i] = bits[i] & rhs.0[i];
            i = i + 1;
        }
        self.0 = bits;
        proof {
            lemma_clean_ops(before@[SIZE - 1], rhs@[SIZE - 1]);
            assert forall|c: int| 0 <= c < NUM_CHANNELS implies #[trigger] self.has(c) == (before.has(c) && rhs.has(c)) by {
                lemma_bit_ops(before@[c / 8], rhs@[c / 8], (c % 8) as u8);
            }
        }
    }

    /// The channels in either set.
    pub fn bitor(self, rhs: Self) -> (r: Self)
        ensures
            forall|c: int| 0 <= c < NUM_CHANNELS ==> #[trigger] r.has(c) == (self.has(c) || rhs.has(c)),
            forall|k: int| 0 <= k < SIZE - 1 ==> #[trigger] r@[k] == self@[k] | rhs@[k],
            r@[SIZE - 1] == self@[SIZE - 1] | (rhs@[SIZE - 1] & LAST_BYTE_MASK),
            self.clean() ==> r.clean(),
    {
        let mut bits = self;
        bits.bitor_assign(rhs);
        bits
    }

    /// Adds the channels of `rhs`. The unused bits of the last byte of `rhs`
    /// are not copied.
    pub fn bitor_assign(&mut self, rhs: Self)
        ensures
            forall|c: int| 0 <= c < NUM_CHANNELS ==> #[trigger] final(self).has(c) == (old(self).has(c) || rhs.has(c)),
            forall|k: int| 0 <= k < SIZE - 1 ==> #[trigger] final(self)@[k] == old(self)@[k] | rhs@[k],
            final(self)@[SIZE - 1] == old(self)@[SIZE - 1] | (rhs@[SIZE - 1] & LAST_BYTE_MASK),
            old(self).clean() ==> final(self).clean(),
    {
        let ghost before = *self;
        let mut bits = self.0;
        let mut i: usize = 0;
        while i < SIZE - 1
            invariant
                i <= SIZE - 1,
                forall|k: int| 0 <= k < i ==> #[trigger] bits@[k] == (before@[k] | rhs@[k]),
                forall|k: int| i <= k < SIZE ==> #[trigger] bits@[k] == before@[k],
            decreases SIZE - 1 - i,
        {
            bits[i] = bits[i] | rhs.0[i];
            i = i + 1;
        }
        bits[SIZE - 1] = bits[SIZE - 1] | (rhs.0[SIZE - 1] & LAST_BYTE_MASK);
        self.0 = bits;
        proof {
            lemma_clean_ops(before@[SIZE - 1], rhs@[SIZE - 1]);
            assert forall|c: int| 0 <= c < NUM_CHANNELS implies #[trigger] self.has(c) == (before.has(c) || rhs.has(c)) by {
                lemma_bit_ops(before@[c / 8], rhs@[c / 8], (c % 8) as u8);
            }
        }
    }

    /// Every bit flipped, including the unused bits of the last byte.
    pub fn not(self) -> (r: Self)
        ensures
            forall|c: int| 0 <= c < NUM_CHANNELS ==> #[trigger] r.has(c) == !self.has(c),
            forall|k: int| 0 <= k < SIZE ==> #[trigger] r@[k] == !self@[k],
    {
        let mut bits = self.0;
        let mut i: usize = 0;
        while i < SIZE
            invariant
                i <= SIZE,
                forall|k: int| 0 <= k < i ==> #[trigger] bits@[k] == !self@[k],
                forall|k: int| i <= k < SIZE ==> #[trigger] bits@[k] == self@[k],
            decreases SIZE - i,
        {
            bits[i] = !bits[i];
            i = i + 1;
        }
        let r = SpriteBitmask(bits);
        proof {
            assert forall|c: int| 0 <= c < NUM_CHANNELS implies #[trigger] r.has(c) == !self.has(c) by {
                lemma_bit_ops(self@[c / 8], self@[c / 8], (c % 8) as u8);
            }
        }
        r
    }

    /// The channels of this set that are not in `rhs`.
    pub fn sub(self, rhs: Self) -> (r: Self)
        ensures
            forall|c: int| 0 <= c < NUM_CHANNELS ==> #[trigger] r.has(c) == (self.has(c) && !rhs.has(c)),
            forall|k: int| 0 <= k < SIZE ==> #[trigger] r@[k] == self@[k] & !rhs@[k],
            self.clean() ==> r.clean(),
    {
        let mut bits = self;
        bits.sub_assign(rhs);
        bits
    }

    /// Removes the channels of `rhs`.
    pub fn sub_assign(&mut self, rhs: Self)
        ensures
            forall|c: int| 0 <= c < NUM_CHANNELS ==> #[trigger] final(self).has(c) == (old(self).has(c) && !rhs.has(c)),
            forall|k: int| 0 <= k < SIZE ==> #[trigger] final(self)@[k] == old(self)@[k] & !rhs@[k],
            old(self).clean() ==> final(self).clean(),
    {
        let ghost before = *self;
        let mut bits = self.0;
        let mut i: usize = 0;
        while i < SIZE
            invariant
                i <= SIZE,
                forall|k: int| 0 <= k < i ==> #[trigger] bits@[k] == (before@[k] & !rhs@[k]),
                forall|k: int| i <= k < SIZE ==> #[trigger] bits@[k] == before@[k],
            decreases SIZE - i,
        {
            bits[i] = bits[i] & !rhs.0[i];
            i = i + 1;
        }
        self.0 = bits;
        proof {
            lemma_clean_ops(before@[SIZE - 1], rhs@[SIZE - 1]);
            assert forall|c: int| 0 <= c < NUM_CHANNELS implies #[trigger] self.has(c) == (before.has(c) && !rhs.has(c)) by {
                lemma_bit_ops(before@[c / 8], rhs@[c / 8], (c % 8) as u8);
            }
        }
    }
}

/// A set whose unused bits are clear (every set that `all`, `empty`, `set`,
/// `remove`, `&`, `|` and `-` make from such sets) is empty, byte for byte,
/// exactly when it holds no channel.
pub proof fn lemma_empty_iff_no_channels(m: SpriteBitmask)
    requires
        m.clean(),
    ensures
        m.all_zero() <==> forall|c: int| 0 <= c < NUM_CHANNELS ==> !#[trigger] m.has(c),
{
    if m.all_zero() {
        assert forall|c: int| 0 <= c < NUM_CHANNELS implies !#[trigger] m.has(c) by {
            assert(m@[c / 8] == 0);
            lemma_bit_consts((c % 8) as u8);
        }
    }
    if forall|c: int| 0 <= c < NUM_CHANNELS ==> !#[trigger] m.has(c) {
        assert forall|k: int| 0 <= k < SIZE implies #[trigger] m@[k] == 0 by {
            assert(!m.has(8 * k));
            assert(!m.has(8 * k + 1));
            assert(!m.has(8 * k + 2));
            assert(!m.has(8 * k + 3));
            if k < SIZE - 1 {
                assert(!m.has(8 * k + 4));
                assert(!m.has(8 * k + 5));
                assert(!m.has(8 * k + 6));
                assert(!m.has(8 * k + 7));
                lemma_zero_byte(m@[k]);
            } else {
                lemma_clean_byte(m@[k]);
            }
        }
    }
}

impl Default for SpriteBitmask {
    /// The empty set.
    fn default() -> (r: Self)
        ensures
            r.all_zero(),
            forall|c: int| 0 <= c < NUM_CHANNELS ==> !#[trigger] r.has(c),
            r.clean(),
    {
        SpriteBitmask::empty()
    }
}

/// The channels of `m` from `a` up, lowest first.
pub open spec fn channels_up(m: SpriteBitmask, a: int) -> Seq<usize>
    decreases NUM_CHANNELS - a,
{
    if a < 0 || a >= NUM_CHANNELS {
        Seq::empty()
    } else if m.has(a) {
        seq![a as usize] + channels_up(m, a + 1)
    } else {
        channels_up(m, a + 1)
    }
}

/// The channels of `m` below `b`, highest first.
pub open spec fn channels_down(m: SpriteBitmask, b: int) -> Seq<usize>
    decreases b,
{
    if b <= 0 || b > NUM_CHANNELS {
        Seq::empty()
    } else if m.has(b - 1) {
        seq![(b - 1) as usize] + channels_down(m, b - 1)
    } else {
        channels_down(m, b - 1)
    }
}

/// The channels of `m` from `a` up to below `b`, lowest first.
pub open spec fn channels_in(m: SpriteBitmask, a: int, b: int) -> Seq<usize>
    decreases b - a,
{
    if b <= a || a < 0 || b > NUM_CHANNELS {
        Seq::empty()
    } else if m.has(b - 1) {
        channels_in(m, a, b - 1).push((b - 1) as usize)
    } else {
        channels_in(m, a, b - 1)
    }
}

proof fn lemma_in_front(m: SpriteBitmask, a: int, b: int)
    requires
        0 <= a < b <= NUM_CHANNELS,
    ensures
        channels_in(m, a, b) == (if m.has(a) { seq![a as usize] } else { Seq::<usize>::empty() }) + channels_in(m, a + 1, b),
    decreases b - a,
{
    if b - 1 > a {
        lemma_in_front(m, a, b - 1);
        if m.has(b - 1) {
            let head = if m.has(a) { seq![a as usize] } else { Seq::<usize>::empty() };
            assert((head + channels_in(m, a + 1, b - 1)).push((b - 1) as usize) =~= head + channels_in(m, a + 1, b - 1).push((b - 1) as usize));
        }
    } else {
        assert(channels_in(m, a, a) =~= Seq::<usize>::empty());
        assert(channels_in(m, a + 1, b) =~= Seq::<usize>::empty());
        if m.has(a) {
            assert(Seq::<usize>::empty().push(a as usize) =~= seq![a as usize] + Seq::<usize>::empty());
        } else {
            assert(Seq::<usize>::empty() =~= Seq::<usize>::empty() + Seq::<usize>::empty());
        }
    }
}

proof fn lemma_up_in(m: SpriteBitmask, a: int)
    requires
        0 <= a <= NUM_CHANNELS,
    ensures
        channels_up(m, a) == channels_in(m, a, NUM_CHANNELS as int),
    decreases NUM_CHANNELS - a,
{
    if a < NUM_CHANNELS {
        lemma_up_in(m, a + 1);
        lemma_in_front(m, a, NUM_CHANNELS as int);
        if !m.has(a) {
            assert(channels_in(m, a + 1, NUM_CHANNELS as int) =~= Seq::<usize>::empty() + channels_in(m, a + 1, NUM_CHANNELS as int));
        }
    }
}

proof fn lemma_down_in(m: SpriteBitmask, b: int)
    requires
        0 <= b <= NUM_CHANNELS,
    ensures
        channels_down(m, b) == channels_in(m, 0, b).reverse(),
    decreases b,
{
    if b > 0 {
        lemma_down_in(m, b - 1);
        if m.has(b - 1) {
            assert(channels_in(m, 0, b - 1).push((b - 1) as usize).reverse() =~= seq![(b - 1) as usize] + channels_in(m, 0, b - 1).reverse());
        }
    } else {
        assert(channels_in(m, 0, 0).reverse() =~= Seq::<usize>::empty());
    }
}

/// Whether a channel is a sprite channel.
pub open spec fn sprite_channel() -> spec_fn(usize) -> bool {
    |c: usize| c >= MIN_SPRITE
}

proof fn lemma_in_filter(m: SpriteBitmask, b: int)
    requires
        0 <= b <= NUM_CHANNELS,
    ensures
        channels_in(m, MIN_SPRITE as int, b) == channels_in(m, 0, b).filter(sprite_channel()),
    decreases b,
{
    if b > 0 {
        lemma_in_filter(m, b - 1);
        let prefix = channels_in(m, 0, b - 1);
        if m.has(b - 1) {
            prefix.lemma_filter_push((b - 1) as usize, sprite_channel());
        }
        if b <= MIN_SPRITE {
            assert(channels_in(m, MIN_SPRITE as int, b) =~= Seq::<usize>::empty());
            assert(channels_in(m, MIN_SPRITE as int, b - 1) =~= Seq::<usize>::empty());
        }
    } else {
        reveal(Seq::filter);
        assert(channels_in(m, 0, 0).filter(sprite_channel()) =~= Seq::<usize>::empty());
    }
}

/// Going down through a set gives its channels in the reverse of the order
/// in which going up gives them: `iter_back` yields what `iter` yields,
/// reversed.
pub proof fn lemma_iter_back_reverses(m: SpriteBitmask)
    ensures
        channels_down(m, NUM_CHANNELS as int) == channels_up(m, 0).reverse(),
{
    lemma_up_in(m, 0);
    lemma_down_in(m, NUM_CHANNELS as int);
}

/// Going up through a set from the first sprite channel gives its channels
/// in order with the non-sprite channels left out: `iter_sprites` yields
/// what `iter` yields, without the channels below `MIN_SPRITE`.
pub proof fn lemma_iter_sprites_filters(m: SpriteBitmask)
    ensures
        channels_up(m, MIN_SPRITE as int) == channels_up(m, 0).filter(sprite_channel()),
{
    lemma_up_in(m, 0);
    lemma_up_in(m, MIN_SPRITE as int);
    lemma_in_filter(m, NUM_CHANNELS as int);
}

proof fn lemma_up_skip(m: SpriteBitmask, a: int, i: int)
    requires
        0 <= a <= i <= NUM_CHANNELS,
        forall|c: int| a <= c < i ==> !#[trigger] m.has(c),
    ensures
        channels_up(m, a) == channels_up(m, i),
    decreases i - a,
{
    if a < i {
        lemma_up_skip(m, a + 1, i);
    }
}

proof fn lemma_down_skip(m: SpriteBitmask, i: int, b: int)
    requires
        0 <= i <= b <= NUM_CHANNELS,
        forall|c: int| i <= c < b ==> !#[trigger] m.has(c),
    ensures
        channels_down(m, b) == channels_down(m, i),
    decreases b - i,
{
    if i < b {
        lemma_down_skip(m, i, b - 1);
    }
}

/// An iterator over the channels of a [`SpriteBitmask`].
pub struct BitIter {
    owner: SpriteBitmask,
    index: usize,
}

impl BitIter {
    /// The set being iterated.
    pub closed spec fn owner(self) -> SpriteBitmask {
        self.owner
    }

    /// The position of the iterator: the next channel `next` looks at, and
    /// one past the next channel `next_back` looks at.
    pub closed spec fn index(self) -> nat {
        self.index as nat
    }

    /// The channels that `next` has yet to yield, in order.
    pub open spec fn remaining(self) -> Seq<usize> {
        channels_up(self.owner(), self.index() as int)
    }

    /// The channels that `next_back` has yet to yield, in order.
    pub open spec fn remaining_back(self) -> Seq<usize> {
        channels_down(self.owner(), self.index() as int)
    }

    #[verifier::type_invariant]
    spec fn inv(self) -> bool {
        self.index <= NUM_CHANNELS
    }

    /// Returns the lowest channel in the set at or after the position, and
    /// moves past it.
    pub fn next(&mut self) -> (r: Option<usize>)
        ensures
            final(self).owner() == old(self).owner(),
            old(self).index() <= NUM_CHANNELS,
            match r {
                Some(i) => {
                    &&& old(self).index() <= i < NUM_CHANNELS
                    &&& old(self).owner().has(i as int)
                    &&& forall|c: int| old(self).index() <= c < i ==> !#[trigger] old(self).owner().has(c)
                    &&& final(self).index() == i + 1
                },
                None => {
                    &&& forall|c: int| old(self).index() <= c < NUM_CHANNELS ==> !#[trigger] old(self).owner().has(c)
                    &&& final(self).index() == NUM_CHANNELS
                },
            },
            old(self).remaining() == match r {
                Some(i) => seq![i] + final(self).remaining(),
                None => Seq::<usize>::empty(),
            },
    {
        proof {
            use_type_invariant(&*self);
        }
        let ghost start = self.index;
        while self.index != NUM_CHANNELS
            invariant
                start <= self.index <= NUM_CHANNELS,
                self.owner == old(self).owner,
                start == old(self).index,
                forall|c: int| start <= c < self.index ==> !#[trigger] self.owner.has(c),
            decreases NUM_CHANNELS - self.index,
        {
            let index = self.index;
            self.index = self.index + 1;
            if self.owner.contains(index) {
                proof {
                    lemma_up_skip(self.owner, start as int, index as int);
                }
                return Some(index);
            }
        }
        proof {
            lemma_up_skip(self.owner, start as int, NUM_CHANNELS as int);
        }
        None
    }

    /// Returns the highest channel in the set before the position, and moves
    /// to it.
    pub fn next_back(&mut self) -> (r: Option<usize>)
        ensures
            final(self).owner() == old(self).owner(),
            old(self).index() <= NUM_CHANNELS,
            match r {
                Some(i) => {
                    &&& i < old(self).index()
                    &&& old(self).owner().has(i as int)
                    &&& forall|c: int| i < c < old(self).index() ==> !#[trigger] old(self).owner().has(c)
                    &&& final(self).index() == i
                },
                None => {
                    &&& forall|c: int| 0 <= c < old(self).index() ==> !#[trigger] old(self).owner().has(c)
                    &&& final(self).index() == 0
                },
            },
            old(self).remaining_back() == match r {
                Some(i) => seq![i] + final(self).remaining_back(),
                None => Seq::<usize>::empty(),
            },
    {
        proof {
            use_type_invariant(&*self);
        }
        let ghost start = self.index;
        while self.index != 0
            invariant
                self.index <= start <= NUM_CHANNELS,
                self.owner == old(self).owner,
                start == old(self).index,
                forall|c: int| self.index <= c < start ==> !#[trigger] self.owner.has(c),
            decreases self.index,
        {
            self.index = self.index - 1;
            if self.owner.contains(self.index) {
                proof {
                    lemma_down_skip(self.owner, self.index + 1, start as int);
                }
                return Some(self.index);
            }
        }
        proof {
            lemma_down_skip(self.owner, 0, start as int);
        }
        None
    }
}

/// An iterator over the channels of a [`SpriteBitmask`], highest first.
pub struct RevBitIter(pub BitIter);

impl RevBitIter {
    /// Returns the next channel, going down.
    pub fn next(&mut self) -> (r: Option<usize>)
        ensures
            final(self).0.owner() == old(self).0.owner(),
            match r {
                Some(i) => {
                    &&& i < old(self).0.index()
                    &&& old(self).0.owner().has(i as int)
                    &&& forall|c: int| i < c < old(self).0.index() ==> !#[trigger] old(self).0.owner().has(c)
                    &&& final(self).0.index() == i
                },
                None => {
                    &&& forall|c: int| 0 <= c < old(self).0.index() ==> !#[trigger] old(self).0.owner().has(c)
                    &&& final(self).0.index() == 0
                },
            },
            old(self).0.remaining_back() == match r {
                Some(i) => seq![i] + final(self).0.remaining_back(),
                None => Seq::<usize>::empty(),
            },
    {
        self.0.next_back()
    }
}

} // verus!
