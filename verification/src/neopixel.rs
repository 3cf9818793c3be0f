//! The row of RGBW pixels: a rainbow that moves along.
use vstd::prelude::*;

verus! {

/// Pixels in the row.
pub const NUM_LEDS: usize = 6;

/// How far the rainbow moves at each tick, on a colour wheel of 256 positions.
pub const SPEED: i32 = 2;

/// The time between two ticks, in milliseconds.
pub const TICK_MS: u64 = 20;

/// A colour of the wheel.
#[derive(Clone, Copy, Debug, PartialEq, Eq, Structural)]
pub struct Rgb {
    pub r: u8,
    pub g: u8,
    pub b: u8,
}

/// The colour of a pixel, which has a white light too.
#[derive(Clone, Copy, Debug, PartialEq, Eq, Structural)]
pub struct Rgbw {
    pub r: u8,
    pub g: u8,
    pub b: u8,
    pub w: u8,
}

/// The colour of a pixel but for its white light.
pub open spec fn without_white(pixel: Rgbw) -> Rgb {
    Rgb { r: pixel.r, g: pixel.g, b: pixel.b }
}

/// The position on the wheel of the pixel `i` when the rainbow has moved by `j`: the pixels are
/// spread over the wheel evenly, as far as whole positions go.
pub open spec fn wheel_position(j: i32, i: int) -> u8 {
    ((j + i * 256 / 6) % 256) as u8
}

/// Where the rainbow is after one more tick: it moves on, and wraps round the integers.
pub open spec fn offset_after(j: i32) -> i32 {
    if j + 2 <= i32::MAX {
        (j + 2) as i32
    } else {
        (j + 2 - 0x1_0000_0000) as i32
    }
}

/// A rainbow that moves along the row.
pub struct Rainbow {
    j: i32,
}

impl View for Rainbow {
    type V = i32;

    /// How far the rainbow has moved.
    closed spec fn view(&self) -> i32 {
        self.j
    }
}

/// A cast to a byte keeps the remainder by 256.
proof fn lemma_low_byte(x: i32)
    ensures
        (x as u8) as int == x as int % 256,
{
    assert(x as u8 == (x as u32) % 256) by (bit_vector);
    assert(x >= 0 ==> (x as u32) as i64 == x as i64) by (bit_vector);
    assert(x < 0 ==> (x as u32) as i64 == x as i64 + 0x1_0000_0000i64) by (bit_vector);
}

impl Rainbow {
    /// The rainbow before it has moved.
    pub fn new() -> (r: Self)
        ensures
            r@ == 0,
    {
        Rainbow { j: 0 }
    }

    /// The position on the wheel of the pixel `i`.
    pub fn position(&self, i: usize) -> (r: u8)
        requires
            i < NUM_LEDS,
        ensures
            r == wheel_position(self@, i as int),
            r == (self@ + i as int * 256 / 6) % 256,
    {
        let step: i32 = i as i32 * 256 / 6;
        let at: i32 = self.j.wrapping_add(step);
        proof {
            lemma_low_byte(at);
        }
        #[verifier::truncate]
        (at as u8)
    }

    /// The colours of the row: each pixel has the colour that `wheel` gives for its position, and
    /// its white light is off.
    pub fn frame<F: Fn(u8) -> Rgb>(&self, wheel: F) -> (r: [Rgbw; 6])
        requires
            forall|p: u8| call_requires(wheel, (p,)),
        ensures
            forall|i: int|
                0 <= i < 6 ==> call_ensures(
                    wheel,
                    (wheel_position(self@, i),),
                    without_white(#[trigger] r@[i]),
                ) && r@[i].w == 0,
            forall|i: int|
                0 <= i < 6 ==> (#[trigger] r@[i]).w == 0 && exists|p: u8, c: Rgb| #[trigger]
                    call_ensures(wheel, (p,), c) && p == (self@ + i * 256 / 6) % 256 && r@[i].r
                        == c.r && r@[i].g == c.g && r@[i].b == c.b,
    {
        let mut data: [Rgbw; 6] = [Rgbw { r: 0, g: 0, b: 0, w: 0 }; 6];
        let mut i: usize = 0;
        while i < NUM_LEDS
            invariant
                i <= 6,
                forall|p: u8| call_requires(wheel, (p,)),
                forall|k: int|
                    0 <= k < i ==> call_ensures(
                        wheel,
                        (wheel_position(self@, k),),
                        without_white(#[trigger] data@[k]),
                    ) && data@[k].w == 0,
            decreases 6 - i,
        {
            let color = wheel(self.position(i));
            data[i] = Rgbw { r: color.r, g: color.g, b: color.b, w: 0 };
            i = i + 1;
        }
        proof {
            assert forall|k: int| 0 <= k < 6 implies (#[trigger] data@[k]).w == 0 && exists|
                p: u8,
                c: Rgb,
            | #[trigger]
                call_ensures(wheel, (p,), c) && p == (self@ + k * 256 / 6) % 256 && data@[k].r
                    == c.r && data@[k].g == c.g && data@[k].b == c.b by {
                let c = Rgb { r: data@[k].r, g: data@[k].g, b: data@[k].b };
                assert(call_ensures(wheel, (wheel_position(self@, k),), c));
            }
        }
        data
    }

    /// Moves the rainbow on by one tick.
    pub fn advance(&mut self)
        ensures
            final(self)@ == offset_after(old(self)@),
            old(self)@ + 2 <= i32::MAX ==> final(self)@ == old(self)@ + 2,
            old(self)@ + 2 > i32::MAX ==> final(self)@ == old(self)@ + 2 - 0x1_0000_0000,
    {
        self.j = self.j.wrapping_add(SPEED);
    }
}

/// Where the rainbow is after `n` ticks.
pub open spec fn offset_run(j: i32, n: nat) -> i32
    decreases n,
{
    if n == 0 {
        j
    } else {
        offset_after(offset_run(j, (n - 1) as nat))
    }
}

/// The white light is all that sets a pixel's colour apart from a colour of the wheel: red, green
/// and blue are each taken over.
pub proof fn law_colours_are_kept(pixel: Rgbw)
    ensures
        without_white(pixel).r == pixel.r,
        without_white(pixel).g == pixel.g,
        without_white(pixel).b == pixel.b,
{
}

/// The first pixel is where the rainbow is, and pixel `i` is as many sixths of the wheel further on
/// as whole positions allow.
pub proof fn law_positions(j: i32, i: int)
    requires
        0 <= i < 6,
    ensures
        (wheel_position(j, 0) - j) % 256 == 0,
        6 * ((wheel_position(j, i) - wheel_position(j, 0)) % 256) <= 256 * i,
        256 * i < 6 * ((wheel_position(j, i) - wheel_position(j, 0)) % 256) + 6,
{
    let a = i * 256 / 6;
    assert(0 <= a < 256);
    if i > 0 {
        lemma_apart(j as int, 0, a);
    }
}

/// A tick moves the rainbow by two, modulo the range of the offset.
pub proof fn law_offset(j: i32)
    ensures
        j + 2 <= i32::MAX ==> offset_after(j) == j + 2,
        (offset_after(j) - j - 2) % 0x1_0000_0000 == 0,
{
}

/// A tick moves every pixel two positions along the wheel, which is closed. The wrap of the
/// offset itself does not show.
pub proof fn law_tick(j: i32, i: int)
    requires
        0 <= i < 6,
    ensures
        wheel_position(offset_after(j), i) == (wheel_position(j, i) + 2) % 256,
{
    lemma_two_on(j as int, i * 256 / 6);
}

/// Two positions on, on the wheel, is two on in the offset, also where the offset wraps.
proof fn lemma_two_on(j: int, a: int)
    ensures
        (j + 2 + a) % 256 == ((j + a) % 256 + 2) % 256,
        (j + 2 - 0x1_0000_0000 + a) % 256 == ((j + a) % 256 + 2) % 256,
{
    assert((j + 2 - 0x1_0000_0000 + a) % 256 == (j + 2 + a) % 256) by {
        assert(0x1_0000_0000 == 256 * 0x100_0000);
    }
}

/// After `n` ticks every pixel is `2 * n` positions further along the wheel.
pub proof fn law_ticks(j: i32, i: int, n: nat)
    requires
        0 <= i < 6,
    ensures
        wheel_position(offset_run(j, n), i) == (wheel_position(j, i) + 2 * n) % 256,
    decreases n,
{
    if n > 0 {
        law_ticks(j, i, (n - 1) as nat);
        law_tick(offset_run(j, (n - 1) as nat), i);
    }
}

/// The rainbow repeats every 128 ticks, which take 2560 milliseconds.
pub proof fn law_period(j: i32, i: int)
    requires
        0 <= i < 6,
    ensures
        128 * TICK_MS == 2560,
        wheel_position(offset_run(j, 128), i) == wheel_position(j, i),
{
    law_ticks(j, i, 128);
}

/// No two pixels are at the same position, and neighbours are 42 or 43 positions apart.
pub proof fn law_spread(j: i32, i: int, k: int)
    requires
        0 <= i < k < 6,
    ensures
        wheel_position(j, i) != wheel_position(j, k),
        k == i + 1 ==> 42 <= (wheel_position(j, k) - wheel_position(j, i)) % 256 <= 43,
{
    let a = i * 256 / 6;
    let b = k * 256 / 6;
    assert(0 <= a < b < 256);
    assert(k == i + 1 ==> 42 <= b - a <= 43);
    lemma_apart(j as int, a, b);
}

/// How far apart two positions of the wheel are that come from two offsets.
proof fn lemma_apart(j: int, a: int, b: int)
    requires
        0 <= a < b < 256,
    ensures
        (j + a) % 256 != (j + b) % 256,
        ((j + b) % 256 - (j + a) % 256) % 256 == b - a,
{
}

} // verus!
