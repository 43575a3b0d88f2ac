use vstd::arithmetic::div_mod::{lemma_fundamental_div_mod, lemma_fundamental_div_mod_converse};
use vstd::prelude::*;

verus! {

/// Size of the byte-addressable store
pub const MEMORY_SIZE: usize = 8192;

pub const SCREEN_WIDTH: usize = 64;

pub const SCREEN_HEIGHT: usize = 32;

pub const SCREEN_SIZE: usize = 2048;

/// First address of the read-only window through which the glyphs are read
pub const FONT_BASE: usize = 0x4000;

/// Number of bytes in the glyph table: 16 glyphs of 5 rows
pub const FONT_SIZE: usize = 80;

/// The glyph sprites of the characters 0-F, five rows each
pub const SPRITE_MEM: [u8; FONT_SIZE] = [
    0xF0, 0x90, 0x90, 0x90, 0xF0, 0x20, 0x60, 0x20, 0x20, 0x70,
    0xF0, 0x10, 0xF0, 0x80, 0xF0, 0xF0, 0x10, 0xF0, 0x10, 0xF0,
    0x90, 0x90, 0xF0, 0x10, 0x10, 0xF0, 0x80, 0xF0, 0x10, 0xF0,
    0xF0, 0x80, 0xF0, 0x90, 0xF0, 0xF0, 0x10, 0x20, 0x40, 0x40,
    0xF0, 0x90, 0xF0, 0x90, 0xF0, 0xF0, 0x90, 0xF0, 0x10, 0xF0,
    0xF0, 0x90, 0xF0, 0x90, 0x90, 0xE0, 0x90, 0xE0, 0x90, 0xE0,
    0xF0, 0x80, 0x80, 0x80, 0xF0, 0xE0, 0x90, 0x90, 0x90, 0xE0,
    0xF0, 0x80, 0xF0, 0x80, 0xF0, 0xF0, 0x80, 0xF0, 0x80, 0x80,
];

/// The memory structure contains the user accessible data and the current frame buffer.
pub struct Memory {
    pub data: [u8; MEMORY_SIZE],
    pub frame_buffer: [u8; SCREEN_SIZE],
}

/// What a `Memory` holds, as two sequences
#[verifier::ext_equal]
pub struct MemoryView {
    pub data: Seq<u8>,
    pub frame_buffer: Seq<u8>,
}

/// An address that `get` can read: the store, or the glyph window
pub open spec fn readable(addr: int) -> bool {
    0 <= addr < MEMORY_SIZE || FONT_BASE <= addr < FONT_BASE + FONT_SIZE
}

/// An address that `set` can write: the store
pub open spec fn writable(addr: int) -> bool {
    0 <= addr < MEMORY_SIZE
}

/// A store of `MEMORY_SIZE` zero bytes with `image` laid over it from `offset` on;
/// what would lie beyond the store is left out
pub open spec fn load_image(image: Seq<u8>, offset: int) -> Seq<u8> {
    Seq::new(
        MEMORY_SIZE as nat,
        |a: int|
            if offset <= a < offset + image.len() {
                image[a - offset]
            } else {
                0u8
            },
    )
}

/// A frame buffer with every pixel off
pub open spec fn blank_screen() -> Seq<u8> {
    Seq::new(SCREEN_SIZE as nat, |k: int| 0u8)
}

/// Where the pixel in column `x` of row `y` lies in the frame buffer, both
/// coordinates taken around the screen's edges
pub open spec fn pixel_index(x: int, y: int) -> int {
    (y % SCREEN_HEIGHT as int) * SCREEN_WIDTH as int + x % SCREEN_WIDTH as int
}

/// The pixel that a sprite row holds in column `col`, counted from its most
/// significant bit: 1 or 0
pub open spec fn sprite_bit(sprite: u8, col: int) -> u8 {
    if sprite & (0x80u8 >> col as u8) != 0 {
        1
    } else {
        0
    }
}

/// How many columns to the right of `x` the screen column `px` lies, around the edge
pub open spec fn column_offset(px: int, x: int) -> int {
    (px - x) % SCREEN_WIDTH as int
}

/// The frame buffer after the first `ncols` pixels of one sprite row were
/// exclusive-ORed into row `y` from column `x` on
pub open spec fn draw_cols(fb: Seq<u8>, x: int, y: int, sprite: u8, ncols: int) -> Seq<u8> {
    Seq::new(
        fb.len(),
        |k: int|
            if k / SCREEN_WIDTH as int == y % SCREEN_HEIGHT as int && column_offset(
                k % SCREEN_WIDTH as int,
                x,
            ) < ncols {
                fb[k] ^ sprite_bit(sprite, column_offset(k % SCREEN_WIDTH as int, x))
            } else {
                fb[k]
            },
    )
}

/// The frame buffer after one sprite row was drawn into row `y` from column `x` on
pub open spec fn draw_row(fb: Seq<u8>, x: int, y: int, sprite: u8) -> Seq<u8> {
    draw_cols(fb, x, y, sprite, 8)
}

/// Whether one of the first `ncols` pixels of the sprite row is set where the
/// frame buffer holds a set pixel: drawing it there turns that pixel off
pub open spec fn cols_collide(fb: Seq<u8>, x: int, y: int, sprite: u8, ncols: int) -> bool {
    exists|c: int|
        0 <= c < ncols && sprite_bit(sprite, c) == 1 && #[trigger] fb[pixel_index(x + c, y)] == 1
}

/// Whether drawing the sprite row turns a set pixel off
pub open spec fn row_collides(fb: Seq<u8>, x: int, y: int, sprite: u8) -> bool {
    cols_collide(fb, x, y, sprite, 8)
}

/// The frame buffer after the rows of a sprite were drawn one below the other,
/// the first of them into row `y`
pub open spec fn draw_rows(fb: Seq<u8>, x: int, y: int, rows: Seq<u8>) -> Seq<u8>
    decreases rows.len(),
{
    if rows.len() == 0 {
        fb
    } else {
        draw_row(draw_rows(fb, x, y, rows.drop_last()), x, y + rows.len() - 1, rows.last())
    }
}

/// Whether drawing the rows of a sprite turns a set pixel off at any point
pub open spec fn rows_collide(fb: Seq<u8>, x: int, y: int, rows: Seq<u8>) -> bool
    decreases rows.len(),
{
    if rows.len() == 0 {
        false
    } else {
        rows_collide(fb, x, y, rows.drop_last()) || row_collides(
            draw_rows(fb, x, y, rows.drop_last()),
            x,
            y + rows.len() - 1,
            rows.last(),
        )
    }
}

/// Every pixel of the frame buffer is 0, for off, or 1, for on
pub open spec fn is_binary(fb: Seq<u8>) -> bool {
    forall|k: int| 0 <= k < fb.len() ==> fb[k] == 0 || fb[k] == 1
}

/// Whether drawing the sprite row flips the pixel at `k`
pub open spec fn row_touches(x: int, y: int, sprite: u8, k: int) -> bool {
    &&& k / SCREEN_WIDTH as int == y % SCREEN_HEIGHT as int
    &&& column_offset(k % SCREEN_WIDTH as int, x) < 8
    &&& sprite_bit(sprite, column_offset(k % SCREEN_WIDTH as int, x)) == 1
}

/// Whether one of the rows of a sprite flips the pixel at `k`
pub open spec fn rows_touch(x: int, y: int, rows: Seq<u8>, k: int) -> bool
    decreases rows.len(),
{
    if rows.len() == 0 {
        false
    } else {
        rows_touch(x, y, rows.drop_last(), k) || row_touches(
            x,
            y + rows.len() - 1,
            rows.last(),
            k,
        )
    }
}

impl MemoryView {
    /// The store and the frame buffer have the sizes of the machine
    pub open spec fn wf(self) -> bool {
        self.data.len() == MEMORY_SIZE && self.frame_buffer.len() == SCREEN_SIZE
    }

    /// The byte read at `addr`: a glyph byte in the glyph window, else the stored byte
    pub open spec fn read_byte(self, addr: int) -> u8 {
        if addr < FONT_BASE {
            self.data[addr]
        } else {
            SPRITE_MEM@[addr - FONT_BASE]
        }
    }

    /// The two bytes at `addr` and `addr + 1`, most significant first
    pub open spec fn read_word(self, addr: int) -> u16 {
        (self.read_byte(addr) as int * 256 + self.read_byte(addr + 1) as int) as u16
    }

    /// The `n` bytes read from `addr` on, which `draw_sprite` takes as the rows of a sprite
    pub open spec fn sprite_rows(self, addr: int, n: int) -> Seq<u8> {
        Seq::new(n as nat, |r: int| self.read_byte(addr + r))
    }

    /// This memory with `val` stored at `addr`
    pub open spec fn write_byte(self, addr: int, val: u8) -> MemoryView {
        MemoryView { data: self.data.update(addr, val), frame_buffer: self.frame_buffer }
    }
}

impl View for Memory {
    type V = MemoryView;

    open spec fn view(&self) -> MemoryView {
        MemoryView { data: self.data@, frame_buffer: self.frame_buffer@ }
    }
}

impl Memory {
    /// Whether `get` can read at `idx`
    pub fn is_readable(idx: usize) -> (yes: bool)
        ensures
            yes == readable(idx as int),
    {
        idx < MEMORY_SIZE || (FONT_BASE <= idx && idx < FONT_BASE + FONT_SIZE)
    }

    /// Whether `set` can write at `idx`
    pub fn is_writable(idx: usize) -> (yes: bool)
        ensures
            yes == writable(idx as int),
    {
        idx < MEMORY_SIZE
    }

    /// Create a new completely clear memory
    pub fn new() -> (mem: Self)
        ensures
            mem@.data == Seq::new(MEMORY_SIZE as nat, |a: int| 0u8),
            mem@.frame_buffer == blank_screen(),
    {
        Self { data: [0; MEMORY_SIZE], frame_buffer: [0; SCREEN_SIZE] }
    }

    /// Create a new memory with the supplied data set at the given offset. Used to load
    /// programs at 0x200 (the default starting location)
    pub fn of_bytes(data: &[u8], offset: usize) -> (mem: Self)
        ensures
            mem@.data == load_image(data@, offset as int),
            mem@.frame_buffer == blank_screen(),
    {
        let mut new_memory = Self::new();
        if offset < MEMORY_SIZE {
            let room = MEMORY_SIZE - offset;
            let mut i: usize = 0;
            while i < data.len() && i < room
                invariant
                    offset + room == MEMORY_SIZE,
                    i <= room,
                    i <= data.len(),
                    new_memory.frame_buffer@ == blank_screen(),
                    forall|a: int|
                        0 <= a < MEMORY_SIZE ==> new_memory.data@[a] == if offset <= a < offset
                            + i {
                            data@[a - offset]
                        } else {
                            0u8
                        },
                decreases data.len() - i,
            {
                new_memory.data[offset + i] = data[i];
                i += 1;
            }
        }
        new_memory
    }

    /// Get a byte from memory. An address from `FONT_BASE` on reads the glyph table
    pub fn get(&self, idx: usize) -> (b: u8)
        requires
            readable(idx as int),
        ensures
            b == self@.read_byte(idx as int),
    {
        if idx < FONT_BASE {
            self.data[idx]
        } else {
            SPRITE_MEM[idx - FONT_BASE]
        }
    }

    /// Set a byte in memory
    pub fn set(&mut self, idx: usize, val: u8)
        requires
            writable(idx as int),
        ensures
            final(self)@ == old(self)@.write_byte(idx as int, val),
    {
        self.data[idx] = val;
    }

    /// Return the 16-bit word stored most significant byte first at `idx`
    pub fn get16(&self, idx: usize) -> (w: u16)
        requires
            readable(idx as int),
            readable(idx + 1),
        ensures
            w == self@.read_word(idx as int),
    {
        let first_part = self.get(idx);
        let second_part = self.get(idx + 1);
        assert(((first_part as u16) << 8) | (second_part as u16) == first_part as u16 * 256
            + second_part as u16) by (bit_vector);
        ((first_part as u16) << 8) | (second_part as u16)
    }

    /// Clear the entire framebuffer
    pub fn clear_display(&mut self)
        ensures
            final(self)@.data == old(self)@.data,
            final(self)@.frame_buffer == blank_screen(),
    {
        let mut i: usize = 0;
        while i < SCREEN_SIZE
            invariant
                i <= SCREEN_SIZE,
                self.data == old(self).data,
                forall|k: int| 0 <= k < i ==> self.frame_buffer@[k] == 0,
            decreases SCREEN_SIZE - i,
        {
            self.frame_buffer[i] = 0;
            i += 1;
        }
    }

    /// Draw one sprite row into screen row `row` from column `x` on. Returns whether
    /// that turned a set pixel off
    fn draw_sprite_row(&mut self, x: usize, row: usize, sprite: u8) -> (hit: bool)
        requires
            row < SCREEN_HEIGHT,
        ensures
            final(self)@.data == old(self)@.data,
            final(self)@.frame_buffer == draw_row(
                old(self)@.frame_buffer,
                x as int,
                row as int,
                sprite,
            ),
            hit == row_collides(old(self)@.frame_buffer, x as int, row as int, sprite),
    {
        let ghost before = self.frame_buffer@;
        let mut hit = false;
        let mut xoff: usize = 0;
        while xoff < 8
            invariant
                xoff <= 8,
                row < SCREEN_HEIGHT,
                self.data == old(self).data,
                before == old(self).frame_buffer@,
                self.frame_buffer@ == draw_cols(before, x as int, row as int, sprite, xoff as int),
                hit == cols_collide(before, x as int, row as int, sprite, xoff as int),
            decreases 8 - xoff,
        {
            let col = (x % SCREEN_WIDTH + xoff) % SCREEN_WIDTH;
            let fb_idx = row * SCREEN_WIDTH + col;
            proof {
                lemma_pixel_index(x as int, row as int, xoff as int);
                lemma_column_offset(col as int, x as int, xoff as int);
            }
            let xor_value: u8 = if sprite & (0x80u8 >> xoff) != 0 { 1 } else { 0 };
            let current_value = self.frame_buffer[fb_idx];
            let new_value = current_value ^ xor_value;
            assert((current_value == 1 && new_value == 0) == (current_value == 1 && xor_value
                == 1)) by (bit_vector)
                requires
                    new_value == current_value ^ xor_value,
                    xor_value == 0 || xor_value == 1,
            ;
            if current_value == 1 && new_value == 0 {
                hit = true;
            }
            self.frame_buffer[fb_idx] = new_value;
            proof {
                let after = draw_cols(before, x as int, row as int, sprite, xoff + 1);
                assert forall|k: int| 0 <= k < SCREEN_SIZE implies self.frame_buffer@[k]
                    == after[k] by {
                    lemma_column_offset(k % SCREEN_WIDTH as int, x as int, xoff as int);
                }
                assert(self.frame_buffer@ =~= after);
                lemma_cols_collide_step(before, x as int, row as int, sprite, xoff as int);
            }
            xoff += 1;
        }
        hit
    }

    /// Draw the `n` rows of the sprite stored from address `i` on at column `x` and
    /// row `y`, exclusive-ORing each set pixel into the frame buffer. Returns 1 if
    /// that turned a set pixel off, else 0
    pub fn draw_sprite(&mut self, x: usize, y: usize, n: usize, i: usize) -> (vf_reg: u8)
        requires
            forall|a: int| i <= a < i + n ==> readable(a),
        ensures
            final(self)@.data == old(self)@.data,
            final(self)@.frame_buffer == draw_rows(
                old(self)@.frame_buffer,
                x as int,
                y as int,
                old(self)@.sprite_rows(i as int, n as int),
            ),
            vf_reg == if rows_collide(
                old(self)@.frame_buffer,
                x as int,
                y as int,
                old(self)@.sprite_rows(i as int, n as int),
            ) {
                1u8
            } else {
                0u8
            },
            is_binary(old(self)@.frame_buffer) ==> is_binary(final(self)@.frame_buffer),
    {
        let ghost fb0 = self.frame_buffer@;
        let ghost rows = self@.sprite_rows(i as int, n as int);
        let mut vf_reg: u8 = 0;
        let mut yoff: usize = 0;
        while yoff < n
            invariant
                yoff <= n,
                forall|a: int| i <= a < i + n ==> readable(a),
                self.data == old(self).data,
                rows == old(self)@.sprite_rows(i as int, n as int),
                fb0 == old(self).frame_buffer@,
                self.frame_buffer@ == draw_rows(fb0, x as int, y as int, rows.take(yoff as int)),
                vf_reg == if rows_collide(fb0, x as int, y as int, rows.take(yoff as int)) {
                    1u8
                } else {
                    0u8
                },
            decreases n - yoff,
        {
            let row = (y % SCREEN_HEIGHT + yoff % SCREEN_HEIGHT) % SCREEN_HEIGHT;
            assert(readable(i + yoff));
            let sprite = self.get(i + yoff);
            let ghost before = self.frame_buffer@;
            let hit = self.draw_sprite_row(x, row, sprite);
            proof {
                lemma_row_sum(y as int, yoff as int);
                lemma_row_wraps(before, x as int, y + yoff, sprite);
                lemma_draw_rows_step(fb0, x as int, y as int, rows, yoff as int);
            }
            if hit {
                vf_reg = 1;
            }
            yoff += 1;
        }
        proof {
            assert(rows.take(n as int) =~= rows);
            if is_binary(fb0) {
                law_draw_keeps_binary(fb0, x as int, y as int, rows);
            }
        }
        vf_reg
    }
}

/// Drawing a sprite into a frame buffer of pixels that are 0 or 1 leaves every
/// pixel 0 or 1.
pub proof fn law_draw_keeps_binary(fb: Seq<u8>, x: int, y: int, rows: Seq<u8>)
    requires
        is_binary(fb),
    ensures
        is_binary(draw_rows(fb, x, y, rows)),
    decreases rows.len(),
{
    if rows.len() > 0 {
        law_draw_keeps_binary(fb, x, y, rows.drop_last());
        let before = draw_rows(fb, x, y, rows.drop_last());
        let after = draw_rows(fb, x, y, rows);
        assert forall|k: int| 0 <= k < after.len() implies after[k] == 0 || after[k] == 1 by {
            let p = before[k];
            let b = sprite_bit(rows.last(), column_offset(k % SCREEN_WIDTH as int, x));
            assert((p == 0 || p == 1) && (b == 0 || b == 1) ==> (p ^ b == 0 || p ^ b == 1))
                by (bit_vector);
        }
    }
}

/// Drawing the same sprite at the same place twice in succession leaves the
/// frame buffer as it was before the first draw. And if the first draw set a
/// pixel, one that was 0 before it and 1 after it, then the second draw turns
/// a set pixel off: it returns the collision flag.
pub proof fn law_draw_twice(fb: Seq<u8>, x: nat, y: nat, rows: Seq<u8>)
    ensures
        draw_rows(draw_rows(fb, x as int, y as int, rows), x as int, y as int, rows) == fb,
        (exists|k: int|
            0 <= k < fb.len() && fb[k] == 0 && #[trigger] draw_rows(
                fb,
                x as int,
                y as int,
                rows,
            )[k] == 1) ==> rows_collide(
            draw_rows(fb, x as int, y as int, rows),
            x as int,
            y as int,
            rows,
        ),
    decreases rows.len(),
{
    let xi = x as int;
    let yi = y as int;
    let once = draw_rows(fb, xi, yi, rows);
    lemma_draw_rows_len(fb, xi, yi, rows);
    if rows.len() > 0 {
        let init = rows.drop_last();
        let row_y = yi + rows.len() - 1;
        let before_last = draw_rows(fb, xi, yi, init);
        law_draw_twice(fb, x, y, init);
        lemma_row_commutes_with_rows(before_last, xi, yi, init, row_y, rows.last());
        lemma_row_twice(fb, xi, row_y, rows.last());
    }
    if exists|k: int| 0 <= k < fb.len() && fb[k] == 0 && #[trigger] once[k] == 1 {
        let k = choose|k: int| 0 <= k < fb.len() && fb[k] == 0 && #[trigger] once[k] == 1;
        if !rows_touch(xi, yi, rows, k) {
            lemma_rows_untouched(fb, xi, yi, rows, k);
        }
        lemma_rows_touch_collide(once, xi, yi, rows, k);
    }
}

/// Drawing keeps the size of the frame buffer
pub proof fn lemma_draw_rows_len(fb: Seq<u8>, x: int, y: int, rows: Seq<u8>)
    ensures
        draw_rows(fb, x, y, rows).len() == fb.len(),
    decreases rows.len(),
{
    if rows.len() > 0 {
        lemma_draw_rows_len(fb, x, y, rows.drop_last());
    }
}

/// Drawing a sprite row leaves a pixel that it does not flip as it was
proof fn lemma_row_untouched(fb: Seq<u8>, x: int, y: int, sprite: u8, k: int)
    requires
        0 <= k < fb.len(),
        !row_touches(x, y, sprite, k),
    ensures
        draw_row(fb, x, y, sprite)[k] == fb[k],
{
    let p = fb[k];
    assert(p ^ 0 == p) by (bit_vector);
}

/// Drawing a sprite leaves a pixel that none of its rows flips as it was
proof fn lemma_rows_untouched(fb: Seq<u8>, x: int, y: int, rows: Seq<u8>, k: int)
    requires
        0 <= k < fb.len(),
        !rows_touch(x, y, rows, k),
    ensures
        draw_rows(fb, x, y, rows).len() == fb.len(),
        draw_rows(fb, x, y, rows)[k] == fb[k],
    decreases rows.len(),
{
    lemma_draw_rows_len(fb, x, y, rows);
    if rows.len() > 0 {
        lemma_rows_untouched(fb, x, y, rows.drop_last(), k);
        lemma_row_untouched(
            draw_rows(fb, x, y, rows.drop_last()),
            x,
            y + rows.len() - 1,
            rows.last(),
            k,
        );
    }
}

/// Drawing a sprite row that flips a set pixel turns that pixel off
proof fn lemma_row_touch_collides(fb: Seq<u8>, x: int, y: int, sprite: u8, k: int)
    requires
        0 <= x,
        0 <= k < fb.len(),
        row_touches(x, y, sprite, k),
        fb[k] == 1,
    ensures
        row_collides(fb, x, y, sprite),
{
    let c = column_offset(k % SCREEN_WIDTH as int, x);
    lemma_column_offset(k % SCREEN_WIDTH as int, x, c);
    assert(pixel_index(x + c, y) == k);
    assert(fb[pixel_index(x + c, y)] == 1);
}

/// Drawing a sprite of which a row flips a set pixel turns a set pixel off
proof fn lemma_rows_touch_collide(fb: Seq<u8>, x: int, y: int, rows: Seq<u8>, k: int)
    requires
        0 <= x,
        0 <= k < fb.len(),
        rows_touch(x, y, rows, k),
        fb[k] == 1,
    ensures
        rows_collide(fb, x, y, rows),
    decreases rows.len(),
{
    if rows.len() > 0 {
        if rows_touch(x, y, rows.drop_last(), k) {
            lemma_rows_touch_collide(fb, x, y, rows.drop_last(), k);
        } else {
            lemma_rows_untouched(fb, x, y, rows.drop_last(), k);
            lemma_row_touch_collides(
                draw_rows(fb, x, y, rows.drop_last()),
                x,
                y + rows.len() - 1,
                rows.last(),
                k,
            );
        }
    }
}

/// Drawing the same sprite row twice leaves the frame buffer as it was
proof fn lemma_row_twice(fb: Seq<u8>, x: int, y: int, sprite: u8)
    ensures
        draw_row(draw_row(fb, x, y, sprite), x, y, sprite) == fb,
{
    let once = draw_row(fb, x, y, sprite);
    let twice = draw_row(once, x, y, sprite);
    assert forall|k: int| 0 <= k < fb.len() implies twice[k] == fb[k] by {
        let p = fb[k];
        let b = sprite_bit(sprite, column_offset(k % SCREEN_WIDTH as int, x));
        assert((p ^ b) ^ b == p) by (bit_vector);
    }
    assert(twice =~= fb);
}

/// Two sprite rows can be drawn in either order
proof fn lemma_rows_commute(fb: Seq<u8>, x: int, y1: int, s1: u8, y2: int, s2: u8)
    ensures
        draw_row(draw_row(fb, x, y1, s1), x, y2, s2) == draw_row(
            draw_row(fb, x, y2, s2),
            x,
            y1,
            s1,
        ),
{
    let left = draw_row(draw_row(fb, x, y1, s1), x, y2, s2);
    let right = draw_row(draw_row(fb, x, y2, s2), x, y1, s1);
    assert forall|k: int| 0 <= k < fb.len() implies left[k] == right[k] by {
        let p = fb[k];
        let a = sprite_bit(s1, column_offset(k % SCREEN_WIDTH as int, x));
        let b = sprite_bit(s2, column_offset(k % SCREEN_WIDTH as int, x));
        assert((p ^ a) ^ b == (p ^ b) ^ a) by (bit_vector);
    }
    assert(left =~= right);
}

/// A sprite row can be drawn before a sprite or after it
proof fn lemma_row_commutes_with_rows(
    fb: Seq<u8>,
    x: int,
    y: int,
    rows: Seq<u8>,
    row_y: int,
    sprite: u8,
)
    ensures
        draw_rows(draw_row(fb, x, row_y, sprite), x, y, rows) == draw_row(
            draw_rows(fb, x, y, rows),
            x,
            row_y,
            sprite,
        ),
    decreases rows.len(),
{
    if rows.len() > 0 {
        let init = rows.drop_last();
        lemma_row_commutes_with_rows(fb, x, y, init, row_y, sprite);
        lemma_rows_commute(
            draw_rows(fb, x, y, init),
            x,
            row_y,
            sprite,
            y + rows.len() - 1,
            rows.last(),
        );
    }
}

/// The pixel `c` columns right of `x` in row `row` lies at `row * 64 + (x % 64 + c) % 64`
proof fn lemma_pixel_index(x: int, row: int, c: int)
    requires
        0 <= x,
        0 <= row < SCREEN_HEIGHT,
        0 <= c < SCREEN_WIDTH,
    ensures
        pixel_index(x + c, row) == row * SCREEN_WIDTH + (x % SCREEN_WIDTH as int + c)
            % SCREEN_WIDTH as int,
        0 <= pixel_index(x + c, row) < SCREEN_SIZE,
        pixel_index(x + c, row) / SCREEN_WIDTH as int == row,
        pixel_index(x + c, row) % SCREEN_WIDTH as int == (x + c) % SCREEN_WIDTH as int,
{
    let q = x / 64;
    let r = x % 64;
    lemma_fundamental_div_mod(x, 64);
    if r + c < 64 {
        lemma_fundamental_div_mod_converse(x + c, 64, q, r + c);
        lemma_fundamental_div_mod_converse(r + c, 64, 0, r + c);
    } else {
        lemma_fundamental_div_mod_converse(x + c, 64, q + 1, r + c - 64);
        lemma_fundamental_div_mod_converse(r + c, 64, 1, r + c - 64);
    }
    lemma_fundamental_div_mod_converse(row, 32, 0, row);
    lemma_fundamental_div_mod_converse(row * 64 + (x + c) % 64, 64, row, (x + c) % 64);
}

/// A screen column lies `c` columns right of `x` exactly if it is `(x + c) % 64`
proof fn lemma_column_offset(px: int, x: int, c: int)
    requires
        0 <= px < SCREEN_WIDTH,
        0 <= x,
        0 <= c < SCREEN_WIDTH,
    ensures
        0 <= column_offset(px, x) < SCREEN_WIDTH,
        column_offset(px, x) == c <==> px == (x + c) % SCREEN_WIDTH as int,
{
    let q = x / 64;
    let r = x % 64;
    lemma_fundamental_div_mod(x, 64);
    if px >= r {
        lemma_fundamental_div_mod_converse(px - x, 64, -q, px - r);
    } else {
        lemma_fundamental_div_mod_converse(px - x, 64, -q - 1, px - r + 64);
    }
    if r + c < 64 {
        lemma_fundamental_div_mod_converse(x + c, 64, q, r + c);
    } else {
        lemma_fundamental_div_mod_converse(x + c, 64, q + 1, r + c - 64);
    }
}

/// Taking one more column into account adds that column's pixel to the test
proof fn lemma_cols_collide_step(fb: Seq<u8>, x: int, row: int, sprite: u8, c: int)
    requires
        0 <= c,
    ensures
        cols_collide(fb, x, row, sprite, c + 1) == (cols_collide(fb, x, row, sprite, c) || (
        sprite_bit(sprite, c) == 1 && fb[pixel_index(x + c, row)] == 1)),
{
    if cols_collide(fb, x, row, sprite, c + 1) {
        let w = choose|w: int|
            0 <= w < c + 1 && sprite_bit(sprite, w) == 1 && #[trigger] fb[pixel_index(x + w, row)]
                == 1;
        if w < c {
            assert(cols_collide(fb, x, row, sprite, c));
        }
    }
    if cols_collide(fb, x, row, sprite, c) {
        let w = choose|w: int|
            0 <= w < c && sprite_bit(sprite, w) == 1 && #[trigger] fb[pixel_index(x + w, row)]
                == 1;
        assert(fb[pixel_index(x + w, row)] == 1);
    }
    if sprite_bit(sprite, c) == 1 && fb[pixel_index(x + c, row)] == 1 {
        assert(cols_collide(fb, x, row, sprite, c + 1));
    }
}

/// Row `y + r` is reached by adding what `y` and `r` are beyond whole screens
proof fn lemma_row_sum(y: int, r: int)
    requires
        0 <= y,
        0 <= r,
    ensures
        (y % SCREEN_HEIGHT as int + r % SCREEN_HEIGHT as int) % SCREEN_HEIGHT as int == (y + r)
            % SCREEN_HEIGHT as int,
{
    lemma_fundamental_div_mod(y, 32);
    lemma_fundamental_div_mod(r, 32);
    let low = y % 32 + r % 32;
    if low < 32 {
        lemma_fundamental_div_mod_converse(low, 32, 0, low);
        lemma_fundamental_div_mod_converse(y + r, 32, y / 32 + r / 32, low);
    } else {
        lemma_fundamental_div_mod_converse(low, 32, 1, low - 32);
        lemma_fundamental_div_mod_converse(y + r, 32, y / 32 + r / 32 + 1, low - 32);
    }
}

/// Drawing one more row of a sprite is drawing that row onto what the rows
/// before it left
proof fn lemma_draw_rows_step(fb: Seq<u8>, x: int, y: int, rows: Seq<u8>, k: int)
    requires
        0 <= k < rows.len(),
    ensures
        draw_rows(fb, x, y, rows.take(k + 1)) == draw_row(
            draw_rows(fb, x, y, rows.take(k)),
            x,
            y + k,
            rows[k],
        ),
        rows_collide(fb, x, y, rows.take(k + 1)) == (rows_collide(fb, x, y, rows.take(k))
            || row_collides(draw_rows(fb, x, y, rows.take(k)), x, y + k, rows[k])),
{
    assert(rows.take(k + 1).drop_last() =~= rows.take(k));
}

/// A row number counts around the screen's lower edge
proof fn lemma_row_wraps(fb: Seq<u8>, x: int, y: int, sprite: u8)
    requires
        0 <= y,
    ensures
        draw_row(fb, x, y % SCREEN_HEIGHT as int, sprite) == draw_row(fb, x, y, sprite),
        row_collides(fb, x, y % SCREEN_HEIGHT as int, sprite) == row_collides(fb, x, y, sprite),
{
    let row = y % SCREEN_HEIGHT as int;
    assert(draw_row(fb, x, row, sprite) =~= draw_row(fb, x, y, sprite));
    assert forall|px: int| #[trigger] pixel_index(px, row) == pixel_index(px, y) by {
    }
    if row_collides(fb, x, row, sprite) {
        let c = choose|c: int|
            0 <= c < 8 && sprite_bit(sprite, c) == 1 && #[trigger] fb[pixel_index(x + c, row)] == 1;
        assert(fb[pixel_index(x + c, y)] == 1);
    }
    if row_collides(fb, x, y, sprite) {
        let c = choose|c: int|
            0 <= c < 8 && sprite_bit(sprite, c) == 1 && #[trigger] fb[pixel_index(x + c, y)] == 1;
        assert(fb[pixel_index(x + c, row)] == 1);
    }
}

} // verus!
