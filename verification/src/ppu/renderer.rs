//! The per-scanline compositor: background, window and sprites, painted
//! exactly once per visible line into the back frame buffer.

use vstd::prelude::*;

use crate::bus::Bus;
use crate::ppu::register::LCDControl;
use crate::ppu::register::Register;
use crate::screen::FrameBuffer;
use crate::screen::Pixel;

verus! {

/// The 2-bit color id at one tile column, from the two bit-plane bytes.
pub open spec fn color_number(bit: u8, byte1: u8, byte2: u8) -> u8 {
    ((if byte2 & (1u8 << bit) != 0 {
        2int
    } else {
        0
    }) + (if byte1 & (1u8 << bit) != 0 {
        1int
    } else {
        0
    })) as u8
}

/// Reads one pixel's 2-bit color id out of the two bit-plane bytes of a
/// tile row.
pub fn get_color_number(bit: u8, byte1: u8, byte2: u8) -> (r: u8)
    requires
        bit < 8,
    ensures
        r == color_number(bit, byte1, byte2),
{
    let lo: u8 = if byte1 & (1u8 << bit) != 0 {
        1
    } else {
        0
    };
    let hi: u8 = if byte2 & (1u8 << bit) != 0 {
        1
    } else {
        0
    };
    hi * 2 + lo
}

/// The fixed green shades of the panel, by palette index.
pub open spec fn shade_rgb(color: u8) -> (u8, u8, u8) {
    match color % 4 {
        0u8 => (0x9B, 0xBC, 0x0F),
        1u8 => (0x8B, 0xAC, 0x0F),
        2u8 => (0x30, 0x62, 0x30),
        _ => (0x0F, 0x38, 0x0F),
    }
}

/// Applies a palette register to a 2-bit color id and returns the RGB
/// shade: the palette holds four 2-bit entries, one per id.
pub fn get_rgb(palette: u8, color_n: u8) -> (r: (u8, u8, u8))
    requires
        color_n < 4,
    ensures
        r == shade_rgb((palette >> (color_n * 2)) & 0x03),
{
    let color = (palette >> (color_n * 2)) & 0x03;
    proof {
        assert(color % 4 == color && color < 4) by (bit_vector)
            requires
                color == (palette >> (color_n * 2)) & 0x03,
        ;
    }
    if color == 0 {
        (0x9B, 0xBC, 0x0F)
    } else if color == 1 {
        (0x8B, 0xAC, 0x0F)
    } else if color == 2 {
        (0x30, 0x62, 0x30)
    } else {
        (0x0F, 0x38, 0x0F)
    }
}

/// The scrolled coordinate pair a background pixel (x, y) reads from.
pub open spec fn bg_coords(m_x: u8, m_y: u8, scroll_x: u8, scroll_y: u8) -> (u8, u8) {
    (m_x.wrapping_add(scroll_x), m_y.wrapping_add(scroll_y))
}

/// The pre-palette 2-bit color id a tile map produces at scrolled
/// coordinates (x', y'), with the map base and tile-data area given.
pub open spec fn map_color_id<B: Bus>(m: B::Model, map_loc: u16, tiles_loc: u16, xa: u8, ya: u8) -> u8 {
    let tile_addr = (map_loc + (ya as u16 / 8 * 32) + (xa as u16 / 8)) as u16;
    let tile_n: u16 = if tiles_loc == 0x8800 {
        (B::view8(m, tile_addr) ^ 0x80) as u16
    } else {
        B::view8(m, tile_addr) as u16
    };
    let tile_loc = (tiles_loc + tile_n * 16 + (ya % 8) * 2) as u16;
    color_number(
        (7 - (xa % 8)) as u8,
        B::view8(m, tile_loc),
        B::view8(m, (tile_loc + 1) as u16),
    )
}

/// The RGBA pixel a palette register turns a color id into.
pub open spec fn palette_pixel(palette: u8, color_n: u8) -> Pixel {
    let rgb = shade_rgb((palette >> (color_n * 2)) & 0x03);
    Pixel(rgb.0, rgb.1, rgb.2, 255)
}

/// The color id of the background pixel at column x of line y, under the
/// scroll registers, the LCDC map/tile-area selections and BGP.
pub open spec fn bg_color_id<B: Bus>(m: B::Model, x: u8, y: u8) -> u8 {
    let lcdc = B::view8(m, 0xFF40);
    let map_loc: u16 = if lcdc & 0x08 == 0 { 0x9800 } else { 0x9C00 };
    let tiles_loc: u16 = if lcdc & 0x10 == 0 { 0x8800 } else { 0x8000 };
    let xa = x.wrapping_add(B::view8(m, 0xFF43));
    let ya = y.wrapping_add(B::view8(m, 0xFF42));
    map_color_id::<B>(m, map_loc, tiles_loc, xa, ya)
}

/// The background pixel painted at column x of line y.
pub open spec fn bg_pixel<B: Bus>(m: B::Model, x: u8, y: u8) -> Pixel {
    palette_pixel(B::view8(m, 0xFF47), bg_color_id::<B>(m, x, y))
}

/// The color id of the window pixel at column x of line y, under WX/WY and
/// the LCDC window-map selection.
pub open spec fn win_color_id<B: Bus>(m: B::Model, x: u8, y: u8) -> u8 {
    let lcdc = B::view8(m, 0xFF40);
    let map_loc: u16 = if lcdc & 0x40 == 0 { 0x9800 } else { 0x9C00 };
    let tiles_loc: u16 = if lcdc & 0x10 == 0 { 0x8800 } else { 0x8000 };
    let xa = x.wrapping_sub(B::view8(m, 0xFF4B).wrapping_sub(7));
    let ya = (y - B::view8(m, 0xFF4A)) as u8;
    map_color_id::<B>(m, map_loc, tiles_loc, xa, ya)
}

/// The window pixel painted at column x of line y.
pub open spec fn win_pixel<B: Bus>(m: B::Model, x: u8, y: u8) -> Pixel {
    palette_pixel(B::view8(m, 0xFF47), win_color_id::<B>(m, x, y))
}

/// Whether the window covers line y at all: WY has been reached and WX-7
/// and WY lie on the screen.
pub open spec fn win_reaches<B: Bus>(m: B::Model, y: u8) -> bool {
    let wx = B::view8(m, 0xFF4B).wrapping_sub(7);
    let wy = B::view8(m, 0xFF4A);
    wy <= y && wx < 160 && wy < 144
}

/// The sprite height LCDC selects, in pixels.
pub open spec fn obj_height_of(lcdc: u8) -> int {
    if lcdc & 0x04 == 0 {
        8
    } else {
        16
    }
}

/// The screen line OAM entry `k` starts at: its first byte minus 16.
pub open spec fn sprite_top<B: Bus>(m: B::Model, k: int) -> int {
    B::view8(m, (0xFE00 + 4 * k) as u16) - 16
}

/// The screen column OAM entry `k` starts at: its second byte minus 8.
pub open spec fn sprite_left<B: Bus>(m: B::Model, k: int) -> int {
    B::view8(m, (0xFE00 + 4 * k + 1) as u16) - 8
}

/// The attribute byte of OAM entry `k`: palette select (bit 4), X flip
/// (bit 5), Y flip (bit 6), behind-background priority (bit 7).
pub open spec fn sprite_attrs<B: Bus>(m: B::Model, k: int) -> u8 {
    B::view8(m, (0xFE00 + 4 * k + 3) as u16)
}

/// Whether OAM entry `k` covers line `y` at the current sprite height.
pub open spec fn sprite_covers<B: Bus>(m: B::Model, k: int, y: int) -> bool {
    let sy = sprite_top::<B>(m, k);
    !(sy > y) && !(sy + obj_height_of(B::view8(m, 0xFF40)) <= y)
}

/// The object palette OAM entry `k` selects: OBP1 when attribute bit 4 is
/// set, else OBP0.
pub open spec fn sprite_palette<B: Bus>(m: B::Model, k: int) -> u8 {
    if sprite_attrs::<B>(m, k) & 0x10 != 0 {
        B::view8(m, 0xFF49)
    } else {
        B::view8(m, 0xFF48)
    }
}

/// The two bit-plane bytes of the row of OAM entry `k` that crosses line
/// `y`, honoring the Y flip.
pub open spec fn sprite_row_bytes<B: Bus>(m: B::Model, k: int, y: int) -> (u8, u8) {
    let h = obj_height_of(B::view8(m, 0xFF40));
    let sy = sprite_top::<B>(m, k);
    let tile_y = if sprite_attrs::<B>(m, k) & 0x40 != 0 {
        h - 1 - (y - sy)
    } else {
        y - sy
    };
    let tile_loc = 0x8000 + B::view8(m, (0xFE00 + 4 * k + 2) as u16) * 16 + tile_y * 2;
    (B::view8(m, tile_loc as u16), B::view8(m, (tile_loc + 1) as u16))
}

/// One sprite column painted onto the frame: column `tx` of OAM entry `k`
/// lands at screen column `left + tx` of line `y` (with the X flip picking
/// the bit). Color id 0 is transparent, a column off the screen is dropped,
/// and the behind-background bit skips columns whose remembered
/// background/window color id is not 0.
pub open spec fn sprite_col_px<B: Bus>(
    m: B::Model,
    fb: Seq<Pixel>,
    ids: Seq<u8>,
    y: u8,
    k: int,
    tx: int,
) -> Seq<Pixel> {
    let x = sprite_left::<B>(m, k) + tx;
    let attrs = sprite_attrs::<B>(m, k);
    let bytes = sprite_row_bytes::<B>(m, k, y as int);
    let color_bit = if attrs & 0x20 != 0 {
        tx
    } else {
        7 - tx
    };
    let cn = color_number(color_bit as u8, bytes.0, bytes.1);
    if 0 <= x < 160 && cn != 0 && (attrs & 0x80 == 0 || ids[x] == 0) {
        fb.update(y * 160 + x, palette_pixel(sprite_palette::<B>(m, k), cn))
    } else {
        fb
    }
}

/// The first `tx` columns of OAM entry `k` painted onto the frame, left to
/// right.
pub open spec fn sprite_cols<B: Bus>(
    m: B::Model,
    fb: Seq<Pixel>,
    ids: Seq<u8>,
    y: u8,
    k: int,
    tx: nat,
) -> Seq<Pixel>
    decreases tx,
{
    if tx == 0 {
        fb
    } else {
        sprite_col_px::<B>(
            m,
            sprite_cols::<B>(m, fb, ids, y, k, (tx - 1) as nat),
            ids,
            y,
            k,
            tx - 1,
        )
    }
}

/// The first `n` OAM entries composited onto line `y` of the frame, in OAM
/// order: each entry that covers the line paints its eight columns over
/// what the earlier entries left.
pub open spec fn sprites_pass<B: Bus>(
    m: B::Model,
    fb: Seq<Pixel>,
    ids: Seq<u8>,
    y: u8,
    n: nat,
) -> Seq<Pixel>
    decreases n,
{
    if n == 0 {
        fb
    } else {
        let prev = sprites_pass::<B>(m, fb, ids, y, (n - 1) as nat);
        if sprite_covers::<B>(m, n - 1, y as int) {
            sprite_cols::<B>(m, prev, ids, y, n - 1, 8)
        } else {
            prev
        }
    }
}

/// The color ids the base pass of line `y` leaves for sprite priority: the
/// window's ids where the window applies, the background's where only the
/// background drew, zeros when background/window drawing is off.
pub open spec fn base_ids<B: Bus>(m: B::Model, y: u8) -> Seq<u8> {
    if B::view8(m, 0xFF40) & 0x01 != 0 {
        if B::view8(m, 0xFF40) & 0x20 != 0 && win_reaches::<B>(m, y) {
            Seq::new(160, |x: int| win_color_id::<B>(m, x as u8, y))
        } else {
            Seq::new(160, |x: int| bg_color_id::<B>(m, x as u8, y))
        }
    } else {
        Seq::new(160, |x: int| 0u8)
    }
}

/// The frame after the background/window pass of line `y`: the row repainted
/// with window pixels where the window applies, with background pixels where
/// only the background drew, untouched when background/window drawing is
/// off. No other row moves.
pub open spec fn base_fb<B: Bus>(m: B::Model, fb0: Seq<Pixel>, y: u8) -> Seq<Pixel> {
    if B::view8(m, 0xFF40) & 0x01 != 0 {
        if B::view8(m, 0xFF40) & 0x20 != 0 && win_reaches::<B>(m, y) {
            Seq::new(
                fb0.len(),
                |i: int|
                    if y * 160 <= i < y * 160 + 160 {
                        win_pixel::<B>(m, (i - y * 160) as u8, y)
                    } else {
                        fb0[i]
                    },
            )
        } else {
            Seq::new(
                fb0.len(),
                |i: int|
                    if y * 160 <= i < y * 160 + 160 {
                        bg_pixel::<B>(m, (i - y * 160) as u8, y)
                    } else {
                        fb0[i]
                    },
            )
        }
    } else {
        fb0
    }
}

/// The scanline compositor. `bgwin_colors` remembers, for each x of the
/// current line, the pre-palette color id of the background or window pixel,
/// which sprite priority consults.
pub struct Renderer {
    bgwin_colors: Vec<u8>,
}

impl Renderer {
    /// The per-column color ids of the current line.
    pub closed spec fn view(&self) -> Seq<u8> {
        self.bgwin_colors@
    }

    /// The line buffer always covers the 160 columns.
    #[verifier::type_invariant]
    spec fn inv(&self) -> bool {
        self.bgwin_colors@.len() == 160
    }

    pub fn new() -> (r: Renderer)
    {
        Renderer { bgwin_colors: crate::ram::byte_vec(0, 160) }
    }

    /// Paints one visible line: the background when background/window
    /// drawing is on, the window over it when it is also on, and sprites
    /// last. Only pixels of the current line change; the bus is read, never
    /// written. With sprites off, the line is exactly the background row,
    /// or exactly the window row where the window reaches.
    pub fn render_scanline<B: Bus>(&mut self, frame_buffer: &mut FrameBuffer, bus: &B)
        requires
            B::view8(bus.model(), 0xFF44) < 144,
        ensures
            ({
                let m = bus.model();
                let line = B::view8(m, 0xFF44);
                let lcdc = B::view8(m, 0xFF40);
                let win_applied = lcdc & 0x20 != 0 && win_reaches::<B>(m, line);
                &&& final(frame_buffer)@.len() == old(frame_buffer)@.len()
                &&& forall|i: int|
                    0 <= i < old(frame_buffer)@.len() && !(line * 160 <= i < line * 160 + 160)
                        ==> final(frame_buffer)@[i] == old(frame_buffer)@[i]
                &&& (lcdc & 0x01 != 0 && lcdc & 0x02 == 0 && !win_applied ==> forall|i: int|
                    line * 160 <= i < line * 160 + 160 && i < old(frame_buffer)@.len() ==> final(frame_buffer)@[i] == bg_pixel::<B>(m, (i - line * 160) as u8, line))
                &&& (lcdc & 0x01 != 0 && lcdc & 0x02 == 0 && win_applied ==> forall|i: int|
                    line * 160 <= i < line * 160 + 160 && i < old(frame_buffer)@.len() ==> final(frame_buffer)@[i] == win_pixel::<B>(m, (i - line * 160) as u8, line))
                &&& final(frame_buffer)@ == (if lcdc & 0x02 != 0 {
                    sprites_pass::<B>(
                        m,
                        base_fb::<B>(m, old(frame_buffer)@, line),
                        base_ids::<B>(m, line),
                        line,
                        40,
                    )
                } else {
                    base_fb::<B>(m, old(frame_buffer)@, line)
                })
                &&& final(self)@ == base_ids::<B>(m, line)
            }),
    {
        proof {
            use_type_invariant(&*self);
        }
        let ghost fb0 = frame_buffer@;
        let mut fresh: Vec<u8> = crate::ram::byte_vec(0, 160);
        core::mem::swap(&mut self.bgwin_colors, &mut fresh);

        let y = Register::LY.read(bus);
        let control = LCDControl::new(Register::LCDC.read(bus));

        if control.bgwin_enabled() {
            self.render_background_scanline(frame_buffer, bus, y);

            if control.win_enabled() {
                self.render_window_scanline(frame_buffer, bus, y);
            }
        }
        proof {
            assert(self@ =~= base_ids::<B>(bus.model(), y));
            assert(frame_buffer@ =~= base_fb::<B>(bus.model(), fb0, y));
        }

        if control.obj_enabled() {
            self.render_sprites_scanline(frame_buffer, bus, y);
        }
    }

    /// Paints the background row of line `y` from the scrolled tile map:
    /// each of its 160 pixels takes the palette shade of its map color id,
    /// which is also remembered for sprite priority. No other pixel moves.
    fn render_background_scanline<B: Bus>(
        &mut self,
        frame_buffer: &mut FrameBuffer,
        bus: &B,
        y: u8,
    )
        requires
            y < 144,
            old(self).inv(),
        ensures
            final(self).inv(),
            final(frame_buffer)@.len() == old(frame_buffer)@.len(),
            forall|i: int|
                0 <= i < old(frame_buffer)@.len() ==> final(frame_buffer)@[i] == (if y * 160 <= i
                    < y * 160 + 160 {
                    bg_pixel::<B>(bus.model(), (i - y * 160) as u8, y)
                } else {
                    old(frame_buffer)@[i]
                }),
            final(self)@.len() == 160,
            forall|x: int|
                0 <= x < 160 ==> final(self)@[x] == bg_color_id::<B>(bus.model(), x as u8, y),
            forall|x: int| 160 <= x < old(self)@.len() ==> final(self)@[x] == old(self)@[x],
    {
        let tiles_loc = LCDControl::new(Register::LCDC.read(bus)).bgwin_tile_loc();
        let map_loc = LCDControl::new(Register::LCDC.read(bus)).bg_map_loc();
        let palette = Register::BGP.read(bus);

        let scroll_x = Register::SCX.read(bus);
        let scroll_y = Register::SCY.read(bus);

        let y_adjusted = y.wrapping_add(scroll_y);
        let tile_row: u16 = y_adjusted as u16 / 8 * 32;

        proof {
            use_type_invariant(&*frame_buffer);
        }
        let ghost fb0 = frame_buffer@;
        let ghost colors0 = self@;
        let mut x: u8 = 0;
        while x < 160
            invariant
                self.inv(),
                y < 144,
                x <= 160,
                fb0.len() == 23040,
                map_loc == (if B::view8(bus.model(), 0xFF40) & 0x08 == 0 { 0x9800u16 } else { 0x9C00u16 }),
                tiles_loc == (if B::view8(bus.model(), 0xFF40) & 0x10 == 0 { 0x8800u16 } else { 0x8000u16 }),
                palette == B::view8(bus.model(), 0xFF47),
                scroll_x == B::view8(bus.model(), 0xFF43),
                y_adjusted == y.wrapping_add(B::view8(bus.model(), 0xFF42)),
                tile_row == y_adjusted as u16 / 8 * 32,
                frame_buffer@.len() == fb0.len(),
                forall|i: int|
                    0 <= i < fb0.len() ==> frame_buffer@[i] == (if y * 160 <= i < y * 160 + x {
                        bg_pixel::<B>(bus.model(), (i - y * 160) as u8, y)
                    } else {
                        fb0[i]
                    }),
                self@.len() == colors0.len(),
                forall|j: int|
                    0 <= j < x ==> self@[j] == bg_color_id::<B>(bus.model(), j as u8, y),
                forall|j: int| x <= j < colors0.len() ==> self@[j] == colors0[j],
            decreases 160 - x,
        {
            let x_adjusted = x.wrapping_add(scroll_x);
            let tile_col: u16 = x_adjusted as u16 / 8;

            let tile_addr = map_loc + tile_row + tile_col;
            // In the 0x8800 area the tile number is signed; flipping the top
            // bit is the same as adding 128 to the signed value.
            let tile_n: u16 = if tiles_loc == 0x8800 {
                (bus.read8(tile_addr) ^ 0x80) as u16
            } else {
                bus.read8(tile_addr) as u16
            };
            let tile_loc = tiles_loc + tile_n * 16 + (y_adjusted % 8) as u16 * 2;

            let byte1 = bus.read8(tile_loc);
            let byte2 = bus.read8(tile_loc + 1);

            let color_bit = 7 - (x_adjusted % 8);
            let color_n = get_color_number(color_bit, byte1, byte2);

            let (r, g, b) = get_rgb(palette, color_n);
            frame_buffer.set_pixel(x, y, Pixel(r, g, b, 255));
            self.bgwin_colors[x as usize] = color_n;
            x = x + 1;
        }
    }

    /// Paints the window row of line `y` over the background, when the
    /// window reaches this line and column range: each of the 160 pixels
    /// then takes the palette shade of the window map's color id, which
    /// also replaces the remembered id. Out of reach, nothing changes.
    fn render_window_scanline<B: Bus>(
        &mut self,
        frame_buffer: &mut FrameBuffer,
        bus: &B,
        y: u8,
    )
        requires
            y < 144,
            old(self).inv(),
        ensures
            final(self).inv(),
            !win_reaches::<B>(bus.model(), y) ==> *final(self) == *old(self) && final(frame_buffer)@ == old(frame_buffer)@,
            win_reaches::<B>(bus.model(), y) ==> {
                &&& final(frame_buffer)@.len() == old(frame_buffer)@.len()
                &&& forall|i: int|
                    0 <= i < old(frame_buffer)@.len() ==> final(frame_buffer)@[i] == (if y * 160
                        <= i < y * 160 + 160 {
                        win_pixel::<B>(bus.model(), (i - y * 160) as u8, y)
                    } else {
                        old(frame_buffer)@[i]
                    })
                &&& final(self)@.len() == old(self)@.len()
                &&& forall|x: int|
                    0 <= x < 160 ==> final(self)@[x] == win_color_id::<B>(bus.model(), x as u8, y)
                &&& forall|x: int|
                    160 <= x < old(self)@.len() ==> final(self)@[x] == old(self)@[x]
            },
    {
        let tiles_loc = LCDControl::new(Register::LCDC.read(bus)).bgwin_tile_loc();
        let map_loc = LCDControl::new(Register::LCDC.read(bus)).win_map_loc();
        let palette = Register::BGP.read(bus);

        let window_x = Register::WX.read(bus).wrapping_sub(7);
        let window_y = Register::WY.read(bus);
        if window_y > y || window_x >= 160 || window_y >= 144 {
            return ;
        }

        let y_adjusted = y - window_y;
        let tile_row: u16 = y_adjusted as u16 / 8 * 32;

        proof {
            use_type_invariant(&*frame_buffer);
        }
        let ghost fb0 = frame_buffer@;
        let ghost colors0 = self@;
        let mut x: u8 = 0;
        while x < 160
            invariant
                self.inv(),
                y < 144,
                x <= 160,
                fb0.len() == 23040,
                win_reaches::<B>(bus.model(), y),
                map_loc == (if B::view8(bus.model(), 0xFF40) & 0x40 == 0 { 0x9800u16 } else { 0x9C00u16 }),
                tiles_loc == (if B::view8(bus.model(), 0xFF40) & 0x10 == 0 { 0x8800u16 } else { 0x8000u16 }),
                palette == B::view8(bus.model(), 0xFF47),
                window_x == B::view8(bus.model(), 0xFF4B).wrapping_sub(7),
                window_y == B::view8(bus.model(), 0xFF4A),
                y_adjusted == (y - window_y) as u8,
                tile_row == y_adjusted as u16 / 8 * 32,
                frame_buffer@.len() == fb0.len(),
                forall|i: int|
                    0 <= i < fb0.len() ==> frame_buffer@[i] == (if y * 160 <= i < y * 160 + x {
                        win_pixel::<B>(bus.model(), (i - y * 160) as u8, y)
                    } else {
                        fb0[i]
                    }),
                self@.len() == colors0.len(),
                forall|j: int|
                    0 <= j < x ==> self@[j] == win_color_id::<B>(bus.model(), j as u8, y),
                forall|j: int| x <= j < colors0.len() ==> self@[j] == colors0[j],
            decreases 160 - x,
        {
            let x_adjusted = x.wrapping_sub(window_x);
            let tile_col: u16 = x_adjusted as u16 / 8;

            let tile_addr = map_loc + tile_row + tile_col;
            // In the 0x8800 area the tile number is signed; flipping the top
            // bit is the same as adding 128 to the signed value.
            let tile_n: u16 = if tiles_loc == 0x8800 {
                (bus.read8(tile_addr) ^ 0x80) as u16
            } else {
                bus.read8(tile_addr) as u16
            };
            let tile_loc = tiles_loc + tile_n * 16 + (y_adjusted % 8) as u16 * 2;

            let byte1 = bus.read8(tile_loc);
            let byte2 = bus.read8(tile_loc + 1);

            let color_bit = 7 - (x_adjusted % 8);
            let color_n = get_color_number(color_bit, byte1, byte2);

            let (r, g, b) = get_rgb(palette, color_n);
            frame_buffer.set_pixel(x, y, Pixel(r, g, b, 255));
            self.bgwin_colors[x as usize] = color_n;
            x = x + 1;
        }
    }

    /// Paints the sprites that cover line `y`, honoring the X/Y flips, the
    /// two object palettes, transparency of color id 0, and the
    /// behind-background priority bit. Only pixels of line `y` change; the
    /// remembered color ids are read, never written.
    fn render_sprites_scanline<B: Bus>(
        &mut self,
        frame_buffer: &mut FrameBuffer,
        bus: &B,
        y: u8,
    )
        requires
            y < 144,
            old(self).inv(),
        ensures
            final(self).inv(),
            *final(self) == *old(self),
            final(frame_buffer)@ == sprites_pass::<B>(
                bus.model(),
                old(frame_buffer)@,
                old(self)@,
                y,
                40,
            ),
            final(frame_buffer)@.len() == old(frame_buffer)@.len(),
            forall|i: int|
                0 <= i < old(frame_buffer)@.len() && !(y * 160 <= i < y * 160 + 160) ==> final(frame_buffer)@[i] == old(frame_buffer)@[i],
    {
        proof {
            use_type_invariant(&*frame_buffer);
        }
        let ghost fb0 = frame_buffer@;
        let ghost y0 = y;
        let y = y as i16;
        let sprite_height = LCDControl::new(Register::LCDC.read(bus)).obj_height() as i16;

        let palette0 = Register::OBP0.read(bus);
        let palette1 = Register::OBP1.read(bus);

        let ghost self0 = *self;
        let mut sprite_n: u16 = 0;
        while sprite_n < 40
            invariant
                self.inv(),
                *self == self0,
                0 <= y < 144,
                y == y0,
                sprite_n <= 40,
                sprite_height == obj_height_of(B::view8(bus.model(), 0xFF40)),
                palette0 == B::view8(bus.model(), 0xFF48),
                palette1 == B::view8(bus.model(), 0xFF49),
                fb0.len() == 23040,
                frame_buffer@.len() == fb0.len(),
                frame_buffer@ == sprites_pass::<B>(bus.model(), fb0, self0@, y0, sprite_n as nat),
                forall|i: int|
                    0 <= i < fb0.len() && !(y * 160 <= i < y * 160 + 160) ==> frame_buffer@[i]
                        == fb0[i],
            decreases 40 - sprite_n,
        {
            let offset: u16 = sprite_n * 4;
            let ghost k = sprite_n as int;

            let sprite_x = (bus.read8(0xFE00 + offset + 1) as i16) - 8;
            let sprite_y = (bus.read8(0xFE00 + offset) as i16) - 16;
            if sprite_y > y || (sprite_y + sprite_height) <= y {
                sprite_n = sprite_n + 1;
                continue ;
            }
            proof {
                assert(sprite_covers::<B>(bus.model(), k, y0 as int));
            }

            let attrs = bus.read8(0xFE00 + offset + 3);
            let palette = if attrs & 0x10 != 0 {
                palette1
            } else {
                palette0
            };
            let x_flip = attrs & 0x20 != 0;
            let y_flip = attrs & 0x40 != 0;
            let priority = attrs & 0x80 != 0;

            let tile_y = if y_flip {
                sprite_height - 1 - (y - sprite_y)
            } else {
                y - sprite_y
            };

            let tile_n = bus.read8(0xFE00 + offset + 2) as u16;
            let tile_loc = 0x8000 + tile_n * 16 + (tile_y as u16) * 2;

            let byte1 = bus.read8(tile_loc);
            let byte2 = bus.read8(tile_loc + 1);

            let ghost row_entry = frame_buffer@;
            let mut tile_x: i16 = 0;
            while tile_x < 8
                invariant
                    self.inv(),
                    *self == self0,
                    0 <= y < 144,
                    y == y0,
                    0 <= tile_x <= 8,
                    k == sprite_n as int,
                    sprite_n < 40,
                    sprite_x == sprite_left::<B>(bus.model(), k),
                    attrs == sprite_attrs::<B>(bus.model(), k),
                    palette == sprite_palette::<B>(bus.model(), k),
                    x_flip == (attrs & 0x20 != 0),
                    priority == (attrs & 0x80 != 0),
                    byte1 == sprite_row_bytes::<B>(bus.model(), k, y0 as int).0,
                    byte2 == sprite_row_bytes::<B>(bus.model(), k, y0 as int).1,
                    -8 <= sprite_x <= 247,
                    fb0.len() == 23040,
                    frame_buffer@.len() == fb0.len(),
                    frame_buffer@ == sprite_cols::<B>(
                        bus.model(),
                        row_entry,
                        self0@,
                        y0,
                        k,
                        tile_x as nat,
                    ),
                    row_entry == sprites_pass::<B>(bus.model(), fb0, self0@, y0, sprite_n as nat),
                    row_entry.len() == fb0.len(),
                    forall|i: int|
                        0 <= i < fb0.len() && !(y * 160 <= i < y * 160 + 160) ==> frame_buffer@[i]
                            == fb0[i],
                decreases 8 - tile_x,
            {
                let x = sprite_x + tile_x;
                if x < 0 || 160 <= x {
                    tile_x = tile_x + 1;
                    continue ;
                }

                let color_bit = if x_flip {
                    tile_x
                } else {
                    7 - tile_x
                };
                let color_n = get_color_number(color_bit as u8, byte1, byte2);
                if color_n == 0 {
                    tile_x = tile_x + 1;
                    continue ;
                }

                let (r, g, b) = get_rgb(palette, color_n);
                if !priority || self.bgwin_colors[x as usize] == 0 {
                    frame_buffer.set_pixel(x as u8, y as u8, Pixel(r, g, b, 255));
                }
                tile_x = tile_x + 1;
            }
            proof {
                assert(frame_buffer@ == sprites_pass::<B>(
                    bus.model(),
                    fb0,
                    self0@,
                    y0,
                    (sprite_n + 1) as nat,
                ));
            }
            sprite_n = sprite_n + 1;
        }
    }
}

} // verus!
