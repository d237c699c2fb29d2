//! The 160x144 RGBA output surface: a double-buffered frame buffer and the
//! stable screen the host reads.

use vstd::prelude::*;

verus! {

pub const SCREEN_W: u8 = 160;

pub const SCREEN_H: u8 = 144;

/// One RGBA pixel.
#[derive(Debug, Copy, Clone, PartialEq, Eq, Structural)]
pub struct Pixel(pub u8, pub u8, pub u8, pub u8);

/// A 160x144 grid of pixels, stored row-major.
pub struct FrameBuffer {
    data: Vec<Pixel>,
}

impl FrameBuffer {
    /// The grid always holds exactly 160 * 144 pixels.
    #[verifier::type_invariant]
    pub open spec fn inv(&self) -> bool {
        self@.len() == 160 * 144
    }

    /// The pixels, row-major from the top-left corner.
    pub closed spec fn view(&self) -> Seq<Pixel> {
        self.data@
    }

    pub fn new() -> (r: FrameBuffer)
        ensures
            r@.len() == 160 * 144,
            forall|i: int| 0 <= i < 160 * 144 ==> r@[i] == (Pixel(0, 0, 0, 0)),
    {
        let mut data: Vec<Pixel> = Vec::new();
        let mut i: usize = 0;
        while i < 160 * 144
            invariant
                i <= 160 * 144,
                data@.len() == i,
                forall|j: int| 0 <= j < i ==> data@[j] == (Pixel(0, 0, 0, 0)),
            decreases 160 * 144 - i,
        {
            data.push(Pixel(0, 0, 0, 0));
            i = i + 1;
        }
        FrameBuffer { data }
    }

    pub fn get_pixel(&self, x: u8, y: u8) -> (r: Pixel)
        requires
            x < 160,
            y < 144,
        ensures
            r == self@[y * 160 + x],
    {
        proof {
            use_type_invariant(&*self);
        }
        self.data[(y as usize) * 160 + (x as usize)]
    }

    pub fn set_pixel(&mut self, x: u8, y: u8, pixel: Pixel)
        requires
            x < 160,
            y < 144,
        ensures
            final(self)@ == old(self)@.update(y * 160 + x, pixel),
    {
        proof {
            use_type_invariant(&*self);
        }
        self.data[(y as usize) * 160 + (x as usize)] = pixel;
    }

    /// An identical copy of the grid.
    pub fn duplicate(&self) -> (r: FrameBuffer)
        ensures
            r@ == self@,
    {
        proof {
            use_type_invariant(&*self);
        }
        let mut data: Vec<Pixel> = Vec::new();
        let mut i: usize = 0;
        while i < self.data.len()
            invariant
                i <= self@.len(),
                self@.len() == 160 * 144,
                data@ == self@.take(i as int),
            decreases self@.len() - i,
        {
            data.push(self.data[i]);
            i = i + 1;
            proof {
                assert(data@ =~= self@.take(i as int));
            }
        }
        proof {
            assert(data@ =~= self@);
        }
        FrameBuffer { data }
    }
}

/// The stable front buffer the host reads.
pub struct Screen {
    frame_buffer: FrameBuffer,
}

impl Screen {
    /// The pixels the host currently sees.
    pub closed spec fn view(&self) -> Seq<Pixel> {
        self.frame_buffer@
    }

    pub fn new() -> (r: Screen)
        ensures
            r@.len() == 160 * 144,
            forall|i: int| 0 <= i < 160 * 144 ==> r@[i] == (Pixel(0, 0, 0, 0)),
    {
        Screen { frame_buffer: FrameBuffer::new() }
    }

    /// Replaces the visible frame with a copy of the given buffer.
    pub fn refresh(&mut self, frame_buffer: &FrameBuffer)
        ensures
            final(self)@ == frame_buffer@,
    {
        self.frame_buffer = frame_buffer.duplicate();
    }

    /// The frame as raw RGBA bytes, row-major from the top-left corner:
    /// four bytes per pixel.
    pub fn dump(&self) -> (r: Vec<u8>)
        ensures
            r@.len() == 4 * self@.len(),
            forall|i: int|
                0 <= i < self@.len() ==> {
                    &&& r@[4 * i] == self@[i].0
                    &&& r@[4 * i + 1] == self@[i].1
                    &&& r@[4 * i + 2] == self@[i].2
                    &&& r@[4 * i + 3] == self@[i].3
                },
    {
        proof {
            use_type_invariant(&self.frame_buffer);
        }
        let mut array: Vec<u8> = Vec::new();
        let mut i: usize = 0;
        let n = 160 * 144;
        while i < n
            invariant
                n == self@.len(),
                n == 23040,
                i <= n,
                array@.len() == 4 * i,
                forall|j: int|
                    0 <= j < i ==> {
                        &&& array@[4 * j] == self@[j].0
                        &&& array@[4 * j + 1] == self@[j].1
                        &&& array@[4 * j + 2] == self@[j].2
                        &&& array@[4 * j + 3] == self@[j].3
                    },
            decreases n - i,
        {
            proof {
                assert(i % 160 < 160 && i / 160 < 144 && (i / 160) * 160 + (i % 160) == i)
                    by (nonlinear_arith)
                    requires
                        i < 23040,
                ;
            }
            let x = (i % 160) as u8;
            let y = (i / 160) as u8;
            let pixel = self.frame_buffer.get_pixel(x, y);

            array.push(pixel.0);
            array.push(pixel.1);
            array.push(pixel.2);
            array.push(pixel.3);
            i = i + 1;
        }
        array
    }
}

} // verus!
