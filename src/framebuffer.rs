//! A buffer of packed `0xRRGGBB` pixels, row after row.
use vstd::prelude::*;
use crate::color::{hex_of, Color};

verus! {

pub struct Framebuffer {
    pub width: usize,
    pub height: usize,
    pub buffer: Vec<u32>,
    pub background_color: Color,
}

/// The buffer holds exactly one pixel per coordinate.
pub open spec fn fb_wf(fb: &Framebuffer) -> bool {
    fb.buffer@.len() == fb.width * fb.height
}

impl Framebuffer {
    /// A black buffer of `width * height` pixels, with a black background.
    pub fn new(width: usize, height: usize) -> (fb: Framebuffer)
        requires
            width * height <= usize::MAX,
        ensures
            fb_wf(&fb),
            fb.width == width,
            fb.height == height,
            forall|i: int| 0 <= i < fb.buffer@.len() ==> fb.buffer@[i] == 0,
            fb.background_color == (Color { r: 0, g: 0, b: 0 }),
    {
        let n = width * height;
        let mut buffer: Vec<u32> = Vec::new();
        let mut i: usize = 0;
        while i < n
            invariant
                i <= n,
                buffer@.len() == i,
                forall|j: int| 0 <= j < i ==> buffer@[j] == 0,
            decreases n - i,
        {
            buffer.push(0);
            i = i + 1;
        }
        Framebuffer { width, height, buffer, background_color: Color::black() }
    }

    /// Fills every pixel with the background colour.
    pub fn clear(&mut self)
        ensures
            final(self).width == old(self).width,
            final(self).height == old(self).height,
            final(self).background_color == old(self).background_color,
            final(self).buffer@.len() == old(self).buffer@.len(),
            forall|i: int|
                0 <= i < final(self).buffer@.len() ==> final(self).buffer@[i] == hex_of(old(self).background_color),
    {
        let hex = self.background_color.to_hex();
        let n = self.buffer.len();
        let mut i: usize = 0;
        while i < n
            invariant
                i <= n,
                n == self.buffer@.len(),
                self.width == old(self).width,
                self.height == old(self).height,
                self.background_color == old(self).background_color,
                hex == hex_of(self.background_color),
                n == old(self).buffer@.len(),
                forall|j: int| 0 <= j < i ==> self.buffer@[j] == hex,
            decreases n - i,
        {
            self.buffer.set(i, hex);
            i = i + 1;
        }
    }

    pub fn set_background_color(&mut self, color: Color)
        ensures
            final(self).background_color == color,
            final(self).width == old(self).width,
            final(self).height == old(self).height,
            final(self).buffer@ == old(self).buffer@,
    {
        self.background_color = color;
    }

    /// Writes one pixel; coordinates outside the buffer are ignored.
    pub fn point(&mut self, x: usize, y: usize, color: Color)
        requires
            fb_wf(old(self)),
        ensures
            final(self).width == old(self).width,
            final(self).height == old(self).height,
            final(self).background_color == old(self).background_color,
            fb_wf(final(self)),
            x < old(self).width && y < old(self).height ==> final(self).buffer@ == old(self).buffer@.update(
                y * old(self).width + x,
                hex_of(color) as u32,
            ),
            !(x < old(self).width && y < old(self).height) ==> final(self).buffer@ == old(self).buffer@,
    {
        let n = self.buffer.len();
        if x < self.width && y < self.height {
            proof {
                assert(y * self.width + x < n) by (nonlinear_arith)
                    requires
                        x < self.width,
                        y < self.height,
                        n == self.width * self.height,
                ;
            }
            let index = y * self.width + x;
            self.buffer.set(index, color.to_hex());
        }
    }

    pub fn get_buffer(&self) -> (b: &[u32])
        ensures
            b@ == self.buffer@,
    {
        self.buffer.as_slice()
    }
}

} // verus!
