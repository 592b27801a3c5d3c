//! A framebuffer in memory: a row-major array of RGB565 pixels with the
//! width and height of the surface it stands for.

use vstd::prelude::*;

verus! {

/// One pixel to draw: a position and a raw RGB565 colour.
#[derive(Clone, Copy, Debug, PartialEq, Eq, Structural)]
pub struct Pixel {
    pub x: i32,
    pub y: i32,
    pub color: u16,
}

/// A rectangle on the surface: its top-left corner and its size.
#[derive(Clone, Copy, Debug, PartialEq, Eq, Structural)]
pub struct Region {
    pub x: i32,
    pub y: i32,
    pub width: u32,
    pub height: u32,
}

/// What a framebuffer is: its pixels in row-major order and its dimensions.
pub struct FrameView {
    pub data: Seq<u16>,
    pub width: nat,
    pub height: nat,
}

/// The place in a row-major array of `len` pixels, `width` pixels to the
/// row, at which the point `(x, y)` is stored; `None` where the point lies
/// outside the `width` by `height` surface or beyond the array.
pub open spec fn pixel_index(width: nat, height: nat, len: nat, x: int, y: int) -> Option<int> {
    if 0 <= x < width && 0 <= y < height && y * width + x < len {
        Some(y * width + x)
    } else {
        None
    }
}

impl FrameView {
    /// The frame after one pixel is drawn: the pixel's place takes its
    /// colour, and a pixel that has no place leaves the frame as it was.
    pub open spec fn plot(self, p: Pixel) -> FrameView {
        match pixel_index(self.width, self.height, self.data.len(), p.x as int, p.y as int) {
            Some(i) => FrameView { data: self.data.update(i, p.color), ..self },
            None => self,
        }
    }

    /// The frame after the pixels are drawn one after the other, first to last.
    pub open spec fn plot_all(self, pixels: Seq<Pixel>) -> FrameView
        decreases pixels.len(),
    {
        if pixels.len() == 0 {
            self
        } else {
            self.plot_all(pixels.drop_last()).plot(pixels.last())
        }
    }
}

/// A framebuffer: the pixel array and the dimensions of the surface.
#[derive(Debug)]
pub struct RawFramebuffer {
    data: Vec<u16>,
    width: u32,
    height: u32,
}

impl View for RawFramebuffer {
    type V = FrameView;

    closed spec fn view(&self) -> FrameView {
        FrameView { data: self.data@, width: self.width as nat, height: self.height as nat }
    }
}

impl RawFramebuffer {
    /// A framebuffer over `data`, `width` pixels to the row.
    pub fn new(data: Vec<u16>, width: u32, height: u32) -> (fb: RawFramebuffer)
        ensures
            fb@ == (FrameView { data: data@, width: width as nat, height: height as nat }),
    {
        RawFramebuffer { data, width, height }
    }

    /// The pixels, row after row.
    pub fn data(&self) -> (pixels: &Vec<u16>)
        ensures
            pixels@ == self@.data,
    {
        &self.data
    }

    /// The width of the surface in pixels.
    pub fn width(&self) -> (w: u32)
        ensures
            w == self@.width,
    {
        self.width
    }

    /// The height of the surface in pixels.
    pub fn height(&self) -> (h: u32)
        ensures
            h == self@.height,
    {
        self.height
    }

    /// The area that the surface covers: it starts at the origin and has
    /// the surface's width and height.
    pub fn bounding_box(&self) -> (area: Region)
        ensures
            area == (Region { x: 0, y: 0, width: self@.width as u32, height: self@.height as u32 }),
    {
        Region { x: 0, y: 0, width: self.width, height: self.height }
    }

    /// Draws one pixel. A pixel outside the surface, or whose place lies
    /// beyond the array, is dropped.
    pub fn draw_pixel(&mut self, p: Pixel)
        ensures
            final(self)@ == old(self)@.plot(p),
    {
        if p.x < 0 || p.y < 0 {
            return ;
        }
        let x = p.x as u64;
        let y = p.y as u64;
        let width = self.width as u64;
        if x < width && y < self.height as u64 {
            assert(y * width <= 0x7fff_ffff * 0xffff_ffff) by (nonlinear_arith)
                requires
                    y <= 0x7fff_ffff,
                    width <= 0xffff_ffff,
            ;
            let index = y * width + x;
            if index < self.data.len() as u64 {
                self.data[index as usize] = p.color;
            }
        }
    }

    /// Draws the pixels one after the other, first to last. Drawing into
    /// memory cannot fail.
    pub fn draw_iter(&mut self, pixels: &[Pixel]) -> (r: Result<(), ()>)
        ensures
            final(self)@ == old(self)@.plot_all(pixels@),
            r is Ok,
    {
        let mut done: usize = 0;
        while done < pixels.len()
            invariant
                done <= pixels.len(),
                self@ == old(self)@.plot_all(pixels@.take(done as int)),
            decreases pixels.len() - done,
        {
            proof {
                assert(pixels@.take(done + 1).drop_last() =~= pixels@.take(done as int));
            }
            self.draw_pixel(pixels[done]);
            done = done + 1;
        }
        proof {
            assert(pixels@.take(done as int) =~= pixels@);
        }
        Ok(())
    }
}

/// Drawing changes neither the dimensions of a frame nor the length of its array.
pub proof fn lemma_plot_all_keeps_shape(frame: FrameView, pixels: Seq<Pixel>)
    ensures
        frame.plot_all(pixels).width == frame.width,
        frame.plot_all(pixels).height == frame.height,
        frame.plot_all(pixels).data.len() == frame.data.len(),
    decreases pixels.len(),
{
    if pixels.len() > 0 {
        lemma_plot_all_keeps_shape(frame, pixels.drop_last());
    }
}

/// The position in `pixels` of the last pixel that lands on `place`, if any does.
pub open spec fn last_hit(frame: FrameView, pixels: Seq<Pixel>, place: int) -> Option<int>
    decreases pixels.len(),
{
    if pixels.len() == 0 {
        None
    } else {
        let p = pixels.last();
        if pixel_index(frame.width, frame.height, frame.data.len(), p.x as int, p.y as int)
            == Some(place) {
            Some(pixels.len() - 1)
        } else {
            last_hit(frame, pixels.drop_last(), place)
        }
    }
}

/// After drawing, a place of the array holds the colour of the last pixel
/// that landed on it, and what it held before where none did.
pub proof fn lemma_plot_all_last_wins(frame: FrameView, pixels: Seq<Pixel>, place: int)
    requires
        0 <= place < frame.data.len(),
    ensures
        last_hit(frame, pixels, place) matches Some(k) ==> 0 <= k < pixels.len(),
        frame.plot_all(pixels).data[place] == match last_hit(frame, pixels, place) {
            Some(k) => pixels[k].color,
            None => frame.data[place],
        },
    decreases pixels.len(),
{
    if pixels.len() > 0 {
        let before = pixels.drop_last();
        lemma_plot_all_keeps_shape(frame, before);
        lemma_plot_all_last_wins(frame, before, place);
    }
}

} // verus!
