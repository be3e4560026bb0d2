//! Geometry of the demo's shapes, and the linear framebuffer they are
//! presented on, one frame at a time.

use vstd::prelude::*;
use crate::multiboot::MultibootHeader;

verus! {

/// A position in pixels; it may lie off screen.
#[derive(Clone, Copy, Debug, PartialEq, Eq, Structural)]
pub struct Point {
    pub x: i64,
    pub y: i64,
}

impl Point {
    pub fn new(x: i64, y: i64) -> (r: Self)
        ensures
            r == (Point { x, y }),
    {
        Point { x, y }
    }
}

/// A size in pixels.
#[derive(Clone, Copy, Debug, PartialEq, Eq, Structural)]
pub struct Dimensions {
    pub width: u32,
    pub height: u32,
}

impl Dimensions {
    pub fn new(width: u32, height: u32) -> (r: Self)
        ensures
            r == (Dimensions { width, height }),
    {
        Dimensions { width, height }
    }
}

/// A colour with eight bits per channel.
#[derive(Clone, Copy, Debug, PartialEq, Eq, Structural)]
pub struct Color {
    pub r: u8,
    pub g: u8,
    pub b: u8,
}

impl Color {
    pub fn new_rgb(r: u8, g: u8, b: u8) -> (c: Self)
        ensures
            c == (Color { r, g, b }),
    {
        Color { r, g, b }
    }
}

/// A filled rectangle, placed by its top-left corner.
#[derive(Clone, Copy, Debug, PartialEq, Eq, Structural)]
pub struct Rect {
    pub tl: Point,
    pub dims: Dimensions,
    pub color: Color,
}

impl Rect {
    pub fn new(tl: Point, dims: Dimensions, color: Color) -> (r: Self)
        ensures
            r == (Rect { tl, dims, color }),
    {
        Rect { tl, dims, color }
    }
}

/// The linear framebuffer the loader set up, and what it shows.
pub struct FrameBuffer {
    width: u32,
    height: u32,
    pitch: u32,
    address: u64,
    frames_presented: u64,
    frame: Vec<Rect>,
}

impl FrameBuffer {
    /// Width in pixels.
    pub closed spec fn spec_width(&self) -> u32 {
        self.width
    }

    /// Height in pixels.
    pub closed spec fn spec_height(&self) -> u32 {
        self.height
    }

    /// Bytes from one row to the next.
    pub closed spec fn spec_pitch(&self) -> u32 {
        self.pitch
    }

    /// How many frames were presented.
    pub closed spec fn presented(&self) -> u64 {
        self.frames_presented
    }

    /// The shapes of the frame on screen, in drawing order.
    pub closed spec fn shown(&self) -> Seq<Rect> {
        self.frame@
    }

    /// The physical address of the first pixel.
    pub closed spec fn base(&self) -> u64 {
        self.address
    }

    /// The framebuffer that the loader describes in `header`, with nothing
    /// presented yet.
    pub fn new(header: &MultibootHeader) -> (r: Self)
        ensures
            r.spec_width() == header.framebuffer_width,
            r.spec_height() == header.framebuffer_height,
            r.spec_pitch() == header.framebuffer_pitch,
            r.base() == header.framebuffer_addr,
            r.presented() == 0,
            r.shown() == Seq::<Rect>::empty(),
    {
        FrameBuffer {
            width: header.framebuffer_width,
            height: header.framebuffer_height,
            pitch: header.framebuffer_pitch,
            address: header.framebuffer_addr,
            frames_presented: 0,
            frame: Vec::new(),
        }
    }

    /// Presents one frame made of `rects`, drawn in order.
    pub fn present_frame(&mut self, rects: Vec<Rect>)
        ensures
            final(self).shown() == rects@,
            final(self).presented() == old(self).presented().saturating_add(1),
            final(self).spec_width() == old(self).spec_width(),
            final(self).spec_height() == old(self).spec_height(),
            final(self).spec_pitch() == old(self).spec_pitch(),
            final(self).base() == old(self).base(),
    {
        self.frame = rects;
        self.frames_presented = self.frames_presented.saturating_add(1);
    }

    /// Width in pixels.
    pub fn width(&self) -> (r: u32)
        ensures
            r == self.spec_width(),
    {
        self.width
    }

    /// Height in pixels.
    pub fn height(&self) -> (r: u32)
        ensures
            r == self.spec_height(),
    {
        self.height
    }

    /// How many frames were presented.
    pub fn frames_presented(&self) -> (r: u64)
        ensures
            r == self.presented(),
    {
        self.frames_presented
    }

    /// The shapes of the frame on screen, in drawing order.
    pub fn shown_frame(&self) -> (r: &Vec<Rect>)
        ensures
            r@ == self.shown(),
    {
        &self.frame
    }
}

} // verus!
