//! The frame that the tracer fills: a row-major buffer of colours.
use vstd::prelude::*;
use crate::scalar::Scalar;

verus! {

/// The pattern of 255, the greatest value of a colour channel.
pub const CHANNEL_MAX_BITS: u32 = 0x437f_0000;

/// A colour of the frame: red, green, blue and opacity, eight bits each.
#[derive(Clone, Copy, Debug, PartialEq, Eq, Structural)]
pub struct Color {
    pub r: u8,
    pub g: u8,
    pub b: u8,
    pub a: u8,
}

impl Color {
    pub open spec fn spec_black() -> Color {
        Color { r: 0, g: 0, b: 0, a: 255 }
    }

    pub fn new(r: u8, g: u8, b: u8, a: u8) -> (c: Color)
        ensures
            c == (Color { r, g, b, a }),
    {
        Color { r, g, b, a }
    }

    /// The colour of three channels that the program has scaled to the range
    /// from 0 to 255: each is held to at most 255 and loses its fraction.
    pub open spec fn spec_quantize(r: Scalar, g: Scalar, b: Scalar) -> Color {
        let top = Scalar { bits: CHANNEL_MAX_BITS };
        Color { r: r.min(top).to_u8(), g: g.min(top).to_u8(), b: b.min(top).to_u8(), a: 255 }
    }

    #[verifier::when_used_as_spec(spec_quantize)]
    pub fn quantize(r: Scalar, g: Scalar, b: Scalar) -> (c: Color)
        ensures
            c == Color::spec_quantize(r, g, b),
    {
        let top: Scalar = Scalar::from_bits(CHANNEL_MAX_BITS);
        Color { r: r.min(top).to_u8(), g: g.min(top).to_u8(), b: b.min(top).to_u8(), a: 255 }
    }

    /// Opaque black, the colour of a frame before anything is drawn.
    #[verifier::when_used_as_spec(spec_black)]
    pub fn black() -> (c: Color)
        ensures
            c == Color::spec_black(),
    {
        Color { r: 0, g: 0, b: 0, a: 255 }
    }
}

/// The place of pixel (x, y) in a row-major buffer of the given width.
pub open spec fn pixel_index(width: int, x: int, y: int) -> int {
    y * width + x
}

/// Distinct pixels of a frame have distinct places in its buffer, and every
/// place within the buffer belongs to a pixel.
pub proof fn lemma_pixel_index_is_bijective(width: int, height: int, x: int, y: int, i: int)
    requires
        0 <= x < width,
        0 <= y < height,
    ensures
        0 <= pixel_index(width, x, y) < width * height,
        pixel_index(width, pixel_index(width, x, y) % width, pixel_index(width, x, y) / width)
            == pixel_index(width, x, y),
        pixel_index(width, x, y) % width == x,
        pixel_index(width, x, y) / width == y,
        0 <= i < width * height ==> 0 <= i % width < width && 0 <= i / width < height
            && pixel_index(width, i % width, i / width) == i,
{
    assert(0 <= y * width + x < width * height) by (nonlinear_arith)
        requires
            0 <= x < width,
            0 <= y < height,
    ;
    vstd::arithmetic::div_mod::lemma_fundamental_div_mod_converse(y * width + x, width, y, x);
    if 0 <= i < width * height {
        vstd::arithmetic::div_mod::lemma_fundamental_div_mod(i, width);
        vstd::arithmetic::div_mod::lemma_mod_bound(i, width);
        assert(0 <= i / width < height) by (nonlinear_arith)
            requires
                0 <= i < width * height,
                0 < width,
                i == width * (i / width) + i % width,
                0 <= i % width < width,
        ;
        assert((i / width) * width == width * (i / width)) by (nonlinear_arith);
    }
}

/// A frame of `width` by `height` colours, stored row by row from the top.
pub struct Framebuffer {
    width: u32,
    height: u32,
    pixels: Vec<Color>,
}

impl View for Framebuffer {
    type V = Seq<Color>;

    /// The colours of the frame, row by row.
    closed spec fn view(&self) -> Seq<Color> {
        self.pixels@
    }
}

impl Framebuffer {
    /// A frame holds one colour for each of its pixels.
    pub closed spec fn wf(&self) -> bool {
        self.pixels@.len() == self.width * self.height
    }

    /// The buffer of a well-formed frame is `width * height` colours long.
    pub proof fn lemma_len(&self)
        requires
            self.wf(),
        ensures
            self@.len() == self.spec_width() * self.spec_height(),
    {
    }

    pub closed spec fn spec_width(&self) -> u32 {
        self.width
    }

    pub closed spec fn spec_height(&self) -> u32 {
        self.height
    }

    /// The colour of pixel (x, y).
    pub open spec fn pixel(&self, x: int, y: int) -> Color {
        self@[pixel_index(self.spec_width() as int, x, y)]
    }

    /// A black frame.
    pub fn new(width: u32, height: u32) -> (frame: Framebuffer)
        requires
            width * height <= usize::MAX,
        ensures
            frame.wf(),
            frame.spec_width() == width,
            frame.spec_height() == height,
            frame@.len() == width * height,
            forall|i: int| 0 <= i < frame@.len() ==> frame@[i] == Color::black(),
    {
        let count: usize = (width as usize) * (height as usize);
        let mut pixels: Vec<Color> = Vec::new();
        let mut i: usize = 0;
        while i < count
            invariant
                i <= count,
                pixels@.len() == i,
                forall|j: int| 0 <= j < i ==> pixels@[j] == Color::black(),
            decreases count - i,
        {
            pixels.push(Color::black());
            i = i + 1;
        }
        Framebuffer { width, height, pixels }
    }

    #[verifier::when_used_as_spec(spec_width)]
    pub fn width(&self) -> (w: u32)
        ensures
            w == self.spec_width(),
    {
        self.width
    }

    #[verifier::when_used_as_spec(spec_height)]
    pub fn height(&self) -> (h: u32)
        ensures
            h == self.spec_height(),
    {
        self.height
    }

    /// The number of pixels: one colour for each place of each row.
    pub fn len(&self) -> (n: usize)
        requires
            self.wf(),
        ensures
            n == self@.len(),
            n == self.spec_width() * self.spec_height(),
    {
        self.pixels.len()
    }

    /// The colours of the frame, row by row: what is handed to the screen.
    pub fn pixels(&self) -> (p: &Vec<Color>)
        ensures
            p@ == self@,
    {
        &self.pixels
    }

    /// The colour of pixel (x, y), or nothing where the frame has no such
    /// pixel.
    pub fn get_pixel_color(&self, x: u32, y: u32) -> (c: Option<Color>)
        requires
            self.wf(),
        ensures
            c == if x < self.spec_width() && y < self.spec_height() {
                Some(self.pixel(x as int, y as int))
            } else {
                None
            },
    {
        let count: usize = self.pixels.len();
        if x < self.width && y < self.height {
            proof {
                lemma_pixel_index_is_bijective(
                    self.width as int,
                    self.height as int,
                    x as int,
                    y as int,
                    0,
                );
            }
            let index: usize = (y as usize) * (self.width as usize) + (x as usize);
            Some(self.pixels[index])
        } else {
            None
        }
    }

    /// Gives pixel (x, y) the colour; a frame that has no such pixel stays as
    /// it is.
    pub fn set_pixel_color(&mut self, x: u32, y: u32, color: Color)
        requires
            old(self).wf(),
        ensures
            final(self).wf(),
            final(self).spec_width() == old(self).spec_width(),
            final(self).spec_height() == old(self).spec_height(),
            final(self)@ == if x < old(self).spec_width() && y < old(self).spec_height() {
                old(self)@.update(pixel_index(old(self).spec_width() as int, x as int, y as int), color)
            } else {
                old(self)@
            },
    {
        let count: usize = self.pixels.len();
        if x < self.width && y < self.height {
            proof {
                lemma_pixel_index_is_bijective(
                    self.width as int,
                    self.height as int,
                    x as int,
                    y as int,
                    0,
                );
            }
            let index: usize = (y as usize) * (self.width as usize) + (x as usize);
            self.pixels.set(index, color);
        }
    }
}

/// Publishes a finished frame: every pixel (x, y) of the framebuffer takes
/// the colour that the pixel buffer holds for it, at `y * width + x`.
pub fn render(framebuffer: &mut Framebuffer, pixel_buffer: &[Color])
    requires
        old(framebuffer).wf(),
        pixel_buffer@.len() == old(framebuffer).spec_width() * old(framebuffer).spec_height(),
    ensures
        final(framebuffer).wf(),
        final(framebuffer).spec_width() == old(framebuffer).spec_width(),
        final(framebuffer).spec_height() == old(framebuffer).spec_height(),
        final(framebuffer)@ == pixel_buffer@,
{
    let width: u32 = framebuffer.width();
    let height: u32 = framebuffer.height();
    let count: usize = framebuffer.len();
    let mut y: u32 = 0;
    while y < height
        invariant
            y <= height,
            count == width * height,
            framebuffer.wf(),
            framebuffer.spec_width() == width,
            framebuffer.spec_height() == height,
            framebuffer@.len() == width * height,
            pixel_buffer@.len() == width * height,
            forall|i: int| 0 <= i < y * width ==> framebuffer@[i] == pixel_buffer@[i],
        decreases height - y,
    {
        let mut x: u32 = 0;
        while x < width
            invariant
                x <= width,
                y < height,
                count == width * height,
                framebuffer.wf(),
                framebuffer.spec_width() == width,
                framebuffer.spec_height() == height,
                framebuffer@.len() == width * height,
                pixel_buffer@.len() == width * height,
                forall|i: int| 0 <= i < y * width + x ==> framebuffer@[i] == pixel_buffer@[i],
            decreases width - x,
        {
            proof {
                lemma_pixel_index_is_bijective(width as int, height as int, x as int, y as int, 0);
            }
            let index: usize = (y as usize) * (width as usize) + (x as usize);
            framebuffer.set_pixel_color(x, y, pixel_buffer[index]);
            x = x + 1;
        }
        assert((y + 1) * width == y * width + width) by (nonlinear_arith);
        y = y + 1;
    }
    assert(height * width == width * height) by (nonlinear_arith);
    assert(framebuffer@ =~= pixel_buffer@);
}

} // verus!
