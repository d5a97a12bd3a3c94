//! The RGBA frame buffer, packed-color expansion, and the display-side state.
use vstd::prelude::*;

verus! {

/// Red channel of a packed `RRRGGGBB` color.
pub open spec fn red_of(v: u8) -> u8 {
    (36 * ((v >> 5u8) & 7u8)) as u8
}

/// Green channel of a packed `RRRGGGBB` color.
pub open spec fn green_of(v: u8) -> u8 {
    (36 * ((v & 0b00011100u8) >> 3u8)) as u8
}

/// Blue channel of a packed `RRRGGGBB` color.
pub open spec fn blue_of(v: u8) -> u8 {
    (85 * (v & 3u8)) as u8
}

/// Byte offset of pixel `(x, y)` in a row-major RGBA buffer of the given width.
pub open spec fn pixel_offset(width: int, x: int, y: int) -> int {
    (x + y * width) * 4
}

/// The buffer after pixel `(x, y)` is set to the expansion of `rgb`.
pub open spec fn painted(pixels: Seq<u8>, width: int, x: int, y: int, rgb: u8) -> Seq<u8> {
    let i = pixel_offset(width, x, y);
    pixels.update(i, red_of(rgb)).update(i + 1, green_of(rgb)).update(i + 2, blue_of(rgb)).update(
        i + 3,
        255u8,
    )
}

/// Expands a packed `RRRGGGBB` color into its red, green, blue and alpha bytes.
pub fn expand_color(rgb: u8) -> (r: (u8, u8, u8, u8))
    ensures
        r == (red_of(rgb), green_of(rgb), blue_of(rgb), 255u8),
{
    let hi: u8 = (rgb & 0b11100000u8) >> 5u8;
    let mid: u8 = (rgb & 0b00011100u8) >> 3u8;
    let lo: u8 = rgb & 0b00000011u8;
    assert(hi == (rgb >> 5u8) & 7u8 && hi <= 7) by (bit_vector)
        requires hi == (rgb & 0b11100000u8) >> 5u8;
    assert(mid <= 3) by (bit_vector)
        requires mid == (rgb & 0b00011100u8) >> 3u8;
    assert(lo <= 3) by (bit_vector)
        requires lo == rgb & 0b00000011u8;
    (36 * hi, 36 * mid, 85 * lo, 255)
}

/// Writes the expansion of the packed color `rgb` at pixel `(x, y)` of a
/// row-major RGBA buffer `width` pixels wide. Every other byte is kept.
pub fn set(pixels: &mut [u8], width: usize, x: usize, y: usize, rgb: u8)
    requires
        x < width,
        pixel_offset(width as int, x as int, y as int) + 4 <= old(pixels)@.len(),
    ensures
        final(pixels)@ == painted(old(pixels)@, width as int, x as int, y as int, rgb),
{
    let (r, g, b, a) = expand_color(rgb);
    let len = pixels.len();
    assert((x + y * width) * 4 + 4 <= len);
    let i = (x + y * width) * 4;
    pixels[i] = r;
    pixels[i + 1] = g;
    pixels[i + 2] = b;
    pixels[i + 3] = a;
}

/// The contents of an optional frame.
pub open spec fn frame_view(f: Option<Vec<u8>>) -> Option<Seq<u8>> {
    match f {
        Some(v) => Some(v@),
        None => None,
    }
}

/// A capacity-one, latest-wins mailbox for frame snapshots: a new frame
/// replaces any frame not yet taken, so a slow reader never causes a backlog.
pub struct FrameSlot {
    frame: Option<Vec<u8>>,
}

impl View for FrameSlot {
    type V = Option<Seq<u8>>;

    closed spec fn view(&self) -> Option<Seq<u8>> {
        frame_view(self.frame)
    }
}

impl FrameSlot {
    /// An empty mailbox.
    pub fn new() -> (r: FrameSlot)
        ensures
            r@ is None,
    {
        FrameSlot { frame: None }
    }

    /// Delivers `frame`, dropping any frame not yet taken.
    pub fn put(&mut self, frame: Vec<u8>)
        ensures
            final(self)@ == Some(frame@),
    {
        self.frame = Some(frame);
    }

    /// Takes the pending frame, if any, leaving the mailbox empty.
    pub fn take(&mut self) -> (r: Option<Vec<u8>>)
        ensures
            frame_view(r) == old(self)@,
            final(self)@ is None,
    {
        let r = self.frame.take();
        r
    }
}

/// The display side: the last frame received, and the frame's dimensions.
pub struct ZenState {
    buf: Vec<u8>,
    width: u16,
    height: u16,
}

impl ZenState {
    pub closed spec fn pixels_spec(&self) -> Seq<u8> {
        self.buf@
    }

    pub closed spec fn width_spec(&self) -> u16 {
        self.width
    }

    pub closed spec fn height_spec(&self) -> u16 {
        self.height
    }

    /// A display of `width` by `height` pixels showing a black frame.
    pub fn new(width: u16, height: u16) -> (r: ZenState)
        requires
            width * height * 4 <= usize::MAX,
        ensures
            r.pixels_spec() == Seq::new((width * height * 4) as nat, |i: int| 0u8),
            r.width_spec() == width,
            r.height_spec() == height,
    {
        let n = (width as usize) * (height as usize) * 4;
        let r = ZenState { buf: vec![0u8; n], width, height };
        assert(r.buf@ =~= Seq::new((width * height * 4) as nat, |i: int| 0u8));
        r
    }

    /// Shows `frame` when it is a full frame of this display's size; keeps the
    /// current frame when none arrived or its size differs.
    pub fn update(&mut self, frame: Option<Vec<u8>>)
        ensures
            final(self).width_spec() == old(self).width_spec(),
            final(self).height_spec() == old(self).height_spec(),
            final(self).pixels_spec() == match frame {
                Some(f) => if f@.len() == old(self).pixels_spec().len() {
                    f@
                } else {
                    old(self).pixels_spec()
                },
                None => old(self).pixels_spec(),
            },
    {
        if let Some(f) = frame {
            if f.len() == self.buf.len() {
                self.buf = f;
            }
        }
    }

    /// The frame currently shown, row-major RGBA.
    pub fn pixels(&self) -> (r: &Vec<u8>)
        ensures
            r@ == self.pixels_spec(),
    {
        &self.buf
    }

    pub fn width(&self) -> (r: u16)
        ensures
            r == self.width_spec(),
    {
        self.width
    }

    pub fn height(&self) -> (r: u16)
        ensures
            r == self.height_spec(),
    {
        self.height
    }
}

} // verus!
