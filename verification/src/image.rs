use vstd::prelude::*;

use crate::error::{Error, ErrorView, Kind};
use crate::text::{decimal, push_decimal};

verus! {

/// The packed value `0x00RRGGBB` of three 8-bit sRGB channels.
pub open spec fn srgb_value(r: u8, g: u8, b: u8) -> int {
    r * 65536 + g * 256 + b
}

/// Red channel of a packed value (bits 16-23).
pub open spec fn red_of(v: u32) -> int {
    (v as int / 65536) % 256
}

/// Green channel of a packed value (bits 8-15).
pub open spec fn green_of(v: u32) -> int {
    (v as int / 256) % 256
}

/// Blue channel of a packed value (bits 0-7).
pub open spec fn blue_of(v: u32) -> int {
    v as int % 256
}

/// A single RGB pixel packed as `0x00RRGGBB`; channels are gamma-encoded sRGB.
#[derive(Debug, Clone, Copy, PartialEq, Eq, Structural)]
pub struct Pixel(u32);

impl View for Pixel {
    type V = u32;

    closed spec fn view(&self) -> u32 {
        self.0
    }
}

impl Pixel {
    /// Packs three 8-bit sRGB channels into `0x00RRGGBB`: red in bits 16-23,
    /// green in bits 8-15, blue in bits 0-7.
    pub fn from_srgb(r: u8, g: u8, b: u8) -> (p: Pixel)
        ensures
            p@ == srgb_value(r, g, b),
    {
        let v: u32 = ((r as u32) << 16) | ((g as u32) << 8) | (b as u32);
        assert(((r as u32) << 16) | ((g as u32) << 8) | (b as u32) == (r as u32) * 65536 + (g as u32)
            * 256 + (b as u32)) by (bit_vector);
        Pixel(v)
    }

    /// Extracts the red channel (bits 16-23).
    pub fn r(self) -> (c: u8)
        ensures
            c == red_of(self@),
    {
        let v = self.0;
        assert((v >> 16) & 0xFF == (v / 65536) % 256) by (bit_vector);
        ((v >> 16) & 0xFF) as u8
    }

    /// Extracts the green channel (bits 8-15).
    pub fn g(self) -> (c: u8)
        ensures
            c == green_of(self@),
    {
        let v = self.0;
        assert((v >> 8) & 0xFF == (v / 256) % 256) by (bit_vector);
        ((v >> 8) & 0xFF) as u8
    }

    /// Extracts the blue channel (bits 0-7).
    pub fn b(self) -> (c: u8)
        ensures
            c == blue_of(self@),
    {
        let v = self.0;
        assert(v & 0xFF == v % 256) by (bit_vector);
        (v & 0xFF) as u8
    }

    /// Returns the raw packed value.
    pub fn packed(self) -> (v: u32)
        ensures
            v == self@,
    {
        self.0
    }

    /// Wraps a raw value as a pixel without validation.
    pub fn from_packed(v: u32) -> (p: Pixel)
        ensures
            p@ == v,
    {
        Pixel(v)
    }
}


/// Packing three channels and extracting them again gives the same
/// channels, and the top byte of the packed value is zero.
pub proof fn lemma_srgb_roundtrip(r: u8, g: u8, b: u8)
    ensures
        0 <= srgb_value(r, g, b) < 0x100_0000,
        red_of(srgb_value(r, g, b) as u32) == r,
        green_of(srgb_value(r, g, b) as u32) == g,
        blue_of(srgb_value(r, g, b) as u32) == b,
{
    let v = srgb_value(r, g, b);
    assert(0 <= v < 0x100_0000);
    assert(v / 65536 == r as int);
    assert(v / 256 == (r as int) * 256 + (g as int));
    assert(((r as int) * 256 + (g as int)) % 256 == g as int);
    assert(v % 256 == b as int);
}

/// A value in the `0x00RRGGBB` convention is the packing of its own
/// channels.
pub proof fn lemma_channels_repack(v: u32)
    requires
        v < 0x100_0000,
    ensures
        srgb_value(red_of(v) as u8, green_of(v) as u8, blue_of(v) as u8) == v,
{
    assert(red_of(v) == v as int / 65536);
    assert((v as int / 65536) * 65536 + (v as int % 65536) == v as int);
    assert((v as int % 65536) / 256 == ((v as int) / 256) % 256);
}

/// What an image holds: its dimensions and the packed values of its pixels
/// in row-major order.
#[verifier::ext_equal]
pub struct ImageView {
    pub width: u32,
    pub height: u32,
    pub pixels: Seq<u32>,
}

impl ImageView {
    /// The length invariant of every image: one pixel per grid cell.
    pub open spec fn wf(self) -> bool {
        self.pixels.len() == self.width * self.height
    }

    /// Whether column `x`, row `y` lies inside the grid.
    pub open spec fn contains(self, x: int, y: int) -> bool {
        0 <= x < self.width && 0 <= y < self.height
    }

    /// The packed value at column `x` of row `y`.
    pub open spec fn value_at(self, x: int, y: int) -> u32 {
        self.pixels[y * self.width + x]
    }
}

/// The packed values of a sequence of pixels.
pub open spec fn values_of(pixels: Seq<Pixel>) -> Seq<u32> {
    pixels.map_values(|p: Pixel| p@)
}

/// The view of the outcome of an operation that builds an image.
pub open spec fn outcome_view(r: Result<ImageBuffer, Error>) -> Result<ImageView, ErrorView> {
    match r {
        Ok(img) => Ok(img@),
        Err(e) => Err(e@),
    }
}

/// The message of a pixel-count mismatch in `ImageBuffer::new`.
pub open spec fn pixel_count_message(len: nat, width: u32, height: u32, expected: nat) -> Seq<char> {
    "pixel count "@ + decimal(len) + " does not match width * height ("@ + decimal(width as nat)
        + "x"@ + decimal(height as nat) + " = "@ + decimal(expected) + ")"@
}

/// What `ImageBuffer::new` gives for the given dimensions and pixel values.
pub open spec fn new_outcome(width: u32, height: u32, pixels: Seq<u32>) -> Result<
    ImageView,
    ErrorView,
> {
    if width * height > usize::MAX {
        Err(ErrorView::fresh(Kind::Corrupt, "width * height overflows usize"@))
    } else if pixels.len() != width * height {
        Err(
            ErrorView::fresh(
                Kind::Corrupt,
                pixel_count_message(pixels.len(), width, height, (width * height) as nat),
            ).with_context("ImageBuffer::new failed"@),
        )
    } else {
        Ok(ImageView { width, height, pixels })
    }
}

/// The message of a byte-count mismatch for interleaved RGB data; `label` is
/// "RGB8" or "RGB16" and `factor` is the number of bytes per pixel.
pub open spec fn data_length_message(
    label: Seq<char>,
    len: nat,
    width: u32,
    height: u32,
    factor: nat,
    expected: nat,
) -> Seq<char> {
    label + " data length "@ + decimal(len) + " does not match "@ + decimal(width as nat) + "x"@
        + decimal(height as nat) + "x"@ + decimal(factor) + " = "@ + decimal(expected)
}

/// What converting interleaved RGB data of `factor` bytes per pixel gives,
/// pixel `i` getting the packed value `value(i)`.
pub open spec fn interleaved_outcome(
    label: Seq<char>,
    factor: nat,
    ctx: Seq<char>,
    len: nat,
    width: u32,
    height: u32,
    value: spec_fn(int) -> int,
) -> Result<ImageView, ErrorView> {
    if width * height * factor > usize::MAX {
        Err(ErrorView::fresh(Kind::Corrupt, label + " dimensions overflow usize"@))
    } else if len != width * height * factor {
        Err(
            ErrorView::fresh(
                Kind::Corrupt,
                data_length_message(
                    label,
                    len,
                    width,
                    height,
                    factor,
                    (width * height * factor) as nat,
                ),
            ).with_context(ctx),
        )
    } else {
        Ok(
            ImageView {
                width,
                height,
                pixels: Seq::new((width * height) as nat, |i: int| value(i) as u32),
            },
        )
    }
}

/// The packed value of pixel `i` of interleaved 8-bit RGB data.
pub open spec fn rgb8_value(data: Seq<u8>, i: int) -> int {
    srgb_value(data[3 * i], data[3 * i + 1], data[3 * i + 2])
}

/// What `ImageBuffer::from_rgb8` gives for the given bytes and dimensions.
pub open spec fn rgb8_outcome(data: Seq<u8>, width: u32, height: u32) -> Result<
    ImageView,
    ErrorView,
> {
    interleaved_outcome("RGB8"@, 3, "ImageBuffer::from_rgb8 failed"@, data.len(), width, height, |i: int| rgb8_value(data, i))
}

/// A 16-bit value read from two bytes in the host's byte order.
pub open spec fn native_u16(b0: u8, b1: u8) -> int {
    match vstd::endian::endianness() {
        vstd::endian::Endian::Little => b0 + 256 * b1,
        vstd::endian::Endian::Big => 256 * b0 + b1,
    }
}

/// Channel `c` (0 red, 1 green, 2 blue) of pixel `i` of interleaved 16-bit RGB
/// data in host byte order, reduced to 8 bits by keeping the top byte.
pub open spec fn rgb16_channel(data: Seq<u8>, i: int, c: int) -> u8 {
    (native_u16(data[6 * i + 2 * c], data[6 * i + 2 * c + 1]) / 256) as u8
}

/// The packed value of pixel `i` of interleaved 16-bit RGB data.
pub open spec fn rgb16_value(data: Seq<u8>, i: int) -> int {
    srgb_value(rgb16_channel(data, i, 0), rgb16_channel(data, i, 1), rgb16_channel(data, i, 2))
}

/// What `ImageBuffer::from_rgb16` gives for the given bytes and dimensions.
pub open spec fn rgb16_outcome(data: Seq<u8>, width: u32, height: u32) -> Result<
    ImageView,
    ErrorView,
> {
    interleaved_outcome("RGB16"@, 6, "ImageBuffer::from_rgb16 failed"@, data.len(), width, height, |i: int| rgb16_value(data, i))
}

/// `u16::from_ne_bytes`: the two bytes read as an unsigned 16-bit integer in
/// the byte order of the host, which vstd names `endianness()`.
#[verifier::external_body]
fn u16_from_ne_bytes(bytes: [u8; 2]) -> (v: u16)
    ensures
        v == native_u16(bytes@[0], bytes@[1]),
{
    u16::from_ne_bytes(bytes)
}

/// A width x height grid of packed pixels in row-major order: column x of
/// row y is `pixels[y * width + x]`. The length is always `width * height`.
#[derive(Debug, PartialEq)]
pub struct ImageBuffer {
    width: u32,
    height: u32,
    pixels: Vec<Pixel>,
}

impl View for ImageBuffer {
    type V = ImageView;

    closed spec fn view(&self) -> ImageView {
        ImageView { width: self.width, height: self.height, pixels: values_of(self.pixels@) }
    }
}

impl ImageBuffer {
    #[verifier::type_invariant]
    closed spec fn well_formed(self) -> bool {
        self.pixels@.len() == self.width * self.height
    }

    /// Builds a buffer from dimensions and row-major pixels.
    ///
    /// Fails with `Corrupt` when `width * height` overflows `usize`, and with a
    /// `Corrupt` error under the context "ImageBuffer::new failed" when the
    /// number of pixels is not `width * height`.
    pub fn new(width: u32, height: u32, pixels: Vec<Pixel>) -> (res: Result<ImageBuffer, Error>)
        ensures
            outcome_view(res) == new_outcome(width, height, values_of(pixels@)),
    {
        let expected = match (width as usize).checked_mul(height as usize) {
            Some(n) => n,
            None => {
                return Err(Error::corrupt("width * height overflows usize"));
            },
        };
        if pixels.len() != expected {
            let mut msg = "pixel count ".to_owned();
            push_decimal(&mut msg, pixels.len() as u64);
            msg.append(" does not match width * height (");
            push_decimal(&mut msg, width as u64);
            msg.append("x");
            push_decimal(&mut msg, height as u64);
            msg.append(" = ");
            push_decimal(&mut msg, expected as u64);
            msg.append(")");
            return Err(Error::corrupt(msg.as_str()).context("ImageBuffer::new failed"));
        }
        let img = ImageBuffer { width, height, pixels };
        assert(img@ =~= ImageView { width, height, pixels: values_of(pixels@) });
        Ok(img)
    }

    /// Returns the pixel at column `x` of row `y`, or `None` when either
    /// coordinate is out of bounds.
    pub fn get(&self, x: u32, y: u32) -> (p: Option<Pixel>)
        ensures
            match p {
                Some(q) => self@.contains(x as int, y as int) && q@ == self@.value_at(
                    x as int,
                    y as int,
                ),
                None => !self@.contains(x as int, y as int),
            },
    {
        proof {
            use_type_invariant(self);
        }
        if x >= self.width || y >= self.height {
            return None;
        }
        let len = self.pixels.len();
        proof {
            assert((y as int) * (self.width as int) + (x as int) < (self.width as int) * (
            self.height as int)) by (nonlinear_arith)
                requires
                    x < self.width,
                    y < self.height,
            ;
        }
        Some(self.pixels[(y as usize) * (self.width as usize) + (x as usize)])
    }

    /// Converts interleaved `[R, G, B, R, G, B, ...]` bytes, one byte per
    /// channel, into packed pixels. Expects exactly `width * height * 3` bytes.
    ///
    /// Fails with `Corrupt` when `width * height * 3` overflows `usize`, and with
    /// a `Corrupt` error under the context "ImageBuffer::from_rgb8 failed" when
    /// the data length differs from it.
    pub fn from_rgb8(data: &[u8], width: u32, height: u32) -> (res: Result<ImageBuffer, Error>)
        ensures
            outcome_view(res) == rgb8_outcome(data@, width, height),
    {
        let count = match (width as usize).checked_mul(height as usize) {
            Some(n) => n,
            None => {
                let mut msg = "RGB8".to_owned();
                msg.append(" dimensions overflow usize");
                return Err(Error::corrupt(msg.as_str()));
            },
        };
        assert(count == width * height);
        let expected = match count.checked_mul(3) {
            Some(n) => n,
            None => {
                let mut msg = "RGB8".to_owned();
                msg.append(" dimensions overflow usize");
                return Err(Error::corrupt(msg.as_str()));
            },
        };
        if data.len() != expected {
            let mut msg = "RGB8".to_owned();
            msg.append(" data length ");
            push_decimal(&mut msg, data.len() as u64);
            msg.append(" does not match ");
            push_decimal(&mut msg, width as u64);
            msg.append("x");
            push_decimal(&mut msg, height as u64);
            msg.append("x");
            push_decimal(&mut msg, 3);
            msg.append(" = ");
            push_decimal(&mut msg, expected as u64);
            return Err(Error::corrupt(msg.as_str()).context("ImageBuffer::from_rgb8 failed"));
        }
        let mut pixels: Vec<Pixel> = Vec::with_capacity(count);
        let mut i: usize = 0;
        while i < count
            invariant
                i <= count,
                count == width * height,
                data@.len() == count * 3,
                count * 3 <= usize::MAX,
                pixels@.len() == i,
                forall|j: int| 0 <= j < i ==> #[trigger] pixels@[j]@ == rgb8_value(data@, j),
            decreases count - i,
        {
            let k = 3 * i;
            let p = Pixel::from_srgb(data[k], data[k + 1], data[k + 2]);
            pixels.push(p);
            i += 1;
        }
        let img = ImageBuffer { width, height, pixels };
        assert(img@ =~= ImageView {
            width,
            height,
            pixels: Seq::new((width * height) as nat, |j: int| rgb8_value(data@, j) as u32),
        });
        assert(rgb8_outcome(data@, width, height)->Ok_0 == img@);
        Ok(img)
    }

    /// Converts interleaved 16-bit-per-channel RGB data (6 bytes per pixel,
    /// each channel in host byte order) into packed 8-bit pixels, keeping the
    /// top byte of each channel. Expects exactly `width * height * 6` bytes.
    ///
    /// Fails with `Corrupt` when `width * height * 6` overflows `usize`, and with
    /// a `Corrupt` error under the context "ImageBuffer::from_rgb16 failed" when
    /// the data length differs from it.
    pub fn from_rgb16(data: &[u8], width: u32, height: u32) -> (res: Result<ImageBuffer, Error>)
        ensures
            outcome_view(res) == rgb16_outcome(data@, width, height),
    {
        let count = match (width as usize).checked_mul(height as usize) {
            Some(n) => n,
            None => {
                let mut msg = "RGB16".to_owned();
                msg.append(" dimensions overflow usize");
                return Err(Error::corrupt(msg.as_str()));
            },
        };
        assert(count == width * height);
        let expected = match count.checked_mul(6) {
            Some(n) => n,
            None => {
                let mut msg = "RGB16".to_owned();
                msg.append(" dimensions overflow usize");
                return Err(Error::corrupt(msg.as_str()));
            },
        };
        if data.len() != expected {
            let mut msg = "RGB16".to_owned();
            msg.append(" data length ");
            push_decimal(&mut msg, data.len() as u64);
            msg.append(" does not match ");
            push_decimal(&mut msg, width as u64);
            msg.append("x");
            push_decimal(&mut msg, height as u64);
            msg.append("x");
            push_decimal(&mut msg, 6);
            msg.append(" = ");
            push_decimal(&mut msg, expected as u64);
            return Err(Error::corrupt(msg.as_str()).context("ImageBuffer::from_rgb16 failed"));
        }
        let mut pixels: Vec<Pixel> = Vec::with_capacity(count);
        let mut i: usize = 0;
        while i < count
            invariant
                i <= count,
                count == width * height,
                data@.len() == count * 6,
                count * 6 <= usize::MAX,
                pixels@.len() == i,
                forall|j: int| 0 <= j < i ==> #[trigger] pixels@[j]@ == rgb16_value(data@, j),
            decreases count - i,
        {
            let k = 6 * i;
            let r = u16_from_ne_bytes([data[k], data[k + 1]]);
            let g = u16_from_ne_bytes([data[k + 2], data[k + 3]]);
            let b = u16_from_ne_bytes([data[k + 4], data[k + 5]]);
            assert(r >> 8 == r / 256) by (bit_vector);
            assert(g >> 8 == g / 256) by (bit_vector);
            assert(b >> 8 == b / 256) by (bit_vector);
            let p = Pixel::from_srgb((r >> 8) as u8, (g >> 8) as u8, (b >> 8) as u8);
            pixels.push(p);
            i += 1;
        }
        let img = ImageBuffer { width, height, pixels };
        assert(img@ =~= ImageView {
            width,
            height,
            pixels: Seq::new((width * height) as nat, |j: int| rgb16_value(data@, j) as u32),
        });
        assert(rgb16_outcome(data@, width, height)->Ok_0 == img@);
        Ok(img)
    }

    /// The width in pixels.
    pub fn width(&self) -> (w: u32)
        ensures
            w == self@.width,
    {
        self.width
    }

    /// The height in pixels.
    pub fn height(&self) -> (h: u32)
        ensures
            h == self@.height,
    {
        self.height
    }

    /// The pixels in row-major order; there are always `width * height`.
    pub fn pixels(&self) -> (s: &[Pixel])
        ensures
            values_of(s@) == self@.pixels,
            self@.wf(),
    {
        proof {
            use_type_invariant(self);
        }
        self.pixels.as_slice()
    }
}

impl Clone for ImageBuffer {
    fn clone(&self) -> (c: ImageBuffer)
        ensures
            c@ == self@,
    {
        proof {
            use_type_invariant(self);
        }
        let pixels = self.pixels.clone();
        proof {
            assert(pixels@ =~= self.pixels@);
        }
        ImageBuffer { width: self.width, height: self.height, pixels }
    }
}

/// Every image that a constructor yields has one pixel per grid cell.
pub proof fn lemma_outcomes_well_formed(
    width: u32,
    height: u32,
    pixels: Seq<u32>,
    data: Seq<u8>,
)
    ensures
        new_outcome(width, height, pixels) matches Ok(v) ==> v.wf(),
        rgb8_outcome(data, width, height) matches Ok(v) ==> v.wf(),
        rgb16_outcome(data, width, height) matches Ok(v) ==> v.wf(),
{
}

/// Building an image fails only with corrupt data.
pub proof fn lemma_construction_failures_are_corrupt(
    width: u32,
    height: u32,
    pixels: Seq<u32>,
    data: Seq<u8>,
)
    ensures
        new_outcome(width, height, pixels) matches Err(e) ==> e.kind == Kind::Corrupt,
        rgb8_outcome(data, width, height) matches Err(e) ==> e.kind == Kind::Corrupt,
        rgb16_outcome(data, width, height) matches Err(e) ==> e.kind == Kind::Corrupt,
{
}

proof fn lemma_cell_index(width: u32, height: u32, x: int, y: int)
    requires
        0 <= x < width,
        0 <= y < height,
    ensures
        0 <= y * width + x < width * height,
{
    assert(0 <= y * width + x < width * height) by (nonlinear_arith)
        requires
            0 <= x < width,
            0 <= y < height,
    ;
}

/// The pixel at column x of row y of an image built from 8-bit RGB bytes has
/// as channels the three bytes at `3 * (y * width + x)`.
pub proof fn lemma_rgb8_channels(data: Seq<u8>, width: u32, height: u32, x: int, y: int)
    requires
        rgb8_outcome(data, width, height) is Ok,
        0 <= x < width,
        0 <= y < height,
    ensures
        ({
            let v = rgb8_outcome(data, width, height)->Ok_0.value_at(x, y);
            let i = y * width + x;
            &&& red_of(v) == data[3 * i]
            &&& green_of(v) == data[3 * i + 1]
            &&& blue_of(v) == data[3 * i + 2]
        }),
{
    lemma_cell_index(width, height, x, y);
    let i = y * width + x;
    lemma_srgb_roundtrip(data[3 * i], data[3 * i + 1], data[3 * i + 2]);
}

/// The pixel at column x of row y of an image built from 16-bit RGB data
/// keeps the most significant byte of each channel: the second byte of the
/// channel on a little-endian host, the first on a big-endian one.
pub proof fn lemma_rgb16_channels(data: Seq<u8>, width: u32, height: u32, x: int, y: int)
    requires
        rgb16_outcome(data, width, height) is Ok,
        0 <= x < width,
        0 <= y < height,
    ensures
        ({
            let v = rgb16_outcome(data, width, height)->Ok_0.value_at(x, y);
            let i = y * width + x;
            let hi = if vstd::endian::endianness() is Little {
                1int
            } else {
                0int
            };
            &&& red_of(v) == data[6 * i + hi]
            &&& green_of(v) == data[6 * i + 2 + hi]
            &&& blue_of(v) == data[6 * i + 4 + hi]
        }),
{
    lemma_cell_index(width, height, x, y);
    let i = y * width + x;
    lemma_srgb_roundtrip(
        rgb16_channel(data, i, 0),
        rgb16_channel(data, i, 1),
        rgb16_channel(data, i, 2),
    );
}

/// The most significant byte of the 16-bit sample stored at `k`, `k + 1` in
/// the host's byte order: the second byte on a little-endian host, the first
/// on a big-endian one.
pub open spec fn host_high_byte(data: Seq<u8>, k: int) -> u8 {
    if vstd::endian::endianness() is Little {
        data[k + 1]
    } else {
        data[k]
    }
}

proof fn lemma_native_high_byte(data: Seq<u8>, k: int)
    requires
        0 <= k,
        k + 1 < data.len(),
    ensures
        (native_u16(data[k], data[k + 1]) / 256) as u8 == host_high_byte(data, k),
{
    let b0 = data[k] as int;
    let b1 = data[k + 1] as int;
    assert((b0 + 256 * b1) / 256 == b1);
    assert((256 * b0 + b1) / 256 == b0);
}

/// Building an image succeeds exactly when its size fits in `usize` and the
/// input has one entry (pixel) or three or six bytes per grid cell; it never
/// refuses well-sized input of any size.
pub proof fn lemma_construction_accepts_exactly_well_sized_input(
    width: u32,
    height: u32,
    pixels: Seq<u32>,
    data: Seq<u8>,
)
    ensures
        new_outcome(width, height, pixels) is Ok <==> (width * height <= usize::MAX
            && pixels.len() == width * height),
        rgb8_outcome(data, width, height) is Ok <==> (width * height * 3 <= usize::MAX
            && data.len() == width * height * 3),
        rgb16_outcome(data, width, height) is Ok <==> (width * height * 6 <= usize::MAX
            && data.len() == width * height * 6),
{
}

/// A successful `ImageBuffer::new` keeps the dimensions and the pixels as
/// given.
pub proof fn lemma_new_keeps_pixels(width: u32, height: u32, pixels: Seq<u32>)
    requires
        width * height <= usize::MAX,
        pixels.len() == width * height,
    ensures
        new_outcome(width, height, pixels) == Ok::<ImageView, ErrorView>(
            ImageView { width, height, pixels },
        ),
{
}

/// Well-sized 8-bit RGB data converts to an image of the given dimensions
/// whose pixel `i` packs the bytes `3i`, `3i + 1`, `3i + 2` as red, green and
/// blue.
pub proof fn lemma_rgb8_converts(data: Seq<u8>, width: u32, height: u32)
    requires
        width * height * 3 <= usize::MAX,
        data.len() == width * height * 3,
    ensures
        rgb8_outcome(data, width, height) is Ok,
        ({
            let v = rgb8_outcome(data, width, height)->Ok_0;
            &&& v.width == width
            &&& v.height == height
            &&& v.pixels.len() == width * height
            &&& forall|i: int|
                0 <= i < width * height ==> #[trigger] v.pixels[i] == data[3 * i] * 65536
                    + data[3 * i + 1] * 256 + data[3 * i + 2]
        }),
{
}

/// Well-sized 16-bit RGB data converts to an image of the given dimensions
/// whose pixel `i` packs, as red, green and blue, the most significant bytes
/// of the first, second and third host-order 16-bit samples of the 6-byte
/// group at `6i`.
pub proof fn lemma_rgb16_converts(data: Seq<u8>, width: u32, height: u32)
    requires
        width * height * 6 <= usize::MAX,
        data.len() == width * height * 6,
    ensures
        rgb16_outcome(data, width, height) is Ok,
        ({
            let v = rgb16_outcome(data, width, height)->Ok_0;
            &&& v.width == width
            &&& v.height == height
            &&& v.pixels.len() == width * height
            &&& forall|i: int|
                0 <= i < width * height ==> #[trigger] v.pixels[i] == host_high_byte(data, 6 * i)
                    * 65536 + host_high_byte(data, 6 * i + 2) * 256 + host_high_byte(
                    data,
                    6 * i + 4,
                )
        }),
{
    let v = rgb16_outcome(data, width, height)->Ok_0;
    assert forall|i: int| 0 <= i < width * height implies #[trigger] v.pixels[i]
        == host_high_byte(data, 6 * i) * 65536 + host_high_byte(data, 6 * i + 2) * 256
        + host_high_byte(data, 6 * i + 4) by {
        lemma_native_high_byte(data, 6 * i);
        lemma_native_high_byte(data, 6 * i + 2);
        lemma_native_high_byte(data, 6 * i + 4);
    }
}

} // verus!
