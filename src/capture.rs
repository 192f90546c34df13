//! The capture burst: three frames a second apart, each turned into a PNG data URI.
use vstd::prelude::*;

use image::ImageEncoder;

verus! {

/// Number of frames taken per cycle.
pub const BURST_LEN: usize = 3;

/// Pause between two consecutive frames, in milliseconds.
pub const BURST_SPACING_MS: u64 = 1000;

/// Prefix that turns base64 PNG text into a data URI.
pub const PNG_DATA_URI_PREFIX: &'static str = "data:image/png;base64,";

#[verifier::external_type_specification]
#[verifier::external_body]
pub struct ExImageError(image::ImageError);

/// Bytes in an 8-bit RGBA buffer of the given size.
pub open spec fn rgba_len(width: u32, height: u32) -> int {
    4 * ((width as int) * (height as int))
}

/// The PNG file that the image crate writes for an 8-bit RGBA pixel buffer.
pub uninterp spec fn png_of_rgba(width: u32, height: u32, pixels: Seq<u8>) -> Seq<u8>;

/// Standard-alphabet, padded base64 text of some bytes.
pub uninterp spec fn base64_standard(bytes: Seq<u8>) -> Seq<char>;

/// A character of the standard base64 alphabet, or the padding character.
pub open spec fn is_base64_char(c: char) -> bool {
    ||| 'A' <= c <= 'Z'
    ||| 'a' <= c <= 'z'
    ||| '0' <= c <= '9'
    ||| c == '+'
    ||| c == '/'
    ||| c == '='
}

/// Length of padded base64 text for `n` bytes: four characters per started
/// group of three bytes.
pub open spec fn base64_padded_len(n: nat) -> nat {
    4 * ((n + 2) / 3)
}

/// Relies on image's `PngEncoder::write_image` with `ExtendedColorType::Rgba8`:
/// on success the written bytes are the PNG of the pixels; it panics unless
/// the buffer holds exactly four bytes per pixel, which `requires` rules out.
/// For 8-bit RGBA the png crate's writer fails only on a zero width or height
/// (`Writer::init`), and writing into a `Vec` cannot fail.
/// The length bound is std's: a `Vec` never holds more than `isize::MAX` bytes.
#[verifier::external_body]
fn encode_png_rgba(pixels: &[u8], width: u32, height: u32) -> (r: Result<Vec<u8>, image::ImageError>)
    requires
        pixels@.len() == rgba_len(width, height),
    ensures
        r is Ok <==> (width > 0 && height > 0),
        r matches Ok(png) ==> png@ == png_of_rgba(width, height, pixels@) && png@.len() <= isize::MAX,
{
    let mut png: Vec<u8> = Vec::new();
    image::codecs::png::PngEncoder::new(&mut png).write_image(
        pixels,
        width,
        height,
        image::ExtendedColorType::Rgba8,
    )?;
    Ok(png)
}

/// Relies on base64's `general_purpose::STANDARD.encode`: padded
/// standard-alphabet text, a function of the bytes alone, four characters per
/// started group of three bytes (`encoded_len` with padding). It panics only
/// when the output length overflows `usize`, which no buffer of at most
/// `isize::MAX` bytes reaches.
#[verifier::external_body]
fn base64_encode(bytes: &[u8]) -> (r: String)
    requires
        bytes@.len() <= isize::MAX,
    ensures
        r@ == base64_standard(bytes@),
        r@.len() == base64_padded_len(bytes@.len()),
        forall|i: int| 0 <= i < r@.len() ==> is_base64_char(#[trigger] r@[i]),
{
    base64::Engine::encode(&base64::engine::general_purpose::STANDARD, bytes)
}

/// The data URI under which a PNG file is sent.
pub open spec fn png_data_uri(png: Seq<u8>) -> Seq<char> {
    PNG_DATA_URI_PREFIX@ + base64_standard(png)
}

/// Why a frame could not be encoded.
pub enum CaptureError {
    /// The pixel buffer does not hold four bytes for each of width × height pixels.
    PixelCountMismatch,
    /// The PNG encoder failed.
    Encode(image::ImageError),
}

/// Turns a PNG file into the data URI under which it is sent.
pub fn png_to_data_uri(png: &[u8]) -> (r: String)
    requires
        png@.len() <= isize::MAX,
    ensures
        r@ == png_data_uri(png@),
        r@.len() == PNG_DATA_URI_PREFIX@.len() + base64_padded_len(png@.len()),
        forall|i: int|
            PNG_DATA_URI_PREFIX@.len() <= i < r@.len() ==> is_base64_char(#[trigger] r@[i]),
{
    let encoded = base64_encode(png);
    String::from_str(PNG_DATA_URI_PREFIX).concat(encoded.as_str())
}

/// Turns the PNG encoder's outcome into a frame's outcome: the data URI of the
/// PNG, or the encoder's error as it came.
pub fn frame_from_png(encoded: Result<Vec<u8>, image::ImageError>) -> (r: Result<String, CaptureError>)
    requires
        encoded matches Ok(png) ==> png@.len() <= isize::MAX,
    ensures
        encoded matches Ok(png) ==> r matches Ok(uri) && uri@ == png_data_uri(png@),
        encoded matches Err(e) ==> r == Err::<String, CaptureError>(CaptureError::Encode(e)),
{
    match encoded {
        Ok(png) => Ok(png_to_data_uri(png.as_slice())),
        Err(e) => Err(CaptureError::Encode(e)),
    }
}

/// Encodes a captured RGBA frame as a base64 PNG data URI. It succeeds exactly
/// when the buffer holds four bytes per pixel and neither side is zero.
pub fn encode_frame(pixels: &[u8], width: u32, height: u32) -> (r: Result<String, CaptureError>)
    ensures
        r is Ok <==> (pixels@.len() == rgba_len(width, height) && width > 0 && height > 0),
        r matches Ok(uri) ==> uri@ == png_data_uri(png_of_rgba(width, height, pixels@)),
        r matches Err(CaptureError::PixelCountMismatch) <==> pixels@.len() != rgba_len(width, height),
        pixels@.len() == rgba_len(width, height) && (width == 0 || height == 0) ==> r matches Err(
            CaptureError::Encode(_),
        ),
{
    proof {
        assert(0 <= (width as int) * (height as int) <= u32::MAX * u32::MAX) by (nonlinear_arith);
    }
    let expected: u128 = 4u128 * ((width as u128) * (height as u128));
    if pixels.len() as u128 != expected {
        return Err(CaptureError::PixelCountMismatch);
    }
    frame_from_png(encode_png_rgba(pixels, width, height))
}

/// The next step of a capture burst.
#[derive(Debug, Clone, Copy, PartialEq, Eq, Structural)]
pub enum BurstStep {
    /// Take a frame; when `start_latency_clock` holds, start the latency clock
    /// just before taking it.
    Capture { start_latency_clock: bool },
    /// Wait this many milliseconds before the next frame.
    Pause(u64),
    /// All frames are in: send them to the model.
    Submit,
}

/// Progress through one burst of captures.
pub struct CaptureBurst {
    frames: Vec<String>,
    paused: bool,
}

impl CaptureBurst {
    /// The frames taken so far, in capture order.
    pub closed spec fn frames(&self) -> Seq<Seq<char>> {
        self.frames@.map_values(|f: String| f@)
    }

    /// Whether the pause after the latest frame has been taken.
    pub closed spec fn paused(&self) -> bool {
        self.paused
    }

    pub closed spec fn wf(&self) -> bool {
        &&& self.frames@.len() <= BURST_LEN
        &&& self.frames@.len() == 0 ==> !self.paused
    }

    /// The step owed in a given state of the burst.
    pub open spec fn step_for(taken: nat, paused: bool) -> BurstStep {
        if taken >= BURST_LEN {
            BurstStep::Submit
        } else if taken == 0 || paused {
            BurstStep::Capture { start_latency_clock: taken + 1 == BURST_LEN }
        } else {
            BurstStep::Pause(BURST_SPACING_MS)
        }
    }

    /// A burst with no frame yet.
    pub fn new() -> (r: CaptureBurst)
        ensures
            r.wf(),
            r.frames() == Seq::<Seq<char>>::empty(),
            !r.paused(),
    {
        CaptureBurst { frames: Vec::new(), paused: false }
    }

    /// The step to perform next.
    pub fn next_step(&self) -> (r: BurstStep)
        requires
            self.wf(),
        ensures
            r == Self::step_for(self.frames().len(), self.paused()),
    {
        let taken = self.frames.len();
        if taken >= BURST_LEN {
            BurstStep::Submit
        } else if taken == 0 || self.paused {
            BurstStep::Capture { start_latency_clock: taken + 1 == BURST_LEN }
        } else {
            BurstStep::Pause(BURST_SPACING_MS)
        }
    }

    /// Records a frame just taken.
    pub fn record_frame(&mut self, frame: String)
        requires
            old(self).wf(),
            old(self).frames().len() < BURST_LEN,
        ensures
            final(self).wf(),
            final(self).frames() == old(self).frames().push(frame@),
            !final(self).paused(),
    {
        self.frames.push(frame);
        self.paused = false;
        proof {
            assert(self.frames@.map_values(|f: String| f@) =~= old(self).frames@.map_values(
                |f: String| f@,
            ).push(frame@));
        }
    }

    /// Records that the pause after the latest frame is over.
    pub fn record_pause(&mut self)
        requires
            old(self).wf(),
            old(self).frames().len() > 0,
        ensures
            final(self).wf(),
            final(self).frames() == old(self).frames(),
            final(self).paused(),
    {
        self.paused = true;
    }

    /// Ends the burst and hands over its frames in capture order.
    pub fn into_frames(self) -> (r: Vec<String>)
        ensures
            r@.map_values(|f: String| f@) == self.frames(),
    {
        self.frames
    }
}

} // verus!
