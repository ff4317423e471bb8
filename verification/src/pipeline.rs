//! From a finished selection to the words that are spoken: the region is
//! cut out of the bitmap, handed to text recognition, and the lines that come
//! back are joined into one utterance.

use vstd::prelude::*;
use vstd::string::StringExecFns;
use image::imageops::crop_imm;
use image::{ImageBuffer, Rgba};
use crate::capture::CaptureBuffer;
use crate::geometry::{canonical, canonical_rect, folded, get_image_coords, Rectangle, ScreenPoint};
use crate::outline::byte_len;

verus! {

/// The region of `width` by `height` pixels whose top-left pixel is `(x, y)`
/// in a bitmap that is `source_width` pixels wide, tightly packed.
pub open spec fn cropped(
    bytes: Seq<u8>,
    source_width: int,
    x: int,
    y: int,
    width: int,
    height: int,
) -> Seq<u8> {
    Seq::new(
        (4 * width * height) as nat,
        |k: int|
            bytes[4 * ((y + (k / 4) / width) * source_width + (x + (k / 4) % width)) + k % 4],
    )
}

/// The region of a bitmap that a rectangle selects: from its top-left
/// corner, as wide and as high as the corners are apart.
pub open spec fn selected_region(bytes: Seq<u8>, source_width: int, rect: Rectangle) -> Seq<u8> {
    cropped(
        bytes,
        source_width,
        rect.top_left.x as int,
        rect.top_left.y as int,
        rect.spec_width(),
        rect.spec_height(),
    )
}

/// A pixel of a region is the pixel of the bitmap that lies as far from the
/// region's corner in the bitmap as it lies from the corner of the region.
pub proof fn lemma_cropped_pixel(
    bytes: Seq<u8>,
    source_width: int,
    x: int,
    y: int,
    width: int,
    height: int,
    column: int,
    row: int,
    channel: int,
)
    requires
        0 <= column < width,
        0 <= row < height,
        0 <= channel < 4,
    ensures
        cropped(bytes, source_width, x, y, width, height).len() == 4 * width * height,
        0 <= 4 * (row * width + column) + channel < 4 * width * height,
        cropped(bytes, source_width, x, y, width, height)[4 * (row * width + column) + channel]
            == bytes[4 * ((y + row) * source_width + (x + column)) + channel],
{
    let pixel = row * width + column;
    assert(0 <= row * width && row * width + width <= height * width) by (nonlinear_arith)
        requires
            0 <= row < height,
            0 < width,
    ;
    assert(4 * width * height == 4 * (height * width)) by (nonlinear_arith);
    vstd::arithmetic::div_mod::lemma_fundamental_div_mod_converse(pixel, width, row, column);
}

/// Cuts a region out of an RGBA bitmap with `image::imageops::crop_imm`, on
/// an `image::ImageBuffer` made of the bytes with `ImageBuffer::from_raw`,
/// and copies it out with `SubImage::to_image` and `ImageBuffer::into_raw`.
/// The buffer holds exactly the bitmap, so `from_raw` accepts it; the region
/// lies inside the bitmap, so `crop_imm` does not shrink it. The copy is made
/// pixel by pixel: the pixel `(c, r)` of the result is the pixel
/// `(x + c, y + r)` of the bitmap.
#[verifier::external_body]
fn crop_rgba(
    bytes: Vec<u8>,
    source_size: (u32, u32),
    x: u32,
    y: u32,
    width: u32,
    height: u32,
) -> (region: Vec<u8>)
    requires
        bytes@.len() == byte_len(source_size),
        x + width <= source_size.0,
        y + height <= source_size.1,
    ensures
        region@ == cropped(bytes@, source_size.0 as int, x as int, y as int, width as int, height as int),
{
    let source: ImageBuffer<Rgba<u8>, Vec<u8>> = ImageBuffer::from_raw(
        source_size.0,
        source_size.1,
        bytes,
    ).unwrap();
    crop_imm(&source, x, y, width, height).to_image().into_raw()
}

/// A region cut out of a bitmap: RGBA bytes, tightly packed.
#[derive(Debug, PartialEq, Eq)]
pub struct CroppedImage {
    pub bytes: Vec<u8>,
    pub width: u32,
    pub height: u32,
}

/// Cuts out of a screenshot the rectangle between two corners, given in
/// logical pixels and in any order. Each corner is folded into the bitmap
/// first. Returns the region's bytes, its width and its height.
pub fn get_cropped_image_source(
    screenshot: Vec<u8>,
    screenshot_size: (u32, u32),
    first_corner: ScreenPoint,
    second_corner: ScreenPoint,
) -> (region: (Vec<u8>, u32, u32))
    requires
        screenshot@.len() == byte_len(screenshot_size),
        screenshot_size.0 > 0,
        screenshot_size.1 > 0,
    ensures
        ({
            let rect = canonical(
                folded(first_corner, screenshot_size),
                folded(second_corner, screenshot_size),
            );
            &&& region.0@ == selected_region(screenshot@, screenshot_size.0 as int, rect)
            &&& region.1 == rect.spec_width()
            &&& region.2 == rect.spec_height()
        }),
{
    let first = get_image_coords(first_corner, screenshot_size);
    let second = get_image_coords(second_corner, screenshot_size);
    let rect = canonical_rect(first, second);
    let width = rect.width();
    let height = rect.height();
    let bytes = crop_rgba(
        screenshot,
        screenshot_size,
        rect.top_left.x,
        rect.top_left.y,
        width,
        height,
    );
    (bytes, width, height)
}

/// What the pipeline asks for first.
#[derive(Debug, PartialEq, Eq)]
pub enum PipelineStep {
    /// The selection spans no pixel. Nothing is recognised and nothing is
    /// spoken; the session goes back to idle.
    EmptySelection,
    /// This region is to be handed to text recognition.
    Recognize { image: CroppedImage },
}

/// Starts the pipeline on a finished selection: cuts the region out of the
/// bitmap, or says that the selection is empty. The rectangle must be
/// canonical and inside the bitmap, as every rectangle is that `advance`
/// hands out with its bitmap.
pub fn run(buffer: CaptureBuffer, rect: Rectangle) -> (step: PipelineStep)
    requires
        rect.wf(),
        rect.within(buffer.spec_size()),
    ensures
        rect.spec_is_empty() ==> step == PipelineStep::EmptySelection,
        !rect.spec_is_empty() ==> {
            &&& step matches PipelineStep::Recognize { image }
            &&& image.bytes@ == selected_region(buffer@, buffer.spec_size().0 as int, rect)
            &&& image.width == rect.spec_width()
            &&& image.height == rect.spec_height()
        },
{
    if rect.is_empty() {
        PipelineStep::EmptySelection
    } else {
        let width = rect.width();
        let height = rect.height();
        let size = buffer.size();
        let bytes = crop_rgba(
            buffer.into_bytes(),
            size,
            rect.top_left.x,
            rect.top_left.y,
            width,
            height,
        );
        PipelineStep::Recognize { image: CroppedImage { bytes, width, height } }
    }
}

/// Why text recognition gave no lines.
#[derive(Clone, Copy, Debug, PartialEq, Eq, Structural)]
pub enum OcrError {
    /// A model could not be loaded.
    ModelLoad,
    /// The engine did not accept the image it was given.
    MalformedInput,
    /// The engine failed while it read the image.
    Recognition,
}

impl OcrError {
    /// The failure ends the program, and not only one reading.
    pub open spec fn spec_is_fatal(self) -> bool {
        self == OcrError::ModelLoad
    }

    /// Whether the failure ends the program. Without a model nothing can be
    /// recognised at all; any other failure ends one pipeline run.
    pub fn is_fatal(&self) -> (fatal: bool)
        ensures
            fatal == self.spec_is_fatal(),
    {
        match self {
            OcrError::ModelLoad => true,
            _ => false,
        }
    }
}

/// One line of recognised text. Where it stood in the image plays no part.
#[derive(Clone, Debug, PartialEq, Eq)]
pub struct TextLine {
    pub text: String,
}

impl TextLine {
    /// A line from what the engine made of it: a line that it could not
    /// read counts as a line without text.
    pub fn from_recognized(text: Option<String>) -> (line: TextLine)
        ensures
            line.text@ == match text {
                Some(t) => t@,
                None => Seq::<char>::empty(),
            },
    {
        match text {
            Some(t) => TextLine { text: t },
            None => TextLine { text: String::new() },
        }
    }
}

/// The lines, each followed by one space but for the last. A line without
/// text is kept as an empty segment, so that its two neighbours are two
/// spaces apart.
pub open spec fn joined(lines: Seq<TextLine>) -> Seq<char>
    decreases lines.len(),
{
    if lines.len() == 0 {
        Seq::empty()
    } else if lines.len() == 1 {
        lines[0].text@
    } else {
        joined(lines.drop_last()) + seq![' '] + lines.last().text@
    }
}

/// One more line is one space and its text more, or its text alone where
/// it is the first.
pub proof fn lemma_joined_with_one_more(lines: Seq<TextLine>, next: TextLine)
    ensures
        joined(lines.push(next)) == if lines.len() == 0 {
            next.text@
        } else {
            joined(lines) + seq![' '] + next.text@
        },
{
    assert(lines.push(next).drop_last() =~= lines);
}

/// Two lines are spoken with one space between them.
pub proof fn lemma_joined_pair(first: TextLine, second: TextLine)
    ensures
        joined(seq![first, second]) == first.text@ + seq![' '] + second.text@,
{
    let one = seq![first];
    assert(seq![first, second] =~= one.push(second));
    lemma_joined_with_one_more(one, second);
    assert(joined(one) == first.text@);
}

/// Joins the recognised lines into the one string that is spoken.
pub fn utterance(lines: &Vec<TextLine>) -> (spoken: String)
    ensures
        spoken@ == joined(lines@),
{
    let mut spoken = String::new();
    let mut i: usize = 0;
    while i < lines.len()
        invariant
            i <= lines.len(),
            spoken@ == joined(lines@.take(i as int)),
        decreases lines.len() - i,
    {
        proof {
            reveal_strlit(" ");
            assert(lines@.take(i + 1).drop_last() =~= lines@.take(i as int));
            assert(" "@ =~= seq![' ']);
        }
        if i > 0 {
            spoken.append(" ");
        }
        spoken.append(lines[i].text.as_str());
        i += 1;
    }
    assert(lines@.take(lines.len() as int) =~= lines@);
    spoken
}

/// What is handed to the speech engine: the text, and whether it is to cut
/// off what is being spoken.
#[derive(Debug, PartialEq, Eq)]
pub struct Utterance {
    pub text: String,
    pub interrupt: bool,
}

/// Ends the pipeline on what text recognition returned. Lines are joined
/// into an utterance that waits for its turn behind what is being spoken;
/// a failure is handed on and nothing is spoken.
pub fn conclude(recognition: Result<Vec<TextLine>, OcrError>) -> (speech: Result<Utterance, OcrError>)
    ensures
        match recognition {
            Ok(lines) => {
                &&& speech matches Ok(said)
                &&& said.text@ == joined(lines@)
                &&& !said.interrupt
            },
            Err(e) => speech == Err::<Utterance, OcrError>(e),
        },
{
    match recognition {
        Ok(lines) => Ok(Utterance { text: utterance(&lines), interrupt: false }),
        Err(e) => Err(e),
    }
}

} // verus!
