//! The captured bitmap that a session works on.

use vstd::prelude::*;
use crate::geometry::ScaleFactor;
use crate::outline::byte_len;

verus! {

/// Why no bitmap could be taken.
#[derive(Clone, Copy, Debug, PartialEq, Eq, Structural)]
pub enum CaptureError {
    /// No monitor lies under the pointer.
    NoMonitor,
    /// The system refused to hand out the screen's contents.
    PermissionDenied,
    /// What was handed over is no bitmap: a side is zero, or the bytes are
    /// not four for each pixel.
    InvalidBitmap,
}

/// What a screen capture hands over: the pixels of one monitor, RGBA, row by
/// row from the top-left corner.
#[derive(Debug, PartialEq, Eq)]
pub struct RawCapture {
    pub bytes: Vec<u8>,
    pub width: u32,
    pub height: u32,
}

/// The bitmap of one capture: its RGBA bytes, its size in pixels and the
/// scale factor of the monitor it was taken from. Every value holds exactly
/// four bytes for each pixel and has at least one pixel.
#[derive(Debug, PartialEq, Eq)]
pub struct CaptureBuffer {
    bytes: Vec<u8>,
    width: u32,
    height: u32,
    scale: ScaleFactor,
}

impl View for CaptureBuffer {
    type V = Seq<u8>;

    /// The bytes of the bitmap.
    closed spec fn view(&self) -> Seq<u8> {
        self.bytes@
    }
}

impl CaptureBuffer {
    #[verifier::type_invariant]
    spec fn inv(&self) -> bool {
        &&& self.bytes@.len() == byte_len((self.width, self.height))
        &&& self.width > 0
        &&& self.height > 0
    }

    /// Width and height in pixels.
    pub closed spec fn spec_size(&self) -> (u32, u32) {
        (self.width, self.height)
    }

    /// The scale factor of the monitor.
    pub closed spec fn spec_scale(&self) -> ScaleFactor {
        self.scale
    }

    /// What holds of every bitmap that code can hold.
    pub open spec fn wf(&self) -> bool {
        &&& self@.len() == byte_len(self.spec_size())
        &&& self.spec_size().0 > 0
        &&& self.spec_size().1 > 0
    }

    /// What `new` accepts.
    pub open spec fn valid_parts(bytes: Seq<u8>, width: u32, height: u32) -> bool {
        &&& bytes.len() == byte_len((width, height))
        &&& width > 0
        &&& height > 0
    }

    /// A bitmap from its parts, or `None` where they do not fit together.
    pub fn new(bytes: Vec<u8>, width: u32, height: u32, scale: ScaleFactor) -> (buffer: Option<
        CaptureBuffer,
    >)
        ensures
            buffer is Some <==> Self::valid_parts(bytes@, width, height),
            buffer is Some ==> {
                &&& buffer->0@ == bytes@
                &&& buffer->0.spec_size() == (width, height)
                &&& buffer->0.spec_scale() == scale
                &&& buffer->0.wf()
            },
    {
        assert(0 <= 4 * (width as int) * (height as int) <= 4 * 0xffff_ffff * 0xffff_ffff)
            by (nonlinear_arith)
            requires
                0 <= width <= 0xffff_ffff,
                0 <= height <= 0xffff_ffff,
        ;
        let expected: u128 = 4 * (width as u128) * (height as u128);
        if width > 0 && height > 0 && bytes.len() as u128 == expected {
            Some(CaptureBuffer { bytes, width, height, scale })
        } else {
            None
        }
    }

    /// Width and height in pixels.
    pub fn size(&self) -> (size: (u32, u32))
        ensures
            size == self.spec_size(),
            self.wf(),
    {
        proof {
            use_type_invariant(self);
        }
        (self.width, self.height)
    }

    /// The number of pixels in a row.
    pub fn width(&self) -> (width: u32)
        ensures
            width == self.spec_size().0,
            self.wf(),
    {
        proof {
            use_type_invariant(self);
        }
        self.width
    }

    /// The number of rows.
    pub fn height(&self) -> (height: u32)
        ensures
            height == self.spec_size().1,
            self.wf(),
    {
        proof {
            use_type_invariant(self);
        }
        self.height
    }

    /// The scale factor of the monitor that the bitmap was taken from.
    pub fn scale(&self) -> (scale: ScaleFactor)
        ensures
            scale == self.spec_scale(),
            self.wf(),
    {
        proof {
            use_type_invariant(self);
        }
        self.scale
    }

    /// The untouched pixels.
    pub fn bytes(&self) -> (bytes: &Vec<u8>)
        ensures
            bytes@ == self@,
            self.wf(),
    {
        proof {
            use_type_invariant(self);
        }
        &self.bytes
    }

    /// A copy of the pixels, for drawing on.
    pub fn to_frame(&self) -> (frame: Vec<u8>)
        ensures
            frame@ == self@,
            self.wf(),
    {
        proof {
            use_type_invariant(self);
        }
        self.bytes.clone()
    }

    /// Gives the pixels up.
    pub fn into_bytes(self) -> (bytes: Vec<u8>)
        ensures
            bytes@ == self@,
            self.wf(),
    {
        proof {
            use_type_invariant(&self);
        }
        self.bytes
    }
}

/// Takes over what the screen capture returned for a monitor with the given
/// scale factor. A failure of the capture is handed on as it is; pixels that
/// do not make up a bitmap are refused.
pub fn capture(monitor_scale_factor: ScaleFactor, provided: Result<RawCapture, CaptureError>) -> (captured:
    Result<CaptureBuffer, CaptureError>)
    ensures
        match provided {
            Err(e) => captured == Err::<CaptureBuffer, CaptureError>(e),
            Ok(raw) => if CaptureBuffer::valid_parts(raw.bytes@, raw.width, raw.height) {
                &&& captured is Ok
                &&& captured->Ok_0@ == raw.bytes@
                &&& captured->Ok_0.spec_size() == (raw.width, raw.height)
                &&& captured->Ok_0.spec_scale() == monitor_scale_factor
                &&& captured->Ok_0.wf()
            } else {
                captured == Err::<CaptureBuffer, CaptureError>(CaptureError::InvalidBitmap)
            },
        },
{
    match provided {
        Err(e) => Err(e),
        Ok(raw) => match CaptureBuffer::new(raw.bytes, raw.width, raw.height, monitor_scale_factor) {
            Some(buffer) => Ok(buffer),
            None => Err(CaptureError::InvalidBitmap),
        },
    }
}

} // verus!
