//! One decoded frame: packed 24-bit RGB, rows without padding.

use vstd::prelude::*;
use crate::error::ProcessingFault;

verus! {

/// Bytes that one pixel takes: red, green and blue.
pub const BYTES_PER_PIXEL: i32 = 3;

/// Bits that each of the three colours of a pixel takes.
pub const BITS_PER_SAMPLE: i32 = 8;

/// Whether a pixel carries a fourth sample for transparency. It does not.
pub const HAS_ALPHA: bool = false;

/// What the sink's sample holds, as far as it holds it: the negotiated width
/// and height, and the bytes of the pixel buffer.
#[derive(Debug, Clone, PartialEq, Eq)]
pub struct RawSample {
    pub caps: Option<(i32, i32)>,
    pub buffer: Option<Vec<u8>>,
}

/// [`RawSample`] with its buffer as a sequence of bytes.
pub struct RawSampleView {
    pub caps: Option<(int, int)>,
    pub buffer: Option<Seq<u8>>,
}

impl View for RawSample {
    type V = RawSampleView;

    open spec fn view(&self) -> RawSampleView {
        RawSampleView {
            caps: match self.caps {
                Some((width, height)) => Some((width as int, height as int)),
                None => None,
            },
            buffer: match self.buffer {
                Some(bytes) => Some(bytes@),
                None => None,
            },
        }
    }
}

/// A frame of `width` by `height` pixels whose rows follow one another
/// without padding.
#[derive(Debug, PartialEq, Eq)]
pub struct Frame {
    width: i32,
    height: i32,
    data: Vec<u8>,
}

/// The geometry and the bytes of a [`Frame`].
pub struct FrameView {
    pub width: int,
    pub height: int,
    pub data: Seq<u8>,
}

/// Whether a frame can have this width and height: both positive, and a row
/// short enough for its length in bytes to be a signed 32-bit number.
pub open spec fn valid_geometry(width: int, height: int) -> bool {
    width > 0 && height > 0 && width * BYTES_PER_PIXEL <= i32::MAX
}

/// Bytes from the start of one row to the start of the next.
pub open spec fn rowstride_of(width: int) -> int {
    width * BYTES_PER_PIXEL
}

/// Bytes that the pixels of a frame take.
pub open spec fn frame_len(width: int, height: int) -> int {
    height * width * BYTES_PER_PIXEL
}

impl FrameView {
    /// What holds of every frame: a geometry that a frame can have, and as
    /// many bytes as its pixels take.
    pub open spec fn wf(self) -> bool {
        valid_geometry(self.width, self.height) && self.data.len() == frame_len(
            self.width,
            self.height,
        )
    }
}

/// What is wrong with width, height and buffer as a frame, if anything is.
pub open spec fn frame_fault(width: int, height: int, data: Seq<u8>) -> Option<ProcessingFault> {
    if !valid_geometry(width, height) {
        Some(ProcessingFault::Geometry)
    } else if data.len() != frame_len(width, height) {
        Some(ProcessingFault::Size)
    } else {
        None
    }
}

/// What is wrong with a sample as a frame, if anything is. A missing part is
/// named before a part that is there and wrong.
pub open spec fn sample_fault(raw: RawSampleView) -> Option<ProcessingFault> {
    match (raw.caps, raw.buffer) {
        (None, _) => Some(ProcessingFault::Caps),
        (Some(_), None) => Some(ProcessingFault::Buffer),
        (Some((width, height)), Some(data)) => frame_fault(width, height, data),
    }
}

impl View for Frame {
    type V = FrameView;

    closed spec fn view(&self) -> FrameView {
        FrameView { width: self.width as int, height: self.height as int, data: self.data@ }
    }
}

impl Clone for Frame {
    fn clone(&self) -> (copy: Frame)
        ensures
            copy@ == self@,
    {
        proof {
            use_type_invariant(self);
        }
        Frame { width: self.width, height: self.height, data: self.data.clone() }
    }
}

impl Frame {
    #[verifier::type_invariant]
    spec fn inv(&self) -> bool {
        self@.wf()
    }

    /// Makes a frame of `data`, or says what keeps it from being one.
    pub fn new(width: i32, height: i32, data: Vec<u8>) -> (made: Result<Frame, ProcessingFault>)
        ensures
            match made {
                Ok(frame) => frame_fault(width as int, height as int, data@) is None && frame@
                    == (FrameView { width: width as int, height: height as int, data: data@ })
                    && frame@.wf(),
                Err(fault) => frame_fault(width as int, height as int, data@) == Some(fault),
            },
    {
        if width <= 0 || height <= 0 || width > i32::MAX / BYTES_PER_PIXEL {
            return Err(ProcessingFault::Geometry);
        }
        assert((height as u64) * (width as u64) <= 0x7fff_ffff * 0x7fff_ffff) by (nonlinear_arith)
            requires
                0 < width <= 0x7fff_ffff,
                0 < height <= 0x7fff_ffff,
        ;
        let wanted: u64 = (height as u64) * (width as u64) * (BYTES_PER_PIXEL as u64);
        if data.len() as u64 != wanted {
            return Err(ProcessingFault::Size);
        }
        Ok(Frame { width, height, data })
    }

    /// Makes a frame of what a sample holds, or says what keeps it from
    /// being one.
    pub fn from_sample(raw: RawSample) -> (made: Result<Frame, ProcessingFault>)
        ensures
            match made {
                Ok(frame) => sample_fault(raw@) is None && raw@.caps == Some(
                    (frame@.width, frame@.height),
                ) && raw@.buffer == Some(frame@.data) && frame@.wf(),
                Err(fault) => sample_fault(raw@) == Some(fault),
            },
    {
        match raw.caps {
            None => Err(ProcessingFault::Caps),
            Some((width, height)) => match raw.buffer {
                None => Err(ProcessingFault::Buffer),
                Some(data) => Frame::new(width, height, data),
            },
        }
    }

    /// Pixels in a row.
    pub fn width(&self) -> (width: i32)
        ensures
            width == self@.width,
            self@.wf(),
    {
        proof {
            use_type_invariant(self);
        }
        self.width
    }

    /// Rows.
    pub fn height(&self) -> (height: i32)
        ensures
            height == self@.height,
            self@.wf(),
    {
        proof {
            use_type_invariant(self);
        }
        self.height
    }

    /// Bytes from the start of one row to the start of the next: those of the
    /// row's pixels, since rows have no padding.
    pub fn rowstride(&self) -> (stride: i32)
        ensures
            stride == rowstride_of(self@.width),
            self@.wf(),
    {
        proof {
            use_type_invariant(self);
        }
        self.width * BYTES_PER_PIXEL
    }

    /// The pixels, row after row.
    pub fn data(&self) -> (data: &Vec<u8>)
        ensures
            data@ == self@.data,
            data@.len() == frame_len(self@.width, self@.height),
            self@.wf(),
    {
        proof {
            use_type_invariant(self);
        }
        &self.data
    }
}

} // verus!
