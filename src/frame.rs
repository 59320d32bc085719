//! Image dimensions as the codec reports them, and what they imply for the
//! size of a decoded frame.
use vstd::prelude::*;
use crate::status::BridgeError;

verus! {

/// Bytes in one packed BGRA pixel.
pub const BYTES_PER_PIXEL: usize = 4;

/// Width and height of an image, in pixels.
#[derive(Clone, Copy, Debug, PartialEq, Eq, Structural)]
pub struct ImageDims {
    pub width: i32,
    pub height: i32,
}

impl ImageDims {
    /// Both dimensions are positive.
    pub open spec fn wf(self) -> bool {
        self.width > 0 && self.height > 0
    }

    /// Bytes in one row of packed BGRA pixels.
    pub open spec fn stride(self) -> nat {
        (4 * self.width) as nat
    }

    /// Bytes in the whole frame: `height` rows of `stride` bytes.
    pub open spec fn frame_len(self) -> nat {
        self.stride() * (self.height as nat)
    }
}

/// What the codec's info query means: dimensions when it reports success
/// with positive width and height, otherwise the data is no image.
pub open spec fn info_spec(ret: i32, width: i32, height: i32) -> Result<ImageDims, BridgeError> {
    if ret == 1 && width > 0 && height > 0 {
        Ok(ImageDims { width, height })
    } else {
        Err(BridgeError::NotAnImage)
    }
}

/// Interprets the codec's info query: its return code (1 on success) and the
/// width and height it wrote.
pub fn info_outcome(ret: i32, width: i32, height: i32) -> (r: Result<ImageDims, BridgeError>)
    ensures
        r == info_spec(ret, width, height),
        r matches Ok(d) ==> d.wf(),
{
    if ret == 1 && width > 0 && height > 0 {
        Ok(ImageDims { width, height })
    } else {
        Err(BridgeError::NotAnImage)
    }
}

/// What the codec's decode call means: dimensions when it produced a buffer
/// and reported positive width and height, otherwise a decode failure.
pub open spec fn decoded_spec(produced: bool, width: i32, height: i32) -> Result<ImageDims, BridgeError> {
    if produced && width > 0 && height > 0 {
        Ok(ImageDims { width, height })
    } else {
        Err(BridgeError::DecodeFailed)
    }
}

/// Interprets the codec's decode call: whether it handed back a buffer, and
/// the width and height it wrote.
pub fn decoded_outcome(produced: bool, width: i32, height: i32) -> (r: Result<ImageDims, BridgeError>)
    ensures
        r == decoded_spec(produced, width, height),
        r matches Ok(d) ==> d.wf(),
{
    if produced && width > 0 && height > 0 {
        Ok(ImageDims { width, height })
    } else {
        Err(BridgeError::DecodeFailed)
    }
}

/// The size in bytes of the decoded frame, when it is addressable at all.
pub fn frame_len(dims: ImageDims) -> (r: Result<usize, BridgeError>)
    requires
        dims.wf(),
    ensures
        dims.frame_len() <= usize::MAX ==> r == Ok::<usize, BridgeError>(dims.frame_len() as usize),
        dims.frame_len() > usize::MAX ==> r == Err::<usize, BridgeError>(BridgeError::BufferTooSmall),
{
    let stride = (dims.width as usize).checked_mul(BYTES_PER_PIXEL);
    match stride {
        Some(s) => match s.checked_mul(dims.height as usize) {
            Some(n) => Ok(n),
            None => Err(BridgeError::BufferTooSmall),
        },
        None => {
            assert(dims.frame_len() > usize::MAX) by (nonlinear_arith)
                requires
                    dims.width * 4 > usize::MAX,
                    dims.height >= 1,
                    dims.frame_len() == (4 * dims.width) * dims.height,
            ;
            Err(BridgeError::BufferTooSmall)
        },
    }
}

} // verus!
