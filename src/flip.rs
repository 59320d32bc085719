//! The bounds-checked copy of a decoded frame into a caller's buffer, turning
//! the codec's top-to-bottom row order into bottom-to-top.
use vstd::prelude::*;
use vstd::arithmetic::div_mod::lemma_fundamental_div_mod_converse;
use crate::frame::{ImageDims, BYTES_PER_PIXEL};
use crate::status::BridgeError;

verus! {

/// The first `stride * height` bytes of `src`, with its rows in reverse order:
/// byte `i` of the result is byte `i % stride` of source row
/// `height - 1 - i / stride`.
pub open spec fn flipped(src: Seq<u8>, stride: nat, height: nat) -> Seq<u8> {
    Seq::new(
        stride * height,
        |i: int| src[(height - 1 - i / (stride as int)) * stride + i % (stride as int)],
    )
}

/// Row `r` of a buffer of rows of `stride` bytes.
pub open spec fn row(s: Seq<u8>, stride: nat, r: int) -> Seq<u8> {
    s.subrange(r * stride, r * stride + stride)
}

/// What copying a decoded frame into a destination does: the source must hold
/// the whole frame, else the decode failed; the destination must hold it, else
/// it is too small; otherwise the frame's rows are written bottom-to-top at the
/// start of the destination and the bytes after it are kept.
pub open spec fn flip_into_spec(src: Seq<u8>, dims: ImageDims, dest: Seq<u8>) -> Result<
    Seq<u8>,
    BridgeError,
> {
    let need = dims.frame_len();
    if src.len() < need {
        Err(BridgeError::DecodeFailed)
    } else if dest.len() < need {
        Err(BridgeError::BufferTooSmall)
    } else {
        Ok(flipped(src, dims.stride(), dims.height as nat) + dest.subrange(need as int, dest.len() as int))
    }
}

proof fn lemma_cell_in_frame(r: int, c: int, stride: int, height: int)
    requires
        0 <= r < height,
        0 <= c < stride,
    ensures
        0 <= r * stride,
        r * stride + c < stride * height,
        r * stride + stride <= stride * height,
        (r + 1) * stride == r * stride + stride,
{
    assert(0 <= r * stride) by (nonlinear_arith)
        requires
            0 <= r,
            0 <= c < stride,
    ;
    assert((r + 1) * stride <= stride * height) by (nonlinear_arith)
        requires
            r + 1 <= height,
            0 <= c < stride,
    ;
    assert((r + 1) * stride == r * stride + stride) by (nonlinear_arith);
    assert(r * stride + c < (r + 1) * stride) by (nonlinear_arith)
        requires
            0 <= c < stride,
    ;
}

/// Copies the decoded frame in `src` into `dest`, last row first, after
/// checking that both buffers hold the whole frame; on failure `dest` is left
/// as it was.
pub fn flip_into(src: &[u8], dims: ImageDims, dest: &mut [u8]) -> (r: Result<(), BridgeError>)
    requires
        dims.wf(),
    ensures
        match flip_into_spec(src@, dims, old(dest)@) {
            Ok(out) => r is Ok && final(dest)@ == out,
            Err(e) => r == Err::<(), BridgeError>(e) && final(dest)@ == old(dest)@,
        },
{
    let ghost need = dims.frame_len();
    let src_len = src.len();
    let width = dims.width as usize;
    let height = dims.height as usize;
    let stride = match width.checked_mul(BYTES_PER_PIXEL) {
        Some(s) => s,
        None => {
            assert(need > usize::MAX) by (nonlinear_arith)
                requires
                    width * 4 > usize::MAX,
                    height >= 1,
                    need == (4 * width) * height,
            ;
            return Err(BridgeError::DecodeFailed);
        },
    };
    let total = match stride.checked_mul(height) {
        Some(n) => n,
        None => {
            assert(need == stride * height);
            return Err(BridgeError::DecodeFailed);
        },
    };
    assert(total == need);
    if src_len < total {
        return Err(BridgeError::DecodeFailed);
    }
    if dest.len() < total {
        return Err(BridgeError::BufferTooSmall);
    }
    let ghost out = flipped(src@, stride as nat, height as nat);
    let ghost orig = dest@;
    let mut r: usize = 0;
    while r < height
        invariant
            0 < stride,
            0 < height,
            r <= height,
            total == stride * height,
            total <= src@.len(),
            total <= orig.len(),
            r * stride <= total,
            out == flipped(src@, stride as nat, height as nat),
            dest@.len() == orig.len(),
            forall|j: int| 0 <= j < r * stride ==> #[trigger] dest@[j] == out[j],
            forall|j: int| r * stride <= j < dest@.len() ==> #[trigger] dest@[j] == orig[j],
        decreases height - r,
    {
        proof {
            lemma_cell_in_frame(r as int, 0, stride as int, height as int);
            lemma_cell_in_frame((height - 1 - r) as int, 0, stride as int, height as int);
        }
        let dst_base = r * stride;
        let src_base = (height - 1 - r) * stride;
        let mut c: usize = 0;
        while c < stride
            invariant
                0 < stride,
                r < height,
                c <= stride,
                total == stride * height,
                total <= src@.len(),
                total <= orig.len(),
                dst_base == r * stride,
                src_base == (height - 1 - r) * stride,
                dst_base + stride <= total,
                src_base + stride <= total,
                out == flipped(src@, stride as nat, height as nat),
                dest@.len() == orig.len(),
                forall|j: int| 0 <= j < dst_base + c ==> #[trigger] dest@[j] == out[j],
                forall|j: int| dst_base + c <= j < dest@.len() ==> #[trigger] dest@[j] == orig[j],
            decreases stride - c,
        {
            proof {
                lemma_fundamental_div_mod_converse(
                    (dst_base + c) as int,
                    stride as int,
                    r as int,
                    c as int,
                );
            }
            dest[dst_base + c] = src[src_base + c];
            c = c + 1;
        }
        r = r + 1;
    }
    proof {
        assert(height * stride == stride * height) by (nonlinear_arith);
        assert(dest@ =~= out + orig.subrange(total as int, orig.len() as int));
    }
    Ok(())
}

} // verus!
