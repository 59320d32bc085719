//! What holds of the boundary across its steps, proved over the contracts of
//! the steps themselves.
use vstd::prelude::*;
use vstd::arithmetic::div_mod::lemma_fundamental_div_mod_converse;
use crate::flip::{flip_into_spec, flipped, row};
use crate::frame::{info_spec, ImageDims};
use crate::status::{status_spec, BridgeError};

verus! {

/// Whenever the codec's info query succeeds with positive dimensions, the
/// probe succeeds and reports exactly the width and height the codec gave.
pub proof fn lemma_probe_reports_codec_dims(ret: i32, width: i32, height: i32)
    requires
        ret == 1,
        width > 0,
        height > 0,
    ensures
        info_spec(ret, width, height) == Ok::<ImageDims, BridgeError>(ImageDims { width, height }),
        status_spec(info_spec(ret, width, height)) == 0,
{
}

/// Every failure, whichever step it comes from (a path that is not text, a
/// file that cannot be read, bytes that are no image, a failed decode, a
/// destination that is too small), is reported as a negative status.
pub proof fn lemma_every_failure_is_negative(e: BridgeError)
    ensures
        status_spec(Err::<(), BridgeError>(e)) < 0,
        status_spec(Err::<ImageDims, BridgeError>(e)) < 0,
{
}

/// Where the codec's info query does not report success, the data is taken
/// for no image and the probe reports a negative status.
pub proof fn lemma_non_image_is_rejected(ret: i32, width: i32, height: i32)
    requires
        ret != 1,
    ensures
        info_spec(ret, width, height) == Err::<ImageDims, BridgeError>(BridgeError::NotAnImage),
        status_spec(info_spec(ret, width, height)) < 0,
{
}

/// A successful copy puts source row `height - 1 - r` at destination row `r`,
/// for every row `r` of the frame, and keeps the destination's length.
pub proof fn lemma_rows_reversed(src: Seq<u8>, dims: ImageDims, dest: Seq<u8>, out: Seq<u8>)
    requires
        dims.wf(),
        flip_into_spec(src, dims, dest) == Ok::<Seq<u8>, BridgeError>(out),
    ensures
        out.len() == dest.len(),
        forall|r: int|
            0 <= r < dims.height ==> #[trigger] row(out, dims.stride(), r) == row(
                src,
                dims.stride(),
                dims.height - 1 - r,
            ),
{
    let stride = dims.stride() as int;
    let height = dims.height as int;
    let f = flipped(src, dims.stride(), dims.height as nat);
    assert forall|r: int| 0 <= r < height implies #[trigger] row(out, dims.stride(), r) == row(
        src,
        dims.stride(),
        height - 1 - r,
    ) by {
        assert((r + 1) * stride <= stride * height) by (nonlinear_arith)
            requires
                0 <= r < height,
                0 < stride,
        ;
        assert((r + 1) * stride == r * stride + stride) by (nonlinear_arith);
        assert(0 <= r * stride) by (nonlinear_arith)
            requires
                0 <= r,
                0 < stride,
        ;
        assert((height - 1 - r + 1) * stride <= stride * height) by (nonlinear_arith)
            requires
                0 <= r < height,
                0 < stride,
        ;
        assert((height - 1 - r + 1) * stride == (height - 1 - r) * stride + stride)
            by (nonlinear_arith);
        assert(0 <= (height - 1 - r) * stride) by (nonlinear_arith)
            requires
                0 <= height - 1 - r,
                0 < stride,
        ;
        assert forall|c: int| 0 <= c < stride implies #[trigger] row(out, dims.stride(), r)[c]
            == row(src, dims.stride(), height - 1 - r)[c] by {
            lemma_fundamental_div_mod_converse(r * stride + c, stride, r, c);
            assert(out[r * stride + c] == f[r * stride + c]);
        }
        assert(row(out, dims.stride(), r) =~= row(src, dims.stride(), height - 1 - r));
    }
}

/// Copying the same frame into destinations of one length writes the same
/// frame bytes whatever the destinations held; copying it again into the
/// result of a copy changes nothing.
pub proof fn lemma_copy_is_repeatable(src: Seq<u8>, dims: ImageDims, d1: Seq<u8>, d2: Seq<u8>)
    requires
        dims.wf(),
        d1.len() == d2.len(),
    ensures
        flip_into_spec(src, dims, d1) is Ok <==> flip_into_spec(src, dims, d2) is Ok,
        flip_into_spec(src, dims, d1) matches Ok(o1) ==> {
            &&& flip_into_spec(src, dims, d2) matches Ok(o2) && o1.subrange(
                0,
                dims.frame_len() as int,
            ) == o2.subrange(0, dims.frame_len() as int)
            &&& flip_into_spec(src, dims, o1) == Ok::<Seq<u8>, BridgeError>(o1)
        },
{
    if let Ok(o1) = flip_into_spec(src, dims, d1) {
        let need = dims.frame_len() as int;
        let f = flipped(src, dims.stride(), dims.height as nat);
        let o2 = flip_into_spec(src, dims, d2)->Ok_0;
        assert(o1.subrange(0, need) =~= f);
        assert(o2.subrange(0, need) =~= f);
        assert(o1.subrange(need, o1.len() as int) =~= d1.subrange(need, d1.len() as int));
        assert(f + o1.subrange(need, o1.len() as int) =~= o1);
    }
}

/// A one-pixel frame fills exactly the first four destination bytes with the
/// source's four bytes and keeps the rest.
pub proof fn lemma_single_pixel(src: Seq<u8>, dest: Seq<u8>)
    requires
        src.len() >= 4,
        dest.len() >= 4,
    ensures
        flip_into_spec(src, ImageDims { width: 1, height: 1 }, dest) == Ok::<Seq<u8>, BridgeError>(
            src.subrange(0, 4) + dest.subrange(4, dest.len() as int),
        ),
{
    let dims = ImageDims { width: 1, height: 1 };
    let f = flipped(src, dims.stride(), 1);
    assert forall|i: int| 0 <= i < 4 implies f[i] == src[i] by {
        lemma_fundamental_div_mod_converse(i, 4, 0, i);
    }
    assert(f =~= src.subrange(0, 4));
}

} // verus!
