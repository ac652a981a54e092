//! Row-padding normalizer.
//!
//! A texture-to-buffer copy writes each pixel row at a stride rounded up to
//! the device's row alignment, leaving unused filler bytes at the end of
//! every row. The normalizer turns such a padded buffer into a tightly
//! packed one: exactly `width * 4` bytes per row, `height` rows, with the
//! alignment tail of each row discarded. When the logical row size is
//! already aligned the input is returned unchanged.

use vstd::prelude::*;
use vstd::slice::slice_to_vec;

verus! {

/// The row stride a copy with the given alignment uses: `row_bytes`
/// rounded up to the next multiple of `align`.
pub open spec fn spec_aligned_row_bytes(row_bytes: int, align: int) -> int
    recommends
        align > 0,
{
    row_bytes + ((align - row_bytes % align) % align)
}

/// What remains of `data` after keeping, for each of the first `rows_left`
/// rows of stride `aligned`, only the first `row_bytes` bytes. Short
/// trailing rows contribute what they have; rows past `rows_left` are
/// dropped.
pub open spec fn spec_strip_rows(data: Seq<u8>, row_bytes: int, aligned: int, rows_left: int) -> Seq<
    u8,
>
    recommends
        0 < row_bytes <= aligned,
    decreases rows_left,
{
    if rows_left <= 0 || data.len() == 0 {
        Seq::<u8>::empty()
    } else {
        let keep = if data.len() < row_bytes {
            data.len() as int
        } else {
            row_bytes
        };
        let step = if data.len() < aligned {
            data.len() as int
        } else {
            aligned
        };
        data.subrange(0, keep) + spec_strip_rows(data.skip(step), row_bytes, aligned, rows_left - 1)
    }
}

/// The normalizer's result on `data`: the input itself when its rows carry
/// no padding, otherwise the first `width * 4` bytes of each of the first
/// `height` padded rows.
pub open spec fn spec_remove_row_padding(data: Seq<u8>, width: int, height: int, align: int) -> Seq<
    u8,
>
    recommends
        align > 0,
{
    let row_bytes = width * 4;
    let aligned = spec_aligned_row_bytes(row_bytes, align);
    if aligned == row_bytes {
        data
    } else {
        spec_strip_rows(data, row_bytes, aligned, height)
    }
}

/// Rounds `row_bytes` up to the next multiple of `align`.
pub fn aligned_row_bytes(row_bytes: usize, align: usize) -> (r: usize)
    requires
        align > 0,
        row_bytes + align <= usize::MAX,
    ensures
        r == spec_aligned_row_bytes(row_bytes as int, align as int),
        row_bytes <= r < row_bytes + align,
        r % align == 0,
{
    let rem = row_bytes % align;
    if rem == 0 {
        proof {
            vstd::arithmetic::div_mod::lemma_mod_self_0(align as int);
        }
        row_bytes
    } else {
        proof {
            vstd::arithmetic::div_mod::lemma_small_mod(
                (align - rem) as nat,
                align as nat,
            );
        }
        let r = row_bytes + (align - rem);
        assert(r as int % align as int == 0) by {
            vstd::arithmetic::div_mod::lemma_fundamental_div_mod(row_bytes as int, align as int);
            let q = row_bytes as int / align as int;
            assert(r == (q + 1) * (align as int)) by (nonlinear_arith)
                requires
                    row_bytes as int == (align as int) * q + rem,
                    r == row_bytes + align - rem,
            ;
            vstd::arithmetic::div_mod::lemma_mod_multiples_basic(q + 1, align as int);
        }
        r
    }
}

/// On a buffer that holds at least `height` full rows of stride `aligned`,
/// stripping keeps exactly `row_bytes * height` bytes, and byte `k` of the
/// result is byte `k % row_bytes` of padded row `k / row_bytes`.
pub proof fn lemma_strip_rows_complete(data: Seq<u8>, row_bytes: int, aligned: int, height: int)
    requires
        0 < row_bytes <= aligned,
        height >= 0,
        data.len() >= aligned * height,
    ensures
        spec_strip_rows(data, row_bytes, aligned, height).len() == row_bytes * height,
        forall|k: int|
            0 <= k < row_bytes * height ==> #[trigger] spec_strip_rows(
                data,
                row_bytes,
                aligned,
                height,
            )[k] == data[(k / row_bytes) * aligned + (k % row_bytes)],
    decreases height,
{
    let out = spec_strip_rows(data, row_bytes, aligned, height);
    if height <= 0 {
        assert(row_bytes * height <= 0) by (nonlinear_arith)
            requires
                row_bytes > 0,
                height <= 0,
        ;
    } else {
        assert(aligned * height >= aligned * 1) by (nonlinear_arith)
            requires
                aligned > 0,
                height >= 1,
        ;
        assert(data.len() >= aligned);
        let rest = data.skip(aligned);
        assert(aligned * height - aligned == aligned * (height - 1)) by (nonlinear_arith);
        assert(rest.len() >= aligned * (height - 1));
        lemma_strip_rows_complete(rest, row_bytes, aligned, height - 1);
        let rest_out = spec_strip_rows(rest, row_bytes, aligned, height - 1);
        assert(out == data.subrange(0, row_bytes) + rest_out);
        assert(row_bytes * height - row_bytes == row_bytes * (height - 1)) by (nonlinear_arith);
        assert(out.len() == row_bytes * height);
        assert forall|k: int| 0 <= k < row_bytes * height implies #[trigger] out[k] == data[(k
            / row_bytes) * aligned + (k % row_bytes)] by {
            if k < row_bytes {
                vstd::arithmetic::div_mod::lemma_basic_div(k, row_bytes);
                vstd::arithmetic::div_mod::lemma_small_mod(k as nat, row_bytes as nat);
                assert((k / row_bytes) * aligned == 0) by (nonlinear_arith)
                    requires
                        k / row_bytes == 0,
                ;
                assert(out[k] == data[k]);
            } else {
                let j = k - row_bytes;
                assert(0 <= j < row_bytes * (height - 1));
                assert(out[k] == rest_out[j]);
                assert(rest_out[j] == rest[(j / row_bytes) * aligned + (j % row_bytes)]);
                vstd::arithmetic::div_mod::lemma_div_plus_one(j, row_bytes);
                vstd::arithmetic::div_mod::lemma_mod_add_multiples_vanish(j, row_bytes);
                assert(k == row_bytes + j);
                assert(j / row_bytes == k / row_bytes - 1);
                assert(j % row_bytes == k % row_bytes);
                assert((j / row_bytes) * aligned + aligned == (k / row_bytes) * aligned)
                    by (nonlinear_arith)
                    requires
                        j / row_bytes == k / row_bytes - 1,
                ;
                assert(0 <= (j / row_bytes) * aligned + (j % row_bytes) < aligned * (height - 1))
                    by {
                    vstd::arithmetic::div_mod::lemma_fundamental_div_mod(j, row_bytes);
                    vstd::arithmetic::div_mod::lemma_remainder_lower(j, row_bytes);
                    vstd::arithmetic::div_mod::lemma_mod_division_less_than_divisor(j, row_bytes);
                    assert(j / row_bytes >= 0) by (nonlinear_arith)
                        requires
                            row_bytes > 0,
                            j >= 0,
                            j == row_bytes * (j / row_bytes) + j % row_bytes,
                            0 <= j % row_bytes < row_bytes,
                    ;
                    assert(j / row_bytes < height - 1) by (nonlinear_arith)
                        requires
                            row_bytes > 0,
                            j < row_bytes * (height - 1),
                            j == row_bytes * (j / row_bytes) + j % row_bytes,
                            0 <= j % row_bytes < row_bytes,
                    ;
                    assert((j / row_bytes) * aligned + (j % row_bytes) < aligned * (height - 1))
                        by (nonlinear_arith)
                        requires
                            0 <= j / row_bytes < height - 1,
                            0 <= j % row_bytes < row_bytes <= aligned,
                    ;
                    assert((j / row_bytes) * aligned >= 0) by (nonlinear_arith)
                        requires
                            j / row_bytes >= 0,
                            aligned > 0,
                    ;
                }
                assert(rest.len() >= aligned * (height - 1));
                assert(rest[(j / row_bytes) * aligned + (j % row_bytes)] == data[(k / row_bytes)
                    * aligned + (k % row_bytes)]);
            }
        }
    }
}

/// The size of the copy buffer a render-stage copy of a `width` by
/// `height` frame needs: `height` rows at the aligned stride. Yields
/// nothing when that size does not fit the machine.
pub fn copy_buffer_size(width: u32, height: u32, align: usize) -> (r: Option<usize>)
    requires
        align > 0,
        (width as int) * 4 + (align as int) <= usize::MAX,
    ensures
        r is Some <==> spec_aligned_row_bytes((width as int) * 4, align as int) * (height as int)
            <= usize::MAX,
        r is Some ==> r.unwrap() == spec_aligned_row_bytes((width as int) * 4, align as int) * (
        height as int),
{
    let row_bytes: usize = (width as usize) * 4;
    let aligned = aligned_row_bytes(row_bytes, align);
    proof {
        assert((aligned as int) * (height as int) <= u128::MAX) by (nonlinear_arith)
            requires
                0 <= aligned <= usize::MAX as int,
                0 <= height <= u32::MAX as int,
        ;
    }
    let wide: u128 = (aligned as u128) * (height as u128);
    if wide <= usize::MAX as u128 {
        Some(wide as usize)
    } else {
        None
    }
}

/// Strips device row padding from a raw copy buffer, yielding tightly
/// packed rows of `width * 4` bytes. An empty input means no frame and
/// yields nothing; an already-aligned row size is the identity fast path.
pub fn remove_row_padding(data: &[u8], width: u32, height: u32, align: usize) -> (r: Option<
    Vec<u8>,
>)
    requires
        align > 0,
        (width as int) * 4 + (align as int) <= usize::MAX,
    ensures
        r is Some <==> data@.len() > 0,
        r is Some ==> r.unwrap()@ == spec_remove_row_padding(
            data@,
            width as int,
            height as int,
            align as int,
        ),
        ({
            let row_bytes = (width as int) * 4;
            let aligned = spec_aligned_row_bytes(row_bytes, align as int);
            (r is Some && aligned != row_bytes && data@.len() >= aligned * (height as int)) ==> {
                &&& r.unwrap()@.len() == row_bytes * (height as int)
                &&& forall|k: int|
                    0 <= k < row_bytes * (height as int) ==> #[trigger] r.unwrap()@[k] == data@[(k
                        / row_bytes) * aligned + (k % row_bytes)]
            }
        }),
{
    if data.len() == 0 {
        return None;
    }
    let row_bytes: usize = (width as usize) * 4;
    let aligned: usize = aligned_row_bytes(row_bytes, align);
    if row_bytes == aligned {
        return Some(slice_to_vec(data));
    }
    let height_us: usize = height as usize;
    let mut out: Vec<u8> = Vec::new();
    let mut row: usize = 0;
    let mut start: usize = 0;
    proof {
        assert(data@.skip(0) == data@);
        if row_bytes == 0 {
            vstd::arithmetic::div_mod::lemma_small_mod(aligned as nat, align as nat);
            assert(false);
        }
    }
    while row < height_us && start < data.len()
        invariant
            0 < row_bytes < aligned,
            aligned == spec_aligned_row_bytes(row_bytes as int, align as int),
            row <= height_us,
            height_us == height,
            start <= data@.len(),
            spec_strip_rows(data@, row_bytes as int, aligned as int, height as int) == out@
                + spec_strip_rows(
                data@.skip(start as int),
                row_bytes as int,
                aligned as int,
                height as int - row,
            ),
        decreases height_us - row,
    {
        let remaining = data.len() - start;
        let keep: usize = if remaining < row_bytes {
            remaining
        } else {
            row_bytes
        };
        let step: usize = if remaining < aligned {
            remaining
        } else {
            aligned
        };
        let ghost out_snap = out@;
        let mut j: usize = 0;
        while j < keep
            invariant
                j <= keep,
                start + keep <= data@.len(),
                data@.len() <= usize::MAX,
                out@ == out_snap + data@.subrange(start as int, start as int + j as int),
            decreases keep - j,
        {
            let b = data[start + j];
            out.push(b);
            assert(out@ == out_snap + data@.subrange(start as int, start as int + j as int + 1));
            j += 1;
        }
        proof {
            let tail = data@.skip(start as int);
            assert(tail.len() == data@.len() - start);
            assert(tail.subrange(0, keep as int) == data@.subrange(
                start as int,
                start as int + keep as int,
            ));
            assert(tail.skip(step as int) == data@.skip(start as int + step as int));
            assert(spec_strip_rows(tail, row_bytes as int, aligned as int, height as int - row)
                == tail.subrange(0, keep as int) + spec_strip_rows(
                data@.skip(start as int + step as int),
                row_bytes as int,
                aligned as int,
                height as int - row - 1,
            ));
        }
        start = start + step;
        row = row + 1;
    }
    proof {
        if start >= data@.len() {
            assert(data@.skip(start as int).len() == 0);
        }
        assert(spec_strip_rows(
            data@.skip(start as int),
            row_bytes as int,
            aligned as int,
            height as int - row,
        ) == Seq::<u8>::empty());
        assert(out@ == spec_strip_rows(data@, row_bytes as int, aligned as int, height as int));
        if data@.len() >= (aligned as int) * (height as int) {
            lemma_strip_rows_complete(
                data@,
                row_bytes as int,
                aligned as int,
                height as int,
            );
        }
    }
    Some(out)
}

} // verus!
