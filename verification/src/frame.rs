//! Framebuffer fragments, row-range partitioning, and reassembly.
//!
//! The renderer hands every worker a contiguous range of image rows; each
//! worker fills an `ImageFragment` with one `Pixel` per pixel of its range,
//! in row-major order, and the fragments are concatenated in partition
//! order to rebuild the full image.  Everything here is exact: which rows a
//! worker owns and where its pixels land in the final buffer must not
//! depend on scheduling.

use vstd::prelude::*;

verus! {

/// One 8-bit-per-channel output pixel.
#[derive(Clone, Copy, PartialEq, Eq, Structural, Debug)]
pub struct Pixel {
    pub r: u8,
    pub g: u8,
    pub b: u8,
}

/// The pixels one render worker produces for its row range, in row-major
/// order.
pub struct ImageFragment {
    pub pixels: Vec<Pixel>,
}

impl ImageFragment {
    /// An empty fragment with room reserved for `pixel_count` pixels.
    pub fn new(pixel_count: u32) -> (fragment: Self)
        ensures
            fragment.pixels@.len() == 0,
    {
        ImageFragment { pixels: Vec::with_capacity(pixel_count as usize) }
    }

    /// Appends the next pixel in row-major order.
    pub fn push(&mut self, pixel: Pixel)
        ensures
            final(self).pixels@ == old(self).pixels@.push(pixel),
    {
        self.pixels.push(pixel);
    }
}

/// A contiguous range of image rows, `start` inclusive to `end` exclusive.
#[derive(Clone, Copy, PartialEq, Eq, Structural, Debug)]
pub struct RowRange {
    pub start: u32,
    pub end: u32,
}

/// The ranges tile `0..height` in order: the first starts at row 0, each
/// next range begins where the previous one ended, and the last ends at
/// `height`.
pub open spec fn ranges_tile(ranges: Seq<RowRange>, height: u32) -> bool {
    &&& ranges.len() > 0
    &&& ranges[0].start == 0
    &&& ranges[ranges.len() - 1].end == height
    &&& forall|i: int| 0 <= i < ranges.len() ==> #[trigger] ranges[i].start <= ranges[i].end
    &&& forall|i: int| 0 < i < ranges.len() ==> #[trigger] ranges[i].start == ranges[i - 1].end
}

/// Splits `height` rows into `workers` contiguous ranges: every range holds
/// `height / workers` rows except the last, which also takes the
/// `height % workers` rows left over.
pub fn partition_rows(height: u32, workers: u32) -> (ranges: Vec<RowRange>)
    requires
        workers >= 1,
    ensures
        ranges@.len() == workers,
        ranges_tile(ranges@, height),
        forall|i: int| 0 <= i < workers - 1 ==> #[trigger] ranges@[i].end - ranges@[i].start
            == height / workers,
        ranges@[workers - 1].end - ranges@[workers - 1].start
            == height / workers + height % workers,
{
    let common: u32 = height / workers;
    proof {
        vstd::arithmetic::div_mod::lemma_fundamental_div_mod(height as int, workers as int);
    }
    let mut ranges: Vec<RowRange> = Vec::with_capacity(workers as usize);
    let mut start: u32 = 0;
    let mut i: u32 = 0;
    while i < workers - 1
        invariant
            workers >= 1,
            i <= workers - 1,
            common == height / workers,
            height == workers * common + height % workers,
            ranges@.len() == i,
            start == i * common,
            i > 0 ==> ranges@[0].start == 0,
            i > 0 ==> ranges@[i - 1].end == start,
            i == 0 ==> start == 0,
            forall|j: int| 0 <= j < i ==> #[trigger] ranges@[j].end - ranges@[j].start == common,
            forall|j: int| 0 < j < i ==> #[trigger] ranges@[j].start == ranges@[j - 1].end,
        decreases workers - i,
    {
        proof {
            vstd::arithmetic::mul::lemma_mul_inequality(i as int + 1, workers as int, common as int);
            assert((i as int + 1) * common == i as int * common + common) by (nonlinear_arith);
        }
        let end: u32 = start + common;
        ranges.push(RowRange { start, end });
        start = end;
        i = i + 1;
    }
    proof {
        vstd::arithmetic::mul::lemma_mul_inequality(workers as int - 1, workers as int, common as int);
        assert((workers as int - 1) * common + common == workers as int * common)
            by (nonlinear_arith);
    }
    let last_end: u32 = start + common + height % workers;
    ranges.push(RowRange { start, end: last_end });
    ranges
}

/// The concatenation of the fragments' pixel sequences, in order.
pub open spec fn concat_pixels(fragments: Seq<Seq<Pixel>>) -> Seq<Pixel>
    decreases fragments.len(),
{
    if fragments.len() == 0 {
        Seq::empty()
    } else {
        fragments[0] + concat_pixels(fragments.drop_first())
    }
}

/// Concatenates the workers' fragments, in partition order, into the full
/// row-major pixel buffer.
pub fn assemble_fragments(fragments: Vec<ImageFragment>) -> (buffer: Vec<Pixel>)
    ensures
        buffer@ == concat_pixels(fragments@.map_values(|f: ImageFragment| f.pixels@)),
{
    let ghost all = fragments@.map_values(|f: ImageFragment| f.pixels@);
    let mut buffer: Vec<Pixel> = Vec::new();
    let mut k: usize = 0;
    let fragment_count: usize = fragments.len();
    while k < fragment_count
        invariant
            fragment_count == fragments@.len(),
            k <= fragment_count,
            all == fragments@.map_values(|f: ImageFragment| f.pixels@),
            buffer@ == concat_pixels(all.take(k as int)),
        decreases fragment_count - k,
    {
        let fragment = &fragments[k];
        let pixel_count: usize = fragment.pixels.len();
        let mut p: usize = 0;
        while p < pixel_count
            invariant
                k < fragments@.len(),
                fragment == fragments@[k as int],
                pixel_count == fragment.pixels@.len(),
                p <= pixel_count,
                buffer@ == concat_pixels(all.take(k as int)) + fragment.pixels@.take(p as int),
            decreases pixel_count - p,
        {
            buffer.push(fragment.pixels[p]);
            p = p + 1;
        }
        k = k + 1;
        proof {
            lemma_concat_pixels_take_step(all, k as int);
            assert(fragment.pixels@.take(pixel_count as int) == fragment.pixels@);
            assert(buffer@ == concat_pixels(all.take(k as int)));
        }
    }
    proof {
        assert(all.take(fragment_count as int) == all);
    }
    buffer
}

/// Flattens a row-major pixel buffer into its output form: 3 bytes per
/// pixel, red then green then blue, in pixel order.
pub fn pixels_to_bytes(pixels: &Vec<Pixel>) -> (bytes: Vec<u8>)
    ensures
        bytes@.len() == pixels@.len() * 3,
        forall|i: int| 0 <= i < pixels@.len() ==> bytes@[3 * i] == (#[trigger] pixels@[i]).r,
        forall|i: int| 0 <= i < pixels@.len() ==> bytes@[3 * i + 1] == (#[trigger] pixels@[i]).g,
        forall|i: int| 0 <= i < pixels@.len() ==> bytes@[3 * i + 2] == (#[trigger] pixels@[i]).b,
{
    let mut bytes: Vec<u8> = Vec::new();
    let pixel_count: usize = pixels.len();
    let mut k: usize = 0;
    while k < pixel_count
        invariant
            pixel_count == pixels@.len(),
            k <= pixel_count,
            bytes@.len() == k * 3,
            forall|i: int| 0 <= i < k ==> bytes@[3 * i] == (#[trigger] pixels@[i]).r,
            forall|i: int| 0 <= i < k ==> bytes@[3 * i + 1] == (#[trigger] pixels@[i]).g,
            forall|i: int| 0 <= i < k ==> bytes@[3 * i + 2] == (#[trigger] pixels@[i]).b,
        decreases pixel_count - k,
    {
        let pixel = pixels[k];
        bytes.push(pixel.r);
        bytes.push(pixel.g);
        bytes.push(pixel.b);
        k = k + 1;
    }
    bytes
}

/// In a tiling of `0..height`, every range ends at or before `height`.
proof fn lemma_tile_ends_bounded(ranges: Seq<RowRange>, height: u32, i: int)
    requires
        ranges_tile(ranges, height),
        0 <= i < ranges.len(),
    ensures
        ranges[i].end <= height,
    decreases ranges.len() - i,
{
    if i < ranges.len() - 1 {
        lemma_tile_ends_bounded(ranges, height, i + 1);
        assert(ranges[i + 1].start == ranges[i].end);
        assert(ranges[i + 1].start <= ranges[i + 1].end);
    }
}

/// Fragments that are the row slices of `full` for a chain of ranges
/// concatenate to the slice the whole chain covers.
proof fn lemma_fragments_cover_suffix(
    fragments: Seq<Seq<Pixel>>,
    ranges: Seq<RowRange>,
    full: Seq<Pixel>,
    width: int,
    height: u32,
)
    requires
        width >= 0,
        ranges.len() == fragments.len(),
        ranges.len() > 0,
        ranges[ranges.len() - 1].end == height,
        forall|i: int| 0 <= i < ranges.len()
            ==> #[trigger] ranges[i].start <= ranges[i].end <= height,
        forall|i: int| 0 < i < ranges.len() ==> #[trigger] ranges[i].start == ranges[i - 1].end,
        full.len() == height * width,
        forall|i: int| 0 <= i < ranges.len() ==> #[trigger] fragments[i]
            == full.subrange(ranges[i].start * width, ranges[i].end * width),
    ensures
        concat_pixels(fragments) == full.subrange(ranges[0].start * width, height * width),
    decreases fragments.len(),
{
    let lo: int = ranges[0].start * width;
    let mid: int = ranges[0].end * width;
    let hi: int = height as int * width;
    assert(lo <= mid) by {
        vstd::arithmetic::mul::lemma_mul_inequality(
            ranges[0].start as int, ranges[0].end as int, width);
    }
    assert(mid <= hi) by {
        vstd::arithmetic::mul::lemma_mul_inequality(ranges[0].end as int, height as int, width);
    }
    if fragments.len() == 1 {
        assert(concat_pixels(Seq::<Seq<Pixel>>::empty()) =~= Seq::<Pixel>::empty());
        assert(fragments.drop_first() =~= Seq::<Seq<Pixel>>::empty());
        assert(concat_pixels(fragments) =~= fragments[0]);
    } else {
        lemma_fragments_cover_suffix(
            fragments.drop_first(), ranges.drop_first(), full, width, height);
        assert(ranges.drop_first()[0].start == ranges[0].end);
        assert(concat_pixels(fragments.drop_first()) == full.subrange(mid, hi));
        assert(fragments[0] + full.subrange(mid, hi) =~= full.subrange(lo, hi));
    }
}

/// Row-range partitioning does not change the image.  If the ranges tile
/// `0..height` and every fragment holds exactly the rows of the reference
/// single-pass buffer that its range covers, then the fragments, in
/// partition order, concatenate to exactly that buffer — whichever worker
/// produced which fragment.
pub proof fn lemma_fragments_rebuild_image(
    fragments: Seq<Seq<Pixel>>,
    ranges: Seq<RowRange>,
    full: Seq<Pixel>,
    width: nat,
    height: u32,
)
    requires
        ranges_tile(ranges, height),
        ranges.len() == fragments.len(),
        full.len() == height * width,
        forall|i: int| 0 <= i < ranges.len() ==> #[trigger] fragments[i]
            == full.subrange(ranges[i].start * width, ranges[i].end * width),
    ensures
        concat_pixels(fragments) == full,
{
    assert forall|i: int| 0 <= i < ranges.len()
        implies #[trigger] ranges[i].start <= ranges[i].end <= height by {
        lemma_tile_ends_bounded(ranges, height, i);
    }
    lemma_fragments_cover_suffix(fragments, ranges, full, width as int, height);
    assert(full.subrange(0 * (width as int), height as int * (width as int)) =~= full);
}

/// Taking one more fragment appends exactly that fragment's pixels.
proof fn lemma_concat_pixels_take_step(fragments: Seq<Seq<Pixel>>, k: int)
    requires
        0 < k <= fragments.len(),
    ensures
        concat_pixels(fragments.take(k)) == concat_pixels(fragments.take(k - 1)) + fragments[k - 1],
    decreases k,
{
    if k == 1 {
        assert(concat_pixels(Seq::<Seq<Pixel>>::empty()) =~= Seq::<Pixel>::empty());
        assert(fragments.take(1).drop_first() =~= Seq::<Seq<Pixel>>::empty());
        assert(fragments.take(0) =~= Seq::<Seq<Pixel>>::empty());
        assert(fragments.take(1)[0] == fragments[0]);
        assert(concat_pixels(fragments.take(1)) =~= fragments[0]);
        assert(concat_pixels(fragments.take(0)) + fragments[0] =~= fragments[0]);
    } else {
        lemma_concat_pixels_take_step(fragments.drop_first(), k - 1);
        assert(fragments.take(k).drop_first() =~= fragments.drop_first().take(k - 1));
        assert(fragments.take(k - 1).drop_first() =~= fragments.drop_first().take(k - 2));
        assert(fragments.drop_first()[k - 2] == fragments[k - 1]);
        assert(concat_pixels(fragments.take(k))
            == fragments[0] + concat_pixels(fragments.drop_first().take(k - 1)));
        assert(concat_pixels(fragments.take(k - 1))
            == fragments[0] + concat_pixels(fragments.drop_first().take(k - 2)));
        assert((fragments[0] + concat_pixels(fragments.drop_first().take(k - 2))) + fragments[k - 1]
            =~= fragments[0] + (concat_pixels(fragments.drop_first().take(k - 2)) + fragments[k - 1]));
    }
}

} // verus!
