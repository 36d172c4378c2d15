use pathtracer::frame::{
    assemble_fragments, partition_rows, pixels_to_bytes, ImageFragment, Pixel, RowRange,
};

fn px(r: u8, g: u8, b: u8) -> Pixel {
    Pixel { r, g, b }
}

#[test]
fn partition_divides_evenly() {
    let ranges = partition_rows(768, 64);
    assert_eq!(ranges.len(), 64);
    assert_eq!(ranges[0], RowRange { start: 0, end: 12 });
    for (i, range) in ranges.iter().enumerate() {
        assert_eq!(range.start, 12 * i as u32);
        assert_eq!(range.end - range.start, 12);
    }
    assert_eq!(ranges[63].end, 768);
}

#[test]
fn partition_gives_remainder_to_last_worker() {
    let ranges = partition_rows(10, 3);
    assert_eq!(
        ranges,
        vec![
            RowRange { start: 0, end: 3 },
            RowRange { start: 3, end: 6 },
            RowRange { start: 6, end: 10 },
        ]
    );
}

#[test]
fn partition_single_worker_takes_all_rows() {
    let ranges = partition_rows(17, 1);
    assert_eq!(ranges, vec![RowRange { start: 0, end: 17 }]);
}

#[test]
fn partition_more_workers_than_rows() {
    let ranges = partition_rows(5, 8);
    assert_eq!(ranges.len(), 8);
    for range in &ranges[..7] {
        assert_eq!(range.start, 0);
        assert_eq!(range.end, 0);
    }
    assert_eq!(ranges[7], RowRange { start: 0, end: 5 });
}

#[test]
fn partition_zero_rows() {
    let ranges = partition_rows(0, 4);
    assert_eq!(ranges.len(), 4);
    for range in &ranges {
        assert_eq!(range.start, 0);
        assert_eq!(range.end, 0);
    }
}

#[test]
fn fragment_push_keeps_order() {
    let mut fragment = ImageFragment::new(3);
    assert_eq!(fragment.pixels.len(), 0);
    fragment.push(px(1, 2, 3));
    fragment.push(px(4, 5, 6));
    assert_eq!(fragment.pixels, vec![px(1, 2, 3), px(4, 5, 6)]);
}

#[test]
fn assemble_concatenates_in_partition_order() {
    let mut first = ImageFragment::new(2);
    first.push(px(1, 1, 1));
    first.push(px(2, 2, 2));
    let mut second = ImageFragment::new(1);
    second.push(px(3, 3, 3));
    let third = ImageFragment::new(0);
    let buffer = assemble_fragments(vec![first, second, third]);
    assert_eq!(buffer, vec![px(1, 1, 1), px(2, 2, 2), px(3, 3, 3)]);
}

// A worker-partitioned render of a synthetic image must rebuild, pixel for
// pixel, the buffer a single pass over the same rows produces.
#[test]
fn partitioned_fill_matches_single_pass() {
    let width: u32 = 4;
    let height: u32 = 10;
    let shade = |x: u32, y: u32| px((x * 7 + y * 31) as u8, (x + y) as u8, x as u8);

    let mut single_pass: Vec<Pixel> = Vec::new();
    for y in 0..height {
        for x in 0..width {
            single_pass.push(shade(x, y));
        }
    }

    let ranges = partition_rows(height, 3);
    let mut fragments: Vec<ImageFragment> = Vec::new();
    for range in &ranges {
        let mut fragment = ImageFragment::new((range.end - range.start) * width);
        for y in range.start..range.end {
            for x in 0..width {
                fragment.push(shade(x, y));
            }
        }
        fragments.push(fragment);
    }

    let assembled = assemble_fragments(fragments);
    assert_eq!(assembled, single_pass);
}

#[test]
fn bytes_are_rgb_triples_in_pixel_order() {
    let pixels = vec![px(1, 2, 3), px(200, 100, 0)];
    let bytes = pixels_to_bytes(&pixels);
    assert_eq!(bytes, vec![1, 2, 3, 200, 100, 0]);
}

#[test]
fn bytes_of_empty_buffer() {
    let pixels: Vec<Pixel> = Vec::new();
    assert_eq!(pixels_to_bytes(&pixels), Vec::<u8>::new());
}
