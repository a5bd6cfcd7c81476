use thumbgrid::geometry::{center_offset, fill_dims};
use thumbgrid::grid::PixelGrid;
use thumbgrid::pipeline::{
    process_heif_plane, process_standard, run_batch, FileInput, Outcome, ThumbError,
};
use thumbgrid::THUMB_SIZE;

fn name(s: &str) -> Vec<u8> {
    s.as_bytes().to_vec()
}

fn solid_jpeg(w: u32, h: u32, rgb: [u8; 3]) -> Vec<u8> {
    let img = image::RgbImage::from_pixel(w, h, image::Rgb(rgb));
    let mut out: Vec<u8> = Vec::new();
    image::DynamicImage::ImageRgb8(img)
        .write_to(&mut std::io::Cursor::new(&mut out), image::ImageFormat::Jpeg)
        .unwrap();
    out
}

fn png_from_fn(w: u32, h: u32, f: impl Fn(u32, u32) -> [u8; 4]) -> Vec<u8> {
    let img = image::RgbaImage::from_fn(w, h, |x, y| image::Rgba(f(x, y)));
    let mut out: Vec<u8> = Vec::new();
    image::DynamicImage::ImageRgba8(img)
        .write_to(&mut std::io::Cursor::new(&mut out), image::ImageFormat::Png)
        .unwrap();
    out
}

fn decode_output(bytes: &[u8]) -> image::RgbaImage {
    image::load_from_memory(bytes).unwrap().to_rgba8()
}

fn near(a: u8, b: u8) -> bool {
    (a as i32 - b as i32).abs() <= 8
}

#[test]
fn standard_square_red_jpeg_gives_square_red_png() {
    let jpg = solid_jpeg(300, 300, [255, 0, 0]);
    let png = process_standard(&jpg).unwrap();
    // PNG signature: the encoder really serialized, not handed pixels back.
    assert_eq!(&png[0..4], &[0x89u8, 0x50, 0x4e, 0x47]);
    let img = decode_output(&png);
    assert_eq!(img.dimensions(), (THUMB_SIZE, THUMB_SIZE));
    for p in img.pixels() {
        assert!(near(p.0[0], 255) && near(p.0[1], 0) && near(p.0[2], 0) && p.0[3] == 255);
    }
}

#[test]
fn tiny_one_pixel_source_still_fills_square() {
    let png_in = png_from_fn(1, 1, |_, _| [10, 200, 30, 255]);
    let png = process_standard(&png_in).unwrap();
    let img = decode_output(&png);
    assert_eq!(img.dimensions(), (THUMB_SIZE, THUMB_SIZE));
    for p in img.pixels() {
        assert!(near(p.0[0], 10) && near(p.0[1], 200) && near(p.0[2], 30));
    }
}

#[test]
fn heif_plane_blue_portrait_gives_square_blue_png() {
    // A 200 x 400 solid-blue interleaved RGBA plane, as the container
    // decoder would hand it over.
    let mut plane: Vec<u8> = Vec::with_capacity(200 * 400 * 4);
    for _ in 0..(200 * 400) {
        plane.extend_from_slice(&[0, 0, 255, 255]);
    }
    let png = process_heif_plane(200, 400, plane).unwrap();
    let img = decode_output(&png);
    assert_eq!(img.dimensions(), (THUMB_SIZE, THUMB_SIZE));
    for p in img.pixels() {
        assert!(near(p.0[0], 0) && near(p.0[1], 0) && near(p.0[2], 255) && p.0[3] == 255);
    }
}

#[test]
fn mismatched_plane_is_rejected() {
    // Too short by one byte, too long by one byte, and absurdly short.
    let exact = 10 * 10 * 4;
    for len in [exact - 1, exact + 1, 3] {
        let plane = vec![0u8; len];
        assert_eq!(process_heif_plane(10, 10, plane), Err(ThumbError::BufferSizeMismatch));
    }
    let ok_plane = vec![0u8; exact];
    assert!(process_heif_plane(10, 10, ok_plane).is_ok());
}

#[test]
fn grid_construction_validates_length() {
    assert!(PixelGrid::new(10, 10, vec![0u8; 10 * 10 * 4]).is_some());
    assert!(PixelGrid::new(10, 10, vec![0u8; 10 * 10 * 4 - 1]).is_none());
    assert!(PixelGrid::new(10, 10, vec![0u8; 10 * 10 * 4 + 1]).is_none());
    assert!(PixelGrid::new(0, 10, vec![]).is_none());
}

#[test]
fn corrupt_png_fails_without_panic() {
    let mut png_in = png_from_fn(50, 50, |_, _| [1, 2, 3, 255]);
    png_in.truncate(png_in.len() / 3);
    assert_eq!(process_standard(&png_in), Err(ThumbError::StandardDecode));
}

#[test]
fn garbage_bytes_fail_without_panic() {
    let junk: Vec<u8> = (0u32..256).map(|i| (i * 37 % 251) as u8).collect();
    assert_eq!(process_standard(&junk), Err(ThumbError::StandardDecode));
}

#[test]
fn landscape_and_portrait_crops_differ() {
    // 200 x 100, left half green, right half white: the centred crop keeps
    // columns 50..150, so the thumbnail's left half is green.
    let land = png_from_fn(200, 100, |x, _| {
        if x < 100 { [0, 255, 0, 255] } else { [255, 255, 255, 255] }
    });
    // 100 x 200, top half green, bottom half white: the centred crop keeps
    // rows 50..150, so the thumbnail's top half is green.
    let port = png_from_fn(100, 200, |_, y| {
        if y < 100 { [0, 255, 0, 255] } else { [255, 255, 255, 255] }
    });
    let png_a = process_standard(&land).unwrap();
    let png_b = process_standard(&port).unwrap();
    assert_ne!(png_a, png_b);
    let a = decode_output(&png_a);
    let b = decode_output(&png_b);
    assert_eq!(a.dimensions(), (100, 100));
    assert_eq!(b.dimensions(), (100, 100));
    // Landscape: green on the left, white on the right.
    assert!(near(a.get_pixel(10, 50).0[1], 255) && near(a.get_pixel(10, 50).0[0], 0));
    assert!(near(a.get_pixel(90, 50).0[0], 255) && near(a.get_pixel(90, 50).0[1], 255));
    // Portrait: green on top, white at the bottom.
    assert!(near(b.get_pixel(50, 10).0[1], 255) && near(b.get_pixel(50, 10).0[0], 0));
    assert!(near(b.get_pixel(50, 90).0[0], 255) && near(b.get_pixel(50, 90).0[1], 255));
}

#[test]
fn fill_geometry_matches_policy() {
    // Landscape: height lands exactly on the target, width keeps ratio.
    assert_eq!(fill_dims(200, 100, 100), (200, 100));
    assert_eq!(center_offset(200, 100), 50);
    // Portrait, symmetric.
    assert_eq!(fill_dims(100, 200, 100), (100, 200));
    // Square source needs no crop at all.
    assert_eq!(fill_dims(300, 300, 100), (100, 100));
    assert_eq!(center_offset(100, 100), 0);
    // Rounding is half-up on the longer side.
    assert_eq!(fill_dims(3, 2, 100), (150, 100));
    assert_eq!(fill_dims(2, 3, 100), (100, 150));
}

#[test]
fn processing_is_deterministic() {
    let jpg = solid_jpeg(123, 77, [12, 34, 56]);
    assert_eq!(process_standard(&jpg), process_standard(&jpg));
    let plane = vec![7u8; 20 * 30 * 4];
    assert_eq!(process_heif_plane(20, 30, plane.clone()), process_heif_plane(20, 30, plane));
}

#[test]
fn batch_keeps_going_after_a_failure() {
    let mut corrupt = png_from_fn(40, 40, |_, _| [9, 9, 9, 255]);
    corrupt.truncate(10);
    let good = png_from_fn(60, 60, |_, _| [1, 2, 3, 255]);
    let files = vec![
        FileInput { name: name("bad.png"), bytes: corrupt, heif: None },
        FileInput { name: name("good.png"), bytes: good, heif: None },
    ];
    let outcomes = run_batch(&files);
    assert_eq!(outcomes.len(), 2);
    assert!(matches!(outcomes[0], Outcome::Failed(ThumbError::StandardDecode)));
    assert!(matches!(outcomes[1], Outcome::Succeeded(_)));
}

#[test]
fn batch_twice_is_byte_identical() {
    let files = vec![
        FileInput { name: name("a.jpg"), bytes: solid_jpeg(300, 300, [255, 0, 0]), heif: None },
        FileInput { name: name("c.txt"), bytes: name("arbitrary bytes"), heif: None },
    ];
    let first = run_batch(&files);
    let second = run_batch(&files);
    assert_eq!(first.len(), second.len());
    for (x, y) in first.iter().zip(second.iter()) {
        match (x, y) {
            (Outcome::Succeeded(p), Outcome::Succeeded(q)) => assert_eq!(p, q),
            (Outcome::Failed(e), Outcome::Failed(f)) => assert_eq!(e, f),
            (Outcome::Skipped, Outcome::Skipped) => {},
            _ => panic!("outcomes differ between runs"),
        }
    }
}

#[test]
fn end_to_end_scenario() {
    // a.jpg: 300 x 300 solid red; b.heic: 200 x 400 solid blue (as the
    // container decoder hands it over); c.txt: arbitrary bytes.
    let mut blue_plane: Vec<u8> = Vec::with_capacity(200 * 400 * 4);
    for _ in 0..(200 * 400) {
        blue_plane.extend_from_slice(&[0, 0, 255, 255]);
    }
    let files = vec![
        FileInput { name: name("a.jpg"), bytes: solid_jpeg(300, 300, [255, 0, 0]), heif: None },
        FileInput { name: name("b.heic"), bytes: Vec::new(), heif: Some(Ok((200, 400, blue_plane))) },
        FileInput { name: name("c.txt"), bytes: name("not an image"), heif: None },
    ];
    let outcomes = run_batch(&files);
    assert_eq!(outcomes.len(), 3);
    let mut successes = 0;
    let mut skips = 0;
    for o in outcomes.iter() {
        match o {
            Outcome::Succeeded(_) => successes += 1,
            Outcome::Skipped => skips += 1,
            Outcome::Failed(_) => panic!("no file should fail in this scenario"),
        }
    }
    assert_eq!(successes, 2);
    assert_eq!(skips, 1);
    match &outcomes[0] {
        Outcome::Succeeded(png) => {
            let img = decode_output(png);
            assert_eq!(img.dimensions(), (100, 100));
            for p in img.pixels() {
                assert!(near(p.0[0], 255) && near(p.0[1], 0) && near(p.0[2], 0));
            }
        },
        _ => panic!("a.jpg should succeed"),
    }
    match &outcomes[1] {
        Outcome::Succeeded(png) => {
            let img = decode_output(png);
            assert_eq!(img.dimensions(), (100, 100));
            for p in img.pixels() {
                assert!(near(p.0[0], 0) && near(p.0[1], 0) && near(p.0[2], 255));
            }
        },
        _ => panic!("b.heic should succeed"),
    }
    assert!(matches!(outcomes[2], Outcome::Skipped));
}
