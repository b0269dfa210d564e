use image::Rgba;
use sibyl::{compose, Layer, RenderError};

/// A tiny solid-color PNG used as a layer.
fn solid_png(w: u32, h: u32, color: [u8; 4]) -> Vec<u8> {
    let img = image::RgbaImage::from_pixel(w, h, Rgba(color));
    let mut buf = std::io::Cursor::new(Vec::new());
    image::DynamicImage::ImageRgba8(img)
        .write_to(&mut buf, image::ImageFormat::Png)
        .unwrap();
    buf.into_inner()
}

#[test]
fn compositing_is_deterministic() {
    let layer = solid_png(4, 4, [255, 0, 0, 255]);
    let a = compose(
        16,
        16,
        [0, 0, 0, 255],
        &[Layer {
            png: &layer,
            x: 2,
            y: 2,
        }],
    )
    .unwrap();
    let b = compose(
        16,
        16,
        [0, 0, 0, 255],
        &[Layer {
            png: &layer,
            x: 2,
            y: 2,
        }],
    )
    .unwrap();
    assert_eq!(a, b, "same inputs must produce byte-identical output");
    assert!(!a.is_empty());
}

#[test]
fn opaque_layer_covers_background() {
    let layer = solid_png(16, 16, [10, 20, 30, 255]);
    let bytes = compose(
        16,
        16,
        [200, 200, 200, 255],
        &[Layer {
            png: &layer,
            x: 0,
            y: 0,
        }],
    )
    .unwrap();
    let decoded = image::load_from_memory(&bytes).unwrap().to_rgba8();
    assert_eq!(decoded.get_pixel(8, 8).0, [10, 20, 30, 255]);
}

#[test]
fn layers_are_clipped_and_blended() {
    // Half-transparent white over black at an offset hanging off the canvas.
    let layer = solid_png(4, 4, [255, 255, 255, 128]);
    let bytes = compose(
        4,
        4,
        [0, 0, 0, 255],
        &[Layer {
            png: &layer,
            x: 2,
            y: -2,
        }],
    )
    .unwrap();
    let decoded = image::load_from_memory(&bytes).unwrap().to_rgba8();
    // Outside the layer: background kept.
    assert_eq!(decoded.get_pixel(0, 3).0, [0, 0, 0, 255]);
    // Under the layer: (255 * 128 + 0 * 127) / 255 = 128.
    assert_eq!(decoded.get_pixel(3, 1).0, [128, 128, 128, 255]);
    assert_eq!(decoded.get_pixel(2, 2).0, [0, 0, 0, 255]);
}

#[test]
fn transparent_pixels_leave_the_canvas_alone() {
    let layer = solid_png(2, 2, [9, 9, 9, 0]);
    let bytes = compose(2, 2, [1, 2, 3, 4], &[Layer { png: &layer, x: 0, y: 0 }]).unwrap();
    let decoded = image::load_from_memory(&bytes).unwrap().to_rgba8();
    assert_eq!(decoded.get_pixel(1, 1).0, [1, 2, 3, 4]);
}

#[test]
fn undecodable_layer_is_a_decode_error() {
    let good = solid_png(1, 1, [0, 0, 0, 255]);
    let err = compose(
        4,
        4,
        [0, 0, 0, 255],
        &[
            Layer { png: &good, x: 0, y: 0 },
            Layer { png: b"not a png", x: 0, y: 0 },
        ],
    )
    .unwrap_err();
    match err {
        RenderError::Decode(_) => {}
        other => panic!("expected a decode error, got {other:?}"),
    }
    assert!(RenderError::Decode("x".into()).message().starts_with("decode error: "));
}
