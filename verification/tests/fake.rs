use sibyl::{FakeProvider, ImageRequest, Size, TextRequest};

fn img_req(prompt: &str, seed: u64) -> ImageRequest {
    ImageRequest {
        prompt: prompt.to_string(),
        seed,
        size: Size::default(),
    }
}

#[test]
fn image_output_is_deterministic_for_same_prompt_and_seed() {
    let p = FakeProvider::new();
    let a = p.generate(&img_req("queen of cups", 42)).unwrap();
    let b = p.generate(&img_req("queen of cups", 42)).unwrap();
    assert_eq!(a, b, "fake image must be deterministic");
    assert_eq!(a.mime, "image/png");
    assert!(!a.bytes.is_empty());
}

#[test]
fn image_output_varies_with_prompt() {
    let p = FakeProvider::new();
    let a = p.generate(&img_req("queen of cups", 42)).unwrap();
    let b = p.generate(&img_req("king of swords", 42)).unwrap();
    assert_ne!(a.bytes, b.bytes, "different prompts should differ");
}

#[test]
fn text_preserves_system_then_prompt() {
    let p = FakeProvider::new();
    let out = p.complete(&TextRequest {
        system: "RULES".into(),
        prompt: "style".into(),
        seed: 1,
    });
    assert!(out.text.starts_with("RULES"));
    assert_eq!(out.text, "RULES || style");
}

#[test]
fn provider_ids_are_stable() {
    let p = FakeProvider::new();
    assert_eq!(p.text_id().provider, "fake");
    assert_eq!(p.image_id().provider, "fake");
    assert_eq!(p.image_id().model, "fake-image-1");
}

#[test]
fn fake_image_is_a_small_solid_png() {
    let p = FakeProvider::new();
    let img = p
        .generate(&ImageRequest {
            prompt: "x".into(),
            seed: 3,
            size: Size {
                width: 1000,
                height: 2,
            },
        })
        .unwrap();
    assert_eq!(&img.bytes[..4], &[0x89, b'P', b'N', b'G']);
    let decoded = image::load_from_memory(&img.bytes).unwrap().to_rgba8();
    // Clamped to 8..=64 on each side, one colour, opaque.
    assert_eq!(decoded.dimensions(), (64, 8));
    let first = *decoded.get_pixel(0, 0);
    assert_eq!(first.0[3], 255);
    assert!(decoded.pixels().all(|px| *px == first));
}

#[test]
fn blank_system_text_keeps_the_separator() {
    let p = FakeProvider::new();
    let out = p.complete(&TextRequest {
        system: "   ".into(),
        prompt: " style ".into(),
        seed: 0,
    });
    assert_eq!(out.text, "|| style");
}
