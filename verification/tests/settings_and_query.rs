use picsum_rs::query::{decode_query, encode_query};
use picsum_rs::u16_to_string;
use picsum_rs::{FileType, ImageSettings};

fn pairs(raw: &[(&str, &str)]) -> Vec<(String, String)> {
    raw.iter().map(|(k, v)| (k.to_string(), v.to_string())).collect()
}

#[test]
fn test_default_settings() {
    let s = ImageSettings::default();
    assert_eq!(s.width, 400);
    assert_eq!(s.height, 400);
    assert!(!s.grayscale);
    assert_eq!(s.blur, 0);
    assert_eq!(s.file_type, FileType::Jpeg);
}

#[test]
fn test_new_and_setters() {
    let s = ImageSettings::new(640, 480)
        .with_grayscale(true)
        .with_blur(4)
        .with_file_type(FileType::Webp);
    assert_eq!(s.width, 640);
    assert_eq!(s.height, 480);
    assert!(s.grayscale);
    assert_eq!(s.blur, 4);
    assert_eq!(s.file_type, FileType::Webp);
}

#[test]
fn test_get_blur_value_clamps() {
    assert_eq!(ImageSettings::new(1, 1).with_blur(15).get_blur_value(), 10);
    assert_eq!(ImageSettings::new(1, 1).with_blur(255).get_blur_value(), 10);
    assert_eq!(ImageSettings::new(1, 1).with_blur(10).get_blur_value(), 10);
    assert_eq!(ImageSettings::new(1, 1).with_blur(3).get_blur_value(), 3);
    assert_eq!(ImageSettings::new(1, 1).get_blur_value(), 0);
}

#[test]
fn test_has_blur_and_is_grayscale() {
    assert!(!ImageSettings::new(1, 1).has_blur());
    assert!(ImageSettings::new(1, 1).with_blur(1).has_blur());
    assert!(ImageSettings::new(1, 1).with_blur(200).has_blur());
    assert!(!ImageSettings::new(1, 1).is_grayscale());
    assert!(ImageSettings::new(1, 1).with_grayscale(true).is_grayscale());
}

#[test]
fn test_query_params_blur_above_ten_is_clamped() {
    let s = ImageSettings::new(400, 400).with_blur(15);
    assert_eq!(s.generate_query_params(), pairs(&[("blur", "10")]));
    let s = ImageSettings::new(400, 400).with_blur(255);
    assert_eq!(s.generate_query_params(), pairs(&[("blur", "10")]));
}

#[test]
fn test_query_params_blur_in_range() {
    let s = ImageSettings::new(400, 400);
    assert_eq!(s.generate_query_params(), pairs(&[]));
    for b in 1u8..=10 {
        let s = ImageSettings::new(400, 400).with_blur(b);
        assert_eq!(s.generate_query_params(), pairs(&[("blur", &b.to_string())]));
    }
}

#[test]
fn test_query_params_grayscale() {
    let s = ImageSettings::new(400, 400).with_grayscale(false);
    assert_eq!(s.generate_query_params(), pairs(&[]));
    let s = ImageSettings::new(400, 400).with_grayscale(true);
    assert_eq!(s.generate_query_params(), pairs(&[("grayscale", "true")]));
    let s = ImageSettings::new(400, 400).with_grayscale(true).with_blur(7);
    assert_eq!(
        s.generate_query_params(),
        pairs(&[("grayscale", "true"), ("blur", "7")])
    );
}

#[test]
fn test_file_type_extension() {
    assert_eq!(FileType::Jpeg.as_string(), "jpg");
    assert_eq!(FileType::Webp.as_string(), "webp");
}

#[test]
fn test_u16_to_string() {
    assert_eq!(u16_to_string(0), "0");
    assert_eq!(u16_to_string(7), "7");
    assert_eq!(u16_to_string(10), "10");
    assert_eq!(u16_to_string(400), "400");
    assert_eq!(u16_to_string(65535), "65535");
}

#[test]
fn test_encode_query() {
    assert_eq!(encode_query(&pairs(&[])), "");
    assert_eq!(encode_query(&pairs(&[("blur", "3")])), "blur=3");
    assert_eq!(
        encode_query(&pairs(&[("grayscale", "true"), ("blur", "10")])),
        "grayscale=true&blur=10"
    );
}

#[test]
fn test_decode_query() {
    assert_eq!(decode_query(""), pairs(&[]));
    assert_eq!(decode_query("blur=3"), pairs(&[("blur", "3")]));
    assert_eq!(
        decode_query("grayscale=true&blur=10"),
        pairs(&[("grayscale", "true"), ("blur", "10")])
    );
    assert_eq!(decode_query("key"), pairs(&[("key", "")]));
    assert_eq!(decode_query("k=a=b"), pairs(&[("k", "a=b")]));
}

#[test]
fn test_query_round_trip() {
    let s = ImageSettings::new(400, 400).with_grayscale(true).with_blur(15);
    let params = s.generate_query_params();
    let encoded = encode_query(&params);
    let decoded = decode_query(&encoded);
    assert_eq!(decoded, pairs(&[("grayscale", "true"), ("blur", "10")]));
    assert_eq!(decoded, params);
    assert_eq!(encode_query(&decoded), encoded);
}
