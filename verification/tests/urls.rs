use picsum_rs::urls::{details_url, image_url, list_url, random_image_url};
use picsum_rs::{FileType, ImageSettings};

const BASE: &str = "https://picsum.photos";

#[test]
fn test_image_url_plain() {
    let s = ImageSettings::new(400, 400);
    assert_eq!(image_url(BASE, "1", &s), "https://picsum.photos/id/1/400/400.jpg");
}

#[test]
fn test_image_url_with_params() {
    let s = ImageSettings::new(200, 300).with_grayscale(true).with_blur(15);
    assert_eq!(
        image_url(BASE, "7", &s),
        "https://picsum.photos/id/7/200/300.jpg?grayscale=true&blur=10"
    );
}

#[test]
fn test_image_url_webp() {
    let s = ImageSettings::new(400, 400).with_file_type(FileType::Webp);
    assert_eq!(image_url(BASE, "1", &s), "https://picsum.photos/id/1/400/400.webp");
}

#[test]
fn test_random_image_url() {
    let s = ImageSettings::new(400, 400);
    assert_eq!(random_image_url(BASE, &s), "https://picsum.photos/400/400.jpg");
    let s = s.with_blur(3);
    assert_eq!(random_image_url(BASE, &s), "https://picsum.photos/400/400.jpg?blur=3");
}

#[test]
fn test_details_url() {
    assert_eq!(details_url(BASE, "1"), "https://picsum.photos/id/1/info");
}

#[test]
fn test_list_url() {
    assert_eq!(list_url(BASE, 1, 10), "https://picsum.photos/v2/list?page=1&limit=10");
    assert_eq!(list_url(BASE, 0, 0), "https://picsum.photos/v2/list?page=0&limit=0");
}
