use service_tray::icon::{load, select, IconAsset, IconError, RawImage};
use std::io::Cursor;

fn encode(pixels: Vec<u8>, width: u32, height: u32, format: image::ImageOutputFormat) -> Vec<u8> {
    let buffer = image::RgbaImage::from_raw(width, height, pixels).unwrap();
    let mut bytes = Vec::new();
    buffer.write_to(&mut Cursor::new(&mut bytes), format).unwrap();
    bytes
}

fn red_2x1() -> Vec<u8> {
    vec![255, 0, 0, 255, 200, 0, 0, 255]
}

fn blue_1x1() -> Vec<u8> {
    vec![0, 0, 255, 255]
}

fn red_png() -> Vec<u8> {
    encode(red_2x1(), 2, 1, image::ImageOutputFormat::Png)
}

fn blue_png() -> Vec<u8> {
    encode(blue_1x1(), 1, 1, image::ImageOutputFormat::Png)
}

fn blue_ico() -> Vec<u8> {
    encode(blue_1x1(), 1, 1, image::ImageOutputFormat::Ico)
}

#[test]
fn from_rgba_accepts_four_bytes_per_pixel() {
    let icon = IconAsset::from_rgba(vec![9; 24], 3, 2).unwrap();
    assert_eq!(icon.pixels(), &vec![9u8; 24]);
    assert_eq!(icon.width(), 3);
    assert_eq!(icon.height(), 2);
}

#[test]
fn from_rgba_accepts_the_empty_image() {
    let icon = IconAsset::from_rgba(Vec::new(), 0, 5).unwrap();
    assert_eq!(icon.pixels().len(), 0);
    assert_eq!(icon.width(), 0);
    assert_eq!(icon.height(), 5);
}

#[test]
fn from_rgba_rejects_a_short_buffer() {
    assert_eq!(IconAsset::from_rgba(vec![0; 23], 3, 2).unwrap_err(), IconError::BadDimensions);
}

#[test]
fn from_rgba_rejects_a_long_buffer() {
    assert_eq!(IconAsset::from_rgba(vec![0; 28], 3, 2).unwrap_err(), IconError::BadDimensions);
}

#[test]
fn from_rgba_rejects_a_pixel_count_beyond_32_bits() {
    assert_eq!(
        IconAsset::from_rgba(Vec::new(), 65536, 65536).unwrap_err(),
        IconError::BadDimensions
    );
    assert_eq!(
        IconAsset::from_rgba(Vec::new(), u32::MAX, u32::MAX).unwrap_err(),
        IconError::BadDimensions
    );
}

#[test]
fn select_prefers_the_installed_image() {
    let installed = RawImage { pixels: red_2x1(), width: 2, height: 1 };
    let embedded = RawImage { pixels: blue_1x1(), width: 1, height: 1 };
    let icon = select(Some(installed), Some(embedded)).unwrap();
    assert_eq!(icon.pixels(), &red_2x1());
    assert_eq!((icon.width(), icon.height()), (2, 1));
}

#[test]
fn select_falls_back_to_the_embedded_image() {
    let embedded = RawImage { pixels: blue_1x1(), width: 1, height: 1 };
    let icon = select(None, Some(embedded)).unwrap();
    assert_eq!(icon.pixels(), &blue_1x1());
}

#[test]
fn select_without_any_image_fails() {
    assert_eq!(select(None, None).unwrap_err(), IconError::Undecodable);
}

#[test]
fn select_does_not_fall_back_from_a_malformed_installed_image() {
    let installed = RawImage { pixels: vec![1, 2, 3], width: 1, height: 1 };
    let embedded = RawImage { pixels: blue_1x1(), width: 1, height: 1 };
    assert_eq!(select(Some(installed), Some(embedded)).unwrap_err(), IconError::BadDimensions);
}

#[test]
fn load_prefers_a_valid_installed_file() {
    let installed = red_png();
    let embedded = blue_ico();
    let icon = load(Some(&installed[..]), &embedded[..]).unwrap();
    assert_eq!(icon.pixels(), &red_2x1());
    assert_eq!((icon.width(), icon.height()), (2, 1));
}

#[test]
fn load_prefers_a_valid_installed_file_over_a_broken_embedded_image() {
    let installed = red_png();
    let icon = load(Some(&installed[..]), b"not an image").unwrap();
    assert_eq!(icon.pixels(), &red_2x1());
}

#[test]
fn load_uses_the_embedded_image_without_an_installed_file() {
    let embedded = blue_ico();
    let icon = load(None, &embedded[..]).unwrap();
    assert_eq!(icon.pixels(), &blue_1x1());
    assert_eq!((icon.width(), icon.height()), (1, 1));
}

#[test]
fn load_guesses_the_format_of_the_embedded_image() {
    let embedded = blue_png();
    let icon = load(None, &embedded[..]).unwrap();
    assert_eq!(icon.pixels(), &blue_1x1());
}

#[test]
fn load_falls_back_when_the_installed_file_does_not_decode() {
    let embedded = blue_ico();
    let icon = load(Some(&b"broken"[..]), &embedded[..]).unwrap();
    assert_eq!(icon.pixels(), &blue_1x1());
}

#[test]
fn load_reads_the_installed_file_as_png_only() {
    let installed = encode(red_2x1(), 2, 1, image::ImageOutputFormat::Ico);
    let embedded = blue_png();
    let icon = load(Some(&installed[..]), &embedded[..]).unwrap();
    assert_eq!(icon.pixels(), &blue_1x1());
}

#[test]
fn load_fails_when_nothing_decodes() {
    assert_eq!(load(Some(&b"broken"[..]), b"also broken").unwrap_err(), IconError::Undecodable);
    assert_eq!(load(None, b"").unwrap_err(), IconError::Undecodable);
}

#[test]
fn load_returns_pixels_not_file_bytes() {
    let installed = red_png();
    let icon = load(Some(&installed[..]), b"").unwrap();
    assert_ne!(icon.pixels(), &installed);
    assert_eq!(icon.pixels().len(), 8);
}

#[test]
fn a_decodable_installed_file_is_the_icon_whatever_is_built_in() {
    let installed = red_png();
    for embedded in [blue_png(), blue_ico(), Vec::new(), b"junk".to_vec(), red_png()] {
        let icon = load(Some(&installed[..]), &embedded[..]).unwrap();
        assert_eq!(icon.pixels(), &red_2x1());
        assert_eq!((icon.width(), icon.height()), (2, 1));
    }
}

#[test]
fn decode_installed_gives_the_png_s_pixels() {
    let decoded = service_tray::icon::decode_installed(&red_png()).unwrap();
    assert_eq!(decoded.pixels, red_2x1());
    assert_eq!((decoded.width, decoded.height), (2, 1));
    assert!(service_tray::icon::decode_installed(b"junk").is_none());
    assert!(service_tray::icon::decode_installed(&blue_ico()).is_none());
}

#[test]
fn decode_embedded_reads_png_and_icon_containers() {
    let from_png = service_tray::icon::decode_embedded(&blue_png()).unwrap();
    let from_ico = service_tray::icon::decode_embedded(&blue_ico()).unwrap();
    assert_eq!(from_png.pixels, blue_1x1());
    assert_eq!(from_ico.pixels, blue_1x1());
    assert_eq!((from_ico.width, from_ico.height), (1, 1));
    assert!(service_tray::icon::decode_embedded(b"junk").is_none());
}
