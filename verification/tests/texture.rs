use engine::renderer::texture::{Decoded, Pixels};
use engine::renderer::{RenderError, Texture};

/// A PNG of one column and two rows: a red pixel above a blue one.
const RED_OVER_BLUE: [u8; 70] = [
    137, 80, 78, 71, 13, 10, 26, 10, 0, 0, 0, 13, 73, 72, 68, 82, 0, 0, 0, 1, 0, 0, 0, 2, 8, 2,
    0, 0, 0, 22, 227, 33, 112, 0, 0, 0, 13, 73, 68, 65, 84, 120, 156, 99, 248, 207, 0, 2, 255,
    1, 8, 0, 1, 255, 217, 144, 187, 53, 0, 0, 0, 0, 73, 69, 78, 68, 174, 66, 96, 130,
];

fn texture_message(e: RenderError) -> String {
    match e {
        RenderError::TextureError(m) => m,
        other => panic!("not a texture error: {:?}", other),
    }
}

#[test]
fn a_png_is_decoded_bottom_row_first() {
    let pixels = Texture::decode(&RED_OVER_BLUE).unwrap();
    assert_eq!(pixels.width, 1);
    assert_eq!(pixels.height, 2);
    assert_eq!(pixels.data, vec![0, 0, 255, 255, 255, 0, 0, 255]);
    let texture = Texture::from_pixels(3, &pixels);
    assert_eq!(texture, Texture::new(3, 1, 2));
}

#[test]
fn bytes_of_no_known_format_are_an_error() {
    let message = texture_message(Texture::decode(b"not an image at all").unwrap_err());
    assert!(message.starts_with("couldn't decode image"));
    assert!(message.len() > "couldn't decode image".len());
    let message = texture_message(Texture::decode(&[]).unwrap_err());
    assert!(message.starts_with("couldn't decode image"));
}

#[test]
fn a_truncated_png_is_an_error() {
    let message = texture_message(Texture::decode(&RED_OVER_BLUE[..40]).unwrap_err());
    assert!(message.starts_with("couldn't decode image"));
}

#[test]
fn judging_the_outcome_of_decoding() {
    let good = Pixels { width: 2, height: 1, data: vec![1, 2, 3, 4, 5, 6, 7, 8] };
    assert_eq!(Texture::decoded(Decoded::Image(good.clone())).unwrap(), good);
    let empty = Pixels { width: 0, height: 5, data: vec![] };
    assert_eq!(Texture::decoded(Decoded::Image(empty.clone())).unwrap(), empty);

    let short = Pixels { width: 2, height: 1, data: vec![1, 2, 3, 4] };
    assert_eq!(
        texture_message(Texture::decoded(Decoded::Image(short)).unwrap_err()),
        "decoded image has the wrong size"
    );
    let huge = Pixels { width: u32::MAX, height: u32::MAX, data: vec![0; 4] };
    assert_eq!(
        texture_message(Texture::decoded(Decoded::Image(huge)).unwrap_err()),
        "decoded image has the wrong size"
    );
    assert_eq!(
        texture_message(Texture::decoded(Decoded::UnknownFormat).unwrap_err()),
        "couldn't guess format"
    );
    assert_eq!(
        texture_message(Texture::decoded(Decoded::Undecodable(": bad header".to_string())).unwrap_err()),
        "couldn't decode image: bad header"
    );
}

#[test]
fn unreadable_texture_file() {
    assert_eq!(
        texture_message(Texture::unreadable("src/textures/container.jpg")),
        "couldn't find: src/textures/container.jpg"
    );
}
