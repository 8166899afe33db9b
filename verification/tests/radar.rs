use openstrike::radar::{texture_pixels, HEIGHT, TEXTURE_HEIGHT, TEXTURE_WIDTH, WIDTH};

#[test]
fn radar_rows_land_at_texture_stride_and_padding_is_clear() {
    let pixels: Vec<u8> = (0..WIDTH * HEIGHT * 4).map(|i| (i % 251) as u8 + 1).collect();
    let padded = texture_pixels(&pixels);
    assert_eq!(padded.len(), TEXTURE_WIDTH * TEXTURE_HEIGHT * 4);
    for y in 0..TEXTURE_HEIGHT {
        for x in 0..TEXTURE_WIDTH * 4 {
            let got = padded[y * TEXTURE_WIDTH * 4 + x];
            if y < HEIGHT && x < WIDTH * 4 {
                assert_eq!(got, pixels[y * WIDTH * 4 + x]);
            } else {
                assert_eq!(got, 0);
            }
        }
    }
}
