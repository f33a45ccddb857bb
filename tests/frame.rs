use wifi_qr::frame::{clear_display, compose, encode_pixels, render_frame, rgb565, Bitmatrix, OrbicFramebuffer};

fn single_dark(w: usize, h: usize, x: usize, y: usize) -> Bitmatrix {
    let mut dark = vec![false; w * h];
    dark[y * w + x] = true;
    Bitmatrix { width: w, height: h, dark }
}

#[test]
fn rgb565_packing() {
    assert_eq!(rgb565(255, 255, 255), 0xFFFF);
    assert_eq!(rgb565(0, 0, 0), 0x0000);
    assert_eq!(rgb565(248, 4, 8), 0xF821);
    assert_eq!(rgb565(7, 3, 7), 0x0000);
    assert_eq!(rgb565(0, 255, 0), 0x07E0);
}

#[test]
fn stream_is_little_endian() {
    assert_eq!(encode_pixels(&[(255, 0, 0), (0, 0, 255)]), vec![0x00, 0xF8, 0x1F, 0x00]);
    assert_eq!(encode_pixels(&[(248, 4, 8)]), vec![0x21, 0xF8]);
}

#[test]
fn matrix_120_is_centred_at_4() {
    let c = compose(&single_dark(120, 120, 0, 0));
    assert_eq!(c.len(), 128 * 128);
    assert_eq!(c[4 * 128 + 4], (0, 0, 0));
    assert_eq!(c[3 * 128 + 3], (255, 255, 255));
    assert_eq!(c.iter().filter(|p| **p == (0, 0, 0)).count(), 1);
    let c = compose(&single_dark(120, 120, 119, 119));
    assert_eq!(c[123 * 128 + 123], (0, 0, 0));
}

#[test]
fn matrix_128_is_placed_at_origin() {
    let c = compose(&single_dark(128, 128, 0, 0));
    assert_eq!(c[0], (0, 0, 0));
    let c = compose(&single_dark(128, 128, 127, 127));
    assert_eq!(c[128 * 128 - 1], (0, 0, 0));
}

#[test]
fn oversized_matrix_is_clipped() {
    // offset is floor((128 - 131) / 2) = -2
    let c = compose(&single_dark(131, 131, 2, 2));
    assert_eq!(c[0], (0, 0, 0));
    let c = compose(&single_dark(131, 131, 1, 1));
    assert!(c.iter().all(|p| *p == (255, 255, 255)));
}

#[test]
fn odd_margin_rounds_down() {
    // (128 - 5) / 2 = 61
    let c = compose(&single_dark(5, 3, 0, 0));
    assert_eq!(c[62 * 128 + 61], (0, 0, 0));
}

#[test]
fn rendering_twice_is_identical() {
    let mut dark = vec![false; 21 * 21];
    for i in (0..dark.len()).step_by(3) {
        dark[i] = true;
    }
    let m = Bitmatrix { width: 21, height: 21, dark };
    let a = render_frame(&m);
    let b = render_frame(&m);
    assert_eq!(a.len(), 128 * 128 * 2);
    assert_eq!(a, b);
    let mut fb = OrbicFramebuffer::new();
    fb.show_matrix(&m);
    assert_eq!(fb.frame, a);
}

#[test]
fn cleared_display_is_all_white() {
    let mut fb = OrbicFramebuffer::new();
    fb.show_matrix(&single_dark(2, 2, 0, 0));
    clear_display(&mut fb);
    assert_eq!(fb.frame.len(), 128 * 128 * 2);
    assert!(fb.frame.iter().all(|b| *b == 0xFF));
}

#[test]
fn luma_zero_is_dark() {
    let m = Bitmatrix::from_luma(2, 2, &[0, 255, 255, 0]);
    assert_eq!(m.dark, vec![true, false, false, true]);
}

#[test]
fn low_bits_are_truncated_in_the_stream() {
    let a = encode_pixels(&[(248, 4, 8), (1, 2, 3)]);
    let b = encode_pixels(&[(255, 7, 15), (7, 3, 7)]);
    assert_eq!(a, b);
    let c = encode_pixels(&[(248, 8, 8), (1, 2, 3)]);
    assert_ne!(a, c);
    let w = u16::from_le_bytes([a[0], a[1]]);
    assert_eq!(w, ((248u16 & 0xF8) << 8) | ((4u16 & 0xFC) << 3) | (8u16 >> 3));
}
