use wifi_qr::frame::{render_frame, OrbicFramebuffer};
use wifi_qr::payload::{generate_wifi_qr_code, Encryption};
use wifi_qr::qr::{display_qr_code, qr_bitmatrix};

#[test]
fn payload_encodes_to_square_matrix() {
    let p = generate_wifi_qr_code(b"home", b"secret", Encryption::Wpa2);
    let m = qr_bitmatrix(&p).unwrap();
    assert_eq!(m.width, m.height);
    assert!(m.width > 0 && m.width <= 120);
    assert_eq!(m.dark.len(), m.width * m.height);
    assert!(m.dark.iter().any(|d| *d));
    assert!(m.dark.iter().any(|d| !*d));
    // the quiet zone is light
    assert!(!m.dark[0]);
}

#[test]
fn displayed_qr_matches_rendered_frame() {
    let p = generate_wifi_qr_code(b"home", b"secret", Encryption::Wpa2);
    let mut fb = OrbicFramebuffer::new();
    assert!(display_qr_code(&mut fb, &p));
    let m = qr_bitmatrix(&p).unwrap();
    assert_eq!(fb.frame, render_frame(&m));
    assert!(fb.frame.iter().any(|b| *b == 0));
}

#[test]
fn oversized_payload_is_refused() {
    let p = vec![0xA5u8; 4000];
    assert!(qr_bitmatrix(&p).is_none());
    let mut fb = OrbicFramebuffer::new();
    assert!(!display_qr_code(&mut fb, &p));
    assert!(fb.frame.is_empty());
}
