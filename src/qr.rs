//! QR encoding of a payload, through the qrcode and image crates, and its
//! display.
use vstd::prelude::*;
use image::Luma;
use qrcode::{EcLevel, QrCode};
use crate::frame::{frame_of, Bitmatrix, OrbicFramebuffer};

verus! {

/// Largest width and height, in pixels, requested of the QR image.
pub const QR_MAX_DIM: u32 = 120;

/// Whether a QR code at the lowest error-correction level can hold `data`.
pub uninterp spec fn qr_fits_low(data: Seq<u8>) -> bool;

/// The side length and the row-major 8-bit grey pixels of the QR image for
/// `data` at the lowest error-correction level, rendered within `max_dim`.
pub uninterp spec fn qr_luma_of(data: Seq<u8>, max_dim: u32) -> (u32, Seq<u8>);

/// Relies on qrcode's `QrCode::with_error_correction_level` at level L, which
/// fails exactly on data that no QR version can hold, and on its renderer
/// into image's `ImageBuffer<Luma<u8>, _>` (`render`, `max_dimensions`,
/// `build`, `dimensions`, `into_raw`): a square image, one byte per pixel,
/// row-major, each pixel the default dark (0) or light (255) grey.
#[verifier::external_body]
fn encode_and_render(data: &[u8], max_dim: u32) -> (r: Option<(u32, u32, Vec<u8>)>)
    ensures
        r is Some <==> qr_fits_low(data@),
        r matches Some(t) ==> t.0 == t.1 && t.0 == qr_luma_of(data@, max_dim).0 && t.2@
            == qr_luma_of(data@, max_dim).1,
        r matches Some(t) ==> t.2@.len() == t.0 as int * t.1 as int,
        r matches Some(t) ==> forall|i: int| 0 <= i < t.2@.len() ==> t.2@[i] == 0 || t.2@[i] == 255,
{
    match QrCode::with_error_correction_level(data, EcLevel::L) {
        Ok(code) => {
            let img = code.render::<Luma<u8>>().max_dimensions(max_dim, max_dim).build();
            let (w, h) = img.dimensions();
            Some((w, h, img.into_raw()))
        },
        Err(_) => None,
    }
}

/// Whether `m` is the QR bit-matrix of `text`: the QR image's side length,
/// with a dark cell exactly where the image's pixel is 0.
pub open spec fn is_qr_matrix_of(m: Bitmatrix, text: Seq<u8>) -> bool {
    let (side, luma) = qr_luma_of(text, QR_MAX_DIM);
    &&& m.wf()
    &&& m.width == side as usize
    &&& m.height == side as usize
    &&& m.dark@.len() == luma.len()
    &&& forall|i: int| 0 <= i < m.dark@.len() ==> m.dark@[i] == (luma[i] == 0)
}

/// The QR bit-matrix of a payload, or `None` where the encoder refuses it.
pub fn qr_bitmatrix(text: &[u8]) -> (r: Option<Bitmatrix>)
    ensures
        r is Some <==> qr_fits_low(text@),
        r matches Some(m) ==> is_qr_matrix_of(m, text@),
{
    match encode_and_render(text, QR_MAX_DIM) {
        Some((w, h, luma)) => Some(Bitmatrix::from_luma(w as usize, h as usize, luma.as_slice())),
        None => None,
    }
}

/// Encodes a payload as a QR code and shows it centred on the display.
/// Where the encoder refuses the payload the frame is left as it was and
/// `false` is returned.
pub fn display_qr_code(fb: &mut OrbicFramebuffer, qr_text: &[u8]) -> (shown: bool)
    ensures
        shown == qr_fits_low(qr_text@),
        shown ==> exists|m: Bitmatrix| is_qr_matrix_of(m, qr_text@) && final(fb).frame@ == frame_of(m),
        !shown ==> final(fb).frame@ == old(fb).frame@,
{
    match qr_bitmatrix(qr_text) {
        Some(m) => {
            fb.show_matrix(&m);
            true
        },
        None => false,
    }
}

/// All matrices that are the QR bit-matrix of one text give the same frame.
pub proof fn lemma_qr_frame_unique(m1: Bitmatrix, m2: Bitmatrix, text: Seq<u8>)
    requires
        is_qr_matrix_of(m1, text),
        is_qr_matrix_of(m2, text),
    ensures
        frame_of(m1) == frame_of(m2),
{
    let luma = qr_luma_of(text, QR_MAX_DIM).1;
    assert forall|i: int| 0 <= i < m1.dark@.len() implies m1.dark@[i] == m2.dark@[i] by {
        assert(m1.dark@[i] == (luma[i] == 0));
        assert(m2.dark@[i] == (luma[i] == 0));
    }
    assert(m1.dark@ =~= m2.dark@);
    crate::frame::lemma_render_deterministic(m1, m2);
}

} // verus!
