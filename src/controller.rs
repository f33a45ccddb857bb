//! Decisions of the display controller that sit between the classifier and
//! the renderer.
use vstd::prelude::*;
use crate::payload::{generate_wifi_qr_code, payload_spec, NetworkIdentity};

verus! {

/// How long a QR code stays on the display, in milliseconds.
pub const DISPLAY_DURATION_MS: u64 = 30000;

/// Interval between rewrites of the displayed frame, in milliseconds.
pub const REFRESH_INTERVAL_MS: u64 = 100;

/// Number of rewrites over one display period.
pub const REFRESH_COUNT: u64 = 300;

/// Delay before retrying a failed read of the event source, in milliseconds.
pub const READ_RETRY_DELAY_MS: u64 = 50;

/// The refresh rewrites span exactly one display period.
pub proof fn lemma_refresh_spans_display_period()
    ensures
        REFRESH_COUNT * REFRESH_INTERVAL_MS == DISPLAY_DURATION_MS,
{
}

/// The payload to show for an identity, or `None` where the identity lacks
/// a name or a key and nothing is shown.
pub fn payload_for_identity(id: &NetworkIdentity) -> (r: Option<Vec<u8>>)
    ensures
        match r {
            Some(p) => id.ssid@.len() > 0 && id.psk@.len() > 0
                && p@ == payload_spec(id.ssid@, id.psk@, id.encryption),
            None => !(id.ssid@.len() > 0 && id.psk@.len() > 0),
        },
{
    if id.is_usable() {
        Some(generate_wifi_qr_code(id.ssid.as_slice(), id.psk.as_slice(), id.encryption))
    } else {
        None
    }
}

} // verus!
