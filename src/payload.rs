//! The WiFi-QR text payload for a network identity.
use vstd::prelude::*;

verus! {

/// The kind of protection a network uses.
#[derive(Debug, Clone, Copy, PartialEq, Eq, Structural)]
pub enum Encryption {
    Wpa,
    Wpa2,
    Wep,
    OpenNoPass,
}

/// A network's name, pre-shared key and protection, as raw bytes.
#[derive(Debug)]
pub struct NetworkIdentity {
    pub ssid: Vec<u8>,
    pub psk: Vec<u8>,
    pub encryption: Encryption,
}

impl View for NetworkIdentity {
    type V = (Seq<u8>, Seq<u8>, Encryption);

    open spec fn view(&self) -> (Seq<u8>, Seq<u8>, Encryption) {
        (self.ssid@, self.psk@, self.encryption)
    }
}

/// Whether an identity's name and key are both non-empty.
pub open spec fn usable(id: (Seq<u8>, Seq<u8>, Encryption)) -> bool {
    id.0.len() > 0 && id.1.len() > 0
}

impl NetworkIdentity {
    /// An identity is usable only when both name and key are present.
    pub open spec fn usable_spec(&self) -> bool {
        self.ssid@.len() > 0 && self.psk@.len() > 0
    }

    /// Whether both the name and the key are non-empty.
    pub fn is_usable(&self) -> (r: bool)
        ensures
            r == self.usable_spec(),
    {
        self.ssid.len() > 0 && self.psk.len() > 0
    }
}

/// Appends `bytes` to `out`.
pub fn extend_bytes(out: &mut Vec<u8>, bytes: &[u8])
    ensures
        final(out)@ == old(out)@ + bytes@,
{
    let mut i: usize = 0;
    while i < bytes.len()
        invariant
            i <= bytes@.len(),
            out@ == old(out)@ + bytes@.subrange(0, i as int),
        decreases bytes@.len() - i,
    {
        out.push(bytes[i]);
        i = i + 1;
        assert(out@ =~= old(out)@ + bytes@.subrange(0, i as int));
    }
    assert(bytes@.subrange(0, i as int) =~= bytes@);
}

/// The name an encryption kind carries in the payload.
pub open spec fn encryption_name(e: Encryption) -> Seq<u8> {
    match e {
        Encryption::Wpa => seq![87u8, 80u8, 65u8],  // WPA
        Encryption::Wpa2 => seq![87u8, 80u8, 65u8, 50u8],  // WPA2
        Encryption::Wep => seq![87u8, 69u8, 80u8],  // WEP
        Encryption::OpenNoPass => seq![110u8, 111u8, 112u8, 97u8, 115u8, 115u8],  // nopass
    }
}

/// The name an encryption kind carries in the payload.
pub fn encryption_label(e: Encryption) -> (r: Vec<u8>)
    ensures
        r@ == encryption_name(e),
{
    let r = match e {
        Encryption::Wpa => vec![87u8, 80u8, 65u8],  // WPA
        Encryption::Wpa2 => vec![87u8, 80u8, 65u8, 50u8],  // WPA2
        Encryption::Wep => vec![87u8, 69u8, 80u8],  // WEP
        Encryption::OpenNoPass => vec![110u8, 111u8, 112u8, 97u8, 115u8, 115u8],  // nopass
    };
    assert(r@ =~= encryption_name(e));
    r
}

/// `\`
pub const BACKSLASH: u8 = 92;
/// `;`
pub const SEMICOLON: u8 = 59;
/// `,`
pub const COMMA: u8 = 44;
/// `"`
pub const DOUBLE_QUOTE: u8 = 34;
/// `:`
pub const COLON: u8 = 58;

/// Bytes that must be preceded by a backslash inside a payload field.
pub open spec fn is_special(c: u8) -> bool {
    c == BACKSLASH || c == SEMICOLON || c == COMMA || c == DOUBLE_QUOTE || c == COLON
}

/// Whether `c` must be preceded by a backslash inside a payload field.
pub fn is_special_byte(c: u8) -> (r: bool)
    ensures
        r == is_special(c),
{
    c == BACKSLASH || c == SEMICOLON || c == COMMA || c == DOUBLE_QUOTE || c == COLON
}

/// A field with each special byte preceded by a backslash.
pub open spec fn escape_spec(s: Seq<u8>) -> Seq<u8>
    decreases s.len(),
{
    if s.len() == 0 {
        Seq::empty()
    } else {
        let c = s.last();
        escape_spec(s.drop_last()) + if is_special(c) {
            seq![BACKSLASH, c]
        } else {
            seq![c]
        }
    }
}

/// Escapes a payload field: backslash, semicolon, comma, double quote and
/// colon each get a backslash in front.
pub fn escape_field(s: &[u8]) -> (r: Vec<u8>)
    ensures
        r@ == escape_spec(s@),
{
    let mut out: Vec<u8> = Vec::new();
    let mut i: usize = 0;
    while i < s.len()
        invariant
            i <= s@.len(),
            out@ == escape_spec(s@.subrange(0, i as int)),
        decreases s@.len() - i,
    {
        let c = s[i];
        proof {
            assert(s@.subrange(0, i + 1).drop_last() =~= s@.subrange(0, i as int));
        }
        if is_special_byte(c) {
            out.push(BACKSLASH);
        }
        out.push(c);
        i = i + 1;
        assert(out@ =~= escape_spec(s@.subrange(0, i as int)));
    }
    assert(s@.subrange(0, i as int) =~= s@);
    out
}

/// `WIFI:T:<enc>;S:<ssid>;P:<psk>;;` with both fields escaped.
// The literal parts are `WIFI:T:`, `;S:`, `;P:` and `;;`.
pub open spec fn payload_spec(ssid: Seq<u8>, psk: Seq<u8>, e: Encryption) -> Seq<u8> {
    seq![87u8, 73u8, 70u8, 73u8, 58u8, 84u8, 58u8] + encryption_name(e) + seq![59u8, 83u8, 58u8]
        + escape_spec(ssid) + seq![59u8, 80u8, 58u8] + escape_spec(psk) + seq![59u8, 59u8]
}

/// Builds the WiFi-QR text payload for a network identity.
pub fn generate_wifi_qr_code(ssid: &[u8], password: &[u8], encryption: Encryption) -> (r: Vec<u8>)
    ensures
        r@ == payload_spec(ssid@, password@, encryption),
{
    let mut out: Vec<u8> = Vec::new();
    extend_bytes(&mut out, &[87u8, 73u8, 70u8, 73u8, 58u8, 84u8, 58u8]);  // WIFI:T:
    let label = encryption_label(encryption);
    extend_bytes(&mut out, label.as_slice());
    extend_bytes(&mut out, &[59u8, 83u8, 58u8]);  // ;S:
    let s = escape_field(ssid);
    extend_bytes(&mut out, s.as_slice());
    extend_bytes(&mut out, &[59u8, 80u8, 58u8]);  // ;P:
    let p = escape_field(password);
    extend_bytes(&mut out, p.as_slice());
    extend_bytes(&mut out, &[59u8, 59u8]);  // ;;
    out
}

} // verus!
