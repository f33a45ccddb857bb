use wifi_qr::controller::payload_for_identity;
use wifi_qr::payload::{escape_field, generate_wifi_qr_code, Encryption, NetworkIdentity};

#[test]
fn payload_escapes_fields() {
    let p = generate_wifi_qr_code(b"a;b", b"p,\"q", Encryption::Wpa2);
    assert_eq!(String::from_utf8(p).unwrap(), "WIFI:T:WPA2;S:a\\;b;P:p\\,\\\"q;;");
}

#[test]
fn payload_names_each_encryption() {
    let p = generate_wifi_qr_code(b"net", b"key", Encryption::Wpa);
    assert_eq!(p, b"WIFI:T:WPA;S:net;P:key;;".to_vec());
    let p = generate_wifi_qr_code(b"net", b"key", Encryption::Wep);
    assert_eq!(p, b"WIFI:T:WEP;S:net;P:key;;".to_vec());
    let p = generate_wifi_qr_code(b"net", b"", Encryption::OpenNoPass);
    assert_eq!(p, b"WIFI:T:nopass;S:net;P:;;".to_vec());
}

#[test]
fn backslash_is_escaped_once() {
    assert_eq!(escape_field(b"a\\b"), b"a\\\\b".to_vec());
    assert_eq!(escape_field(b";\""), b"\\;\\\"".to_vec());
    assert_eq!(escape_field(b"x:y"), b"x\\:y".to_vec());
    assert_eq!(escape_field(b""), Vec::<u8>::new());
    assert_eq!(escape_field("caf\u{e9}".as_bytes()), "caf\u{e9}".as_bytes().to_vec());
}

#[test]
fn unusable_identity_has_no_payload() {
    let id = NetworkIdentity { ssid: b"net".to_vec(), psk: Vec::new(), encryption: Encryption::Wpa2 };
    assert!(!id.is_usable());
    assert_eq!(payload_for_identity(&id), None);
    let id = NetworkIdentity { ssid: Vec::new(), psk: b"k".to_vec(), encryption: Encryption::Wpa2 };
    assert_eq!(payload_for_identity(&id), None);
    let id = NetworkIdentity { ssid: b"n".to_vec(), psk: b"k".to_vec(), encryption: Encryption::Wep };
    assert_eq!(payload_for_identity(&id), Some(b"WIFI:T:WEP;S:n;P:k;;".to_vec()));
}
