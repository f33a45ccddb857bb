use wifi_qr::credentials::{
    classify_encryption, get_wifi_credentials, parse_hotspot, parse_primary, parse_supplicant,
};
use wifi_qr::payload::Encryption;

const PRIMARY: &str = "<root>
<Basic_0>
  <state>0</state>
  <ssid>off_net</ssid>
  <psk>off_key</psk>
  <security>3</security>
  <encrypt>2</encrypt>
</Basic_0>
<Basic_1>
  <state> 1 </state>
  <ssid>home</ssid>
  <psk>secret;1</psk>
  <security>2</security>
  <encrypt>1</encrypt>
</Basic_1>
</root>";

#[test]
fn primary_picks_active_section() {
    let id = parse_primary(PRIMARY.as_bytes());
    assert_eq!(id.ssid, b"home".to_vec());
    assert_eq!(id.psk, b"secret;1".to_vec());
    assert_eq!(id.encryption, Encryption::Wpa);
}

#[test]
fn primary_fields_do_not_leak_between_sections() {
    let text = "<Basic_0><state>1</state><ssid>first</ssid></Basic_0>\
                <Basic_1><state>1</state><ssid>x</ssid><psk>pk</psk></Basic_1>";
    let id = parse_primary(text.as_bytes());
    assert_eq!(id.ssid, b"first".to_vec());
    assert_eq!(id.psk, Vec::<u8>::new());
    assert_eq!(id.encryption, Encryption::OpenNoPass);
}

#[test]
fn primary_first_active_section_in_file_order() {
    let text = "<Basic_1><state>1</state><ssid>b1</ssid><psk>k1</psk></Basic_1>\
                <Basic_0><state>1</state><ssid>b0</ssid><psk>k0</psk></Basic_0>";
    let id = parse_primary(text.as_bytes());
    assert_eq!(id.ssid, b"b1".to_vec());
}

#[test]
fn primary_without_active_section_is_empty() {
    let text = "<Basic_0><state>0</state><ssid>a</ssid><psk>b</psk></Basic_0>";
    let id = parse_primary(text.as_bytes());
    assert!(id.ssid.is_empty() && id.psk.is_empty());
    assert!(parse_primary(b"").ssid.is_empty());
    let text = "<Basic_0><state>10</state><ssid>a</ssid><psk>b</psk></Basic_0>";
    assert!(parse_primary(text.as_bytes()).ssid.is_empty());
}

#[test]
fn encryption_classification() {
    assert_eq!(classify_encryption(b"3", b"2"), Encryption::Wpa2);
    assert_eq!(classify_encryption(b" 3\n", b"2"), Encryption::Wpa2);
    assert_eq!(classify_encryption(b"3", b"1"), Encryption::OpenNoPass);
    assert_eq!(classify_encryption(b"2", b"9"), Encryption::Wpa);
    assert_eq!(classify_encryption(b"1", b""), Encryption::Wep);
    assert_eq!(classify_encryption(b"0", b"2"), Encryption::OpenNoPass);
    assert_eq!(classify_encryption(b"", b""), Encryption::OpenNoPass);
}

#[test]
fn hotspot_last_line_wins() {
    let text = "interface=wlan0\nssid=first\nwpa_passphrase=one\nssid=second\nbssid=zz\n";
    let id = parse_hotspot(text.as_bytes());
    assert_eq!(id.ssid, b"second".to_vec());
    assert_eq!(id.psk, b"one".to_vec());
}

#[test]
fn supplicant_first_complete_block() {
    let text = "ctrl_interface=/var/run\nnetwork={\n\tssid=\"partial\"\n}\n\
                network={\n\tbssid=00:11\n\tssid=\"cafe\"\n\tpsk=\"pa\\\"ss\"\n\tkey_mgmt=WPA-PSK\n}\n\
                network={\n\tssid=\"later\"\n\tpsk=\"k\"\n}\n";
    let id = parse_supplicant(text.as_bytes());
    assert_eq!(id.ssid, b"cafe".to_vec());
    assert_eq!(id.psk, b"pa\\\"ss".to_vec());
}

#[test]
fn supplicant_without_complete_block_is_empty() {
    let id = parse_supplicant(b"network={\n ssid=\"only\"\n}\n");
    assert!(id.ssid.is_empty() && id.psk.is_empty());
}

#[test]
fn secondary_source_used_when_primary_has_no_name() {
    let primary = "<Basic_0><state>1</state><ssid></ssid><psk>p</psk></Basic_0>";
    let hotspot = "ssid=spot\nwpa_passphrase=spotkey\n";
    let supplicant = "network={\nssid=\"s\"\npsk=\"k\"\n}";
    let id = get_wifi_credentials(primary.as_bytes(), hotspot.as_bytes(), supplicant.as_bytes());
    assert_eq!(id.ssid, b"spot".to_vec());
    assert_eq!(id.psk, b"spotkey".to_vec());
}

#[test]
fn sources_in_priority_order() {
    let supplicant = "network={\nssid=\"s\"\npsk=\"k\"\n}";
    let id = get_wifi_credentials(PRIMARY.as_bytes(), b"ssid=spot\nwpa_passphrase=x\n", supplicant.as_bytes());
    assert_eq!(id.ssid, b"home".to_vec());
    let id = get_wifi_credentials(b"", b"ssid=spot\n", supplicant.as_bytes());
    assert_eq!(id.ssid, b"s".to_vec());
    assert_eq!(id.psk, b"k".to_vec());
    let id = get_wifi_credentials(b"", b"", b"");
    assert!(id.ssid.is_empty() && id.psk.is_empty());
}
