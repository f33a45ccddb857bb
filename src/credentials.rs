//! The active network identity, read from the device's configuration texts.
use vstd::prelude::*;
use crate::payload::{usable, Encryption, NetworkIdentity};
use crate::text::{
    copy_range, field, field_value, find, find_from, flag_equals, is_flag, last_line_value,
    last_value, lemma_find_from_found, QUOTE,
};

verus! {

/// `Basic_0`: the first network section.
pub open spec fn basic0_spec() -> Seq<u8> {
    seq![66u8, 97u8, 115u8, 105u8, 99u8, 95u8, 48u8]
}

/// `Basic_0`: the first network section.
pub fn basic0() -> (r: Vec<u8>)
    ensures
        r@ == basic0_spec(),
{
    let r = vec![66u8, 97u8, 115u8, 105u8, 99u8, 95u8, 48u8];
    assert(r@ =~= basic0_spec());
    r
}

/// `Basic_1`: the second network section.
pub open spec fn basic1_spec() -> Seq<u8> {
    seq![66u8, 97u8, 115u8, 105u8, 99u8, 95u8, 49u8]
}

/// `Basic_1`: the second network section.
pub fn basic1() -> (r: Vec<u8>)
    ensures
        r@ == basic1_spec(),
{
    let r = vec![66u8, 97u8, 115u8, 105u8, 99u8, 95u8, 49u8];
    assert(r@ =~= basic1_spec());
    r
}

/// `state`: a section's active flag.
pub open spec fn state_spec() -> Seq<u8> {
    seq![115u8, 116u8, 97u8, 116u8, 101u8]
}

/// `state`: a section's active flag.
pub fn state() -> (r: Vec<u8>)
    ensures
        r@ == state_spec(),
{
    let r = vec![115u8, 116u8, 97u8, 116u8, 101u8];
    assert(r@ =~= state_spec());
    r
}

/// `ssid`: a section's network name.
pub open spec fn ssid_spec() -> Seq<u8> {
    seq![115u8, 115u8, 105u8, 100u8]
}

/// `ssid`: a section's network name.
pub fn ssid() -> (r: Vec<u8>)
    ensures
        r@ == ssid_spec(),
{
    let r = vec![115u8, 115u8, 105u8, 100u8];
    assert(r@ =~= ssid_spec());
    r
}

/// `psk`: a section's pre-shared key.
pub open spec fn psk_spec() -> Seq<u8> {
    seq![112u8, 115u8, 107u8]
}

/// `psk`: a section's pre-shared key.
pub fn psk() -> (r: Vec<u8>)
    ensures
        r@ == psk_spec(),
{
    let r = vec![112u8, 115u8, 107u8];
    assert(r@ =~= psk_spec());
    r
}

/// `security`: a section's security mode.
pub open spec fn security_spec() -> Seq<u8> {
    seq![115u8, 101u8, 99u8, 117u8, 114u8, 105u8, 116u8, 121u8]
}

/// `security`: a section's security mode.
pub fn security() -> (r: Vec<u8>)
    ensures
        r@ == security_spec(),
{
    let r = vec![115u8, 101u8, 99u8, 117u8, 114u8, 105u8, 116u8, 121u8];
    assert(r@ =~= security_spec());
    r
}

/// `encrypt`: a section's cipher.
pub open spec fn encrypt_spec() -> Seq<u8> {
    seq![101u8, 110u8, 99u8, 114u8, 121u8, 112u8, 116u8]
}

/// `encrypt`: a section's cipher.
pub fn encrypt() -> (r: Vec<u8>)
    ensures
        r@ == encrypt_spec(),
{
    let r = vec![101u8, 110u8, 99u8, 114u8, 121u8, 112u8, 116u8];
    assert(r@ =~= encrypt_spec());
    r
}

/// `ssid=`: the network-name line key.
pub open spec fn ssid_key_spec() -> Seq<u8> {
    seq![115u8, 115u8, 105u8, 100u8, 61u8]
}

/// `ssid=`: the network-name line key.
pub fn ssid_key() -> (r: Vec<u8>)
    ensures
        r@ == ssid_key_spec(),
{
    let r = vec![115u8, 115u8, 105u8, 100u8, 61u8];
    assert(r@ =~= ssid_key_spec());
    r
}

/// `wpa_passphrase=`: the hotspot passphrase line key.
pub open spec fn passphrase_key_spec() -> Seq<u8> {
    seq![119u8, 112u8, 97u8, 95u8, 112u8, 97u8, 115u8, 115u8, 112u8, 104u8, 114u8, 97u8, 115u8, 101u8, 61u8]
}

/// `wpa_passphrase=`: the hotspot passphrase line key.
pub fn passphrase_key() -> (r: Vec<u8>)
    ensures
        r@ == passphrase_key_spec(),
{
    let r = vec![119u8, 112u8, 97u8, 95u8, 112u8, 97u8, 115u8, 115u8, 112u8, 104u8, 114u8, 97u8, 115u8, 101u8, 61u8];
    assert(r@ =~= passphrase_key_spec());
    r
}

/// `psk=`: the supplicant key line key.
pub open spec fn psk_key_spec() -> Seq<u8> {
    seq![112u8, 115u8, 107u8, 61u8]
}

/// `psk=`: the supplicant key line key.
pub fn psk_key() -> (r: Vec<u8>)
    ensures
        r@ == psk_key_spec(),
{
    let r = vec![112u8, 115u8, 107u8, 61u8];
    assert(r@ =~= psk_key_spec());
    r
}

/// `network={`: the start of a supplicant network block.
pub open spec fn network_open_spec() -> Seq<u8> {
    seq![110u8, 101u8, 116u8, 119u8, 111u8, 114u8, 107u8, 61u8, 123u8]
}

/// `network={`: the start of a supplicant network block.
pub fn network_open() -> (r: Vec<u8>)
    ensures
        r@ == network_open_spec(),
{
    let r = vec![110u8, 101u8, 116u8, 119u8, 111u8, 114u8, 107u8, 61u8, 123u8];
    assert(r@ =~= network_open_spec());
    r
}

/// `}`: the end of a supplicant network block.
pub open spec fn block_close_spec() -> Seq<u8> {
    seq![125u8]
}

/// `}`: the end of a supplicant network block.
pub fn block_close() -> (r: Vec<u8>)
    ensures
        r@ == block_close_spec(),
{
    let r = vec![125u8];
    assert(r@ =~= block_close_spec());
    r
}

/// `1`
pub const FLAG_ONE: u8 = 49;
/// `2`
pub const FLAG_TWO: u8 = 50;
/// `3`
pub const FLAG_THREE: u8 = 51;

/// The identity reported when no source names a usable network.
pub open spec fn empty_identity() -> (Seq<u8>, Seq<u8>, Encryption) {
    (Seq::empty(), Seq::empty(), Encryption::Wpa2)
}

/// An identity with no name and no key.
pub fn no_identity() -> (r: NetworkIdentity)
    ensures
        r@ == empty_identity(),
{
    NetworkIdentity { ssid: Vec::new(), psk: Vec::new(), encryption: Encryption::Wpa2 }
}

/// The position of section `<name>` in `h` and its body: the text up to the
/// first `</name>` after it, or to the end of `h`.
pub open spec fn section(h: Seq<u8>, name: Seq<u8>) -> Option<(int, Seq<u8>)> {
    let o = crate::text::open_tag(name);
    match find_from(h, o, 0) {
        Some(s) => {
            let b = s + o.len();
            let e = match find_from(h, crate::text::close_tag(name), b) {
                Some(e) => e,
                None => h.len() as int,
            };
            Some((s, h.subrange(b, e)))
        },
        None => None,
    }
}

/// Whether a section's `state` flag is `1`.
pub open spec fn is_active(body: Seq<u8>) -> bool {
    is_flag(field(body, state_spec()), FLAG_ONE)
}

/// The body of the active section that comes first in the text, if any.
pub open spec fn active_section(h: Seq<u8>) -> Option<Seq<u8>> {
    let a = section(h, basic0_spec());
    let b = section(h, basic1_spec());
    let a_on = a is Some && is_active(a.unwrap().1);
    let b_on = b is Some && is_active(b.unwrap().1);
    if a_on && (!b_on || a.unwrap().0 <= b.unwrap().0) {
        Some(a.unwrap().1)
    } else if b_on {
        Some(b.unwrap().1)
    } else {
        None
    }
}

/// The encryption kind given by a section's security mode and cipher.
pub open spec fn encryption_of(security: Seq<u8>, encrypt: Seq<u8>) -> Encryption {
    if is_flag(security, FLAG_THREE) && is_flag(encrypt, FLAG_TWO) {
        Encryption::Wpa2
    } else if is_flag(security, FLAG_TWO) {
        Encryption::Wpa
    } else if is_flag(security, FLAG_ONE) {
        Encryption::Wep
    } else {
        Encryption::OpenNoPass
    }
}

/// The identity given by the primary tagged configuration.
pub open spec fn primary_identity(h: Seq<u8>) -> (Seq<u8>, Seq<u8>, Encryption) {
    match active_section(h) {
        Some(body) => (
            field(body, ssid_spec()),
            field(body, psk_spec()),
            encryption_of(field(body, security_spec()), field(body, encrypt_spec())),
        ),
        None => empty_identity(),
    }
}

/// A section's position and body, if the section is present.
fn find_section(h: &[u8], name: &[u8]) -> (r: Option<(usize, Vec<u8>)>)
    ensures
        match r {
            Some((s, body)) => section(h@, name@) == Some((s as int, body@)),
            None => section(h@, name@) is None,
        },
{
    let hl = h.len();
    let o = crate::text::make_open_tag(name);
    let c = crate::text::make_close_tag(name);
    match find(h, o.as_slice(), 0) {
        Some(s) => {
            proof {
                lemma_find_from_found(h@, o@, 0);
            }
            let b = s + o.len();
            let e = match find(h, c.as_slice(), b) {
                Some(e) => {
                    proof {
                        lemma_find_from_found(h@, c@, b as int);
                    }
                    e
                },
                None => hl,
            };
            Some((s, copy_range(h, b, e)))
        },
        None => None,
    }
}

/// Whether a section body's `state` flag is `1`.
fn section_active(body: &[u8]) -> (r: bool)
    ensures
        r == is_active(body@),
{
    let st = state();
    let v = field_value(body, st.as_slice());
    flag_equals(v.as_slice(), FLAG_ONE)
}

/// The encryption kind given by a section's security mode and cipher.
pub fn classify_encryption(security: &[u8], encrypt: &[u8]) -> (r: Encryption)
    ensures
        r == encryption_of(security@, encrypt@),
{
    if flag_equals(security, FLAG_THREE) && flag_equals(encrypt, FLAG_TWO) {
        Encryption::Wpa2
    } else if flag_equals(security, FLAG_TWO) {
        Encryption::Wpa
    } else if flag_equals(security, FLAG_ONE) {
        Encryption::Wep
    } else {
        Encryption::OpenNoPass
    }
}

/// Reads the identity of the first active section of the primary tagged
/// configuration; empty where no section is active.
pub fn parse_primary(h: &[u8]) -> (r: NetworkIdentity)
    ensures
        r@ == primary_identity(h@),
{
    let n0 = basic0();
    let n1 = basic1();
    let a = find_section(h, n0.as_slice());
    let b = find_section(h, n1.as_slice());
    let a_on = match &a {
        Some((_, body)) => section_active(body.as_slice()),
        None => false,
    };
    let b_on = match &b {
        Some((_, body)) => section_active(body.as_slice()),
        None => false,
    };
    let a_first = match (&a, &b) {
        (Some((sa, _)), Some((sb, _))) => *sa <= *sb,
        _ => true,
    };
    let chosen: Option<Vec<u8>> = if a_on && (!b_on || a_first) {
        match a {
            Some((_, body)) => Some(body),
            None => None,
        }
    } else if b_on {
        match b {
            Some((_, body)) => Some(body),
            None => None,
        }
    } else {
        None
    };
    assert(match chosen {
        Some(body) => active_section(h@) == Some(body@),
        None => active_section(h@) is None,
    });
    match chosen {
        Some(body) => {
            let k_ssid = ssid();
            let k_psk = psk();
            let k_sec = security();
            let k_enc = encrypt();
            let sec = field_value(body.as_slice(), k_sec.as_slice());
            let enc = field_value(body.as_slice(), k_enc.as_slice());
            NetworkIdentity {
                ssid: field_value(body.as_slice(), k_ssid.as_slice()),
                psk: field_value(body.as_slice(), k_psk.as_slice()),
                encryption: classify_encryption(sec.as_slice(), enc.as_slice()),
            }
        },
        None => no_identity(),
    }
}

/// A value, or empty where there is none.
pub open spec fn or_empty(v: Option<Seq<u8>>) -> Seq<u8> {
    match v {
        Some(x) => x,
        None => Seq::empty(),
    }
}

fn or_empty_exec(v: Option<Vec<u8>>) -> (r: Vec<u8>)
    ensures
        r@ == or_empty(match v {
            Some(x) => Some(x@),
            None => None,
        }),
{
    match v {
        Some(x) => x,
        None => Vec::new(),
    }
}

/// The value of the last `key=` line of `h`, empty where none carries it.
fn last_value_or_empty(h: &[u8], key: &[u8]) -> (r: Vec<u8>)
    ensures
        r@ == or_empty(last_value(h@, key@, 0)),
{
    or_empty_exec(last_line_value(h, key))
}

/// The identity given by the line-oriented hotspot configuration: the last
/// `ssid=` line and the last `wpa_passphrase=` line.
pub open spec fn hotspot_identity(h: Seq<u8>) -> (Seq<u8>, Seq<u8>, Encryption) {
    (
        or_empty(last_value(h, ssid_key_spec(), 0)),
        or_empty(last_value(h, passphrase_key_spec(), 0)),
        Encryption::Wpa2,
    )
}

/// Reads the identity of the line-oriented hotspot configuration. A
/// passphrase there is a WPA2 pre-shared key.
pub fn parse_hotspot(h: &[u8]) -> (r: NetworkIdentity)
    ensures
        r@ == hotspot_identity(h@),
{
    let k_ssid = ssid_key();
    let k_pass = passphrase_key();
    NetworkIdentity {
        ssid: last_value_or_empty(h, k_ssid.as_slice()),
        psk: last_value_or_empty(h, k_pass.as_slice()),
        encryption: Encryption::Wpa2,
    }
}

/// `v` without one leading and one trailing double quote, where present.
pub open spec fn unquote(v: Seq<u8>) -> Seq<u8> {
    let a = if v.len() > 0 && v[0] == QUOTE {
        v.drop_first()
    } else {
        v
    };
    if a.len() > 0 && a.last() == QUOTE {
        a.drop_last()
    } else {
        a
    }
}

/// Strips one leading and one trailing double quote, where present.
pub fn unquote_exec(v: &[u8]) -> (r: Vec<u8>)
    ensures
        r@ == unquote(v@),
{
    let mut lo: usize = 0;
    let mut hi: usize = v.len();
    if hi > 0 && v[0] == QUOTE {
        lo = 1;
    }
    if hi > lo && v[hi - 1] == QUOTE {
        hi = hi - 1;
    }
    let r = copy_range(v, lo, hi);
    assert(r@ =~= unquote(v@));
    r
}

/// The name and key of a supplicant network block's body.
pub open spec fn block_identity(body: Seq<u8>) -> (Seq<u8>, Seq<u8>) {
    (
        unquote(or_empty(last_value(body, ssid_key_spec(), 0))),
        unquote(or_empty(last_value(body, psk_key_spec(), 0))),
    )
}

/// The name and key of the first `network={...}` block from `i` on that
/// carries both.
pub open spec fn supplicant_from(h: Seq<u8>, i: int) -> Option<(Seq<u8>, Seq<u8>)>
    decreases h.len() - i via supplicant_from_decreases
{
    if i < 0 || i >= h.len() {
        None
    } else {
        match find_from(h, network_open_spec(), i) {
            Some(s) => {
                let b = s + network_open_spec().len();
                let e = match find_from(h, block_close_spec(), b) {
                    Some(e) => e,
                    None => h.len() as int,
                };
                let id = block_identity(h.subrange(b, e));
                if id.0.len() > 0 && id.1.len() > 0 {
                    Some(id)
                } else if e < h.len() {
                    supplicant_from(h, e + 1)
                } else {
                    None
                }
            },
            None => None,
        }
    }
}

#[via_fn]
proof fn supplicant_from_decreases(h: Seq<u8>, i: int) {
    lemma_find_from_found(h, network_open_spec(), i);
    if let Some(s) = find_from(h, network_open_spec(), i) {
        lemma_find_from_found(h, block_close_spec(), s + network_open_spec().len());
    }
}

/// The identity given by the block-oriented supplicant configuration.
pub open spec fn supplicant_identity(h: Seq<u8>) -> (Seq<u8>, Seq<u8>, Encryption) {
    match supplicant_from(h, 0) {
        Some(id) => (id.0, id.1, Encryption::Wpa2),
        None => empty_identity(),
    }
}

/// Reads the identity of the first complete network block of the
/// supplicant configuration. A `psk` there is a WPA2 pre-shared key.
pub fn parse_supplicant(h: &[u8]) -> (r: NetworkIdentity)
    ensures
        r@ == supplicant_identity(h@),
{
    let hl = h.len();
    let open = network_open();
    let close = block_close();
    let k_ssid = ssid_key();
    let k_psk = psk_key();
    let mut i: usize = 0;
    while i < hl
        invariant
            hl == h@.len(),
            i <= hl,
            open@ == network_open_spec(),
            close@ == block_close_spec(),
            k_ssid@ == ssid_key_spec(),
            k_psk@ == psk_key_spec(),
            supplicant_from(h@, 0) == supplicant_from(h@, i as int),
        decreases hl - i,
    {
        match find(h, open.as_slice(), i) {
            Some(s) => {
                proof {
                    lemma_find_from_found(h@, open@, i as int);
                }
                let b = s + open.len();
                let e = match find(h, close.as_slice(), b) {
                    Some(e) => {
                        proof {
                            lemma_find_from_found(h@, close@, b as int);
                        }
                        e
                    },
                    None => hl,
                };
                let body = copy_range(h, b, e);
                let v_ssid = last_value_or_empty(body.as_slice(), k_ssid.as_slice());
                let v_psk = last_value_or_empty(body.as_slice(), k_psk.as_slice());
                let name = unquote_exec(v_ssid.as_slice());
                let key = unquote_exec(v_psk.as_slice());
                if name.len() > 0 && key.len() > 0 {
                    return NetworkIdentity { ssid: name, psk: key, encryption: Encryption::Wpa2 };
                }
                if e < hl {
                    i = e + 1;
                } else {
                    return no_identity();
                }
            },
            None => {
                return no_identity();
            },
        }
    }
    no_identity()
}

/// The first usable identity among the primary, hotspot and supplicant
/// configurations, in that order; empty where none is usable.
pub open spec fn credentials_spec(primary: Seq<u8>, hotspot: Seq<u8>, supplicant: Seq<u8>) -> (
    Seq<u8>,
    Seq<u8>,
    Encryption,
) {
    if usable(primary_identity(primary)) {
        primary_identity(primary)
    } else if usable(hotspot_identity(hotspot)) {
        hotspot_identity(hotspot)
    } else if usable(supplicant_identity(supplicant)) {
        supplicant_identity(supplicant)
    } else {
        empty_identity()
    }
}

/// Returns the active network identity from the three configuration texts
/// (missing sources are passed as empty texts): the first source that yields
/// both a name and a key wins.
pub fn get_wifi_credentials(primary: &[u8], hotspot: &[u8], supplicant: &[u8]) -> (r: NetworkIdentity)
    ensures
        r@ == credentials_spec(primary@, hotspot@, supplicant@),
{
    let p = parse_primary(primary);
    if p.is_usable() {
        return p;
    }
    let h = parse_hotspot(hotspot);
    if h.is_usable() {
        return h;
    }
    let s = parse_supplicant(supplicant);
    if s.is_usable() {
        return s;
    }
    no_identity()
}

/// Where the primary configuration yields no network name and the hotspot
/// configuration yields both a name and a key, the hotspot's identity is
/// the one returned.
pub proof fn lemma_secondary_source_used(primary: Seq<u8>, hotspot: Seq<u8>, supplicant: Seq<u8>)
    requires
        primary_identity(primary).0.len() == 0,
        usable(hotspot_identity(hotspot)),
    ensures
        credentials_spec(primary, hotspot, supplicant) == hotspot_identity(hotspot),
{
}

} // verus!
