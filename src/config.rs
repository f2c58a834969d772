//! The service configuration and the validity rule for device addresses.

use vstd::prelude::*;
use vstd::string::StrSliceExecFns;

verus! {

/// Where to listen, and the devices to serve as (label, MAC address) pairs.
/// A well-formed configuration gives each label to one device
/// (`labels_unique`); lookups take the first match in any case.
#[derive(Clone, Debug)]
pub struct Config {
    pub ip: String,
    pub port: u16,
    pub devices: Vec<(String, String)>,
}

pub open spec fn is_hex_char(c: char) -> bool {
    ('0' <= c <= '9') || ('a' <= c <= 'f') || ('A' <= c <= 'F')
}

/// Seventeen characters: six groups of two hexadecimal digits joined by `:`.
pub open spec fn is_mac_text(s: Seq<char>) -> bool {
    &&& s.len() == 17
    &&& forall|i: int|
        0 <= i < 17 ==> if i % 3 == 2 {
            s[i] == ':'
        } else {
            is_hex_char(#[trigger] s[i])
        }
}

/// No two entries of `d` share a label.
pub open spec fn labels_unique(d: Seq<(String, String)>) -> bool {
    forall|i: int, j: int|
        0 <= i < d.len() && 0 <= j < d.len() && #[trigger] d[i].0@ == #[trigger] d[j].0@ ==> i == j
}

/// The entries of `d` whose address is a valid MAC, in order.
pub open spec fn valid_devices(d: Seq<(String, String)>) -> Seq<(String, String)>
    decreases d.len(),
{
    if d.len() == 0 {
        d
    } else if is_mac_text(d.last().1@) {
        valid_devices(d.drop_last()).push(d.last())
    } else {
        valid_devices(d.drop_last())
    }
}

/// The labels of the entries of `d` whose address is not a valid MAC, in order.
pub open spec fn invalid_labels(d: Seq<(String, String)>) -> Seq<String>
    decreases d.len(),
{
    if d.len() == 0 {
        Seq::empty()
    } else if is_mac_text(d.last().1@) {
        invalid_labels(d.drop_last())
    } else {
        invalid_labels(d.drop_last()).push(d.last().0)
    }
}

/// The address of the first entry of `d` labelled `label`.
pub open spec fn lookup(d: Seq<(String, String)>, label: Seq<char>) -> Option<String>
    decreases d.len(),
{
    if d.len() == 0 {
        None
    } else if d[0].0@ == label {
        Some(d[0].1)
    } else {
        lookup(d.subrange(1, d.len() as int), label)
    }
}

/// What `valid_devices` keeps is taken from `d`, has a valid MAC, and
/// keeps the labels apart where `d` does.
proof fn lemma_valid_devices(d: Seq<(String, String)>)
    ensures
        forall|i: int|
            0 <= i < valid_devices(d).len() ==> d.contains(#[trigger] valid_devices(d)[i])
                && is_mac_text(valid_devices(d)[i].1@),
        labels_unique(d) ==> labels_unique(valid_devices(d)),
    decreases d.len(),
{
    if d.len() > 0 {
        let rest = d.drop_last();
        lemma_valid_devices(rest);
        let v = valid_devices(d);
        let w = valid_devices(rest);
        assert forall|i: int| 0 <= i < w.len() implies d.contains(#[trigger] w[i]) by {
            let k = choose|k: int| 0 <= k < rest.len() && rest[k] == w[i];
            assert(d[k] == w[i]);
        }
        if labels_unique(d) {
            assert(labels_unique(rest));
            if is_mac_text(d.last().1@) {
                assert forall|i: int, j: int|
                    0 <= i < v.len() && 0 <= j < v.len() && #[trigger] v[i].0@ == #[trigger] v[j].0@
                    implies i == j by {
                    if i < w.len() && j == w.len() {
                        let k = choose|k: int| 0 <= k < rest.len() && rest[k] == w[i];
                        assert(d[k].0@ == d[d.len() - 1].0@);
                    } else if j < w.len() && i == w.len() {
                        let k = choose|k: int| 0 <= k < rest.len() && rest[k] == w[j];
                        assert(d[k].0@ == d[d.len() - 1].0@);
                    }
                }
            }
        }
    }
}

fn is_hex_char_exec(c: char) -> (r: bool)
    ensures
        r == is_hex_char(c),
{
    ('0' <= c && c <= '9') || ('a' <= c && c <= 'f') || ('A' <= c && c <= 'F')
}

/// Whether the characters at `at` and `at + 1` are hexadecimal digits.
fn is_hex_byte(s: &str, at: usize) -> (r: bool)
    requires
        at + 1 < s@.len() <= 17,
    ensures
        r == (is_hex_char(s@[at as int]) && is_hex_char(s@[at + 1])),
{
    is_hex_char_exec(s.get_char(at)) && is_hex_char_exec(s.get_char(at + 1))
}

/// Whether `addr` is a MAC address in the canonical shape (either case).
pub fn is_mac(addr: &str) -> (r: bool)
    ensures
        r == is_mac_text(addr@),
{
    if addr.unicode_len() != 17 {
        return false;
    }
    let mut i: usize = 0;
    while i < 18
        invariant
            addr@.len() == 17,
            i <= 18,
            i % 3 == 0,
            forall|j: int|
                0 <= j < i && j < 17 ==> if j % 3 == 2 {
                    addr@[j] == ':'
                } else {
                    is_hex_char(#[trigger] addr@[j])
                },
        decreases 18 - i,
    {
        if !is_hex_byte(addr, i) {
            return false;
        }
        if i + 2 < 17 && addr.get_char(i + 2) != ':' {
            return false;
        }
        i = i + 3;
    }
    true
}

impl Default for Config {
    /// Listens on 127.0.0.1:8080 and serves one example device.
    fn default() -> (r: Config)
        ensures
            r.ip@ == "127.0.0.1"@,
            r.port == 8080,
            r.devices@.len() == 1,
            r.devices@[0].0@ == "example"@,
            r.devices@[0].1@ == "CB:B8:33:4C:88:4F"@,
            labels_unique(r.devices@),
    {
        let devices = vec![("example".to_owned(), "CB:B8:33:4C:88:4F".to_owned())];
        Config { ip: "127.0.0.1".to_owned(), port: 8080, devices }
    }
}

impl Config {
    /// Drops every device whose address is not a valid MAC, keeping the
    /// others in order, and returns the labels of those dropped.
    pub fn check_macs(&mut self) -> (removed: Vec<String>)
        ensures
            final(self).ip == old(self).ip,
            final(self).port == old(self).port,
            final(self).devices@ == valid_devices(old(self).devices@),
            removed@ == invalid_labels(old(self).devices@),
            forall|i: int|
                0 <= i < final(self).devices@.len() ==> is_mac_text(
                    #[trigger] final(self).devices@[i].1@,
                ),
            labels_unique(old(self).devices@) ==> labels_unique(final(self).devices@),
    {
        proof {
            lemma_valid_devices(self.devices@);
        }
        let mut kept: Vec<(String, String)> = Vec::new();
        let mut removed: Vec<String> = Vec::new();
        let mut i: usize = 0;
        while i < self.devices.len()
            invariant
                self == old(self),
                i <= self.devices@.len(),
                kept@ == valid_devices(self.devices@.subrange(0, i as int)),
                removed@ == invalid_labels(self.devices@.subrange(0, i as int)),
            decreases self.devices@.len() - i,
        {
            let entry = &self.devices[i];
            assert(self.devices@.subrange(0, i + 1).drop_last() =~= self.devices@.subrange(
                0,
                i as int,
            ));
            if is_mac(entry.1.as_str()) {
                kept.push((entry.0.clone(), entry.1.clone()));
            } else {
                removed.push(entry.0.clone());
            }
            i = i + 1;
        }
        assert(self.devices@.subrange(0, i as int) =~= self.devices@);
        self.devices = kept;
        removed
    }

    /// The address configured for `label`.
    pub fn address(&self, label: &str) -> (r: Option<String>)
        ensures
            r == lookup(self.devices@, label@),
    {
        find_first(&self.devices, label)
    }
}

/// The second component of the first entry whose first component is `key`.
pub fn find_first(entries: &Vec<(String, String)>, key: &str) -> (r: Option<String>)
    ensures
        r == lookup(entries@, key@),
{
    let owned = key.to_owned();
    let mut i: usize = 0;
    assert(entries@.subrange(0, entries@.len() as int) =~= entries@);
    while i < entries.len()
        invariant
            i <= entries@.len(),
            owned@ == key@,
            lookup(entries@, key@) == lookup(entries@.subrange(i as int, entries@.len() as int), key@),
        decreases entries@.len() - i,
    {
        let ghost rest = entries@.subrange(i as int, entries@.len() as int);
        assert(rest.subrange(1, rest.len() as int) =~= entries@.subrange(
            i + 1,
            entries@.len() as int,
        ));
        if entries[i].0 == owned {
            return Some(entries[i].1.clone());
        }
        i = i + 1;
    }
    None
}

} // verus!
