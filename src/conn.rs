//! The table that maps configured device addresses to the radio stack's
//! object paths, and the rules applied to what the radio stack answers.
//! Talking to the radio stack itself is left to the caller.

use vstd::prelude::*;
use vstd::string::{StrSliceExecFns, StringExecFns};
use crate::config::{find_first, lookup, Config};
use crate::device::MfgData;

verus! {

/// `s` with every `:` replaced by `_`.
pub open spec fn underscored(s: Seq<char>) -> Seq<char> {
    s.map_values(|c: char| if c == ':' { '_' } else { c })
}

/// The radio stack's object path of the device with address `addr`.
pub open spec fn obj_path_of(addr: Seq<char>) -> Seq<char> {
    "/org/bluez/hci0/dev_"@ + underscored(addr)
}

/// Why a query about a device cannot be made.
#[derive(Clone, Copy, Debug, PartialEq, Eq, Structural)]
pub enum ConnError {
    /// The address is not one of the configured devices.
    NotConfigured,
}

/// Object paths of the configured devices, as (address, path) pairs.
pub struct Conn {
    pub obj_paths: Vec<(String, String)>,
}

/// The object path of the device with address `addr`.
pub fn obj_path(addr: &str) -> (r: String)
    ensures
        r@ == obj_path_of(addr@),
{
    let mut path = "/org/bluez/hci0/dev_".to_owned();
    let n = addr.unicode_len();
    let mut i: usize = 0;
    while i < n
        invariant
            n == addr@.len(),
            i <= n,
            path@ == "/org/bluez/hci0/dev_"@ + underscored(addr@.subrange(0, i as int)),
        decreases n - i,
    {
        let c = addr.get_char(i);
        proof {
            reveal_strlit("_");
        }
        assert(underscored(addr@.subrange(i as int, i + 1)) =~= seq![
            if c == ':' { '_' } else { c },
        ]);
        if c == ':' {
            path.append("_");
        } else {
            let piece = addr.substring_char(i, i + 1);
            assert(piece@ =~= seq![c]);
            path.append(piece);
        }
        assert(underscored(addr@.subrange(0, i + 1)) =~= underscored(addr@.subrange(0, i as int))
            + underscored(addr@.subrange(i as int, i + 1)));
        i = i + 1;
    }
    assert(addr@.subrange(0, n as int) =~= addr@);
    path
}

impl Conn {
    /// Builds the object-path table for the configured devices, in their order.
    pub fn new(conf: &Config) -> (r: Conn)
        ensures
            r.obj_paths@.len() == conf.devices@.len(),
            forall|i: int|
                0 <= i < conf.devices@.len() ==> {
                    &&& (#[trigger] r.obj_paths@[i]).0@ == conf.devices@[i].1@
                    &&& r.obj_paths@[i].1@ == obj_path_of(conf.devices@[i].1@)
                },
    {
        let mut obj_paths: Vec<(String, String)> = Vec::new();
        let mut i: usize = 0;
        while i < conf.devices.len()
            invariant
                i <= conf.devices@.len(),
                obj_paths@.len() == i,
                forall|j: int|
                    0 <= j < i ==> {
                        &&& (#[trigger] obj_paths@[j]).0@ == conf.devices@[j].1@
                        &&& obj_paths@[j].1@ == obj_path_of(conf.devices@[j].1@)
                    },
            decreases conf.devices@.len() - i,
        {
            let addr = &conf.devices[i].1;
            obj_paths.push((addr.clone(), obj_path(addr.as_str())));
            i = i + 1;
        }
        Conn { obj_paths }
    }

    /// The object path to query for `addr`, if that address is configured.
    pub fn obj_path(&self, addr: &str) -> (r: Option<String>)
        ensures
            r == lookup(self.obj_paths@, addr@),
    {
        find_first(&self.obj_paths, addr)
    }

    /// The signal strength of `addr`, given what the radio stack answered
    /// (`None` when it had no value): an error unless `addr` is configured.
    pub fn get_rssi(&self, addr: &str, reply: Option<i16>) -> (r: Result<Option<i16>, ConnError>)
        ensures
            r == if lookup(self.obj_paths@, addr@) is Some {
                Ok::<Option<i16>, ConnError>(reply)
            } else {
                Err(ConnError::NotConfigured)
            },
    {
        match self.obj_path(addr) {
            Some(_) => Ok(reply),
            None => Err(ConnError::NotConfigured),
        }
    }

    /// The manufacturer data of `addr`, given what the radio stack answered:
    /// an error unless `addr` is configured, and kept only when it holds
    /// exactly one entry.
    pub fn get_mfg_data(&self, addr: &str, reply: Option<MfgData>) -> (r: Result<
        Option<MfgData>,
        ConnError,
    >)
        ensures
            lookup(self.obj_paths@, addr@) is None <==> r == Err::<Option<MfgData>, ConnError>(
                ConnError::NotConfigured,
            ),
            r is Ok ==> match reply {
                Some(d) if d@.len() == 1 => r == Ok::<Option<MfgData>, ConnError>(Some(d)),
                _ => r == Ok::<Option<MfgData>, ConnError>(None),
            },
    {
        if self.obj_path(addr).is_none() {
            return Err(ConnError::NotConfigured);
        }
        match reply {
            Some(d) => if d.len() == 1 {
                Ok(Some(d))
            } else {
                Ok(None)
            },
            None => Ok(None),
        }
    }
}

} // verus!
