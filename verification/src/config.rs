//! The device book: known devices, each a base address with an
//! optional user-chosen alias, and the lookups the commands run on it.
//!
//! Loading the book from disk and writing it back are the unverified
//! shell's part; everything that decides — matching an identifier,
//! finding a device, inserting or re-aliasing one — is verified here.

use vstd::prelude::*;

use crate::text::str_eq;

verus! {

/// One known device: its base address and an optional alias.
#[derive(Debug, Clone)]
pub struct Device {
    pub base: String,
    pub alias: Option<String>,
}

impl Device {
    /// Whether an identifier names this device: it equals the base
    /// address or the alias, if one is set.
    pub open spec fn spec_matches_ident(&self, ident: Seq<char>) -> bool {
        self.base@ == ident || (self.alias matches Some(a) && a@ == ident)
    }

    pub fn matches_ident(&self, ident: &str) -> (r: bool)
        ensures
            r == self.spec_matches_ident(ident@),
    {
        if str_eq(self.base.as_str(), ident) {
            true
        } else {
            match &self.alias {
                Some(a) => str_eq(a.as_str(), ident),
                None => false,
            }
        }
    }
}

/// The persisted shape of the book: the device list.
#[derive(Debug, Clone)]
pub struct AppConfig {
    pub devices: Vec<Device>,
}

/// The first device of a list that an identifier names, if any.
pub open spec fn spec_first_match(devices: Seq<Device>, ident: Seq<char>) -> Option<Device>
    decreases devices.len(),
{
    if devices.len() == 0 {
        None
    } else if devices[0].spec_matches_ident(ident) {
        Some(devices[0])
    } else {
        spec_first_match(devices.drop_first(), ident)
    }
}

/// The index of the first device of a list that an identifier names,
/// if any.
pub open spec fn spec_first_match_index(devices: Seq<Device>, ident: Seq<char>) -> Option<int>
    decreases devices.len(),
{
    if devices.len() == 0 {
        None
    } else if devices[0].spec_matches_ident(ident) {
        Some(0)
    } else {
        match spec_first_match_index(devices.drop_first(), ident) {
            Some(i) => Some(i + 1),
            None => None,
        }
    }
}

/// A list has a first matching device exactly when it has a first
/// matching index.
pub proof fn lemma_first_match_index_agrees(devices: Seq<Device>, ident: Seq<char>)
    ensures
        spec_first_match(devices, ident) is Some <==> spec_first_match_index(
            devices,
            ident,
        ) is Some,
    decreases devices.len(),
{
    if devices.len() == 0 {
    } else if devices[0].spec_matches_ident(ident) {
    } else {
        lemma_first_match_index_agrees(devices.drop_first(), ident);
    }
}

/// The device book, together with the path it was loaded from and is
/// written back to.
#[derive(Debug, Clone)]
pub struct Config {
    pub path: String,
    pub inner: AppConfig,
}

impl Config {
    pub fn new(path: String, inner: AppConfig) -> (r: Self)
        ensures
            r.path == path,
            r.inner == inner,
    {
        Config { path, inner }
    }

    /// Whether no device is known.
    pub fn is_empty(&self) -> (r: bool)
        ensures
            r == (self.inner.devices@.len() == 0),
    {
        self.inner.devices.len() == 0
    }

    /// All known devices, in book order.
    pub fn get_devices(&self) -> (r: &Vec<Device>)
        ensures
            r == &self.inner.devices,
    {
        &self.inner.devices
    }

    /// The first device an identifier names, if any.
    pub fn get_device(&self, ident: &str) -> (r: Option<&Device>)
        ensures
            r matches Some(d) ==> spec_first_match(self.inner.devices@, ident@) == Some(*d),
            r is None ==> spec_first_match(self.inner.devices@, ident@) is None,
    {
        let devices = &self.inner.devices;
        let ghost all = devices@;
        let mut i: usize = 0;
        proof {
            assert(all.skip(0) =~= all);
        }
        while i < devices.len()
            invariant
                0 <= i <= all.len(),
                all == devices@,
                all == self.inner.devices@,
                spec_first_match(all, ident@) == spec_first_match(all.skip(i as int), ident@),
            decreases all.len() - i,
        {
            proof {
                assert(all.skip(i as int)[0] == all[i as int]);
                assert(all.skip(i as int).drop_first() =~= all.skip(i + 1));
            }
            if devices[i].matches_ident(ident) {
                proof {
                    assert(spec_first_match(all.skip(i as int), ident@) == Some(all[i as int]));
                }
                return Some(&devices[i]);
            }
            i += 1;
        }
        proof {
            assert(all.skip(i as int) =~= Seq::<Device>::empty());
        }
        None
    }

    /// The index of the first device an identifier names, if any.
    pub fn get_device_index(&self, ident: &str) -> (r: Option<usize>)
        ensures
            r matches Some(i) ==> spec_first_match_index(self.inner.devices@, ident@) == Some(
                i as int,
            ) && i < self.inner.devices@.len(),
            r is None ==> spec_first_match_index(self.inner.devices@, ident@) is None,
    {
        let devices = &self.inner.devices;
        let ghost all = devices@;
        let mut i: usize = 0;
        proof {
            assert(all.skip(0) =~= all);
        }
        while i < devices.len()
            invariant
                0 <= i <= all.len(),
                all == devices@,
                all == self.inner.devices@,
                spec_first_match_index(all, ident@) == match spec_first_match_index(
                    all.skip(i as int),
                    ident@,
                ) {
                    Some(j) => Some(j + i),
                    None => None::<int>,
                },
            decreases all.len() - i,
        {
            proof {
                assert(all.skip(i as int)[0] == all[i as int]);
                assert(all.skip(i as int).drop_first() =~= all.skip(i + 1));
            }
            if devices[i].matches_ident(ident) {
                proof {
                    assert(spec_first_match_index(all.skip(i as int), ident@) == Some(0int));
                }
                return Some(i);
            }
            i += 1;
        }
        proof {
            assert(all.skip(i as int) =~= Seq::<Device>::empty());
        }
        None
    }

    /// A mutable borrow of the first device an identifier names, if
    /// any. The book afterwards holds whatever the borrower made of
    /// that device, and nothing else has changed.
    pub fn get_device_mut<'a>(&'a mut self, ident: &str) -> (r: Option<&'a mut Device>)
        ensures
            match spec_first_match_index(old(self).inner.devices@, ident@) {
                Some(i) => r.is_some() && *r.unwrap() == old(self).inner.devices@[i]
                    && final(self).inner.devices@ == old(self).inner.devices@.update(
                    i,
                    *final(r.unwrap()),
                ) && final(self).path == old(self).path,
                None => r.is_none() && *final(self) == *old(self),
            },
    {
        match self.get_device_index(ident) {
            Some(i) => Some(&mut self.inner.devices[i]),
            None => None,
        }
    }

    /// Set an alias for a base address: the first device whose base or
    /// alias equals it gets the new alias; when none is known, a new
    /// entry is appended. The caller is expected to write the book
    /// back afterwards.
    pub fn upsert_device(&mut self, base: &str, alias: Option<String>)
        ensures
            match spec_first_match_index(old(self).inner.devices@, base@) {
                Some(i) => {
                    &&& final(self).inner.devices@.len() == old(self).inner.devices@.len()
                    &&& final(self).inner.devices@ == old(self).inner.devices@.update(
                        i,
                        Device { base: old(self).inner.devices@[i].base, alias: alias },
                    )
                },
                None => {
                    &&& final(self).inner.devices@.len() == old(self).inner.devices@.len() + 1
                    &&& final(self).inner.devices@.drop_last() == old(self).inner.devices@
                    &&& final(self).inner.devices@.last().base@ == base@
                    &&& final(self).inner.devices@.last().alias == alias
                },
            },
            final(self).path == old(self).path,
    {
        match self.get_device_index(base) {
            Some(i) => {
                let existing = self.inner.devices[i].base.clone();
                self.inner.devices.set(i, Device { base: existing, alias });
            },
            None => {
                self.inner.devices.push(Device { base: base.to_owned(), alias });
                proof {
                    assert(self.inner.devices@.drop_last() =~= old(self).inner.devices@);
                }
            },
        }
    }
}

/// The rows of the device listing: one per known device, in book
/// order, the base address beside the alias — an empty alias cell for
/// a device without one.
pub fn list_rows(config: &Config) -> (rows: Vec<(String, String)>)
    ensures
        rows@.len() == config.inner.devices@.len(),
        forall|i: int|
            0 <= i < rows@.len() ==> {
                &&& (#[trigger] rows@[i]).0@ == config.inner.devices@[i].base@
                &&& rows@[i].1@ == match config.inner.devices@[i].alias {
                    Some(a) => a@,
                    None => Seq::<char>::empty(),
                }
            },
{
    let devices = &config.inner.devices;
    let mut rows: Vec<(String, String)> = Vec::new();
    let mut i: usize = 0;
    while i < devices.len()
        invariant
            0 <= i <= devices@.len(),
            devices@ == config.inner.devices@,
            rows@.len() == i,
            forall|j: int|
                0 <= j < i ==> {
                    &&& (#[trigger] rows@[j]).0@ == config.inner.devices@[j].base@
                    &&& rows@[j].1@ == match config.inner.devices@[j].alias {
                        Some(a) => a@,
                        None => Seq::<char>::empty(),
                    }
                },
        decreases devices@.len() - i,
    {
        let alias = match &devices[i].alias {
            Some(a) => a.clone(),
            None => String::new(),
        };
        rows.push((devices[i].base.clone(), alias));
        i += 1;
    }
    rows
}

/// The address a command talks to: the base of the first configured
/// device the identifier names, or, when none is known under it, the
/// identifier itself taken as an address.
pub fn resolve_base(config: &Config, ident: String) -> (r: String)
    ensures
        match spec_first_match(config.inner.devices@, ident@) {
            Some(d) => r@ == d.base@,
            None => r@ == ident@,
        },
{
    match config.get_device(ident.as_str()) {
        Some(d) => d.base.clone(),
        None => ident,
    }
}

} // verus!
