//! Per-client mobility state kept by the base station's MM entity.

use vstd::prelude::*;
use std::collections::HashMap;

verus! {

broadcast use vstd::std_specs::hash::group_hash_axioms;

/// What the MM entity knows about one client's attachment.
#[derive(Debug, PartialEq, Eq, Clone, Copy, Structural)]
pub enum MmClientState {
    Unknown,
    Attached,
    Detached,
}

/// The properties tracked for one client, keyed by its SSI.
#[derive(Debug, PartialEq, Eq, Clone, Copy, Structural)]
pub struct MmClientProperties {
    pub ssi: u32,
    pub state: MmClientState,
}

impl MmClientProperties {
    /// A fresh record for a client nothing is known about yet.
    pub fn new(ssi: u32) -> (r: MmClientProperties)
        ensures
            r == (MmClientProperties { ssi, state: MmClientState::Unknown }),
    {
        MmClientProperties { ssi, state: MmClientState::Unknown }
    }
}

/// The set of known clients: a map from SSI to the client's properties.
pub struct MmClientMgr {
    clients: HashMap<u32, MmClientProperties>,
}

impl MmClientMgr {
    /// The clients known, as a map from SSI to properties.
    pub closed spec fn clients(&self) -> Map<u32, MmClientProperties> {
        self.clients@
    }

    /// An empty manager: no client is known.
    pub fn new() -> (r: MmClientMgr)
        ensures
            r.clients() == Map::<u32, MmClientProperties>::empty(),
    {
        MmClientMgr { clients: HashMap::new() }
    }

    /// Whether a client with this SSI is known.
    pub fn is_known(&self, ssi: u32) -> (r: bool)
        ensures
            r == self.clients().contains_key(ssi),
    {
        self.clients.contains_key(&ssi)
    }

    /// Look a client up, creating the fresh record first when the SSI is new;
    /// returns the client's current properties either way.
    pub fn fetch_or_create(&mut self, ssi: u32) -> (r: MmClientProperties)
        ensures
            final(self).clients() == if old(self).clients().contains_key(ssi) {
                old(self).clients()
            } else {
                old(self).clients().insert(ssi, MmClientProperties { ssi, state: MmClientState::Unknown })
            },
            final(self).clients().contains_key(ssi),
            r == final(self).clients()[ssi],
    {
        match self.clients.get(&ssi) {
            Some(props) => *props,
            None => {
                let props = MmClientProperties::new(ssi);
                self.clients.insert(ssi, props);
                props
            },
        }
    }

    /// Add a client, optionally already flagged as attached; an existing
    /// record under the same SSI is replaced.
    pub fn register(&mut self, ssi: u32, attached: bool)
        ensures
            final(self).clients() == old(self).clients().insert(
                ssi,
                MmClientProperties {
                    ssi,
                    state: if attached {
                        MmClientState::Attached
                    } else {
                        MmClientState::Unknown
                    },
                },
            ),
    {
        let elem = MmClientProperties {
            ssi,
            state: if attached {
                MmClientState::Attached
            } else {
                MmClientState::Unknown
            },
        };
        self.clients.insert(ssi, elem);
    }

    /// Forget a client, handing back what was known about it.
    pub fn remove(&mut self, ssi: u32) -> (r: Option<MmClientProperties>)
        ensures
            final(self).clients() == old(self).clients().remove(ssi),
            r == if old(self).clients().contains_key(ssi) {
                Some(old(self).clients()[ssi])
            } else {
                None::<MmClientProperties>
            },
    {
        self.clients.remove(&ssi)
    }
}

} // verus!
