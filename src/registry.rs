use std::collections::HashMap;
use vstd::prelude::*;

verus! {

broadcast use vstd::std_specs::hash::group_hash_axioms;

/// The open sessions: each open terminal number with the port number it was
/// opened with. Presence of a terminal means that it is open.
pub struct SessionRegistry {
    sessions: HashMap<u16, u16>,
}

impl View for SessionRegistry {
    type V = Map<u16, u16>;

    closed spec fn view(&self) -> Map<u16, u16> {
        self.sessions@
    }
}

impl SessionRegistry {
    /// An empty registry: no terminal is open.
    pub fn new() -> (r: SessionRegistry)
        ensures
            r@ == Map::<u16, u16>::empty(),
    {
        SessionRegistry { sessions: HashMap::new() }
    }

    pub fn contains(&self, ctn: u16) -> (r: bool)
        ensures
            r == self@.contains_key(ctn),
    {
        self.sessions.contains_key(&ctn)
    }

    /// The port number that `ctn` was opened with, if it is open.
    pub fn get(&self, ctn: u16) -> (r: Option<u16>)
        ensures
            r == (if self@.contains_key(ctn) {
                Some(self@[ctn])
            } else {
                None
            }),
    {
        match self.sessions.get(&ctn) {
            Some(pn) => Some(*pn),
            None => None,
        }
    }

    /// Records `ctn` as open on `pn`, replacing any earlier entry for `ctn`.
    pub fn insert(&mut self, ctn: u16, pn: u16)
        ensures
            final(self)@ == old(self)@.insert(ctn, pn),
    {
        self.sessions.insert(ctn, pn);
    }

    /// Forgets `ctn`; the registry is unchanged if it was not open.
    pub fn remove(&mut self, ctn: u16)
        ensures
            final(self)@ == old(self)@.remove(ctn),
    {
        self.sessions.remove(&ctn);
    }

    /// The number of open terminals.
    pub fn len(&self) -> (r: usize)
        ensures
            r == self@.len(),
    {
        self.sessions.len()
    }
}

} // verus!
