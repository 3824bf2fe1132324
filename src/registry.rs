use vstd::prelude::*;

use crate::device::Device;

verus! {

/// A device together with its open diagnostics connection.
pub struct ConnectionEntry<C> {
    pub device: Device,
    pub connection: C,
}

/// The live map from device udid to its connection, at most one entry per udid.
pub struct ConnectionRegistry<C> {
    entries: Vec<ConnectionEntry<C>>,
}

impl<C> ConnectionRegistry<C> {
    /// The udids of the entries, in iteration order.
    pub closed spec fn keys(&self) -> Seq<Seq<char>> {
        self.entries@.map_values(|e: ConnectionEntry<C>| e.device.udid@)
    }

    /// The set of registered udids.
    pub open spec fn udids(&self) -> Set<Seq<char>> {
        self.keys().to_set()
    }

    pub open spec fn wf(&self) -> bool {
        self.keys().no_duplicates()
    }

    /// The entry at position `i` of the iteration order.
    pub closed spec fn entry_at(&self, i: int) -> &ConnectionEntry<C> {
        &self.entries@[i]
    }

    pub fn new() -> (r: Self)
        ensures
            r.wf(),
            r.keys() == Seq::<Seq<char>>::empty(),
            r.udids() == Set::<Seq<char>>::empty(),
    {
        let r = ConnectionRegistry { entries: Vec::new() };
        assert(r.keys() =~= Seq::<Seq<char>>::empty());
        r
    }

    pub fn len(&self) -> (r: usize)
        ensures
            r == self.keys().len(),
    {
        self.entries.len()
    }

    fn position(&self, udid: &String) -> (r: Option<usize>)
        ensures
            match r {
                Some(i) => i < self.keys().len() && self.keys()[i as int] == udid@,
                None => !self.keys().contains(udid@),
            },
    {
        let mut i: usize = 0;
        while i < self.entries.len()
            invariant
                i <= self.entries@.len(),
                forall|j: int| 0 <= j < i ==> self.keys()[j] != udid@,
            decreases self.entries@.len() - i,
        {
            if self.entries[i].device.udid == *udid {
                return Some(i);
            }
            i = i + 1;
        }
        None
    }

    /// Whether a device with this udid is registered.
    pub fn contains(&self, udid: &String) -> (r: bool)
        ensures
            r == self.udids().contains(udid@),
    {
        self.position(udid).is_some()
    }

    /// The connection of the entry at position `i`.
    pub fn get(&self, i: usize) -> (r: &ConnectionEntry<C>)
        requires
            i < self.keys().len(),
        ensures
            r == self.entry_at(i as int),
            r.device.udid@ == self.keys()[i as int],
    {
        &self.entries[i]
    }

    /// Inserts a device with its connection; an entry with the same udid is
    /// replaced, keeping its place in the iteration order.
    pub fn insert(&mut self, device: Device, connection: C)
        requires
            old(self).wf(),
        ensures
            final(self).wf(),
            final(self).udids() == old(self).udids().insert(device.udid@),
            old(self).keys().contains(device.udid@) ==> final(self).keys() == old(self).keys(),
            !old(self).keys().contains(device.udid@) ==> final(self).keys() == old(self).keys().push(
                device.udid@,
            ),
    {
        let ghost u = device.udid@;
        match self.position(&device.udid) {
            Some(i) => {
                self.entries.set(i, ConnectionEntry { device, connection });
                assert(self.keys() =~= old(self).keys().update(i as int, u));
                assert(old(self).keys().update(i as int, u) =~= old(self).keys());
                assert(self.udids() =~= old(self).udids().insert(u)) by {
                    assert(old(self).keys().contains(u));
                }
            },
            None => {
                self.entries.push(ConnectionEntry { device, connection });
                assert(self.keys() =~= old(self).keys().push(u));
                assert(self.udids() =~= old(self).udids().insert(u)) by {
                    assert forall|x: Seq<char>| self.keys().contains(x) <==> (old(self).keys().contains(x) || x == u) by {
                        if old(self).keys().contains(x) {
                            let j = choose|j: int| 0 <= j < old(self).keys().len() && old(self).keys()[j] == x;
                            assert(self.keys()[j] == x);
                        }
                        if x == u {
                            assert(self.keys()[old(self).keys().len() as int] == x);
                        }
                    }
                }
            },
        }
    }

    /// Removes the entry of this udid and returns it; an absent udid leaves the
    /// registry as it was.
    pub fn remove(&mut self, udid: &String) -> (r: Option<ConnectionEntry<C>>)
        requires
            old(self).wf(),
        ensures
            final(self).wf(),
            final(self).udids() == old(self).udids().remove(udid@),
            r is Some <==> old(self).udids().contains(udid@),
            r matches Some(e) ==> e.device.udid@ == udid@,
            !old(self).udids().contains(udid@) ==> final(self).keys() == old(self).keys(),
    {
        match self.position(udid) {
            None => {
                assert(self.udids() =~= old(self).udids().remove(udid@));
                None
            },
            Some(i) => {
                let e = self.entries.remove(i);
                let ghost ok = old(self).keys();
                assert(self.keys() =~= ok.remove(i as int));
                assert forall|x: Seq<char>| self.keys().contains(x) <==> (ok.contains(x) && x != udid@) by {
                    if self.keys().contains(x) {
                        let j = choose|j: int| 0 <= j < self.keys().len() && self.keys()[j] == x;
                        if j < i {
                            assert(ok[j] == x);
                        } else {
                            assert(ok[j + 1] == x);
                        }
                    }
                    if ok.contains(x) && x != udid@ {
                        let j = choose|j: int| 0 <= j < ok.len() && ok[j] == x;
                        if j < i {
                            assert(self.keys()[j] == x);
                        } else {
                            assert(self.keys()[j - 1] == x);
                        }
                    }
                }
                assert(self.udids() =~= old(self).udids().remove(udid@));
                Some(e)
            },
        }
    }
}

} // verus!
