use vstd::prelude::*;

use crate::device::{Action, DeviceEvent, InterfaceType};

verus! {

/// What the projection knows of one device.
pub struct DeviceRecord {
    pub udid: String,
    pub name: String,
    pub interfaces: Vec<InterfaceType>,
}

/// The read view of device presence: udid to name and the set of active interfaces.
pub struct DeviceState {
    records: Vec<DeviceRecord>,
}

proof fn lemma_push_to_set<A>(s: Seq<A>, x: A)
    ensures
        s.push(x).to_set() == s.to_set().insert(x),
{
    assert forall|y: A| s.push(x).contains(y) <==> (s.contains(y) || y == x) by {
        if s.contains(y) {
            let j = choose|j: int| 0 <= j < s.len() && s[j] == y;
            assert(s.push(x)[j] == y);
        }
        if y == x {
            assert(s.push(x)[s.len() as int] == y);
        }
    }
    assert forall|y: A| s.push(x).to_set().contains(y) == s.to_set().insert(x).contains(y) by {
        assert(s.push(x).contains(y) <==> (s.contains(y) || y == x));
    }
    assert(s.push(x).to_set() =~= s.to_set().insert(x));
}

proof fn lemma_remove_to_set<A>(s: Seq<A>, k: int)
    requires
        s.no_duplicates(),
        0 <= k < s.len(),
    ensures
        s.remove(k).to_set() == s.to_set().remove(s[k]),
        s.remove(k).no_duplicates(),
{
    let t = s.remove(k);
    assert forall|y: A| t.contains(y) <==> (s.contains(y) && y != s[k]) by {
        if t.contains(y) {
            let j = choose|j: int| 0 <= j < t.len() && t[j] == y;
            if j < k {
                assert(s[j] == y);
            } else {
                assert(s[j + 1] == y);
            }
        }
        if s.contains(y) && y != s[k] {
            let j = choose|j: int| 0 <= j < s.len() && s[j] == y;
            if j < k {
                assert(t[j] == y);
            } else {
                assert(t[j - 1] == y);
            }
        }
    }
    assert(t.to_set() =~= s.to_set().remove(s[k]));
}

/// The projection's map after one lifecycle event: an attach seeds the entry's
/// name if the udid is new and adds the interface; a detach removes the
/// interface from an existing entry and keeps the entry; anything else changes nothing.
pub open spec fn apply_spec(
    m: Map<Seq<char>, (Seq<char>, Set<InterfaceType>)>,
    udid: Seq<char>,
    name: Seq<char>,
    interface: InterfaceType,
    action: Action,
) -> Map<Seq<char>, (Seq<char>, Set<InterfaceType>)> {
    match action {
        Action::Attached => if m.contains_key(udid) {
            m.insert(udid, (m[udid].0, m[udid].1.insert(interface)))
        } else {
            m.insert(udid, (name, Set::empty().insert(interface)))
        },
        Action::Detached => if m.contains_key(udid) {
            m.insert(udid, (m[udid].0, m[udid].1.remove(interface)))
        } else {
            m
        },
        Action::Unknown(_) => m,
    }
}

impl DeviceState {
    pub closed spec fn keys(&self) -> Seq<Seq<char>> {
        self.records@.map_values(|r: DeviceRecord| r.udid@)
    }

    pub closed spec fn wf(&self) -> bool {
        &&& self.keys().no_duplicates()
        &&& forall|i: int| 0 <= i < self.records@.len() ==> (#[trigger] self.records@[i]).interfaces@.no_duplicates()
    }

    pub closed spec fn view(&self) -> Map<Seq<char>, (Seq<char>, Set<InterfaceType>)> {
        Map::new(
            |u: Seq<char>| self.keys().contains(u),
            |u: Seq<char>|
                {
                    let i = choose|i: int| 0 <= i < self.keys().len() && self.keys()[i] == u;
                    (self.records@[i].name@, self.records@[i].interfaces@.to_set())
                },
        )
    }

    proof fn lemma_view_at(&self, i: int)
        requires
            self.wf(),
            0 <= i < self.records@.len(),
        ensures
            self.view().contains_key(self.records@[i].udid@),
            self.view()[self.records@[i].udid@] == (
                self.records@[i].name@,
                self.records@[i].interfaces@.to_set(),
            ),
    {
        let u = self.records@[i].udid@;
        assert(self.keys()[i] == u);
        assert(self.keys().contains(u));
        let j = choose|j: int| 0 <= j < self.keys().len() && self.keys()[j] == u;
        assert(j == i);
    }

    pub fn new() -> (r: DeviceState)
        ensures
            r.wf(),
            r.view() == Map::<Seq<char>, (Seq<char>, Set<InterfaceType>)>::empty(),
    {
        let r = DeviceState { records: Vec::new() };
        assert(r.view() =~= Map::<Seq<char>, (Seq<char>, Set<InterfaceType>)>::empty());
        r
    }

    fn position(&self, udid: &String) -> (r: Option<usize>)
        ensures
            match r {
                Some(i) => i < self.records@.len() && self.records@[i as int].udid@ == udid@,
                None => !self.keys().contains(udid@),
            },
    {
        let mut i: usize = 0;
        while i < self.records.len()
            invariant
                i <= self.records@.len(),
                forall|j: int| 0 <= j < i ==> self.keys()[j] != udid@,
            decreases self.records@.len() - i,
        {
            if self.records[i].udid == *udid {
                return Some(i);
            }
            i = i + 1;
        }
        None
    }
    /// Replacing the record at `i` by one with the same udid changes the view at that udid only.
    proof fn lemma_replace(old_state: &DeviceState, new_state: &DeviceState, i: int)
        requires
            old_state.wf(),
            0 <= i < old_state.records@.len(),
            new_state.records@ == old_state.records@.update(i, new_state.records@[i]),
            new_state.records@[i].udid@ == old_state.records@[i].udid@,
            new_state.records@[i].interfaces@.no_duplicates(),
        ensures
            new_state.wf(),
            new_state.view() == old_state.view().insert(
                old_state.records@[i].udid@,
                (new_state.records@[i].name@, new_state.records@[i].interfaces@.to_set()),
            ),
    {
        assert(new_state.keys() =~= old_state.keys());
        assert forall|j: int| 0 <= j < new_state.records@.len() implies (#[trigger] new_state.records@[j]).interfaces@.no_duplicates() by {
            if j != i {
                assert(old_state.records@[j] == new_state.records@[j]);
            }
        }
        let u = old_state.records@[i].udid@;
        let m = old_state.view().insert(
            u,
            (new_state.records@[i].name@, new_state.records@[i].interfaces@.to_set()),
        );
        assert(new_state.keys()[i] == u);
        assert forall|w: Seq<char>| #[trigger] new_state.view().contains_key(w) implies new_state.view()[w] == m[w] by {
            let j = choose|j: int| 0 <= j < new_state.keys().len() && new_state.keys()[j] == w;
            assert(new_state.keys()[j] == new_state.records@[j].udid@);
            new_state.lemma_view_at(j);
            if w == u {
                assert(j == i);
            } else {
                assert(j != i);
                assert(old_state.keys()[j] == old_state.records@[j].udid@);
                old_state.lemma_view_at(j);
                assert(old_state.records@[j] == new_state.records@[j]);
            }
        }
        assert(new_state.view() =~= m);
    }

    /// Appending a record of a new udid adds that udid to the view.
    proof fn lemma_append(old_state: &DeviceState, new_state: &DeviceState, rec: DeviceRecord)
        requires
            old_state.wf(),
            !old_state.keys().contains(rec.udid@),
            rec.interfaces@.no_duplicates(),
            new_state.records@ == old_state.records@.push(rec),
        ensures
            new_state.wf(),
            new_state.view() == old_state.view().insert(
                rec.udid@,
                (rec.name@, rec.interfaces@.to_set()),
            ),
    {
        let n = old_state.records@.len() as int;
        assert(new_state.keys() =~= old_state.keys().push(rec.udid@));
        assert forall|j: int| 0 <= j < new_state.records@.len() implies (#[trigger] new_state.records@[j]).interfaces@.no_duplicates() by {
            if j < n {
                assert(old_state.records@[j] == new_state.records@[j]);
            }
        }
        let m = old_state.view().insert(rec.udid@, (rec.name@, rec.interfaces@.to_set()));
        assert forall|w: Seq<char>| #[trigger] new_state.view().contains_key(w) == m.contains_key(w) by {
            if old_state.keys().contains(w) {
                let j = choose|j: int| 0 <= j < old_state.keys().len() && old_state.keys()[j] == w;
                assert(new_state.keys()[j] == w);
            }
            if new_state.keys().contains(w) {
                let j = choose|j: int| 0 <= j < new_state.keys().len() && new_state.keys()[j] == w;
                if j < n {
                    assert(old_state.keys()[j] == w);
                }
            }
            if w == rec.udid@ {
                assert(new_state.keys()[n] == w);
            }
        }
        assert forall|w: Seq<char>| #[trigger] new_state.view().contains_key(w) implies new_state.view()[w] == m[w] by {
            let j = choose|j: int| 0 <= j < new_state.keys().len() && new_state.keys()[j] == w;
            assert(new_state.keys()[j] == new_state.records@[j].udid@);
            new_state.lemma_view_at(j);
            if j < n {
                assert(old_state.keys()[j] == old_state.records@[j].udid@);
                old_state.lemma_view_at(j);
                assert(old_state.records@[j] == new_state.records@[j]);
            }
        }
        assert(new_state.view() =~= m);
    }
}

fn copy_interfaces(ifs: &Vec<InterfaceType>) -> (r: Vec<InterfaceType>)
    ensures
        r@ == ifs@,
{
    let mut r: Vec<InterfaceType> = Vec::new();
    let mut i: usize = 0;
    while i < ifs.len()
        invariant
            i <= ifs@.len(),
            r@ == ifs@.subrange(0, i as int),
        decreases ifs@.len() - i,
    {
        r.push(ifs[i]);
        i = i + 1;
        assert(r@ =~= ifs@.subrange(0, i as int));
    }
    assert(ifs@.subrange(0, ifs@.len() as int) =~= ifs@);
    r
}

fn index_of(ifs: &Vec<InterfaceType>, x: InterfaceType) -> (r: Option<usize>)
    ensures
        match r {
            Some(k) => k < ifs@.len() && ifs@[k as int] == x,
            None => !ifs@.contains(x),
        },
{
    let mut i: usize = 0;
    while i < ifs.len()
        invariant
            i <= ifs@.len(),
            forall|j: int| 0 <= j < i ==> ifs@[j] != x,
        decreases ifs@.len() - i,
    {
        if ifs[i] == x {
            return Some(i);
        }
        i = i + 1;
    }
    None
}

/// The interfaces with `x` added.
fn with_interface(ifs: &Vec<InterfaceType>, x: InterfaceType) -> (r: Vec<InterfaceType>)
    requires
        ifs@.no_duplicates(),
    ensures
        r@.no_duplicates(),
        r@.to_set() == ifs@.to_set().insert(x),
{
    let mut r = copy_interfaces(ifs);
    match index_of(ifs, x) {
        Some(k) => {
            assert(ifs@.to_set().insert(x) =~= ifs@.to_set());
        },
        None => {
            r.push(x);
            proof {
                lemma_push_to_set(ifs@, x);
            }
        },
    }
    r
}

/// The interfaces with `x` taken out.
fn without_interface(ifs: &Vec<InterfaceType>, x: InterfaceType) -> (r: Vec<InterfaceType>)
    requires
        ifs@.no_duplicates(),
    ensures
        r@.no_duplicates(),
        r@.to_set() == ifs@.to_set().remove(x),
{
    let mut r = copy_interfaces(ifs);
    match index_of(ifs, x) {
        Some(k) => {
            r.remove(k);
            proof {
                lemma_remove_to_set(ifs@, k as int);
            }
        },
        None => {
            assert(ifs@.to_set().remove(x) =~= ifs@.to_set());
        },
    }
    r
}

impl DeviceState {
    /// Applies one lifecycle event to the projection.
    pub fn apply(&mut self, event: &DeviceEvent)
        requires
            old(self).wf(),
        ensures
            final(self).wf(),
            final(self).view() == apply_spec(
                old(self).view(),
                event.udid@,
                event.name@,
                event.interface,
                event.action,
            ),
    {
        proof {
            if self.keys().contains(event.udid@) {
                let j = choose|j: int| 0 <= j < self.keys().len() && self.keys()[j] == event.udid@;
                self.lemma_view_at(j);
            }
        }
        match event.action {
            Action::Attached => match self.position(&event.udid) {
                Some(i) => {
                    proof {
                        self.lemma_view_at(i as int);
                    }
                    let ghost before = *self;
                    let interfaces = with_interface(&self.records[i].interfaces, event.interface);
                    let rec = DeviceRecord {
                        udid: self.records[i].udid.clone(),
                        name: self.records[i].name.clone(),
                        interfaces,
                    };
                    self.records.set(i, rec);
                    proof {
                        DeviceState::lemma_replace(&before, self, i as int);
                    }
                },
                None => {
                    let ghost before = *self;
                    let mut interfaces: Vec<InterfaceType> = Vec::new();
                    interfaces.push(event.interface);
                    let rec = DeviceRecord {
                        udid: event.udid.clone(),
                        name: event.name.clone(),
                        interfaces,
                    };
                    proof {
                        assert(rec.interfaces@ =~= Seq::<InterfaceType>::empty().push(event.interface));
                        lemma_push_to_set(Seq::<InterfaceType>::empty(), event.interface);
                        assert(Seq::<InterfaceType>::empty().to_set() =~= Set::<InterfaceType>::empty());
                    }
                    self.records.push(rec);
                    proof {
                        DeviceState::lemma_append(&before, self, rec);
                    }
                },
            },
            Action::Detached => match self.position(&event.udid) {
                Some(i) => {
                    proof {
                        self.lemma_view_at(i as int);
                    }
                    let ghost before = *self;
                    let interfaces = without_interface(&self.records[i].interfaces, event.interface);
                    let rec = DeviceRecord {
                        udid: self.records[i].udid.clone(),
                        name: self.records[i].name.clone(),
                        interfaces,
                    };
                    self.records.set(i, rec);
                    proof {
                        DeviceState::lemma_replace(&before, self, i as int);
                    }
                },
                None => {},
            },
            Action::Unknown(_) => {},
        }
    }

    /// The name and active interfaces of a device, if the projection knows it.
    pub fn get(&self, udid: &String) -> (r: Option<(String, Vec<InterfaceType>)>)
        requires
            self.wf(),
        ensures
            r is Some <==> self.view().contains_key(udid@),
            r matches Some(p) ==> self.view()[udid@] == (p.0@, p.1@.to_set()),
    {
        match self.position(udid) {
            Some(i) => {
                proof {
                    self.lemma_view_at(i as int);
                }
                Some((self.records[i].name.clone(), copy_interfaces(&self.records[i].interfaces)))
            },
            None => None,
        }
    }

    /// The number of devices the projection knows.
    pub fn len(&self) -> (r: usize)
        requires
            self.wf(),
        ensures
            r == self.view().dom().len(),
    {
        proof {
            self.keys().unique_seq_to_set();
            assert(self.view().dom() =~= self.keys().to_set());
        }
        self.records.len()
    }
    /// Every device the projection knows, each once, with its name and active interfaces.
    pub fn snapshot(&self) -> (r: Vec<DeviceRecord>)
        requires
            self.wf(),
        ensures
            r@.len() == self.view().dom().len(),
            forall|i: int|
                0 <= i < r@.len() ==> self.view().contains_key(#[trigger] r@[i].udid@)
                    && self.view()[r@[i].udid@] == (r@[i].name@, r@[i].interfaces@.to_set()),
            forall|u: Seq<char>|
                #[trigger] self.view().contains_key(u) ==> exists|i: int|
                    0 <= i < r@.len() && r@[i].udid@ == u,
    {
        let mut r: Vec<DeviceRecord> = Vec::new();
        let mut i: usize = 0;
        while i < self.records.len()
            invariant
                self.wf(),
                i <= self.records@.len(),
                r@.len() == i,
                forall|j: int|
                    0 <= j < i ==> (#[trigger] r@[j]).udid@ == self.records@[j].udid@ && r@[j].name@
                        == self.records@[j].name@ && r@[j].interfaces@ == self.records@[j].interfaces@,
            decreases self.records@.len() - i,
        {
            let rec = DeviceRecord {
                udid: self.records[i].udid.clone(),
                name: self.records[i].name.clone(),
                interfaces: copy_interfaces(&self.records[i].interfaces),
            };
            r.push(rec);
            i = i + 1;
        }
        proof {
            self.keys().unique_seq_to_set();
            assert(self.view().dom() =~= self.keys().to_set());
            assert forall|j: int| 0 <= j < r@.len() implies self.view().contains_key(#[trigger] r@[j].udid@)
                && self.view()[r@[j].udid@] == (r@[j].name@, r@[j].interfaces@.to_set()) by {
                self.lemma_view_at(j);
            }
            assert forall|u: Seq<char>| #[trigger] self.view().contains_key(u) implies exists|j: int|
                0 <= j < r@.len() && r@[j].udid@ == u by {
                let j = choose|j: int| 0 <= j < self.keys().len() && self.keys()[j] == u;
                assert(r@[j].udid@ == u);
            }
        }
        r
    }
}

} // verus!
