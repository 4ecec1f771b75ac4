//! The address registry: which mailbox each live address delivers to.
use vstd::prelude::*;

use crate::address::{Address, AddressView};

verus! {

/// Registering an address that is already registered.
#[derive(Debug, PartialEq, Eq, Structural)]
pub struct AddressInUse;

/// Binds an address to the handle of its actor's mailbox.
pub struct AddressRecord {
    pub address: Address,
    pub handle: usize,
}

/// True when some record of `rs` is bound to `a`.
pub open spec fn bound(rs: Seq<AddressRecord>, a: AddressView) -> bool {
    exists|i: int| 0 <= i < rs.len() && (#[trigger] rs[i]).address@ == a
}

/// The map from address to handle that the records describe.
pub open spec fn map_of(rs: Seq<AddressRecord>) -> Map<AddressView, usize> {
    Map::new(
        |a: AddressView| bound(rs, a),
        |a: AddressView| rs[choose|i: int| 0 <= i < rs.len() && (#[trigger] rs[i]).address@ == a].handle,
    )
}

/// No two records share an address.
pub open spec fn unique(rs: Seq<AddressRecord>) -> bool {
    forall|i: int, j: int|
        0 <= i < rs.len() && 0 <= j < rs.len() && (#[trigger] rs[i]).address@ == (#[trigger] rs[j]).address@
            ==> i == j
}

/// What a lookup of `a` returns in a registry with map `m`.
pub open spec fn lookup_spec(m: Map<AddressView, usize>, a: AddressView) -> Option<usize> {
    if m.contains_key(a) {
        Some(m[a])
    } else {
        None
    }
}

/// The registry after registering `a` with `h`, and whether that succeeded.
pub open spec fn register_spec(m: Map<AddressView, usize>, a: AddressView, h: usize) -> (
    Map<AddressView, usize>,
    bool,
) {
    if m.contains_key(a) {
        (m, false)
    } else {
        (m.insert(a, h), true)
    }
}

/// The set of live addresses of a node, each bound to its mailbox handle.
pub struct Registry {
    records: Vec<AddressRecord>,
}

impl View for Registry {
    type V = Map<AddressView, usize>;

    closed spec fn view(&self) -> Map<AddressView, usize> {
        map_of(self.records@)
    }
}

proof fn lemma_map_of_at(rs: Seq<AddressRecord>, i: int)
    requires
        unique(rs),
        0 <= i < rs.len(),
    ensures
        map_of(rs).contains_key(rs[i].address@),
        map_of(rs)[rs[i].address@] == rs[i].handle,
{
    let a = rs[i].address@;
    assert(bound(rs, a));
    let j = choose|j: int| 0 <= j < rs.len() && (#[trigger] rs[j]).address@ == a;
    assert(i == j);
}

impl Registry {
    /// Well-formed: each address is registered at most once.
    pub closed spec fn wf(&self) -> bool {
        unique(self.records@)
    }

    /// An empty registry.
    pub fn new() -> (r: Registry)
        ensures
            r.wf(),
            r@ == Map::<AddressView, usize>::empty(),
    {
        let r = Registry { records: Vec::new() };
        assert(r@ =~= Map::<AddressView, usize>::empty());
        r
    }

    fn find(&self, a: &Address) -> (r: Option<usize>)
        requires
            self.wf(),
        ensures
            match r {
                Some(i) => i < self.records@.len() && self.records@[i as int].address@ == a@,
                None => !bound(self.records@, a@),
            },
    {
        let mut i: usize = 0;
        while i < self.records.len()
            invariant
                i <= self.records@.len(),
                forall|j: int| 0 <= j < i ==> (#[trigger] self.records@[j]).address@ != a@,
            decreases self.records@.len() - i,
        {
            if self.records[i].address.same(a) {
                return Some(i);
            }
            i = i + 1;
        }
        None
    }

    /// The handle bound to `a`, if `a` is registered.
    pub fn lookup(&self, a: &Address) -> (r: Option<usize>)
        requires
            self.wf(),
        ensures
            r == lookup_spec(self@, a@),
    {
        match self.find(a) {
            Some(i) => {
                proof {
                    lemma_map_of_at(self.records@, i as int);
                }
                Some(self.records[i].handle)
            },
            None => None,
        }
    }

    /// True when `a` is registered.
    pub fn contains(&self, a: &Address) -> (r: bool)
        requires
            self.wf(),
        ensures
            r == self@.contains_key(a@),
    {
        self.lookup(a).is_some()
    }

    /// Binds `a` to `h`; fails with `AddressInUse`, changing nothing, when
    /// `a` is already registered.
    pub fn register(&mut self, a: Address, h: usize) -> (r: Result<(), AddressInUse>)
        requires
            old(self).wf(),
        ensures
            final(self).wf(),
            final(self)@ == register_spec(old(self)@, a@, h).0,
            r is Ok == register_spec(old(self)@, a@, h).1,
    {
        if self.contains(&a) {
            return Err(AddressInUse);
        }
        let ghost av = a@;
        let ghost old_rs = self.records@;
        self.records.push(AddressRecord { address: a, handle: h });
        proof {
            let rs = self.records@;
            assert(unique(rs)) by {
                assert forall|i: int, j: int|
                    0 <= i < rs.len() && 0 <= j < rs.len() && (#[trigger] rs[i]).address@
                        == (#[trigger] rs[j]).address@ implies i == j by {
                    if i < old_rs.len() && j == old_rs.len() {
                        assert(bound(old_rs, av));
                    }
                    if j < old_rs.len() && i == old_rs.len() {
                        assert(bound(old_rs, av));
                    }
                    if i < old_rs.len() && j < old_rs.len() {
                        assert(old_rs[i] == rs[i] && old_rs[j] == rs[j]);
                    }
                }
            }
            assert forall|k: AddressView| #[trigger] bound(rs, k) == (k == av || bound(old_rs, k)) by {
                if bound(old_rs, k) {
                    let i = choose|i: int| 0 <= i < old_rs.len() && (#[trigger] old_rs[i]).address@ == k;
                    assert(rs[i] == old_rs[i]);
                }
                if bound(rs, k) && k != av {
                    let i = choose|i: int| 0 <= i < rs.len() && (#[trigger] rs[i]).address@ == k;
                    assert(rs[i] == old_rs[i]);
                }
                if k == av {
                    assert(rs[old_rs.len() as int].address@ == av);
                }
            }
            assert forall|k: AddressView| #[trigger] map_of(rs).contains_key(k) implies map_of(rs)[k]
                == old(self)@.insert(av, h)[k] by {
                let i = choose|i: int| 0 <= i < rs.len() && (#[trigger] rs[i]).address@ == k;
                lemma_map_of_at(rs, i);
                if i < old_rs.len() {
                    assert(rs[i] == old_rs[i]);
                    lemma_map_of_at(old_rs, i);
                }
            }
            assert(map_of(rs) =~= old(self)@.insert(av, h));
        }
        Ok(())
    }

    /// Unbinds `a`, returning the handle it was bound to.
    pub fn remove(&mut self, a: &Address) -> (r: Option<usize>)
        requires
            old(self).wf(),
        ensures
            final(self).wf(),
            final(self)@ == old(self)@.remove(a@),
            r == lookup_spec(old(self)@, a@),
    {
        match self.find(a) {
            None => {
                assert(self@ =~= old(self)@.remove(a@));
                None
            },
            Some(i) => {
                let ghost old_rs = self.records@;
                proof {
                    lemma_map_of_at(old_rs, i as int);
                }
                let rec = self.records.remove(i);
                proof {
                    let rs = self.records@;
                    assert(forall|j: int| 0 <= j < rs.len() ==> #[trigger] rs[j] == old_rs[if j < i { j } else { j + 1 }]);
                    assert(unique(rs)) by {
                        assert forall|p: int, q: int|
                            0 <= p < rs.len() && 0 <= q < rs.len() && (#[trigger] rs[p]).address@
                                == (#[trigger] rs[q]).address@ implies p == q by {
                            let op = if p < i { p } else { p + 1 };
                            let oq = if q < i { q } else { q + 1 };
                            assert(old_rs[op] == rs[p] && old_rs[oq] == rs[q]);
                        }
                    }
                    assert forall|k: AddressView| #[trigger] bound(rs, k) == (k != a@ && bound(old_rs, k)) by {
                        if bound(old_rs, k) && k != a@ {
                            let p = choose|p: int| 0 <= p < old_rs.len() && (#[trigger] old_rs[p]).address@ == k;
                            assert(p != i);
                            let q = if p < i { p } else { p - 1 };
                            assert(rs[q] == old_rs[p]);
                        }
                        if bound(rs, k) {
                            let q = choose|q: int| 0 <= q < rs.len() && (#[trigger] rs[q]).address@ == k;
                            let p = if q < i { q } else { q + 1 };
                            assert(rs[q] == old_rs[p]);
                            assert(p != i);
                        }
                    }
                    assert forall|k: AddressView| #[trigger] map_of(rs).contains_key(k) implies map_of(rs)[k]
                        == old(self)@.remove(a@)[k] by {
                        let q = choose|q: int| 0 <= q < rs.len() && (#[trigger] rs[q]).address@ == k;
                        lemma_map_of_at(rs, q);
                        let p = if q < i { q } else { q + 1 };
                        assert(rs[q] == old_rs[p]);
                        lemma_map_of_at(old_rs, p);
                    }
                    assert(map_of(rs) =~= old(self)@.remove(a@));
                }
                Some(rec.handle)
            },
        }
    }
}

} // verus!

verus! {

/// Registering a second actor under an address that is already registered
/// fails, and the first actor stays reachable at that address.
pub proof fn lemma_second_registration_fails(
    m: Map<AddressView, usize>,
    a: AddressView,
    first: usize,
    second: usize,
)
    requires
        !m.contains_key(a),
    ensures
        register_spec(m, a, first).1,
        !register_spec(register_spec(m, a, first).0, a, second).1,
        register_spec(register_spec(m, a, first).0, a, second).0 == register_spec(m, a, first).0,
        lookup_spec(register_spec(register_spec(m, a, first).0, a, second).0, a) == Some(first),
{
}

/// Looking up an address twice in a registry that did not change in between
/// gives the same handle.
pub proof fn lemma_lookup_idempotent(m1: Map<AddressView, usize>, m2: Map<AddressView, usize>, a: AddressView)
    requires
        m1 == m2,
    ensures
        lookup_spec(m1, a) == lookup_spec(m2, a),
{
}

} // verus!
