use vstd::prelude::*;
use crate::connection::{PunctureConnectionWrapper, SessionState};
use crate::error::PunctureError;
use crate::invite::InviteWrapper;

verus! {

/// A registered daemon, as the registry sees it.
pub struct DaemonRecord {
    pub id: Seq<char>,
    pub name: Seq<char>,
    pub address: Seq<char>,
}

/// A registered daemon: its identity, its name and its address.
#[derive(Debug)]
pub struct DaemonWrapper {
    id: String,
    name: String,
    address: String,
}

impl DaemonWrapper {
    pub closed spec fn record(&self) -> DaemonRecord {
        DaemonRecord { id: self.id@, name: self.name@, address: self.address@ }
    }

    /// A daemon record, as storage keeps it.
    pub fn new(id: String, name: String, address: String) -> (r: Self)
        ensures
            r.record() == (DaemonRecord { id: id@, name: name@, address: address@ }),
    {
        DaemonWrapper { id, name, address }
    }

    /// The instance's name.
    pub fn name(&self) -> (r: String)
        ensures
            r@ == self.record().name,
    {
        self.name.clone()
    }

    /// The daemon's identity.
    pub fn id(&self) -> (r: String)
        ensures
            r@ == self.record().id,
    {
        self.id.clone()
    }

    /// The daemon's address.
    pub fn address(&self) -> (r: String)
        ensures
            r@ == self.record().address,
    {
        self.address.clone()
    }

    /// A copy of this record.
    pub fn duplicate(&self) -> (r: Self)
        ensures
            r.record() == self.record(),
    {
        DaemonWrapper { id: self.id.clone(), name: self.name.clone(), address: self.address.clone() }
    }

    /// A new session to this daemon. It always succeeds: the session has not
    /// reached the daemon yet, and whether it can shows on first use.
    pub fn connect(&self) -> (r: PunctureConnectionWrapper)
        ensures
            r.daemon() == self.record().id,
            r.session() == SessionState::Connecting,
            r.queued() == Seq::<crate::events::Event>::empty(),
    {
        PunctureConnectionWrapper::new(self.id.clone())
    }
}

/// The records that a sequence of daemons holds.
pub open spec fn records(ds: Seq<DaemonWrapper>) -> Seq<DaemonRecord> {
    ds.map_values(|d: DaemonWrapper| d.record())
}

/// Whether some record in `ds` has identity `id`.
pub open spec fn has_id(ds: Seq<DaemonRecord>, id: Seq<char>) -> bool {
    exists|i: int| 0 <= i < ds.len() && (#[trigger] ds[i]).id == id
}

/// No two records share an identity.
pub open spec fn ids_unique(ds: Seq<DaemonRecord>) -> bool {
    forall|i: int, j: int| 0 <= i < j < ds.len() ==> (#[trigger] ds[i]).id != (#[trigger] ds[j]).id
}

/// The registry after registering `d`: unchanged if its identity is taken.
pub open spec fn registered(ds: Seq<DaemonRecord>, d: DaemonRecord) -> Seq<DaemonRecord> {
    if has_id(ds, d.id) {
        ds
    } else {
        ds.push(d)
    }
}

/// The registry after registering each of `ds` in turn: the first record of
/// each identity is kept, later ones are left out.
pub open spec fn loaded(ds: Seq<DaemonRecord>) -> Seq<DaemonRecord>
    decreases ds.len(),
{
    if ds.len() == 0 {
        ds
    } else {
        registered(loaded(ds.drop_last()), ds.last())
    }
}

/// The registry of daemons, at most one per identity. Registration and
/// deletion take `&mut self`, so they are serialized by construction.
pub struct PunctureClientWrapper {
    daemons: Vec<DaemonWrapper>,
}

impl PunctureClientWrapper {
    /// The registered daemons, oldest first.
    pub closed spec fn registry(&self) -> Seq<DaemonRecord> {
        records(self.daemons@)
    }

    /// No two registered daemons share an identity.
    pub open spec fn wf(&self) -> bool {
        ids_unique(self.registry())
    }

    /// Holds of every registry value: identities are unique.
    #[verifier::type_invariant]
    spec fn inv(&self) -> bool {
        ids_unique(records(self.daemons@))
    }

    /// An empty registry.
    pub fn new_instance() -> (r: Self)
        ensures
            r.wf(),
            r.registry() == Seq::<DaemonRecord>::empty(),
    {
        let r = PunctureClientWrapper { daemons: Vec::new() };
        assert(records(r.daemons@) =~= Seq::<DaemonRecord>::empty());
        assert(r.registry() =~= Seq::<DaemonRecord>::empty());
        r
    }

    /// A registry holding `stored` in order, without the records whose
    /// identity an earlier record already has.
    pub fn from_records(stored: Vec<DaemonWrapper>) -> (r: Self)
        ensures
            r.wf(),
            r.registry() == loaded(records(stored@)),
    {
        let mut r = PunctureClientWrapper::new_instance();
        let n = stored.len();
        let mut rest = stored;
        let ghost all = records(stored@);
        assert forall|k: int| 0 <= k < rest@.len() implies (#[trigger] rest@[k]).record() == all[0 + k] by {}
        let mut i: usize = 0;
        assert(all.subrange(0, 0) =~= Seq::<DaemonRecord>::empty());
        while rest.len() > 0
            invariant
                i + rest@.len() == all.len(),
                all.len() == n,
                all == records(stored@),
                forall|k: int| 0 <= k < rest@.len() ==> (#[trigger] rest@[k]).record() == all[i + k],
                r.wf(),
                r.registry() == loaded(all.subrange(0, i as int)),
            decreases rest@.len(),
        {
            let ghost old_rest = rest@;
            let d = rest.remove(0);
            assert(d.record() == all[i as int]);
            assert forall|k: int| 0 <= k < rest@.len() implies (#[trigger] rest@[k]).record()
                == all[i + 1 + k] by {
                assert(rest@[k] == old_rest[k + 1]);
            }
            assert(all.subrange(0, i + 1).drop_last() =~= all.subrange(0, i as int));
            let _ = r.insert(d);
            i = i + 1;
        }
        assert(all.subrange(0, i as int) =~= all);
        r
    }

    /// Moves the records out, leaving the registry empty.
    fn take_all(&mut self) -> (r: Vec<DaemonWrapper>)
        ensures
            r@ == old(self).daemons@,
            ids_unique(records(r@)),
    {
        proof {
            use_type_invariant(&*self);
        }
        let mut other = PunctureClientWrapper::new_instance();
        std::mem::swap(self, &mut other);
        proof {
            use_type_invariant(&other);
        }
        let PunctureClientWrapper { daemons } = other;
        daemons
    }

    /// Position of the daemon with identity `id`, if registered.
    fn position(&self, id: &String) -> (r: Option<usize>)
        ensures
            match r {
                Some(i) => i < self.registry().len() && self.registry()[i as int].id == id@,
                None => !has_id(self.registry(), id@),
            },
    {
        let mut i: usize = 0;
        while i < self.daemons.len()
            invariant
                i <= self.daemons@.len(),
                forall|j: int| 0 <= j < i ==> (#[trigger] self.registry()[j]).id != id@,
            decreases self.daemons@.len() - i,
        {
            if self.daemons[i].id == *id {
                return Some(i);
            }
            i = i + 1;
        }
        None
    }

    /// Whether a daemon with identity `id` is registered.
    pub fn is_registered(&self, id: &String) -> (r: bool)
        ensures
            r == has_id(self.registry(), id@),
    {
        self.position(id).is_some()
    }

    /// Adds `daemon` unless a daemon with its identity is registered already.
    pub fn insert(&mut self, daemon: DaemonWrapper) -> (r: Result<(), PunctureError>)
        ensures
            final(self).wf(),
            final(self).registry() == registered(old(self).registry(), daemon.record()),
            r.is_ok() == !has_id(old(self).registry(), daemon.record().id),
            r matches Err(e) ==> e is AlreadyRegistered,
    {
        proof {
            use_type_invariant(&*self);
        }
        match self.position(&daemon.id) {
            Some(_) => Err(PunctureError::AlreadyRegistered),
            None => {
                let ghost before = self.registry();
                let mut ds = self.take_all();
                proof {
                    lemma_push_keeps_unique(ds@, daemon);
                }
                ds.push(daemon);
                *self = PunctureClientWrapper { daemons: ds };
                assert(self.registry() =~= before.push(daemon.record()));
                Ok(())
            },
        }
    }

    /// Registers the daemon that `invite` names, given its answer to the
    /// handshake (its name, or why it failed), and returns a connection that is
    /// already live. A failed handshake or a taken identity leaves the
    /// registry as it was.
    pub fn register(&mut self, invite: &InviteWrapper, handshake: Result<String, PunctureError>) -> (r:
        Result<PunctureConnectionWrapper, PunctureError>)
        ensures
            final(self).wf(),
            match handshake {
                Err(e) => r == Err::<PunctureConnectionWrapper, PunctureError>(e)
                    && final(self).registry() == old(self).registry(),
                Ok(name) => if has_id(old(self).registry(), invite.id()) {
                    r matches Err(e) && e is AlreadyRegistered && final(self).registry() == old(
                        self,
                    ).registry()
                } else {
                    &&& final(self).registry() == old(self).registry().push(
                        DaemonRecord { id: invite.id(), name: name@, address: invite.endpoint() },
                    )
                    &&& r matches Ok(c) && c.daemon() == invite.id() && c.session()
                        == SessionState::Live && c.queued() == Seq::<crate::events::Event>::empty()
                },
            },
    {
        proof {
            use_type_invariant(&*self);
        }
        let name = match handshake {
            Err(e) => return Err(e),
            Ok(name) => name,
        };
        let daemon = DaemonWrapper::new(invite.node_id(), name, invite.address());
        match self.insert(daemon) {
            Err(e) => Err(e),
            Ok(()) => {
                let mut c = PunctureConnectionWrapper::new(invite.node_id());
                c.on_transport(crate::connection::TransportEvent::Connected);
                Ok(c)
            },
        }
    }

    /// The registered daemons, oldest first.
    pub fn list_daemons(&self) -> (r: Vec<DaemonWrapper>)
        ensures
            records(r@) == self.registry(),
    {
        let mut r: Vec<DaemonWrapper> = Vec::new();
        let mut i: usize = 0;
        while i < self.daemons.len()
            invariant
                i <= self.daemons@.len(),
                r@.len() == i,
                records(r@) == self.registry().subrange(0, i as int),
            decreases self.daemons@.len() - i,
        {
            let ghost before = r@;
            r.push(self.daemons[i].duplicate());
            assert(records(r@) =~= self.registry().subrange(0, i + 1)) by {
                assert(r@ == before.push(r@[i as int]));
                assert forall|k: int| 0 <= k < i implies records(r@)[k] == self.registry()[k] by {
                    assert(records(before)[k] == self.registry().subrange(0, i as int)[k]);
                }
            }
            i = i + 1;
        }
        assert(self.registry().subrange(0, i as int) =~= self.registry());
        r
    }

    /// Removes `daemon`'s record, if registered. Connections obtained for it
    /// earlier are left alone; they fail once the transport reports the
    /// daemon gone.
    pub fn delete_daemon(&mut self, daemon: DaemonWrapper)
        ensures
            final(self).wf(),
            !has_id(old(self).registry(), daemon.record().id) ==> final(self).registry() == old(
                self,
            ).registry(),
            has_id(old(self).registry(), daemon.record().id) ==> exists|p: int|
                0 <= p < old(self).registry().len() && old(self).registry()[p].id
                    == daemon.record().id && final(self).registry() == old(self).registry().remove(
                    p,
                ),
            !has_id(final(self).registry(), daemon.record().id),
    {
        proof {
            use_type_invariant(&*self);
        }
        match self.position(&daemon.id) {
            None => {},
            Some(i) => {
                let ghost before = self.registry();
                proof {
                    lemma_remove_keeps_unique(self.daemons@, i as int);
                }
                let mut ds = self.take_all();
                ds.remove(i);
                *self = PunctureClientWrapper { daemons: ds };
                assert(self.registry() =~= before.remove(i as int));
                assert forall|j: int| 0 <= j < self.registry().len() implies (
                #[trigger] self.registry()[j]).id != daemon.record().id by {
                    if j < i {
                        assert(self.registry()[j] == before[j]);
                    } else {
                        assert(self.registry()[j] == before[j + 1]);
                    }
                }
            },
        }
    }

}

} // verus!

verus! {

proof fn lemma_push_keeps_unique(v: Seq<DaemonWrapper>, d: DaemonWrapper)
    requires
        ids_unique(records(v)),
        !has_id(records(v), d.record().id),
    ensures
        ids_unique(records(v.push(d))),
{
    let a = records(v);
    let b = records(v.push(d));
    assert(b =~= a.push(d.record()));
    assert forall|i: int, j: int| 0 <= i < j < b.len() implies (#[trigger] b[i]).id != (
    #[trigger] b[j]).id by {
        assert(b[i] == a[i]);
        if j < a.len() {
            assert(b[j] == a[j]);
        }
    }
}

proof fn lemma_remove_keeps_unique(v: Seq<DaemonWrapper>, k: int)
    requires
        ids_unique(records(v)),
        0 <= k < v.len(),
    ensures
        ids_unique(records(v.remove(k))),
{
    let a = records(v);
    let b = records(v.remove(k));
    assert(b =~= a.remove(k));
    assert forall|i: int, j: int| 0 <= i < j < b.len() implies (#[trigger] b[i]).id != (
    #[trigger] b[j]).id by {
        let i2 = if i < k { i } else { i + 1 };
        let j2 = if j < k { j } else { j + 1 };
        assert(b[i] == a[i2] && b[j] == a[j2]);
    }
}

/// Registering two daemons of distinct identities keeps both.
pub proof fn lemma_register_distinct(ds: Seq<DaemonRecord>, a: DaemonRecord, b: DaemonRecord)
    requires
        ids_unique(ds),
        a.id != b.id,
        !has_id(ds, a.id),
        !has_id(ds, b.id),
    ensures
        registered(registered(ds, a), b) == ds.push(a).push(b),
        has_id(registered(registered(ds, a), b), a.id),
        has_id(registered(registered(ds, a), b), b.id),
        ids_unique(registered(registered(ds, a), b)),
{
    let one = ds.push(a);
    assert(one[ds.len() as int].id == a.id);
    if has_id(one, b.id) {
        let i = choose|i: int| 0 <= i < one.len() && (#[trigger] one[i]).id == b.id;
        if i < ds.len() {
            assert(ds[i].id == b.id);
        }
    }
    let two = one.push(b);
    assert(two[ds.len() as int].id == a.id);
    assert(two[ds.len() as int + 1].id == b.id);
    assert forall|i: int, j: int| 0 <= i < j < two.len() implies (#[trigger] two[i]).id != (
    #[trigger] two[j]).id by {
        if j == ds.len() + 1 {
            if i < ds.len() {
                assert(two[i] == ds[i]);
            }
        } else if j == ds.len() {
            assert(two[i] == ds[i]);
        } else {
            assert(two[i] == ds[i] && two[j] == ds[j]);
        }
    }
}

/// Registering the same identity twice keeps exactly one record of it.
pub proof fn lemma_register_same_once(ds: Seq<DaemonRecord>, a: DaemonRecord, b: DaemonRecord)
    requires
        ids_unique(ds),
        a.id == b.id,
    ensures
        has_id(registered(registered(ds, a), b), a.id),
        ids_unique(registered(registered(ds, a), b)),
        registered(registered(ds, a), b) == registered(ds, a),
{
    let one = registered(ds, a);
    if !has_id(ds, a.id) {
        assert(one[ds.len() as int].id == a.id);
        assert forall|i: int, j: int| 0 <= i < j < one.len() implies (#[trigger] one[i]).id != (
        #[trigger] one[j]).id by {
            assert(one[i] == ds[i]);
            if j < ds.len() {
                assert(one[j] == ds[j]);
            }
        }
    }
}

} // verus!
