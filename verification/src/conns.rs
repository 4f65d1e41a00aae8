//! The set of open connections and the delivery rule: a unicast reply goes
//! to the requester alone, a broadcast to every connection open at the
//! moment of the call.

use vstd::prelude::*;

use crate::ops::Reply;
use crate::ops::ReplyV;

verus! {

/// One open connection: its identity and, when the handshake gave one, the
/// peer's address.
pub struct Connection {
    pub id: u64,
    pub remote: Option<String>,
}

/// Ghost mirror of [`Connection`].
#[verifier::ext_equal]
pub struct ConnectionV {
    pub id: u64,
    pub remote: Option<Seq<char>>,
}

impl View for Connection {
    type V = ConnectionV;

    open spec fn view(&self) -> ConnectionV {
        ConnectionV {
            id: self.id,
            remote: match &self.remote {
                Some(s) => Some(s@),
                None => None,
            },
        }
    }
}

/// The ghost form of a connection list.
pub open spec fn conns_model(cs: Seq<Connection>) -> Seq<ConnectionV> {
    Seq::new(
        cs.len(),
        |i: int|
            if 0 <= i < cs.len() {
                cs[i]@
            } else {
                ConnectionV { id: 0, remote: None }
            },
    )
}

/// The identities of a connection list, in order.
pub open spec fn spec_ids(cs: Seq<ConnectionV>) -> Seq<u64> {
    Seq::new(cs.len(), |i: int| cs[i].id)
}

/// A connection list with every connection of identity `id` left out.
pub open spec fn spec_without(cs: Seq<ConnectionV>, id: u64) -> Seq<ConnectionV>
    decreases cs.len(),
{
    if cs.len() == 0 {
        Seq::empty()
    } else {
        let rest = spec_without(cs.drop_last(), id);
        if cs.last().id != id {
            rest.push(cs.last())
        } else {
            rest
        }
    }
}

/// Leaving an identity out keeps the rest: every kept connection comes
/// from the list, carries another identity, and identities stay pairwise
/// distinct.
pub proof fn lemma_without_distinct(cs: Seq<ConnectionV>, id: u64)
    requires
        forall|i: int, k: int| 0 <= i < k < cs.len() ==> cs[i].id != cs[k].id,
    ensures
        forall|k: int| #![auto]
            0 <= k < spec_without(cs, id).len() ==> spec_without(cs, id)[k].id != id
                && cs.contains(spec_without(cs, id)[k]),
        forall|i: int, k: int|
            0 <= i < k < spec_without(cs, id).len() ==> spec_without(cs, id)[i].id
                != spec_without(cs, id)[k].id,
    decreases cs.len(),
{
    if cs.len() > 0 {
        let prefix = cs.drop_last();
        lemma_without_distinct(prefix, id);
        let rest = spec_without(prefix, id);
        assert forall|k: int| #![auto] 0 <= k < rest.len() implies cs.contains(rest[k]) by {
            let j = choose|j: int| 0 <= j < prefix.len() && prefix[j] == rest[k];
            assert(cs[j] == rest[k]);
        }
        if cs.last().id != id {
            assert forall|k: int| #![auto] 0 <= k < rest.len() implies rest[k].id
                != cs.last().id by {
                let j = choose|j: int| 0 <= j < prefix.len() && prefix[j] == rest[k];
                assert(cs[j] == rest[k]);
                assert(cs[cs.len() - 1] == cs.last());
            }
            assert(cs.contains(cs.last()));
        }
    }
}

/// The broadcast set: every open connection, each exactly once.
pub struct Connections {
    conns: Vec<Connection>,
}

impl View for Connections {
    type V = Seq<ConnectionV>;

    closed spec fn view(&self) -> Seq<ConnectionV> {
        conns_model(self.conns@)
    }
}

impl Connections {
    /// No two held connections share an identity.
    pub open spec fn wf(&self) -> bool {
        forall|i: int, k: int|
            0 <= i < k < self@.len() ==> self@[i].id != self@[k].id
    }

    /// An empty broadcast set.
    pub fn new() -> (r: Connections)
        ensures
            r@ == Seq::<ConnectionV>::empty(),
            r.wf(),
    {
        let r = Connections { conns: Vec::new() };
        proof {
            assert(r@ =~= Seq::<ConnectionV>::empty());
        }
        r
    }

    /// Records a newly opened connection.
    pub fn open(&mut self, c: Connection)
        requires
            old(self).wf(),
            forall|i: int| 0 <= i < old(self)@.len() ==> old(self)@[i].id != c.id,
        ensures
            final(self)@ == old(self)@.push(c@),
            final(self).wf(),
    {
        let ghost before = self@;
        self.conns.push(c);
        proof {
            assert(self@ =~= before.push(c@));
        }
    }

    /// Releases a closed connection from the broadcast set.
    #[verifier::loop_isolation(false)]
    pub fn close(&mut self, id: u64)
        requires
            old(self).wf(),
        ensures
            final(self)@ == spec_without(old(self)@, id),
            final(self).wf(),
    {
        let ghost before = self@;
        let mut out: Vec<Connection> = Vec::new();
        let n = self.conns.len();
        let mut i: usize = 0;
        proof {
            assert(before.take(0) =~= Seq::<ConnectionV>::empty());
        }
        while i < n
            invariant
                n == self.conns@.len(),
                i <= n,
                before == conns_model(self.conns@),
                conns_model(out@) == spec_without(before.take(i as int), id),
            decreases n - i,
        {
            let keep = self.conns[i].id != id;
            if keep {
                let c = &self.conns[i];
                out.push(
                    Connection {
                        id: c.id,
                        remote: match &c.remote {
                            Some(s) => Some(s.clone()),
                            None => None,
                        },
                    },
                );
            }
            proof {
                assert(before.take(i as int + 1).drop_last() =~= before.take(i as int));
                assert(before.take(i as int + 1).last() == before[i as int]);
                assert(conns_model(out@) =~= spec_without(before.take(i as int + 1), id));
            }
            i = i + 1;
        }
        proof {
            assert(before.take(n as int) =~= before);
        }
        self.conns = out;
        proof {
            lemma_without_distinct(before, id);
        }
    }

    /// Who receives a reply: the requester alone for a unicast, every open
    /// connection — the requester included — for a broadcast.
    pub fn recipients(&self, reply: &Reply, sender: u64) -> (r: Vec<u64>)
        ensures
            match reply@ {
                ReplyV::Unicast(_) => r@ == seq![sender],
                ReplyV::Broadcast(_) => r@ == spec_ids(self@),
            },
    {
        match reply {
            Reply::Unicast(_) => {
                let mut out: Vec<u64> = Vec::new();
                out.push(sender);
                proof {
                    assert(out@ =~= seq![sender]);
                }
                out
            },
            Reply::Broadcast(_) => {
                let mut out: Vec<u64> = Vec::new();
                let n = self.conns.len();
                let mut i: usize = 0;
                while i < n
                    invariant
                        n == self.conns@.len(),
                        i <= n,
                        out@.len() == i as int,
                        forall|k: int| 0 <= k < i ==> out@[k] == spec_ids(self@)[k],
                    decreases n - i,
                {
                    out.push(self.conns[i].id);
                    i = i + 1;
                }
                proof {
                    assert(out@ =~= spec_ids(self@));
                }
                out
            },
        }
    }
}

} // verus!
