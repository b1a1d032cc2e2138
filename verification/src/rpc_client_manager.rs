//! The registry owning the live sessions, one per identity.
//!
//! The registry is the single creation authority: a session is created
//! only through it, looked up through it, and torn down only by an
//! explicit sweep.  Its model is the sequence of session models in
//! registration order, with identities unique.

use vstd::prelude::*;

use crate::activity::spec_translate;
use crate::rpc_client::ConnectError;
use crate::rpc_client::RpcClient;
use crate::rpc_client::RpcClientModel;
use crate::rpc_client::SpecCall;
use crate::rpc_client::UpdateError;
use crate::types::PresenceData;

verus! {

/// The models of the given sessions, in order.
pub open spec fn clients_view(s: Seq<RpcClient>) -> Seq<RpcClientModel> {
    Seq::new(s.len(), |i: int| s[i]@)
}

/// Whether some session in `m` serves `id`.
pub open spec fn contains_id(m: Seq<RpcClientModel>, id: Seq<char>) -> bool {
    exists|i: int| 0 <= i < m.len() && m[i].client_id == id
}

/// The index of the session serving `id`, when one exists.
pub open spec fn index_of_id(m: Seq<RpcClientModel>, id: Seq<char>) -> int {
    choose|i: int| 0 <= i < m.len() && m[i].client_id == id
}

/// No two sessions serve the same identity.
pub open spec fn unique_ids(m: Seq<RpcClientModel>) -> bool {
    forall|i: int, j: int| 0 <= i < j < m.len() ==> m[i].client_id != m[j].client_id
}

/// The registry after appending the given calls to the trace of the
/// session at index `i`; everything else is untouched.
pub open spec fn bump(m: Seq<RpcClientModel>, i: int, calls: Seq<SpecCall>)
    -> Seq<RpcClientModel> {
    m.update(i, RpcClientModel { calls: m[i].calls + calls, ..m[i] })
}

/// The registry after one clear has been appended to every session's
/// trace; identities and users are untouched.
pub open spec fn all_cleared(m: Seq<RpcClientModel>) -> Seq<RpcClientModel> {
    Seq::new(m.len(), |i: int| RpcClientModel { calls: m[i].calls.push(SpecCall::Clear), ..m[i] })
}

/// The registry of sessions.  Entries are created on first successful
/// connect and removed only by explicit teardown, never on error.
pub struct RpcClientManager {
    rpc_clients: Vec<RpcClient>,
    pid: u32,
}

impl View for RpcClientManager {
    type V = Seq<RpcClientModel>;

    closed spec fn view(&self) -> Seq<RpcClientModel> {
        clients_view(self.rpc_clients@)
    }
}

impl RpcClientManager {
    /// Well-formed: at most one live session per identity.
    pub open spec fn wf(&self) -> bool {
        unique_ids(self@)
    }

    /// An empty registry.  `pid` names this process in every frame the
    /// registry's sessions send.
    pub fn new(pid: u32) -> (r: RpcClientManager)
        ensures
            r@ == Seq::<RpcClientModel>::empty(),
            r.wf(),
    {
        RpcClientManager { rpc_clients: Vec::new(), pid }
    }

    /// Registers an already-connected session for an identity not yet
    /// present.
    pub fn add_client_instance(&mut self, rpc_client: RpcClient)
        requires
            old(self).wf(),
            !contains_id(old(self)@, rpc_client@.client_id),
        ensures
            final(self)@ == old(self)@.push(rpc_client@),
            final(self).wf(),
    {
        let ghost m0 = self@;
        let ghost c = rpc_client@;
        self.rpc_clients.push(rpc_client);
        proof {
            assert(self@ =~= m0.push(c));
            assert forall|i: int, j: int| 0 <= i < j < self@.len() implies self@[i].client_id
                != self@[j].client_id by {
                if j < m0.len() {
                } else {
                    assert(self@[j] == c);
                    assert(!contains_id(m0, c.client_id));
                }
            }
        }
    }

    /// Connects a session for a new identity and registers it.  On `Ok`
    /// exactly one session was appended, with exactly one connect in its
    /// trace; on `Err` the registry is unchanged and the identity stays
    /// unregistered, eligible for a retry on the next update.
    pub fn add_client(&mut self, client_id: String) -> (r: Result<(), ConnectError>)
        requires
            old(self).wf(),
            !contains_id(old(self)@, client_id@),
        ensures
            final(self).wf(),
            r is Ok ==> final(self)@.len() == old(self)@.len() + 1
                && final(self)@.drop_last() == old(self)@
                && final(self)@.last().client_id == client_id@
                && final(self)@.last().calls == seq![SpecCall::Connect],
            r is Err ==> final(self)@ == old(self)@,
    {
        let ghost m0 = self@;
        let rpc_client = match RpcClient::new(client_id, self.pid) {
            Ok(c) => c,
            Err(e) => {
                return Err(e);
            },
        };
        self.add_client_instance(rpc_client);
        proof {
            assert(self@.drop_last() =~= m0);
        }
        Ok(())
    }

    /// Finds the position of the session serving `id`, if any.
    fn find_index(&self, client_id: &String) -> (r: Option<usize>)
        ensures
            match r {
                Some(i) => i < self@.len() && self@[i as int].client_id == client_id@,
                None => !contains_id(self@, client_id@),
            },
    {
        let n = self.rpc_clients.len();
        let mut i: usize = 0;
        while i < n
            invariant
                n == self@.len(),
                i <= n,
                forall|k: int| 0 <= k < i ==> self@[k].client_id != client_id@,
            decreases n - i,
        {
            if self.rpc_clients[i].get_client_id().eq(client_id) {
                return Some(i);
            }
            i = i + 1;
        }
        None
    }

    /// Whether a session for `id` is registered.
    pub fn has_client(&self, client_id: &String) -> (r: bool)
        ensures
            r == contains_id(self@, client_id@),
    {
        self.find_index(client_id).is_some()
    }

    /// Non-creating lookup of the session serving `id`.
    pub fn get_client(&self, client_id: &String) -> (r: Option<&RpcClient>)
        ensures
            match r {
                Some(c) => contains_id(self@, client_id@) && c@.client_id == client_id@
                    && exists|i: int| 0 <= i < self@.len() && self@[i] == c@,
                None => !contains_id(self@, client_id@),
            },
    {
        match self.find_index(client_id) {
            Some(i) => {
                let c = &self.rpc_clients[i];
                proof {
                    assert(self@[i as int] == c@);
                }
                Some(c)
            },
            None => None,
        }
    }

    /// Removes the session serving `id` from the registry, dropping its
    /// connection.
    pub fn remove_client(&mut self, client_id: &String)
        requires
            old(self).wf(),
            contains_id(old(self)@, client_id@),
        ensures
            final(self).wf(),
            final(self)@ == old(self)@.remove(index_of_id(old(self)@, client_id@)),
    {
        let ghost m0 = self@;
        let i = match self.find_index(client_id) {
            Some(i) => i,
            None => {
                proof {
                    assert(false);
                }
                return ;
            },
        };
        proof {
            let j = index_of_id(m0, client_id@);
            assert(0 <= j < m0.len() && m0[j].client_id == client_id@);
            assert(j == i as int);
        }
        self.rpc_clients.remove(i);
        proof {
            assert(self@ =~= m0.remove(i as int));
        }
    }

    /// The registered sessions, in registration order.
    pub fn get_clients(&self) -> (r: &Vec<RpcClient>)
        ensures
            clients_view(r@) == self@,
    {
        &self.rpc_clients
    }

    /// Mutable access to the registered sessions.  The registry afterwards
    /// is whatever the caller leaves behind the reference; well-formedness
    /// is then the caller's to keep.
    pub fn get_clients_mut(&mut self) -> (r: &mut Vec<RpcClient>)
        ensures
            clients_view((*r)@) == old(self)@,
            final(self)@ == clients_view((*final(r))@),
    {
        &mut self.rpc_clients
    }

    /// Sends one set call, with the translation of `data`, on the session
    /// serving `id`: exactly one set is appended to that session's trace,
    /// every other session is untouched, and a send failure changes
    /// nothing else.
    pub fn set_activity_for(&mut self, client_id: &String, data: &PresenceData)
        -> (r: Result<(), UpdateError>)
        requires
            old(self).wf(),
            contains_id(old(self)@, client_id@),
        ensures
            final(self).wf(),
            final(self)@ == bump(
                old(self)@,
                index_of_id(old(self)@, client_id@),
                seq![SpecCall::SetActivity(spec_translate(data@))],
            ),
    {
        let ghost m0 = self@;
        let i = match self.find_index(client_id) {
            Some(i) => i,
            None => {
                proof {
                    assert(false);
                }
                return Ok(());
            },
        };
        proof {
            let j = index_of_id(m0, client_id@);
            assert(0 <= j < m0.len() && m0[j].client_id == client_id@);
            assert(j == i as int);
        }
        let c = &mut self.rpc_clients[i];
        let r = c.set_activity(data);
        proof {
            let calls = seq![SpecCall::SetActivity(spec_translate(data@))];
            assert(m0[i as int].calls + calls =~= m0[i as int].calls.push(calls[0]));
            assert(self@ =~= bump(m0, i as int, calls));
            assert(unique_ids(self@));
        }
        r
    }

    /// Sends one clear call on the session serving `id`: exactly one
    /// clear is appended to that session's trace, every other session is
    /// untouched, and a send failure changes nothing else.
    pub fn clear_activity_for(&mut self, client_id: &String) -> (r: Result<(), UpdateError>)
        requires
            old(self).wf(),
            contains_id(old(self)@, client_id@),
        ensures
            final(self).wf(),
            final(self)@ == bump(
                old(self)@,
                index_of_id(old(self)@, client_id@),
                seq![SpecCall::Clear],
            ),
    {
        let ghost m0 = self@;
        let i = match self.find_index(client_id) {
            Some(i) => i,
            None => {
                proof {
                    assert(false);
                }
                return Ok(());
            },
        };
        proof {
            let j = index_of_id(m0, client_id@);
            assert(0 <= j < m0.len() && m0[j].client_id == client_id@);
            assert(j == i as int);
        }
        let c = &mut self.rpc_clients[i];
        let r = c.clear_activity();
        proof {
            let calls = seq![SpecCall::Clear];
            assert(m0[i as int].calls + calls =~= m0[i as int].calls.push(SpecCall::Clear));
            assert(self@ =~= bump(m0, i as int, calls));
            assert(unique_ids(self@));
        }
        r
    }

    /// The teardown sweep: sends one clear on every registered session,
    /// in registration order.  A failure on one session never suppresses
    /// the clears on the others; the failures come back aggregated, one
    /// entry per failed session, and no entry is removed.
    pub fn clear_all_activities(&mut self) -> (failures: Vec<(String, UpdateError)>)
        requires
            old(self).wf(),
        ensures
            final(self).wf(),
            final(self)@ == all_cleared(old(self)@),
            forall|k: int| 0 <= k < failures@.len()
                ==> contains_id(old(self)@, #[trigger] failures@[k].0@),
            forall|k1: int, k2: int| 0 <= k1 < k2 < failures@.len()
                ==> failures@[k1].0@ != failures@[k2].0@,
    {
        let ghost m0 = self@;
        let mut failures: Vec<(String, UpdateError)> = Vec::new();
        let ghost mut fidx: Seq<int> = Seq::empty();
        let n = self.rpc_clients.len();
        let mut i: usize = 0;
        while i < n
            invariant
                n == self@.len(),
                n == m0.len(),
                i <= n,
                forall|k: int| 0 <= k < i ==> self@[k] == all_cleared(m0)[k],
                forall|k: int| i <= k < n ==> self@[k] == m0[k],
                fidx.len() == failures@.len(),
                forall|k: int| 0 <= k < fidx.len() ==> 0 <= #[trigger] fidx[k] < i,
                forall|k1: int, k2: int| 0 <= k1 < k2 < fidx.len() ==> fidx[k1] < fidx[k2],
                forall|k: int| 0 <= k < fidx.len() ==> failures@[k].0@
                    == m0[#[trigger] fidx[k]].client_id,
            decreases n - i,
        {
            let id = self.rpc_clients[i].get_client_id();
            let c = &mut self.rpc_clients[i];
            let r = c.clear_activity();
            if let Err(e) = r {
                proof {
                    assert(m0[i as int].client_id == id@);
                    fidx = fidx.push(i as int);
                }
                failures.push((id, e));
            }
            i = i + 1;
        }
        proof {
            assert(self@ =~= all_cleared(m0));
            assert forall|k: int| 0 <= k < failures@.len() implies contains_id(
                m0,
                failures@[k].0@,
            ) by {
                assert(m0[fidx[k]].client_id == failures@[k].0@);
            }
            assert forall|k1: int, k2: int| 0 <= k1 < k2 < failures@.len() implies failures@[
                k1
            ].0@ != failures@[k2].0@ by {
                assert(fidx[k1] < fidx[k2]);
                assert(m0[fidx[k1]].client_id != m0[fidx[k2]].client_id);
            }
        }
        failures
    }
}

} // verus!
