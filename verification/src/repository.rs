use crate::error::Error;
use crate::session::OrderState;
use crate::session::Session;
use crate::text::str_eq;
use vstd::prelude::*;

verus! {

// ---------------------------------------------------------------------------
// From a sequence of sessions to the map it denotes
// ---------------------------------------------------------------------------

/// The map a sequence of sessions denotes, keyed by chat id; on a repeated
/// key the later entry wins.
spec fn seq_to_map(s: Seq<Session>) -> Map<Seq<char>, Session>
    decreases s.len(),
{
    if s.len() == 0 {
        Map::empty()
    } else {
        seq_to_map(s.drop_last()).insert(s.last().chat_id, s.last())
    }
}

/// No two sessions of the sequence share a chat id.
pub open spec fn distinct_keys(s: Seq<Session>) -> bool {
    forall|i: int, j: int| 0 <= i < j < s.len() ==> s[i].chat_id != s[j].chat_id
}

/// `snap` lists exactly the sessions of `m`, each key once.
pub open spec fn snapshot_of(snap: Seq<Session>, m: Map<Seq<char>, Session>) -> bool {
    &&& forall|i: int|
        0 <= i < snap.len() ==> m.contains_key(#[trigger] snap[i].chat_id) && m[snap[i].chat_id]
            == snap[i]
    &&& distinct_keys(snap)
    &&& forall|k: Seq<char>|
        #[trigger] m.contains_key(k) ==> exists|i: int|
            0 <= i < snap.len() && (#[trigger] snap[i].chat_id) == k
}

proof fn lemma_seq_to_map_contains(s: Seq<Session>, k: Seq<char>)
    ensures
        seq_to_map(s).contains_key(k) <==> exists|i: int|
            0 <= i < s.len() && (#[trigger] s[i].chat_id) == k,
    decreases s.len(),
{
    if s.len() > 0 {
        lemma_seq_to_map_contains(s.drop_last(), k);
        if seq_to_map(s).contains_key(k) {
            if s.last().chat_id == k {
                assert(s[s.len() - 1].chat_id == k);
            } else {
                let i = choose|i: int|
                    0 <= i < s.drop_last().len() && (#[trigger] s.drop_last()[i].chat_id) == k;
                assert(s[i].chat_id == k);
            }
        }
        if exists|i: int| 0 <= i < s.len() && (#[trigger] s[i].chat_id) == k {
            let i = choose|i: int| 0 <= i < s.len() && (#[trigger] s[i].chat_id) == k;
            if i < s.len() - 1 {
                assert(s.drop_last()[i].chat_id == k);
            }
        }
    }
}

proof fn lemma_seq_to_map_value(s: Seq<Session>, i: int)
    requires
        0 <= i < s.len(),
        forall|j: int| i < j < s.len() ==> s[j].chat_id != s[i].chat_id,
    ensures
        seq_to_map(s).contains_key(s[i].chat_id),
        seq_to_map(s)[s[i].chat_id] == s[i],
    decreases s.len(),
{
    if i == s.len() - 1 {
    } else {
        assert(forall|j: int| i < j < s.drop_last().len() ==> s.drop_last()[j].chat_id != s
            .drop_last()[i].chat_id);
        lemma_seq_to_map_value(s.drop_last(), i);
        assert(s.last().chat_id != s[i].chat_id);
    }
}

proof fn lemma_seq_to_map_remove(s: Seq<Session>, i: int)
    requires
        0 <= i < s.len(),
        distinct_keys(s),
    ensures
        seq_to_map(s.remove(i)) == seq_to_map(s).remove(s[i].chat_id),
    decreases s.len(),
{
    let k = s[i].chat_id;
    if i == s.len() - 1 {
        assert(s.remove(i) =~= s.drop_last());
        lemma_seq_to_map_contains(s.drop_last(), k);
        assert(forall|j: int| 0 <= j < s.drop_last().len() ==> s.drop_last()[j].chat_id != k);
        assert(!seq_to_map(s.drop_last()).contains_key(k));
        assert(seq_to_map(s.drop_last()).insert(k, s.last()).remove(k) =~= seq_to_map(
            s.drop_last(),
        ));
    } else {
        let t = s.drop_last();
        assert(distinct_keys(t));
        lemma_seq_to_map_remove(t, i);
        assert(s.remove(i).drop_last() =~= t.remove(i));
        assert(s.remove(i).last() == s.last());
        assert(s.last().chat_id != k);
        assert(seq_to_map(s.remove(i)) == seq_to_map(t.remove(i)).insert(
            s.last().chat_id,
            s.last(),
        ));
        assert(seq_to_map(t).remove(k).insert(s.last().chat_id, s.last()) =~= seq_to_map(t).insert(
            s.last().chat_id,
            s.last(),
        ).remove(k));
    }
}

// ---------------------------------------------------------------------------
// The store
// ---------------------------------------------------------------------------

/// The session store's contract: a map from chat id to session, read and
/// written whole.  `set_order` overwrites wholesale, last write wins;
/// callers do their own read-modify-write sequencing.
pub trait Repository: Sized {
    spec fn orders(&self) -> Map<Seq<char>, Session>;

    fn get_order(&self, chat_id: &str) -> (r: Option<OrderState>)
        ensures
            match r {
                Some(o) => self.orders().contains_key(chat_id@) && o@ == self.orders()[chat_id@],
                None => !self.orders().contains_key(chat_id@),
            },
    ;

    fn get_orders(&self) -> (r: Vec<OrderState>)
        ensures
            snapshot_of(r.deep_view(), self.orders()),
    ;

    fn set_order(&mut self, state: OrderState)
        ensures
            final(self).orders() == old(self).orders().insert(state@.chat_id, state@),
    ;

    fn delete_order(&mut self, chat_id: &str) -> (r: Result<(), Error>)
        ensures
            final(self).orders() == old(self).orders().remove(chat_id@),
            match r {
                Ok(_) => old(self).orders().contains_key(chat_id@),
                Err(e) => !old(self).orders().contains_key(chat_id@) && (match e {
                    Error::OrderNotFound(s) => s@ == chat_id@,
                    _ => false,
                }),
            },
    ;
}

/// The in-memory session store: one live session per chat id.
pub struct OrderRepository {
    orders: Vec<OrderState>,
}

impl OrderRepository {
    #[verifier::type_invariant]
    spec fn wf(&self) -> bool {
        distinct_keys(self.orders.deep_view())
    }

    /// An empty store.
    pub fn new() -> (r: OrderRepository)
        ensures
            r.orders() == Map::<Seq<char>, Session>::empty(),
    {
        let r = OrderRepository { orders: Vec::new() };
        proof {
            assert(r.orders.deep_view() =~= Seq::<Session>::empty());
        }
        r
    }

    /// The index of the session for a chat id, when the store holds one.
    fn find_index(&self, chat_id: &str) -> (r: Option<usize>)
        ensures
            match r {
                Some(i) => i < self.orders@.len() && self.orders.deep_view()[i as int].chat_id
                    == chat_id@,
                None => forall|j: int|
                    0 <= j < self.orders@.len() ==> self.orders.deep_view()[j].chat_id != chat_id@,
            },
    {
        let mut i: usize = 0;
        while i < self.orders.len()
            invariant
                0 <= i <= self.orders@.len(),
                forall|j: int| 0 <= j < i ==> self.orders.deep_view()[j].chat_id != chat_id@,
            decreases self.orders@.len() - i,
        {
            if str_eq(self.orders[i].chat_id_str(), chat_id) {
                return Some(i);
            }
            i += 1;
        }
        None
    }
}

impl Repository for OrderRepository {
    closed spec fn orders(&self) -> Map<Seq<char>, Session> {
        seq_to_map(self.orders.deep_view())
    }

    fn get_order(&self, chat_id: &str) -> (r: Option<OrderState>) {
        proof {
            use_type_invariant(&*self);
            lemma_seq_to_map_contains(self.orders.deep_view(), chat_id@);
        }
        match self.find_index(chat_id) {
            Some(i) => {
                proof {
                    lemma_seq_to_map_value(self.orders.deep_view(), i as int);
                }
                Some(self.orders[i].duplicate())
            }
            None => None,
        }
    }

    fn get_orders(&self) -> (r: Vec<OrderState>) {
        proof {
            use_type_invariant(&*self);
        }
        let mut r: Vec<OrderState> = Vec::new();
        let mut i: usize = 0;
        while i < self.orders.len()
            invariant
                0 <= i <= self.orders@.len(),
                r@.len() == i,
                forall|j: int| 0 <= j < i ==> r@[j]@ == self.orders.deep_view()[j],
            decreases self.orders@.len() - i,
        {
            r.push(self.orders[i].duplicate());
            i += 1;
        }
        proof {
            let dv = self.orders.deep_view();
            assert(r.deep_view() =~= dv);
            assert forall|i0: int| 0 <= i0 < dv.len() implies seq_to_map(dv).contains_key(
                #[trigger] dv[i0].chat_id,
            ) && seq_to_map(dv)[dv[i0].chat_id] == dv[i0] by {
                lemma_seq_to_map_value(dv, i0);
            }
            assert forall|k: Seq<char>| #[trigger] seq_to_map(dv).contains_key(k) implies exists|
                i0: int,
            | 0 <= i0 < dv.len() && (#[trigger] dv[i0].chat_id) == k by {
                lemma_seq_to_map_contains(dv, k);
            }
        }
        r
    }

    fn set_order(&mut self, state: OrderState) {
        proof {
            use_type_invariant(&*self);
        }
        let ghost dv = self.orders.deep_view();
        let found = self.find_index(state.chat_id_str());
        let mut v: Vec<OrderState> = Vec::new();
        core::mem::swap(&mut v, &mut self.orders);
        match found {
            Some(i) => {
                v.remove(i);
                proof {
                    lemma_seq_to_map_remove(dv, i as int);
                }
            }
            None => {}
        }
        v.push(state);
        proof {
            let mid = if let Some(i) = found {
                dv.remove(i as int)
            } else {
                dv
            };
            assert(v.deep_view() =~= mid.push(state@));
            assert(mid.push(state@).drop_last() =~= mid);
            // The key occurs nowhere in `mid`, so the new sequence is
            // duplicate-free and its map is the plain insert.
            assert(forall|j: int| 0 <= j < mid.len() ==> #[trigger] mid[j].chat_id
                != state@.chat_id);
            lemma_seq_to_map_contains(mid, state@.chat_id);
            assert(seq_to_map(mid) == seq_to_map(dv).remove(state@.chat_id) || seq_to_map(mid)
                == seq_to_map(dv));
            assert(seq_to_map(v.deep_view()) =~= seq_to_map(dv).insert(state@.chat_id, state@));
            assert(distinct_keys(v.deep_view()));
        }
        self.orders = v;
    }

    fn delete_order(&mut self, chat_id: &str) -> (r: Result<(), Error>) {
        proof {
            use_type_invariant(&*self);
            lemma_seq_to_map_contains(self.orders.deep_view(), chat_id@);
        }
        let ghost dv = self.orders.deep_view();
        let found = self.find_index(chat_id);
        match found {
            Some(i) => {
                proof {
                    lemma_seq_to_map_remove(dv, i as int);
                }
                let mut v: Vec<OrderState> = Vec::new();
                core::mem::swap(&mut v, &mut self.orders);
                v.remove(i);
                proof {
                    assert(v.deep_view() =~= dv.remove(i as int));
                    assert(distinct_keys(v.deep_view()));
                }
                self.orders = v;
                Ok(())
            }
            None => {
                proof {
                    assert(seq_to_map(dv).remove(chat_id@) =~= seq_to_map(dv));
                }
                Err(Error::OrderNotFound(chat_id.to_owned()))
            }
        }
    }
}

} // verus!
