//! The transaction ledger: hands out the transaction ids under which the
//! ledger calls of an action are made, and hands the same ids out again to an
//! owner who retries an action whose reservation survived.
use crate::tables::ReservationTable;
use crate::types::{ActionKind, ActorId, SupplyChainError};
use std::collections::BTreeMap;
use vstd::prelude::*;
use vstd::std_specs::iter::IteratorSpec;

verus! {

broadcast use vstd::laws_cmp::group_laws_cmp;

/// The most reservations that are live at once.
pub const MAX_NUMBER_OF_TXS: usize = 65535;

/// The first ids of the reservations in `res`.
pub open spec fn reserved_ids(res: Map<ActorId, (u64, u8)>) -> Set<u64> {
    Set::new(|id: u64| exists|a: ActorId| #[trigger] res.contains_key(a) && res[a].0 == id)
}

/// No two owners hold reservations that start at the same id.
pub open spec fn ids_distinct(res: Map<ActorId, (u64, u8)>) -> bool {
    forall|a: ActorId, b: ActorId|
        #![trigger res[a], res[b]]
        res.contains_key(a) && res.contains_key(b) && res[a].0 == res[b].0 ==> a == b
}

/// `id` is the id evicted from `ids` when the cursor stands at `cursor`: the
/// least id at or above the cursor, or, if there is none, the least id.
pub open spec fn is_evicted_id(ids: Set<u64>, cursor: u64, id: u64) -> bool {
    &&& ids.contains(id)
    &&& if exists|k: u64| ids.contains(k) && k >= cursor {
        id >= cursor && forall|k: u64| ids.contains(k) && k >= cursor ==> id <= k
    } else {
        forall|k: u64| ids.contains(k) ==> id <= k
    }
}


/// The id to evict from the ids `ids` when the cursor stands at `cursor`.
fn evicted_id(ids: &BTreeMap<u64, ActorId>, cursor: u64) -> (r: u64)
    requires
        ids@.dom().len() > 0,
    ensures
        is_evicted_id(ids@.dom(), cursor, r),
{
    let mut least: Option<u64> = None;
    let mut least_above: Option<u64> = None;
    let ghost mut seen: Set<u64> = Set::empty();
    let keys = ids.keys();
    assert(keys.remaining().unref().to_set() == ids@.dom());
    for k in it: keys
        invariant
            it.seq().unref().to_set() == ids@.dom(),
            forall|k: u64| seen.contains(k) <==> exists|i: int| 0 <= i < it.index() && *it.seq()[i] == k,
            it.index() == it.seq().len() ==> seen == ids@.dom(),
            least is Some <==> it.index() > 0,
            forall|k: u64| seen.contains(k) ==> least.unwrap() <= k,
            least is Some ==> seen.contains(least.unwrap()),
            least_above is Some <==> exists|k: u64| seen.contains(k) && k >= cursor,
            forall|k: u64| seen.contains(k) && k >= cursor ==> least_above.unwrap() <= k,
            least_above is Some ==> least_above.unwrap() >= cursor && seen.contains(least_above.unwrap()),
    {
        let k: u64 = *k;
        let ghost before = seen;
        proof {
            seen = seen.insert(k);
        }
        least = match least {
            Some(l) => if k < l { Some(k) } else { Some(l) },
            None => Some(k),
        };
        if k >= cursor {
            assert(seen.contains(k));
            least_above = match least_above {
                Some(l) => if k < l { Some(k) } else { Some(l) },
                None => Some(k),
            };
        } else {
            assert forall|x: u64| seen.contains(x) && x >= cursor implies before.contains(x) by {}
            proof {
                if least_above is Some {
                    let w = choose|x: u64| before.contains(x) && x >= cursor;
                    assert(seen.contains(w));
                }
            }
        }
        assert(it.index() + 1 == it.seq().len() ==> seen =~= ids@.dom()) by {
            if it.index() + 1 == it.seq().len() {
                assert forall|x: u64| ids@.dom().contains(x) implies seen.contains(x) by {
                    assert(it.seq().unref().contains(x));
                    let i = choose|i: int| 0 <= i < it.seq().unref().len() && it.seq().unref()[i] == x;
                    assert(*it.seq()[i] == x);
                }
                assert forall|x: u64| seen.contains(x) implies ids@.dom().contains(x) by {
                    let i = choose|i: int| 0 <= i < it.index() + 1 && *it.seq()[i] == x;
                    assert(it.seq().unref()[i] == x);
                    assert(it.seq().unref().contains(x));
                }
            }
        }
    }
    match least_above {
        Some(l) => l,
        None => least.unwrap(),
    }
}


/// Whether the `v` ids from `a` on and the `w` ids from `b` on meet.
fn meets(a: u64, v: u8, b: u64, w: u8) -> (r: bool)
    ensures
        r == ranges_meet((a, v), (b, w)),
{
    a == b || b.wrapping_sub(a) < v as u64 || a.wrapping_sub(b) < w as u64
}

/// The listed reservations have distinct owners and ranges that do not meet,
/// and fit in the table.
pub open spec fn listable(entries: Seq<Reservation>) -> bool {
    &&& entries.len() <= MAX_NUMBER_OF_TXS
    &&& forall|i: int, j: int|
        #![trigger entries[i], entries[j]]
        0 <= i < j < entries.len() ==> entries[i].owner != entries[j].owner && !ranges_meet(
            (entries[i].tx_id, entries[i].width),
            (entries[j].tx_id, entries[j].width),
        )
}

proof fn lemma_evicted_id_unique(ids: Set<u64>, cursor: u64, e: u64)
    requires
        is_evicted_id(ids, cursor, e),
    ensures
        least_evictable(ids, cursor) == e,
{
    let c = least_evictable(ids, cursor);
    assert(is_evicted_id(ids, cursor, c));
}

/// The owner of the reservation that starts at `id`.
pub open spec fn holder_of(res: Map<ActorId, (u64, u8)>, id: u64) -> ActorId {
    choose|a: ActorId| res.contains_key(a) && res[a].0 == id
}

/// The id that eviction picks from `ids` when the cursor stands at `cursor`.
pub open spec fn least_evictable(ids: Set<u64>, cursor: u64) -> u64 {
    choose|e: u64| is_evicted_id(ids, cursor, e)
}

/// How far `to` lies past `from` in the id space, which wraps at 2^64.
pub open spec fn id_offset(from: u64, to: u64) -> int {
    if to >= from {
        to - from
    } else {
        to - from + 0x1_0000_0000_0000_0000
    }
}

/// `t` is one of the ids of the reservation `r`: the `r.1` ids from `r.0` on,
/// counted modulo 2^64.
pub open spec fn holds_id(r: (u64, u8), t: u64) -> bool {
    id_offset(r.0, t) < r.1
}

/// The reservations `r` and `s` start at the same id, or one holds the first
/// id of the other; for ranges in a wrapping id space, this is exactly when
/// they share an id or a start.
pub open spec fn ranges_meet(r: (u64, u8), s: (u64, u8)) -> bool {
    r.0 == s.0 || holds_id(r, s.0) || holds_id(s, r.0)
}

/// No two owners hold reservations that meet.
pub open spec fn ranges_disjoint(res: Map<ActorId, (u64, u8)>) -> bool {
    forall|a: ActorId, b: ActorId|
        #![trigger res[a], res[b]]
        res.contains_key(a) && res.contains_key(b) && a != b ==> !ranges_meet(res[a], res[b])
}

/// Two reservations that do not meet hold no id in common.
pub proof fn lemma_disjoint_reservations_share_no_id(r: (u64, u8), s: (u64, u8), t: u64)
    requires
        !ranges_meet(r, s),
    ensures
        !(holds_id(r, t) && holds_id(s, t)),
{
}

/// `res` without every reservation that meets the `width` ids from `id` on.
pub open spec fn without_meeting(res: Map<ActorId, (u64, u8)>, id: u64, width: u8) -> Map<
    ActorId,
    (u64, u8),
> {
    Map::new(|a: ActorId| res.contains_key(a) && !ranges_meet(res[a], (id, width)), |a: ActorId| res[a])
}

/// `res` with room for one more reservation: when it is full, the reservation
/// picked by eviction is gone.
pub open spec fn with_room(res: Map<ActorId, (u64, u8)>, cursor: u64) -> Map<ActorId, (u64, u8)> {
    if res.len() >= MAX_NUMBER_OF_TXS {
        res.remove(holder_of(res, least_evictable(reserved_ids(res), cursor)))
    } else {
        res
    }
}

/// The reservations after `owner` reserves `width` ids from `id` on, with the
/// cursor moving to `id + width`: every reservation that meets the new one
/// gives way, and then, if the table is full, the one picked by eviction.
pub open spec fn reserve_new(
    res: Map<ActorId, (u64, u8)>,
    owner: ActorId,
    id: u64,
    width: u8,
) -> Map<ActorId, (u64, u8)> {
    with_room(without_meeting(res, id, width), next_cursor(id, width)).insert(owner, (id, width))
}

/// Where the cursor stands after `width` ids from `id` on are handed out; it wraps.
pub open spec fn next_cursor(id: u64, width: u8) -> u64 {
    if id + width > u64::MAX {
        (id + width - 0x1_0000_0000_0000_0000) as u64
    } else {
        (id + width) as u64
    }
}

/// The reservations after `guard` is given back: its owner's entry is gone if
/// it is still the one that the guard holds.
pub open spec fn released(res: Map<ActorId, (u64, u8)>, guard: TransactionGuard) -> Map<
    ActorId,
    (u64, u8),
> {
    if res.contains_key(guard.msg_source) && res[guard.msg_source].0 == guard.tx_id {
        res.remove(guard.msg_source)
    } else {
        res
    }
}

/// What acquiring ids for an action of `owner` with `amount` ledger calls
/// comes to, from the reservations `res` and the cursor `nonce`: the result,
/// the reservations after, and the cursor after.
///
/// A new action is refused while the owner holds a live reservation; else it
/// reserves `amount` ids at the cursor. A retry changes nothing and returns
/// the owner's reservation if there is one of that width.
pub open spec fn acquire_outcome(
    res: Map<ActorId, (u64, u8)>,
    nonce: u64,
    kind: ActionKind,
    owner: ActorId,
    amount: u8,
) -> (Result<TransactionGuard, SupplyChainError>, Map<ActorId, (u64, u8)>, u64) {
    match kind {
        ActionKind::New => if res.contains_key(owner) {
            (Err(SupplyChainError::TransactionPending), res, nonce)
        } else {
            (
                Ok(TransactionGuard { msg_source: owner, tx_id: nonce }),
                reserve_new(res, owner, nonce, amount),
                next_cursor(nonce, amount),
            )
        },
        ActionKind::Retry => if !res.contains_key(owner) {
            (Err(SupplyChainError::TransactionNotFound), res, nonce)
        } else if res[owner].1 != amount {
            (Err(SupplyChainError::UnexpectedTransactionAmount), res, nonce)
        } else {
            (Ok(TransactionGuard { msg_source: owner, tx_id: res[owner].0 }), res, nonce)
        },
    }
}

/// Acquiring ids as [`acquire_outcome`] says took `pre` to `post` with result `r`.
pub open spec fn acquired(
    pre: TransactionManager,
    post: TransactionManager,
    kind: ActionKind,
    owner: ActorId,
    amount: u8,
    r: Result<TransactionGuard, SupplyChainError>,
) -> bool {
    acquire_outcome(pre.reservations(), pre.nonce(), kind, owner, amount) == (
        r,
        post.reservations(),
        post.nonce(),
    )
}

/// A reservation as listed: its owner, its first id, its width.
#[derive(Clone, Copy, Debug, PartialEq, Eq, Structural, Hash)]
pub struct Reservation {
    pub tx_id: u64,
    pub owner: ActorId,
    pub width: u8,
}

/// A live reservation handed to the action that made it; the action gives it
/// back by [`TransactionManager::release`] on every way out but an abort.
#[derive(Clone, Copy, Debug, PartialEq, Eq, Structural, Hash)]
pub struct TransactionGuard {
    pub msg_source: ActorId,
    pub tx_id: u64,
}

/// The table of live reservations.
pub struct TransactionManager {
    txs_for_actor: BTreeMap<u64, ActorId>,
    actors_for_tx: ReservationTable,
    tx_id_nonce: u64,
}

impl TransactionManager {
    /// The live reservations, by owner: first id and width.
    pub closed spec fn reservations(&self) -> Map<ActorId, (u64, u8)> {
        self.actors_for_tx@
    }

    /// The next id to hand out.
    pub closed spec fn nonce(&self) -> u64 {
        self.tx_id_nonce
    }

    /// The table by id is the inverse of the table by owner.
    pub closed spec fn tables_agree(&self) -> bool {
        &&& forall|id: u64| #[trigger]
            self.txs_for_actor@.contains_key(id) ==> self.actors_for_tx@.contains_key(
                self.txs_for_actor@[id],
            ) && self.actors_for_tx@[self.txs_for_actor@[id]].0 == id
        &&& forall|a: ActorId| #[trigger]
            self.actors_for_tx@.contains_key(a) ==> self.txs_for_actor@.contains_key(
                self.actors_for_tx@[a].0,
            ) && self.txs_for_actor@[self.actors_for_tx@[a].0] == a
    }

    pub open spec fn wf(&self) -> bool {
        &&& self.tables_agree()
        &&& ranges_disjoint(self.reservations())
        &&& self.reservations().dom().finite()
        &&& self.reservations().len() <= MAX_NUMBER_OF_TXS
    }

    proof fn lemma_tables(&self)
        requires
            self.tables_agree(),
        ensures
            ids_distinct(self.reservations()),
            self.reservations().dom().finite(),
            self.txs_for_actor@.len() == self.reservations().len(),
            reserved_ids(self.reservations()) == self.txs_for_actor@.dom(),
            forall|id: u64| #[trigger]
                self.txs_for_actor@.contains_key(id) ==> holder_of(self.reservations(), id)
                    == self.txs_for_actor@[id],
    {
        let txs = self.txs_for_actor@;
        let res = self.actors_for_tx@;
        let f = |id: u64| txs[id];
        assert(txs.dom().map(f) =~= res.dom()) by {
            assert forall|a: ActorId| res.dom().contains(a) implies txs.dom().map(f).contains(a) by {
                assert(f(res[a].0) == a);
            }
        }
        vstd::set_lib::lemma_map_size(txs.dom(), res.dom(), f);
        assert(reserved_ids(res) =~= txs.dom()) by {
            assert forall|id: u64| txs.dom().contains(id) implies reserved_ids(res).contains(id) by {
                assert(res.contains_key(txs[id]));
            }
        }
        assert forall|id: u64| #[trigger] txs.contains_key(id) implies holder_of(res, id) == txs[id] by {
            assert(res.contains_key(txs[id]) && res[txs[id]].0 == id);
        }
    }

    /// Hands out the transaction ids for an action of `msg_source` that makes
    /// `amount` ledger calls.
    ///
    /// A new action reserves `amount` consecutive ids at the cursor, which
    /// moves on by `amount`; when the table is full, the reservation picked by
    /// eviction makes room. A retry gets back the ids of the owner's live
    /// reservation.
    pub fn asquire_transactions(
        &mut self,
        kind: ActionKind,
        msg_source: ActorId,
        amount: u8,
    ) -> (r: Result<TransactionGuard, SupplyChainError>)
        requires
            old(self).wf(),
        ensures
            final(self).wf(),
            acquired(*old(self), *final(self), kind, msg_source, amount, r),
    {
        match kind {
            ActionKind::New => {
                if self.actors_for_tx.get(&msg_source).is_some() {
                    return Err(SupplyChainError::TransactionPending);
                }
                proof {
                    self.lemma_tables();
                }
                let ghost res0 = self.reservations();
                // Every reservation that meets the new one gives way: its ids
                // would otherwise be handed out to two owners at once.
                let listed = self.reservation_list();
                let id = self.tx_id_nonce;
                let cursor = id.wrapping_add(amount as u64);
                self.tx_id_nonce = cursor;
                assert(self.reservations() == res0);
                for i in 0..listed.len()
                    invariant
                        self.tables_agree(),
                        self.tx_id_nonce == cursor,
                        res0.dom().finite(),
                        ranges_disjoint(res0),
                        !res0.contains_key(msg_source),
                        listed@.len() == res0.len(),
                        forall|j: int|
                            0 <= j < listed@.len() ==> #[trigger] res0.contains_key(listed@[j].owner)
                                && res0[listed@[j].owner] == (listed@[j].tx_id, listed@[j].width),
                        forall|j: int|
                            0 <= j < listed@.len() ==> forall|k: int|
                                j < k < listed@.len() ==> #[trigger] listed@[j].owner
                                    != #[trigger] listed@[k].owner,
                        forall|a: ActorId| #[trigger]
                            self.reservations().contains_key(a) ==> res0.contains_key(a)
                                && self.reservations()[a] == res0[a],
                        forall|a: ActorId| #[trigger]
                            res0.contains_key(a) && !ranges_meet(res0[a], (id, amount))
                                ==> self.reservations().contains_key(a),
                        forall|j: int|
                            0 <= j < i && ranges_meet(res0[listed@[j].owner], (id, amount))
                                ==> !#[trigger] self.reservations().contains_key(listed@[j].owner),
                        forall|j: int|
                            i <= j < listed@.len() ==> #[trigger] self.reservations().contains_key(
                                listed@[j].owner,
                            ),
                {
                    let e = listed[i];
                    if meets(e.tx_id, e.width, id, amount) {
                        let ghost before = self.reservations();
                        proof {
                            assert(self.reservations().contains_key(e.owner));
                            assert(self.txs_for_actor@[e.tx_id] == e.owner);
                        }
                        self.txs_for_actor.remove(&e.tx_id);
                        self.actors_for_tx.remove(&e.owner);
                        proof {
                            assert forall|k: int|
                                i + 1 <= k < listed@.len() implies #[trigger] self.reservations().contains_key(
                                listed@[k].owner,
                            ) by {
                                assert(listed@[i as int].owner != listed@[k].owner);
                                assert(before.contains_key(listed@[k].owner));
                            }
                            assert forall|id2: u64| #[trigger]
                                self.txs_for_actor@.contains_key(id2) implies self.actors_for_tx@.contains_key(
                                self.txs_for_actor@[id2],
                            ) && self.actors_for_tx@[self.txs_for_actor@[id2]].0 == id2 by {
                                assert(id2 != e.tx_id);
                                assert(self.txs_for_actor@[id2] != e.owner);
                            }
                        }
                    }
                }
                proof {
                    assert forall|a: ActorId| #[trigger]
                        res0.contains_key(a) && ranges_meet(res0[a], (id, amount)) implies !self.reservations().contains_key(
                        a,
                    ) by {
                        let j = choose|j: int| 0 <= j < listed@.len() && listed@[j].owner == a;
                    }
                    assert(self.reservations() =~= without_meeting(res0, id, amount));
                    self.lemma_tables();
                    vstd::set_lib::lemma_len_subset(self.reservations().dom(), res0.dom());
                }
                let ghost res1 = self.reservations();
                if self.txs_for_actor.len() == MAX_NUMBER_OF_TXS {
                    let evicted = evicted_id(&self.txs_for_actor, cursor);
                    proof {
                        lemma_evicted_id_unique(self.txs_for_actor@.dom(), cursor, evicted);
                    }
                    let holder = self.txs_for_actor.remove(&evicted);
                    if let Some(holder) = holder {
                        self.actors_for_tx.remove(&holder);
                    }
                }
                proof {
                    assert(self.reservations() == with_room(res1, cursor));
                    assert(!self.txs_for_actor@.contains_key(id)) by {
                        if self.txs_for_actor@.contains_key(id) {
                            let h = self.txs_for_actor@[id];
                            assert(res1.contains_key(h));
                            assert(res1[h].0 == id);
                        }
                    }
                }
                self.txs_for_actor.insert(id, msg_source);
                self.actors_for_tx.insert(msg_source, (id, amount));
                proof {
                    self.lemma_tables();
                }
                Ok(TransactionGuard { msg_source, tx_id: id })
            },
            ActionKind::Retry => {
                match self.actors_for_tx.get(&msg_source) {
                    None => Err(SupplyChainError::TransactionNotFound),
                    Some(reserved) => {
                        if reserved.1 != amount {
                            Err(SupplyChainError::UnexpectedTransactionAmount)
                        } else {
                            Ok(TransactionGuard { msg_source, tx_id: reserved.0 })
                        }
                    },
                }
            },
        }
    }

    /// [`TransactionManager::asquire_transactions`] for an action that makes one ledger call.
    pub fn asquire_transaction(&mut self, kind: ActionKind, msg_source: ActorId) -> (r: Result<
        TransactionGuard,
        SupplyChainError,
    >)
        requires
            old(self).wf(),
        ensures
            final(self).wf(),
            acquired(*old(self), *final(self), kind, msg_source, 1, r),
    {
        self.asquire_transactions(kind, msg_source, 1)
    }

    /// Gives back the reservation of `guard`: the owner's entry is gone.
    pub fn release(&mut self, guard: TransactionGuard)
        requires
            old(self).wf(),
        ensures
            final(self).wf(),
            final(self).nonce() == old(self).nonce(),
            final(self).reservations() == released(old(self).reservations(), guard),
    {
        match self.actors_for_tx.get(&guard.msg_source) {
            Some(reserved) => {
                if reserved.0 == guard.tx_id {
                    self.txs_for_actor.remove(&guard.tx_id);
                    self.actors_for_tx.remove(&guard.msg_source);
                    proof {
                        self.lemma_tables();
                    }
                }
            },
            None => {},
        }
    }

    /// A table holding exactly the listed reservations, with the cursor at `nonce`.
    pub fn from_reservations(entries: &Vec<Reservation>, nonce: u64) -> (r: TransactionManager)
        requires
            listable(entries@),
        ensures
            r.wf(),
            r.nonce() == nonce,
            forall|i: int|
                0 <= i < entries@.len() ==> #[trigger] r.reservations().contains_key(entries@[i].owner)
                    && r.reservations()[entries@[i].owner] == (entries@[i].tx_id, entries@[i].width),
            forall|a: ActorId| #[trigger]
                r.reservations().contains_key(a) ==> exists|i: int|
                    0 <= i < entries@.len() && entries@[i].owner == a,
    {
        let mut r = TransactionManager::new();
        r.tx_id_nonce = nonce;
        for i in 0..entries.len()
            invariant
                listable(entries@),
                r.tables_agree(),
                ranges_disjoint(r.reservations()),
                r.reservations().dom().finite(),
                r.reservations().len() == i,
                r.nonce() == nonce,
                forall|j: int|
                    0 <= j < i ==> #[trigger] r.reservations().contains_key(entries@[j].owner)
                        && r.reservations()[entries@[j].owner] == (entries@[j].tx_id, entries@[j].width),
                forall|a: ActorId| #[trigger]
                    r.reservations().contains_key(a) ==> exists|j: int|
                        0 <= j < i && entries@[j].owner == a,
        {
            let e = entries[i];
            let ghost pre = r.reservations();
            proof {
                assert(!pre.contains_key(e.owner)) by {
                    if pre.contains_key(e.owner) {
                        let j = choose|j: int| 0 <= j < i && entries@[j].owner == e.owner;
                        assert(entries@[j].owner != entries@[i as int].owner);
                    }
                }
                assert(!r.txs_for_actor@.contains_key(e.tx_id)) by {
                    if r.txs_for_actor@.contains_key(e.tx_id) {
                        let h = r.txs_for_actor@[e.tx_id];
                        let j = choose|j: int| 0 <= j < i && entries@[j].owner == h;
                        assert(!ranges_meet(
                            (entries@[j].tx_id, entries@[j].width),
                            (entries@[i as int].tx_id, entries@[i as int].width),
                        ));
                    }
                }
            }
            r.txs_for_actor.insert(e.tx_id, e.owner);
            r.actors_for_tx.insert(e.owner, (e.tx_id, e.width));
            proof {
                assert forall|a: ActorId, b: ActorId|
                    #![trigger r.reservations()[a], r.reservations()[b]]
                    r.reservations().contains_key(a) && r.reservations().contains_key(b) && a != b
                        implies !ranges_meet(r.reservations()[a], r.reservations()[b]) by {
                    if a == e.owner {
                        let j = choose|j: int| 0 <= j < i && entries@[j].owner == b;
                        assert(entries@[j] == entries@[j]);
                        assert(entries@[i as int] == e);
                    } else if b == e.owner {
                        let j = choose|j: int| 0 <= j < i && entries@[j].owner == a;
                        assert(entries@[j] == entries@[j]);
                        assert(entries@[i as int] == e);
                    } else {
                        assert(pre.contains_key(a) && pre.contains_key(b));
                    }
                }
                assert forall|a: ActorId| #[trigger]
                    r.reservations().contains_key(a) implies exists|j: int|
                        0 <= j < i + 1 && entries@[j].owner == a by {
                    if a == e.owner {
                        assert(entries@[i as int].owner == a);
                    }
                }
            }
        }
        proof {
            r.lemma_tables();
        }
        r
    }

    /// The live reservations, each once, in the order of their first ids.
    pub fn reservation_list(&self) -> (r: Vec<Reservation>)
        requires
            self.wf(),
        ensures
            r@.len() == self.reservations().len(),
            forall|i: int|
                0 <= i < r@.len() ==> #[trigger] self.reservations().contains_key(r@[i].owner)
                    && self.reservations()[r@[i].owner] == (r@[i].tx_id, r@[i].width),
            forall|i: int|
                0 <= i < r@.len() ==> forall|j: int|
                    i < j < r@.len() ==> #[trigger] r@[i].owner != #[trigger] r@[j].owner,
            forall|a: ActorId| #[trigger]
                self.reservations().contains_key(a) ==> exists|i: int|
                    0 <= i < r@.len() && r@[i].owner == a,
    {
        proof {
            self.lemma_tables();
        }
        let mut out: Vec<Reservation> = Vec::new();
        let keys = self.txs_for_actor.keys();
        assert(keys.remaining().len() == self.txs_for_actor@.dom().len());
        assert(keys.remaining().no_duplicates());
        for k in it: keys
            invariant
                self.wf(),
                ids_distinct(self.reservations()),
                it.seq().len() == self.reservations().len(),
                it.seq().no_duplicates(),
                it.seq().unref().to_set() == self.txs_for_actor@.dom(),
                out@.len() == it.index(),
                forall|i: int| 0 <= i < out@.len() ==> #[trigger] out@[i].tx_id == *it.seq()[i],
                forall|i: int|
                    0 <= i < out@.len() ==> #[trigger] self.reservations().contains_key(out@[i].owner)
                        && self.reservations()[out@[i].owner] == (out@[i].tx_id, out@[i].width),
                forall|i: int|
                    0 <= i < out@.len() ==> forall|j: int|
                        i < j < out@.len() ==> #[trigger] out@[i].owner != #[trigger] out@[j].owner,
                it.index() == it.seq().len() ==> forall|a: ActorId| #[trigger]
                    self.reservations().contains_key(a) ==> exists|i: int|
                        0 <= i < out@.len() && out@[i].owner == a,
        {
            let id: u64 = *k;
            assert(it.seq().unref()[it.index()] == id);
            assert(self.txs_for_actor@.contains_key(id));
            let owner = *self.txs_for_actor.get(&id).unwrap();
            let reserved = self.actors_for_tx.get(&owner).unwrap();
            let ghost before = out@;
            out.push(Reservation { tx_id: reserved.0, owner, width: reserved.1 });
            proof {
                assert forall|i: int| 0 <= i < before.len() implies #[trigger] out@[i].owner != owner by {
                    assert(*it.seq()[i] != *it.seq()[it.index()]);
                    assert(out@[i].tx_id != id);
                }
                assert(it.index() + 1 == it.seq().len() ==> forall|a: ActorId| #[trigger]
                    self.reservations().contains_key(a) ==> exists|i: int|
                        0 <= i < out@.len() && out@[i].owner == a) by {
                if it.index() + 1 == it.seq().len() {
                    assert forall|a: ActorId| #[trigger]
                        self.reservations().contains_key(a) implies exists|i: int|
                            0 <= i < out@.len() && out@[i].owner == a by {
                        let t = self.reservations()[a].0;
                        assert(self.txs_for_actor@.dom().contains(t));
                        assert(it.seq().unref().contains(t));
                        let j = choose|j: int| 0 <= j < it.seq().unref().len() && it.seq().unref()[j] == t;
                        assert(out@[j].tx_id == t);
                        assert(self.reservations()[out@[j].owner].0 == t);
                    }
                }
                }
            }
        }
        proof {
            if self.reservations().len() == 0 {
                assert forall|a: ActorId| #[trigger]
                    self.reservations().contains_key(a) implies exists|i: int|
                        0 <= i < out@.len() && out@[i].owner == a by {
                    self.reservations().dom().lemma_len0_is_empty();
                }
            }
        }
        out
    }

    pub fn new() -> (r: TransactionManager)
        ensures
            r.wf(),
            r.reservations().dom() == Set::<ActorId>::empty(),
            r.nonce() == 0,
    {
        let r = TransactionManager {
            txs_for_actor: BTreeMap::new(),
            actors_for_tx: ReservationTable::new(),
            tx_id_nonce: 0,
        };
        proof {
            assert(r.reservations() =~= Map::empty());
            r.lemma_tables();
        }
        r
    }
}

} // verus!
