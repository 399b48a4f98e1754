use vstd::prelude::*;

verus! {

/// The notifier seen mathematically: each registered subscriber's number of
/// pending reload signals, the bound on that number, and the id that the
/// next subscriber will get.
pub ghost struct HubModel {
    pub queues: Map<u64, nat>,
    pub capacity: nat,
    pub next_id: nat,
}

/// What a subscriber finds when it asks for its next signal.
#[derive(PartialEq, Eq, Structural, Clone, Copy, Debug)]
pub enum Delivery {
    /// A signal was pending and has been taken: the viewer should reload.
    Reload,
    /// The subscriber is registered and has nothing pending.
    Idle,
    /// The subscriber is not registered (never was, or was removed).
    Closed,
}

/// One operation on the notifier, for stating what holds along a run.
pub ghost enum HubOp {
    Notify,
    Subscribe,
    Unsubscribe(u64),
    Receive(u64),
}

/// The invariant of every reachable state: a positive bound, each queue
/// within it, and every registered id already handed out.
pub open spec fn hub_wf(m: HubModel) -> bool {
    &&& m.capacity > 0
    &&& forall|id: u64| #[trigger] m.queues.contains_key(id) ==> id < m.next_id && m.queues[id] <= m.capacity
}

/// A queue after one more signal arrives: when it is full, the oldest
/// pending signal is dropped to make room, so its length stays at the bound.
pub open spec fn bumped(pending: nat, capacity: nat) -> nat {
    if pending < capacity {
        pending + 1
    } else {
        capacity
    }
}

/// One signal sent to every registered subscriber, and to no one else.
pub open spec fn notified(m: HubModel) -> HubModel {
    HubModel {
        queues: Map::new(
            |id: u64| m.queues.contains_key(id),
            |id: u64| bumped(m.queues[id], m.capacity),
        ),
        ..m
    }
}

/// A new subscriber with an empty queue, unless the ids are exhausted.
pub open spec fn subscribed(m: HubModel) -> HubModel {
    if m.next_id < u64::MAX {
        HubModel { queues: m.queues.insert(m.next_id as u64, 0), next_id: m.next_id + 1, ..m }
    } else {
        m
    }
}

pub open spec fn unsubscribed(m: HubModel, id: u64) -> HubModel {
    HubModel { queues: m.queues.remove(id), ..m }
}

pub open spec fn delivery(m: HubModel, id: u64) -> Delivery {
    if !m.queues.contains_key(id) {
        Delivery::Closed
    } else if m.queues[id] == 0 {
        Delivery::Idle
    } else {
        Delivery::Reload
    }
}

/// The state after `id` asks for its next signal.
pub open spec fn received(m: HubModel, id: u64) -> HubModel {
    if delivery(m, id) == Delivery::Reload {
        HubModel { queues: m.queues.insert(id, (m.queues[id] - 1) as nat), ..m }
    } else {
        m
    }
}

pub open spec fn apply_op(m: HubModel, op: HubOp) -> HubModel {
    match op {
        HubOp::Notify => notified(m),
        HubOp::Subscribe => subscribed(m),
        HubOp::Unsubscribe(id) => unsubscribed(m, id),
        HubOp::Receive(id) => received(m, id),
    }
}

pub open spec fn run_ops(m: HubModel, ops: Seq<HubOp>) -> HubModel
    decreases ops.len(),
{
    if ops.len() == 0 {
        m
    } else {
        apply_op(run_ops(m, ops.drop_last()), ops.last())
    }
}

proof fn lemma_apply_wf(m: HubModel, op: HubOp)
    requires
        hub_wf(m),
    ensures
        hub_wf(apply_op(m, op)),
        apply_op(m, op).next_id >= m.next_id,
        apply_op(m, op).capacity == m.capacity,
{
    let r = apply_op(m, op);
    assert forall|k: u64| #[trigger] r.queues.contains_key(k) implies k < r.next_id && r.queues[k]
        <= r.capacity by {
        match op {
            HubOp::Subscribe => {
                if k != m.next_id {
                    assert(m.queues.contains_key(k));
                }
            },
            _ => {
                assert(m.queues.contains_key(k));
            },
        }
    }
}

/// Liveness under the drop-oldest policy: a subscriber that stays
/// registered through any run of operations ending in a notification has a
/// reload waiting afterwards, however many earlier signals it lost to
/// overflow or already took.
pub proof fn lemma_last_notify_reaches(m: HubModel, ops: Seq<HubOp>, id: u64)
    requires
        hub_wf(m),
        m.queues.contains_key(id),
        ops.len() > 0,
        ops.last() == HubOp::Notify,
        forall|i: int| 0 <= i < ops.len() ==> ops[i] != HubOp::Unsubscribe(id),
    ensures
        run_ops(m, ops).queues.contains_key(id),
        delivery(run_ops(m, ops), id) == Delivery::Reload,
{
    let before = ops.drop_last();
    lemma_stays_registered(m, before, id);
    let b = run_ops(m, before);
    assert(run_ops(m, ops) == notified(b));
}

/// A subscriber that is never removed stays registered.
pub proof fn lemma_stays_registered(m: HubModel, ops: Seq<HubOp>, id: u64)
    requires
        hub_wf(m),
        m.queues.contains_key(id),
        forall|i: int| 0 <= i < ops.len() ==> ops[i] != HubOp::Unsubscribe(id),
    ensures
        hub_wf(run_ops(m, ops)),
        run_ops(m, ops).queues.contains_key(id),
    decreases ops.len(),
{
    if ops.len() > 0 {
        let before = ops.drop_last();
        assert forall|i: int| 0 <= i < before.len() implies before[i] != HubOp::Unsubscribe(id) by {
            assert(before[i] == ops[i]);
        }
        lemma_stays_registered(m, before, id);
        lemma_apply_wf(run_ops(m, before), ops.last());
        assert(ops.last() == ops[ops.len() - 1]);
    }
}

/// A removed subscriber is never delivered anything again: ids are not
/// reused, so whatever operations follow, it only ever finds `Closed`.
pub proof fn lemma_removed_stays_closed(m: HubModel, ops: Seq<HubOp>, id: u64)
    requires
        hub_wf(m),
        !m.queues.contains_key(id),
        id < m.next_id,
    ensures
        hub_wf(run_ops(m, ops)),
        id < run_ops(m, ops).next_id,
        delivery(run_ops(m, ops), id) == Delivery::Closed,
    decreases ops.len(),
{
    if ops.len() > 0 {
        let before = ops.drop_last();
        lemma_removed_stays_closed(m, before, id);
        lemma_apply_wf(run_ops(m, before), ops.last());
    }
}

/// Removing a subscriber twice is the same as removing it once.
pub proof fn lemma_unsubscribe_idempotent(m: HubModel, id: u64)
    ensures
        unsubscribed(unsubscribed(m, id), id) == unsubscribed(m, id),
        delivery(unsubscribed(m, id), id) == Delivery::Closed,
{
    assert(unsubscribed(m, id).queues.remove(id) =~= m.queues.remove(id));
}

struct Slot {
    id: u64,
    pending: usize,
}

spec fn slot_index(s: Seq<Slot>, id: u64) -> int {
    choose|i: int| 0 <= i < s.len() && s[i].id == id
}

spec fn slots_map(s: Seq<Slot>) -> Map<u64, nat> {
    Map::new(
        |id: u64| exists|i: int| 0 <= i < s.len() && s[i].id == id,
        |id: u64| s[slot_index(s, id)].pending as nat,
    )
}

spec fn ids_unique(s: Seq<Slot>) -> bool {
    forall|i: int, j: int| 0 <= i < s.len() && 0 <= j < s.len() && i != j ==> s[i].id != s[j].id
}

proof fn lemma_slots_map_at(s: Seq<Slot>, i: int)
    requires
        ids_unique(s),
        0 <= i < s.len(),
    ensures
        slots_map(s).contains_key(s[i].id),
        slots_map(s)[s[i].id] == s[i].pending as nat,
{
    let id = s[i].id;
    assert(exists|k: int| 0 <= k < s.len() && s[k].id == id);
    let k = slot_index(s, id);
    assert(k == i);
}

/// Fan-out of reload signals to any number of subscribers, each with a
/// bounded queue that drops its oldest signal on overflow.
pub struct Broadcaster {
    slots: Vec<Slot>,
    capacity: usize,
    next_id: u64,
}

impl View for Broadcaster {
    type V = HubModel;

    closed spec fn view(&self) -> HubModel {
        HubModel {
            queues: slots_map(self.slots@),
            capacity: self.capacity as nat,
            next_id: self.next_id as nat,
        }
    }
}

impl Broadcaster {
    pub closed spec fn wf(&self) -> bool {
        &&& self.capacity > 0
        &&& ids_unique(self.slots@)
        &&& forall|i: int|
            0 <= i < self.slots@.len() ==> #[trigger] self.slots@[i].id < self.next_id
                && self.slots@[i].pending <= self.capacity
    }

    /// Every well-formed notifier has a well-formed model.
    pub proof fn lemma_model_wf(&self)
        requires
            self.wf(),
        ensures
            hub_wf(self@),
    {
        let s = self.slots@;
        assert forall|id: u64| #[trigger] self@.queues.contains_key(id) implies id < self@.next_id
            && self@.queues[id] <= self@.capacity by {
            let i = choose|i: int| 0 <= i < s.len() && s[i].id == id;
            lemma_slots_map_at(s, i);
        }
    }

    /// A notifier with no subscribers whose queues hold at most `capacity`
    /// signals each.
    pub fn new(capacity: usize) -> (r: Self)
        requires
            capacity > 0,
        ensures
            r.wf(),
            r@.queues == Map::<u64, nat>::empty(),
            r@.capacity == capacity,
            r@.next_id == 0,
    {
        let r = Broadcaster { slots: Vec::new(), capacity, next_id: 0 };
        assert(r@.queues =~= Map::<u64, nat>::empty());
        r
    }

    fn position(&self, id: u64) -> (r: Option<usize>)
        ensures
            r matches Some(i) ==> i < self.slots@.len() && self.slots@[i as int].id == id,
            r is None ==> forall|i: int| 0 <= i < self.slots@.len() ==> self.slots@[i].id != id,
    {
        let mut i: usize = 0;
        while i < self.slots.len()
            invariant
                i <= self.slots@.len(),
                forall|k: int| 0 <= k < i ==> self.slots@[k].id != id,
            decreases self.slots@.len() - i,
        {
            if self.slots[i].id == id {
                return Some(i);
            }
            i = i + 1;
        }
        None
    }

    /// Registers a subscriber with an empty queue: signals sent before this
    /// call are not replayed to it. `None` once every id has been used.
    pub fn subscribe(&mut self) -> (r: Option<u64>)
        requires
            old(self).wf(),
        ensures
            final(self).wf(),
            final(self)@ == subscribed(old(self)@),
            old(self)@.next_id < u64::MAX ==> r == Some(old(self)@.next_id as u64),
            old(self)@.next_id >= u64::MAX ==> r is None,
    {
        if self.next_id == u64::MAX {
            return None;
        }
        let id = self.next_id;
        let ghost s0 = self.slots@;
        self.slots.push(Slot { id, pending: 0 });
        self.next_id = id + 1;
        let ghost s = self.slots@;
        assert(s[s.len() - 1].id == id);
        assert(forall|i: int| 0 <= i < s0.len() ==> s[i] == s0[i]);
        assert(ids_unique(s));
        proof {
            assert forall|k: u64| #[trigger] slots_map(s).contains_key(k) == (slots_map(s0).contains_key(k)
                || k == id) by {
                if slots_map(s0).contains_key(k) {
                    let i = choose|i: int| 0 <= i < s0.len() && s0[i].id == k;
                    assert(s[i].id == k);
                }
                if k == id {
                    assert(s[s.len() - 1].id == k);
                }
            }
            assert forall|k: u64| #[trigger] slots_map(s).contains_key(k) implies slots_map(s)[k]
                == slots_map(s0).insert(id, 0)[k] by {
                let i = choose|i: int| 0 <= i < s.len() && s[i].id == k;
                lemma_slots_map_at(s, i);
                if i < s0.len() {
                    lemma_slots_map_at(s0, i);
                }
            }
            assert(slots_map(s) =~= slots_map(s0).insert(id, 0));
        }
        Some(id)
    }
    /// Sends one reload signal to every registered subscriber. A full queue
    /// loses its oldest signal; nothing blocks and nobody is removed.
    pub fn notify(&mut self)
        requires
            old(self).wf(),
        ensures
            final(self).wf(),
            final(self)@ == notified(old(self)@),
    {
        let ghost s0 = self.slots@;
        let cap = self.capacity;
        let mut i: usize = 0;
        while i < self.slots.len()
            invariant
                self.wf(),
                self.capacity == cap,
                self.next_id == old(self).next_id,
                i <= self.slots@.len(),
                self.slots@.len() == s0.len(),
                forall|k: int| 0 <= k < s0.len() ==> #[trigger] self.slots@[k].id == s0[k].id,
                forall|k: int|
                    0 <= k < i ==> #[trigger] self.slots@[k].pending as nat == bumped(
                        s0[k].pending as nat,
                        cap as nat,
                    ),
                forall|k: int| i <= k < s0.len() ==> #[trigger] self.slots@[k].pending == s0[k].pending,
            decreases s0.len() - i,
        {
            let id = self.slots[i].id;
            let p = self.slots[i].pending;
            let q = if p < cap { p + 1 } else { cap };
            self.slots[i] = Slot { id, pending: q };
            i = i + 1;
        }
        proof {
            let s = self.slots@;
            let m0 = old(self)@;
            assert forall|k: u64| #[trigger] slots_map(s).contains_key(k) == slots_map(s0).contains_key(k) by {
                if slots_map(s0).contains_key(k) {
                    let j = choose|j: int| 0 <= j < s0.len() && s0[j].id == k;
                    assert(s[j].id == k);
                }
                if slots_map(s).contains_key(k) {
                    let j = choose|j: int| 0 <= j < s.len() && s[j].id == k;
                    assert(s0[j].id == k);
                }
            }
            assert forall|k: u64| #[trigger] slots_map(s).contains_key(k) implies slots_map(s)[k]
                == notified(m0).queues[k] by {
                let j = choose|j: int| 0 <= j < s.len() && s[j].id == k;
                lemma_slots_map_at(s, j);
                lemma_slots_map_at(s0, j);
            }
            assert(slots_map(s) =~= notified(m0).queues);
        }
    }

    /// Removes a subscriber; its pending signals go with it. Returns whether
    /// it was registered, so a second call changes nothing and returns false.
    pub fn unsubscribe(&mut self, id: u64) -> (r: bool)
        requires
            old(self).wf(),
        ensures
            final(self).wf(),
            final(self)@ == unsubscribed(old(self)@, id),
            r == old(self)@.queues.contains_key(id),
    {
        let ghost s0 = self.slots@;
        match self.position(id) {
            None => {
                proof {
                    assert(!slots_map(s0).contains_key(id));
                    assert(slots_map(s0) =~= slots_map(s0).remove(id));
                }
                false
            },
            Some(idx) => {
                self.slots.remove(idx);
                proof {
                    let s = self.slots@;
                    lemma_slots_map_at(s0, idx as int);
                    assert forall|j: int| 0 <= j < s.len() implies #[trigger] s[j] == (if j < idx {
                        s0[j]
                    } else {
                        s0[j + 1]
                    }) by {}
                    assert forall|k: u64| #[trigger] slots_map(s).contains_key(k) == (slots_map(
                        s0,
                    ).contains_key(k) && k != id) by {
                        if slots_map(s0).contains_key(k) && k != id {
                            let j = choose|j: int| 0 <= j < s0.len() && s0[j].id == k;
                            assert(j != idx);
                            if j < idx {
                                assert(s[j].id == k);
                            } else {
                                assert(s[j - 1].id == k);
                            }
                        }
                        if slots_map(s).contains_key(k) {
                            let j = choose|j: int| 0 <= j < s.len() && s[j].id == k;
                            if j < idx {
                                assert(s0[j].id == k);
                            } else {
                                assert(s0[j + 1].id == k);
                            }
                        }
                    }
                    assert(ids_unique(s));
                    assert forall|k: u64| #[trigger] slots_map(s).contains_key(k) implies slots_map(s)[k]
                        == slots_map(s0)[k] by {
                        let j = choose|j: int| 0 <= j < s.len() && s[j].id == k;
                        lemma_slots_map_at(s, j);
                        if j < idx {
                            lemma_slots_map_at(s0, j);
                        } else {
                            lemma_slots_map_at(s0, j + 1);
                        }
                    }
                    assert(slots_map(s) =~= slots_map(s0).remove(id));
                }
                true
            },
        }
    }

    /// Takes the oldest pending signal of `id`, if it has one.
    pub fn recv(&mut self, id: u64) -> (r: Delivery)
        requires
            old(self).wf(),
        ensures
            final(self).wf(),
            r == delivery(old(self)@, id),
            final(self)@ == received(old(self)@, id),
    {
        let ghost s0 = self.slots@;
        match self.position(id) {
            None => {
                assert(!slots_map(s0).contains_key(id));
                Delivery::Closed
            },
            Some(idx) => {
                proof {
                    lemma_slots_map_at(s0, idx as int);
                }
                let p = self.slots[idx].pending;
                if p == 0 {
                    Delivery::Idle
                } else {
                    self.slots[idx] = Slot { id, pending: p - 1 };
                    proof {
                        let s = self.slots@;
                        assert(s == s0.update(idx as int, Slot { id, pending: (p - 1) as usize }));
                        assert forall|k: u64| #[trigger] slots_map(s).contains_key(k) == slots_map(
                            s0,
                        ).contains_key(k) by {
                            if slots_map(s0).contains_key(k) {
                                let j = choose|j: int| 0 <= j < s0.len() && s0[j].id == k;
                                assert(s[j].id == k);
                            }
                            if slots_map(s).contains_key(k) {
                                let j = choose|j: int| 0 <= j < s.len() && s[j].id == k;
                                assert(s0[j].id == k);
                            }
                        }
                        assert(ids_unique(s));
                        assert forall|k: u64| #[trigger] slots_map(s).contains_key(k) implies slots_map(
                            s,
                        )[k] == slots_map(s0).insert(id, (p - 1) as nat)[k] by {
                            let j = choose|j: int| 0 <= j < s.len() && s[j].id == k;
                            lemma_slots_map_at(s, j);
                            lemma_slots_map_at(s0, j);
                        }
                        assert(slots_map(s) =~= slots_map(s0).insert(id, (p - 1) as nat));
                    }
                    Delivery::Reload
                }
            },
        }
    }

    /// Whether `id` is registered.
    pub fn is_subscribed(&self, id: u64) -> (r: bool)
        requires
            self.wf(),
        ensures
            r == self@.queues.contains_key(id),
    {
        let found = self.position(id);
        proof {
            if let Some(i) = found {
                lemma_slots_map_at(self.slots@, i as int);
            }
        }
        found.is_some()
    }
}

} // verus!
