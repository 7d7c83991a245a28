//! A slab of task wakers with a free list, so that a pending future keeps one
//! slot, identified by a key, across polls, and a slot freed by one future is
//! reused by the next.

use std::sync::Mutex;
use std::task::Waker;
use vstd::prelude::*;

use crate::lock::guarded;
use crate::lock::lock;

verus! {

/// What `Waker::will_wake(a, b)` answers: std documents it as a best-effort
/// check that both wakers wake the same task, which compares the wakers
/// themselves and may answer `false` when they do.
pub uninterp spec fn wakes_same(a: Waker, b: Waker) -> bool;

/// `Waker::will_wake(a, b)`. The contract names its answer [`wakes_same`]
/// of the two wakers and claims nothing more of it.
#[verifier::external_body]
fn will_wake(a: &Waker, b: &Waker) -> (r: bool)
    ensures
        r == wakes_same(*a, *b),
{
    a.will_wake(b)
}

/// `<Waker as Clone>::clone`: the contract claims only that the result is a
/// clone of `w` in vstd's sense (`cloned`): a value that `Waker::clone` can
/// return for `w`. Which task it wakes is not stated.
#[verifier::external_body]
fn clone_waker(w: &Waker) -> (r: Waker)
    ensures
        cloned(*w, r),
{
    w.clone()
}

/// `Waker::wake`: wakes the task. It returns nothing and claims nothing.
#[verifier::external_body]
fn wake(w: Waker) {
    w.wake()
}

/// A slot of the slab: a registered waker, or a free slot that links to the
/// next free one (or to the end of the slab).
#[derive(Debug)]
pub enum Waiter {
    Occupied(Waker),
    Vacant(usize),
}

/// A slab of wakers.
///
/// - Each registered waker has a key, which its owner keeps in an
///   `Option<usize>` and hands back on every operation.
/// - Free slots form a list that starts at `next` and ends at the end of the
///   slab; a freed slot goes to the front of it and is the next one reused.
/// - `take` hands out every slot and leaves the slab empty.
#[derive(Debug)]
pub struct Waiters {
    data: Vec<Waiter>,
    next: usize,
}

impl View for Waiters {
    type V = Map<usize, Waker>;

    /// The registered wakers, by key.
    closed spec fn view(&self) -> Map<usize, Waker> {
        Map::new(
            |k: usize| k < self.data@.len() && self.data@[k as int] is Occupied,
            |k: usize| self.data@[k as int]->Occupied_0,
        )
    }
}

/// The slot that a free list reaches after its `i`-th entry: the next entry,
/// or the end of the slab after the last one.
pub open spec fn link_after(data: Seq<Waiter>, free: Seq<usize>, i: int) -> usize {
    if i + 1 < free.len() {
        free[i + 1]
    } else {
        data.len() as usize
    }
}

/// `free` is the free list of the slab `data` whose head is `next`: it starts
/// at `next` (or is empty when `next` is the end of the slab), each entry is a
/// free slot that links to the following entry, no slot occurs twice, and
/// every free slot is on it.
pub open spec fn is_free_list(data: Seq<Waiter>, next: usize, free: Seq<usize>) -> bool {
    &&& data.len() <= usize::MAX
    &&& next == (if free.len() == 0 {
        data.len() as usize
    } else {
        free[0]
    })
    &&& forall|i: int|
        0 <= i < free.len() ==> #[trigger] free[i] < data.len() && data[free[i] as int]
            == Waiter::Vacant(link_after(data, free, i))
    &&& free.no_duplicates()
    &&& forall|k: int| 0 <= k < data.len() && #[trigger] data[k] is Vacant ==> free.contains(k as usize)
}

/// The slab `data` with head `next` has a free list.
pub open spec fn has_free_list(data: Seq<Waiter>, next: usize) -> bool {
    exists|free: Seq<usize>| #[trigger] is_free_list(data, next, free)
}

/// Two free lists of the same slab and head are the same list: each entry is
/// the link stored in the slot of the one before it.
proof fn lemma_free_list_unique(data: Seq<Waiter>, next: usize, f: Seq<usize>, g: Seq<usize>)
    requires
        is_free_list(data, next, f),
        is_free_list(data, next, g),
    ensures
        f == g,
{
    assert forall|i: int| 0 <= i < f.len() && i < g.len() implies f[i] == g[i] by {
        lemma_free_lists_agree(data, next, f, g, i);
    }
    if f.len() < g.len() {
        if f.len() == 0 {
            assert(g[0] < data.len());
        } else {
            let m = f.len() - 1;
            lemma_free_lists_agree(data, next, f, g, m);
            assert(data[f[m] as int] == Waiter::Vacant(link_after(data, f, m)));
            assert(data[g[m] as int] == Waiter::Vacant(link_after(data, g, m)));
            assert(g[m + 1] < data.len());
        }
    } else if g.len() < f.len() {
        if g.len() == 0 {
            assert(f[0] < data.len());
        } else {
            let m = g.len() - 1;
            lemma_free_lists_agree(data, next, f, g, m);
            assert(data[f[m] as int] == Waiter::Vacant(link_after(data, f, m)));
            assert(data[g[m] as int] == Waiter::Vacant(link_after(data, g, m)));
            assert(f[m + 1] < data.len());
        }
    }
    assert(f =~= g);
}

proof fn lemma_free_lists_agree(data: Seq<Waiter>, next: usize, f: Seq<usize>, g: Seq<usize>, i: int)
    requires
        is_free_list(data, next, f),
        is_free_list(data, next, g),
        0 <= i < f.len(),
        i < g.len(),
    ensures
        f[i] == g[i],
    decreases i,
{
    if i > 0 {
        lemma_free_lists_agree(data, next, f, g, i - 1);
        assert(data[f[i - 1] as int] == Waiter::Vacant(link_after(data, f, i - 1)));
        assert(data[g[i - 1] as int] == Waiter::Vacant(link_after(data, g, i - 1)));
    }
}

/// The head of the free list of `w` is its next key: the first free slot,
/// or the end of the slab when no slot is free.
pub open spec fn next_key_is_head(w: Waiters) -> bool {
    w.next_key() == (if w.free_keys().len() == 0 {
        w.slot_len() as int
    } else {
        w.free_keys()[0] as int
    })
}

/// `after` is `before` with a fresh key registered: the head of the free
/// list, or a new slot appended when no slot is free. The key held no waker
/// before, holds one after, and every other registration is kept.
pub open spec fn registers_new(before: Waiters, after: Waiters, key: usize) -> bool {
    &&& key == before.next_key()
    &&& !before@.contains_key(key)
    &&& after@.contains_key(key)
    &&& after@.remove(key) == before@.remove(key)
    &&& after.free_keys() == (if before.free_keys().len() == 0 {
        Seq::empty()
    } else {
        before.free_keys().drop_first()
    })
    &&& after.slot_len() == (if before.free_keys().len() == 0 {
        before.slot_len() + 1
    } else {
        before.slot_len()
    })
    &&& next_key_is_head(after)
}

/// `after` is `before` with the registered `key` refreshed: `key` stays
/// registered, every other registration is kept, and no slot is added or
/// freed.
pub open spec fn refreshes(before: Waiters, after: Waiters, key: usize) -> bool {
    &&& after@.contains_key(key)
    &&& after@.remove(key) == before@.remove(key)
    &&& after.slot_len() == before.slot_len()
    &&& after.free_keys() == before.free_keys()
    &&& after.next_key() == before.next_key()
}

/// `after` is `before` with `key` unregistered: its waker is gone, every
/// other registration is kept, the number of slots is unchanged, and when
/// `key` was registered its slot goes to the front of the free list.
pub open spec fn removes(before: Waiters, after: Waiters, key: usize) -> bool {
    &&& after@ == before@.remove(key)
    &&& after.slot_len() == before.slot_len()
    &&& after.free_keys() == (if before@.contains_key(key) {
        seq![key] + before.free_keys()
    } else {
        before.free_keys()
    })
    &&& after.next_key() == (if before@.contains_key(key) {
        key
    } else {
        before.next_key()
    })
    &&& next_key_is_head(after)
}

/// `after` is `before` with `waker` registered for an owner whose key was
/// `old_key` and is now `new_key`. A key that still names a registered
/// waker is kept and refreshed: its slot keeps the waker it holds when that
/// one wakes the same task, and gets a clone of `waker` otherwise. Any other
/// owner gets a fresh key whose slot holds a clone of `waker`.
pub open spec fn registers(
    before: Waiters,
    after: Waiters,
    old_key: Option<usize>,
    new_key: usize,
    waker: Waker,
) -> bool {
    if old_key is Some && before@.contains_key(old_key->0) {
        &&& new_key == old_key->0
        &&& refreshes(before, after, new_key)
        &&& wakes_same(before@[new_key], waker) ==> after@[new_key] == before@[new_key]
        &&& !wakes_same(before@[new_key], waker) ==> cloned(waker, after@[new_key])
    } else {
        &&& registers_new(before, after, new_key)
        &&& cloned(waker, after@[new_key])
    }
}

impl Waiters {
    #[verifier::type_invariant]
    closed spec fn wf(&self) -> bool {
        has_free_list(self.data@, self.next)
    }

    /// The number of slots, registered or free.
    pub closed spec fn slot_len(&self) -> nat {
        self.data@.len()
    }

    /// The key that the next registration of a new waker will get.
    pub closed spec fn next_key(&self) -> usize {
        self.next
    }

    /// Every slot, in key order: registered wakers and free slots with their
    /// links.
    pub closed spec fn slot_seq(&self) -> Seq<Waiter> {
        self.data@
    }

    /// The free slots, in the order in which new registrations reuse them.
    pub closed spec fn free_keys(&self) -> Seq<usize> {
        choose|f: Seq<usize>| is_free_list(self.data@, self.next, f)
    }

    /// An empty slab.
    pub fn new() -> (w: Self)
        ensures
            w@ == Map::<usize, Waker>::empty(),
            w.slot_len() == 0,
            w.next_key() == 0,
            w.free_keys() == Seq::<usize>::empty(),
            w.is_valid(),
    {
        let data: Vec<Waiter> = Vec::new();
        assert(is_free_list(data@, 0, Seq::empty()));
        assert(has_free_list(data@, 0));
        let w = Waiters { data, next: 0 };
        assert(w@ =~= Map::<usize, Waker>::empty());
        proof {
            lemma_free_list_unique(w.data@, 0, w.free_keys(), Seq::empty());
        }
        w
    }

    /// Every slab satisfies [`is_valid`](Self::is_valid); this makes the
    /// invariant known to code outside this module.
    pub fn assert_valid(&self)
        ensures
            self.is_valid(),
    {
        proof {
            use_type_invariant(self);
        }
    }

    /// The number of slots, registered or free.
    pub fn slots(&self) -> (n: usize)
        ensures
            n == self.slot_len(),
    {
        self.data.len()
    }

    /// Whether `key` holds a registered waker.
    pub fn contains(&self, key: usize) -> (b: bool)
        ensures
            b == self@.contains_key(key),
    {
        key < self.data.len() && match &self.data[key] {
            Waiter::Occupied(_) => true,
            Waiter::Vacant(_) => false,
        }
    }

    /// Whether the slab satisfies its invariant: its free slots form one
    /// list from [`next_key`](Self::next_key) to the end of the slab. Every
    /// value of the type does.
    pub closed spec fn is_valid(&self) -> bool {
        has_free_list(self.data@, self.next)
    }

    /// Registers `waker` under the key in `id`, or under a new key when `id`
    /// is `None`, and stores that key in `id`.
    ///
    /// - With `Some(key)`, the slot of `key` keeps its waker if that one
    ///   already wakes the same task, and gets a clone of `waker` otherwise.
    /// - With `None`, the new key is [`next_key`](Self::next_key): the most
    ///   recently freed slot, or a new slot at the end when none is free.
    ///
    /// `Some(key)` must name a registered waker.
    pub fn upsert(&mut self, id: &mut Option<usize>, waker: &Waker)
        requires
            *old(id) matches Some(k) ==> old(self)@.contains_key(k),
        ensures
            *final(id) is Some,
            *old(id) is Some ==> *final(id) == *old(id) && refreshes(
                *old(self),
                *final(self),
                (*old(id))->0,
            ),
            *old(id) is None ==> registers_new(*old(self), *final(self), (*final(id))->0),
            *old(id) matches Some(k) ==> (wakes_same(old(self)@[k], *waker) ==> final(self)@[k]
                == old(self)@[k]),
            *old(id) matches Some(k) ==> (!wakes_same(old(self)@[k], *waker) ==> cloned(
                *waker,
                final(self)@[k],
            )),
            *old(id) is None ==> cloned(*waker, final(self)@[(*final(id))->0]),
            final(self).is_valid(),
    {
        proof {
            use_type_invariant(&*self);
        }
        let mut taken = Waiters::new();
        std::mem::swap(&mut taken, self);
        proof {
            use_type_invariant(&taken);
        }
        let Waiters { mut data, mut next } = taken;
        let ghost old_data = data@;
        let ghost free = choose|f: Seq<usize>| is_free_list(data@, next, f);
        assert(free == old(self).free_keys());
        let ghost new_free = free;
        match *id {
            Some(key) => {
                let keep = match &data[key] {
                    Waiter::Occupied(w) => will_wake(w, waker),
                    Waiter::Vacant(_) => {
                        // `key` names a registered waker.
                        assert(false);
                        true
                    },
                };
                if !keep {
                    data[key] = Waiter::Occupied(clone_waker(waker));
                }
                proof {
                    assert forall|i: int| 0 <= i < free.len() implies free[i] != key by {
                        assert(old_data[free[i] as int] is Vacant);
                    }
                    assert forall|k: int|
                        0 <= k < data@.len() && #[trigger] data@[k] is Vacant implies free.contains(
                            k as usize,
                        ) by {
                        assert(old_data[k] is Vacant);
                    }
                }
            },
            None => {
                let key = next;
                if data.len() == key {
                    data.push(Waiter::Occupied(clone_waker(waker)));
                    next = data.len();
                    proof {
                        if free.len() > 0 {
                            assert(free[0] < old_data.len());
                        }
                        assert(new_free =~= Seq::<usize>::empty());
                        assert forall|k: int|
                            0 <= k < data@.len() && #[trigger] data@[k] is Vacant implies free.contains(
                                k as usize,
                            ) by {
                            assert(old_data[k] is Vacant);
                        }
                    }
                } else {
                    let link = match &data[key] {
                        Waiter::Vacant(n) => *n,
                        Waiter::Occupied(_) => {
                            // The head of a non-empty free list is a free slot.
                            assert(old_data[free[0] as int] is Vacant);
                            assert(false);
                            key
                        },
                    };
                    data[key] = Waiter::Occupied(clone_waker(waker));
                    next = link;
                    proof {
                        new_free = free.drop_first();
                        assert(old_data[free[0] as int] == Waiter::Vacant(link_after(old_data, free, 0)));
                        assert forall|i: int| 0 <= i < new_free.len() implies new_free[i] != key by {
                            assert(new_free[i] == free[i + 1]);
                        }
                        assert forall|i: int| 0 <= i < new_free.len() implies #[trigger] new_free[i] < data@.len()
                            && data@[new_free[i] as int] == Waiter::Vacant(
                            link_after(data@, new_free, i),
                        ) by {
                            assert(new_free[i] == free[i + 1]);
                            assert(old_data[free[i + 1] as int] == Waiter::Vacant(
                                link_after(old_data, free, i + 1),
                            ));
                        }
                        assert forall|k: int|
                            0 <= k < data@.len() && #[trigger] data@[k] is Vacant implies new_free.contains(
                                k as usize,
                            ) by {
                            assert(old_data[k] is Vacant);
                            assert(free.contains(k as usize));
                            let j = choose|j: int| 0 <= j < free.len() && free[j] == k as usize;
                            assert(j != 0);
                            assert(new_free[j - 1] == k as usize);
                        }
                    }
                }
                *id = Some(key);
            },
        }
        proof {
            assert(is_free_list(data@, next, new_free));
        }
        *self = Waiters { data, next };
        proof {
            let key = id->0;
            assert(self@.remove(key) =~= old(self)@.remove(key));
            lemma_free_list_unique(self.data@, self.next, self.free_keys(), new_free);
        }
    }

    /// Frees the slot of the key in `id`, if it holds a registered waker, and
    /// sets `id` to `None`. A missing or already freed key is ignored.
    ///
    /// A freed slot becomes [`next_key`](Self::next_key), the first one
    /// reused.
    pub fn remove(&mut self, id: &mut Option<usize>)
        ensures
            *final(id) is None,
            *old(id) matches Some(k) ==> removes(*old(self), *final(self), k),
            *old(id) is None ==> *final(self) == *old(self),
            final(self).is_valid(),
    {
        proof {
            use_type_invariant(&*self);
        }
        if let Some(key) = id.take() {
            if self.contains(key) {
                let mut taken = Waiters::new();
                std::mem::swap(&mut taken, self);
                proof {
                    use_type_invariant(&taken);
                }
                let Waiters { mut data, next } = taken;
                let ghost old_data = data@;
                let ghost free = choose|f: Seq<usize>| is_free_list(data@, next, f);
                data[key] = Waiter::Vacant(next);
                let ghost new_free = seq![key].add(free);
                proof {
                    assert forall|i: int| 0 <= i < free.len() implies free[i] != key by {
                        assert(old_data[free[i] as int] is Vacant);
                    }
                    assert forall|i: int| 0 <= i < new_free.len() implies #[trigger] new_free[i] < data@.len()
                        && data@[new_free[i] as int] == Waiter::Vacant(
                        link_after(data@, new_free, i),
                    ) by {
                        if i > 0 {
                            assert(new_free[i] == free[i - 1]);
                            assert(old_data[free[i - 1] as int] == Waiter::Vacant(
                                link_after(old_data, free, i - 1),
                            ));
                        }
                    }
                    assert forall|k: int|
                        0 <= k < data@.len() && #[trigger] data@[k] is Vacant implies new_free.contains(
                            k as usize,
                        ) by {
                        if k != key {
                            assert(old_data[k] is Vacant);
                            let j = choose|j: int| 0 <= j < free.len() && free[j] == k as usize;
                            assert(new_free[j + 1] == k as usize);
                        } else {
                            assert(new_free[0] == key);
                        }
                    }
                    assert(new_free.no_duplicates()) by {
                        assert forall|a: int, b: int|
                            0 <= a < b < new_free.len() implies new_free[a] != new_free[b] by {
                            if a > 0 {
                                assert(new_free[a] == free[a - 1]);
                            }
                            assert(new_free[b] == free[b - 1]);
                        }
                    }
                    assert(is_free_list(data@, key, new_free));
                }
                *self = Waiters { data, next: key };
                proof {
                    assert(self@ =~= old(self)@.remove(key));
                    lemma_free_list_unique(self.data@, self.next, self.free_keys(), new_free);
                }
            } else {
                proof {
                    assert(self@ =~= old(self)@.remove(key));
                }
            }
        }
    }

    /// Hands out every slot, in key order, and leaves the slab empty.
    pub fn take(&mut self) -> (slots: Vec<Waiter>)
        ensures
            final(self)@ == Map::<usize, Waker>::empty(),
            final(self).slot_len() == 0,
            final(self).next_key() == 0,
            final(self).free_keys() == Seq::<usize>::empty(),
            final(self).is_valid(),
            slots@ == old(self).slot_seq(),
            slots@.len() == old(self).slot_len(),
            forall|k: usize|
                k < slots@.len() ==> (slots@[k as int] is Occupied <==> old(self)@.contains_key(k)),
            forall|k: usize|
                #[trigger] old(self)@.contains_key(k) ==> slots@[k as int] == Waiter::Occupied(
                    old(self)@[k],
                ),
    {
        let mut taken = Waiters::new();
        std::mem::swap(&mut taken, self);
        let Waiters { data, next: _ } = taken;
        data
    }
}

/// The wakers held by the registered slots of `slots`, in slot order.
pub open spec fn registered_in(slots: Seq<Waiter>) -> Seq<Waker>
    decreases slots.len(),
{
    if slots.len() == 0 {
        Seq::empty()
    } else {
        let before = registered_in(slots.drop_last());
        match slots.last() {
            Waiter::Occupied(w) => before.push(w),
            Waiter::Vacant(_) => before,
        }
    }
}

/// The wakers of the registered slots of `slots`, in slot order; free slots
/// are dropped.
pub fn registered_wakers(slots: Vec<Waiter>) -> (wakers: Vec<Waker>)
    ensures
        wakers@ == registered_in(slots@),
{
    let ghost all = slots@;
    let mut wakers: Vec<Waker> = Vec::new();
    for slot in iter: slots
        invariant
            iter.seq() == all,
            wakers@ == registered_in(all.take(iter.index() as int)),
    {
        let ghost i = iter.index() as int;
        proof {
            assert(all.take(i + 1).drop_last() =~= all.take(i));
        }
        match slot {
            Waiter::Occupied(w) => wakers.push(w),
            Waiter::Vacant(_) => {},
        }
    }
    proof {
        assert(all.take(all.len() as int) =~= all);
    }
    wakers
}

impl Waiters {
    /// Wakes every registered waker of the slab behind `mutex`, once each and
    /// in key order, and empties the slab. The slots are taken out under the
    /// lock and the wakers woken after it is released, so that a woken task
    /// does not find it held.
    pub fn wake_all(mutex: &Mutex<Waiters>) {
        let slots = {
            let mut guard = lock(mutex);
            guarded(&mut guard).take()
        };
        let wakers = registered_wakers(slots);
        for w in wakers {
            wake(w);
        }
    }
}

/// The slots handed out by [`Waiters::take`] are those of the slab: a
/// registered key holds its waker, and each free slot links to the next free
/// one, the last to the end of the slab.
pub proof fn lemma_slot_seq(w: Waiters)
    requires
        w.is_valid(),
    ensures
        w.slot_seq().len() == w.slot_len(),
        forall|k: usize|
            k < w.slot_len() ==> (#[trigger] w.slot_seq()[k as int] is Occupied <==> w@.contains_key(
                k,
            )),
        forall|k: usize| #[trigger]
            w@.contains_key(k) ==> w.slot_seq()[k as int] == Waiter::Occupied(w@[k]),
        forall|i: int|
            0 <= i < w.free_keys().len() ==> w.slot_seq()[#[trigger] w.free_keys()[i] as int]
                == Waiter::Vacant(link_after(w.slot_seq(), w.free_keys(), i)),
{
    assert(is_free_list(w.data@, w.next, w.free_keys()));
}

/// A slot freed by `remove` is the very slot that the next registration of a
/// new waker gets: the slab reuses it instead of growing.
pub proof fn lemma_freed_slot_is_reused(
    first: Waiters,
    second: Waiters,
    third: Waiters,
    freed: usize,
    key: usize,
)
    requires
        first@.contains_key(freed),
        removes(first, second, freed),
        registers_new(second, third, key),
    ensures
        key == freed,
        third.slot_len() == first.slot_len(),
        third@.dom() == first@.dom(),
{
    assert forall|x: usize| third@.dom().contains(x) <==> first@.dom().contains(x) by {
        if x != key {
            assert(third@.remove(key).dom().contains(x) <==> third@.dom().contains(x));
            assert(second@.remove(key).dom().contains(x) <==> second@.dom().contains(x));
        }
    }
    assert(third@.dom() =~= first@.dom());
}

/// A new slot is added only when every slot holds a waker; otherwise the
/// next key is a free slot.
pub proof fn lemma_grows_only_when_full(w: Waiters)
    requires
        w.is_valid(),
    ensures
        w.next_key() == w.slot_len() <==> (forall|k: usize| k < w.slot_len() ==> w@.contains_key(k)),
        w.next_key() < w.slot_len() ==> !w@.contains_key(w.next_key()),
        w.next_key() <= w.slot_len(),
{
    let free = choose|f: Seq<usize>| is_free_list(w.data@, w.next, f);
    assert(is_free_list(w.data@, w.next, free));
    assert(w.next_key() == w.next);
    assert(w.slot_len() == w.data@.len());
    if free.len() > 0 {
        assert(w.data@[free[0] as int] == Waiter::Vacant(link_after(w.data@, free, 0)));
        assert(w.next < w.data@.len());
        assert(!w@.contains_key(w.next));
    } else {
        assert forall|k: usize| k < w.slot_len() implies w@.contains_key(k) by {
            if w.data@[k as int] is Vacant {
                assert(free.contains(k));
            }
        }
    }
}

/// Every slot of a slab is either registered or on the free list, never
/// both; the free list has no repeats and its head is the next key.
pub proof fn lemma_registered_or_free(w: Waiters)
    requires
        w.is_valid(),
    ensures
        forall|k: usize|
            k < w.slot_len() ==> (#[trigger] w.free_keys().contains(k) <==> !w@.contains_key(k)),
        forall|i: int| 0 <= i < w.free_keys().len() ==> #[trigger] w.free_keys()[i] < w.slot_len(),
        w.free_keys().no_duplicates(),
        next_key_is_head(w),
{
    let free = w.free_keys();
    assert(is_free_list(w.data@, w.next, free));
    assert forall|k: usize| k < w.slot_len() implies (#[trigger] free.contains(k) <==> !w@.contains_key(
        k,
    )) by {
        if free.contains(k) {
            let i = choose|i: int| 0 <= i < free.len() && free[i] == k;
            assert(w.data@[free[i] as int] == Waiter::Vacant(link_after(w.data@, free, i)));
        }
        if w.data@[k as int] is Vacant {
            assert(free.contains(k));
        }
    }
}

} // verus!
