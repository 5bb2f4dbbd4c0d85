//! The consumer side of the tap: payloads, handoff slots and the registry.
//!
//! A producer callback dispatches each incoming frame to every registered
//! consumer; any thread polls a consumer's latest value whenever it likes.

use vstd::prelude::*;

use crate::error::Error;

verus! {

/// A consumer payload: a value that folds incoming audio frames into its own
/// state. This is the library's extension point — callers register payloads
/// of their own kind (a raw copy of the latest frame, a running spectrum,
/// any fold of the stream) and the dispatch path treats them uniformly.
///
/// A frame is the batch of interleaved samples one backend callback
/// delivers, each sample carried as a raw 32-bit word; the core copies
/// sample words and never does arithmetic on them.
///
/// `Model` is the payload's mathematical value and `folded` names what one
/// `update` does to it, so that the registry's contracts can speak about
/// every payload the same way.
pub trait AudioData: Sized {
    /// The mathematical value of this payload.
    type Model;

    /// The model of this payload's current state.
    spec fn model(&self) -> Self::Model;

    /// What folding one frame into a payload in state `pre` yields.
    spec fn folded(pre: Self::Model, frame: Seq<u32>) -> Self::Model;

    /// Folds one incoming frame into the payload.
    fn update(&mut self, frame: &Vec<u32>)
        ensures
            final(self).model() == Self::folded(old(self).model(), frame@),
    ;

    /// A copy of the payload with the same model, used when a fresh
    /// snapshot has to leave the slot while the stored value stays current.
    fn snapshot(&self) -> (r: Self)
        ensures
            r.model() == self.model(),
    ;
}

/// The raw passthrough payload: its state is simply the latest frame.
impl AudioData for Vec<u32> {
    type Model = Seq<u32>;

    open spec fn model(&self) -> Seq<u32> {
        self@
    }

    open spec fn folded(pre: Seq<u32>, frame: Seq<u32>) -> Seq<u32> {
        frame
    }

    fn update(&mut self, frame: &Vec<u32>) {
        self.clear();
        let n = frame.len();
        let mut i: usize = 0;
        while i < n
            invariant
                n == frame@.len(),
                i <= n,
                self@ == frame@.subrange(0, i as int),
            decreases n - i,
        {
            self.push(frame[i]);
            assert(self@ =~= frame@.subrange(0, i as int + 1));
            i += 1;
        }
        assert(self@ =~= frame@);
    }

    fn snapshot(&self) -> (r: Self) {
        let mut out: Vec<u32> = Vec::new();
        let n = self.len();
        let mut i: usize = 0;
        while i < n
            invariant
                n == self@.len(),
                i <= n,
                out@ == self@.subrange(0, i as int),
            decreases n - i,
        {
            out.push(self[i]);
            assert(out@ =~= self@.subrange(0, i as int + 1));
            i += 1;
        }
        assert(out@ =~= self@);
        out
    }
}

/// The handoff slot for one consumer's latest value.
///
/// The slot follows the double-buffer protocol of [`crate::seqlock`]: two
/// payload buffers and a generation counter that is odd exactly while a
/// publish is in flight. The producer alone writes; any number of readers
/// copy the stable buffer. The concurrent interleavings of that protocol are
/// modelled and proved in [`crate::seqlock`]; here the data path itself is
/// verified: what `publish` writes, what `poll` returns, and that the
/// counter always advances and returns to even.
pub struct AudioListener<T> {
    front: T,
    back: T,
    generation: u64,
}

impl<T: AudioData> AudioListener<T> {
    /// The stable, fully published value readers copy.
    pub closed spec fn spec_current(&self) -> T::Model {
        self.front.model()
    }

    /// The previously exposed value, kept as the write target of the next
    /// publish.
    pub closed spec fn spec_backup(&self) -> T::Model {
        self.back.model()
    }

    /// The generation counter; even means no publish is in flight.
    pub closed spec fn spec_generation(&self) -> u64 {
        self.generation
    }

    /// Between calls a slot is always stable: the generation is even.
    pub open spec fn wf(&self) -> bool {
        self.spec_generation() % 2 == 0
    }

    pub fn new(initial: T) -> (s: Self)
        ensures
            s.wf(),
            s.spec_generation() == 0,
            s.spec_current() == initial.model(),
            s.spec_backup() == initial.model(),
    {
        let back = initial.snapshot();
        AudioListener { front: initial, back, generation: 0 }
    }

    /// The producer-side write path: folds the frame into a copy of the
    /// current value, publishes the copy, and leaves the old value as the
    /// next write target. Runs in bounded time and never waits on a reader;
    /// the generation goes odd while the write is in flight and returns to
    /// the next even value.
    pub fn publish(&mut self, frame: &Vec<u32>)
        requires
            old(self).wf(),
        ensures
            final(self).wf(),
            final(self).spec_current() == T::folded(old(self).spec_current(), frame@),
            final(self).spec_backup() == old(self).spec_current(),
            final(self).spec_generation() as int == (old(self).spec_generation() as int + 2) % (
            u64::MAX as int + 1),
    {
        let ghost g0 = self.generation;
        self.generation = self.generation.wrapping_add(1);
        let mut next = self.front.snapshot();
        next.update(frame);
        self.back = next;
        core::mem::swap(&mut self.front, &mut self.back);
        self.generation = self.generation.wrapping_add(1);
        proof {
            if g0 + 1 <= u64::MAX {
                if g0 + 2 <= u64::MAX {
                    assert(self.generation == g0 + 2);
                } else {
                    assert(self.generation == 0);
                }
            }
        }
    }

    /// The reader-side path: a fully written snapshot of the current value.
    /// Sequentially the slot is always stable; the cross-thread staleness
    /// fallback is part of the protocol model in [`crate::seqlock`].
    pub fn poll(&self) -> (r: T)
        ensures
            r.model() == self.spec_current(),
    {
        self.front.snapshot()
    }

    /// The generation counter, as a reader samples it.
    pub fn generation(&self) -> (r: u64)
        ensures
            r == self.spec_generation(),
    {
        self.generation
    }
}

/// The registry's mathematical value: the registered consumers as
/// `(key, latest payload model)` pairs, in registration order.
///
/// The spec functions below say what each registry operation does to that
/// sequence; the registry's methods promise exactly these outcomes, and the
/// registry laws are proved over them.
pub open spec fn model_find<M>(m: Seq<(Seq<char>, M)>, k: Seq<char>) -> int
    decreases m.len(),
{
    if m.len() == 0 {
        -1
    } else if m[0].0 == k {
        0
    } else {
        let rest = model_find(m.drop_first(), k);
        if rest == -1 {
            -1
        } else {
            rest + 1
        }
    }
}

/// Whether some consumer is registered under `k`.
pub open spec fn model_contains<M>(m: Seq<(Seq<char>, M)>, k: Seq<char>) -> bool {
    model_find(m, k) >= 0
}

/// The registry after removing the consumer registered under `k`; removing
/// an absent key changes nothing.
pub open spec fn model_remove<M>(m: Seq<(Seq<char>, M)>, k: Seq<char>) -> Seq<(Seq<char>, M)> {
    if model_find(m, k) >= 0 {
        m.remove(model_find(m, k))
    } else {
        m
    }
}

/// No key is registered twice.
pub open spec fn model_distinct<M>(m: Seq<(Seq<char>, M)>) -> bool {
    forall|i: int, j: int| 0 <= i < j < m.len() ==> m[i].0 != m[j].0
}

/// The registry after one frame is dispatched: every consumer's payload,
/// in place, folded with the frame.
pub open spec fn model_dispatch<T: AudioData>(
    m: Seq<(Seq<char>, T::Model)>,
    frame: Seq<u32>,
) -> Seq<(Seq<char>, T::Model)> {
    Seq::new(m.len(), |i: int| (m[i].0, T::folded(m[i].1, frame)))
}

/// What `model_find` finds is in range, carries the key, and is the first
/// position to do so; `-1` means the key is absent everywhere.
pub proof fn lemma_model_find<M>(m: Seq<(Seq<char>, M)>, k: Seq<char>)
    ensures
        model_find(m, k) == -1 ==> forall|j: int| 0 <= j < m.len() ==> m[j].0 != k,
        model_find(m, k) != -1 ==> {
            &&& 0 <= model_find(m, k) < m.len()
            &&& m[model_find(m, k)].0 == k
            &&& forall|j: int| 0 <= j < model_find(m, k) ==> m[j].0 != k
        },
    decreases m.len(),
{
    if m.len() > 0 && m[0].0 != k {
        lemma_model_find(m.drop_first(), k);
        assert(forall|j: int| 1 <= j < m.len() ==> m[j] == m.drop_first()[j - 1]);
    }
}

/// A found witness pins `model_find` down.
pub proof fn lemma_model_find_witness<M>(m: Seq<(Seq<char>, M)>, k: Seq<char>, i: int)
    requires
        0 <= i < m.len(),
        m[i].0 == k,
        forall|j: int| 0 <= j < i ==> m[j].0 != k,
    ensures
        model_find(m, k) == i,
    decreases m.len(),
{
    if i > 0 {
        assert(m.drop_first()[i - 1] == m[i]);
        assert(forall|j: int| 0 <= j < i - 1 ==> m.drop_first()[j] == m[j + 1]);
        lemma_model_find_witness(m.drop_first(), k, i - 1);
    }
}

/// Law: pushing a consumer under key `k` makes `k` present, so by
/// `register`'s contract a second registration under the same key must
/// return `DuplicateListenerKey`.
pub proof fn lemma_registered_key_present<M>(m: Seq<(Seq<char>, M)>, k: Seq<char>, v: M)
    ensures
        model_contains(m.push((k, v)), k),
{
    lemma_model_find(m.push((k, v)), k);
    if model_find(m.push((k, v)), k) == -1 {
        assert(m.push((k, v))[m.len() as int].0 == k);
    }
}

/// Pushing a fresh key keeps the registry's keys unique.
pub proof fn lemma_push_distinct<M>(m: Seq<(Seq<char>, M)>, k: Seq<char>, v: M)
    requires
        model_distinct(m),
        !model_contains(m, k),
    ensures
        model_distinct(m.push((k, v))),
{
    lemma_model_find(m, k);
    assert forall|i: int, j: int|
        0 <= i < j < m.push((k, v)).len() implies m.push((k, v))[i].0 != m.push((k, v))[j].0 by {
        if j == m.len() {
            assert(m.push((k, v))[i] == m[i]);
        } else {
            assert(m.push((k, v))[i] == m[i] && m.push((k, v))[j] == m[j]);
        }
    }
}

/// Law: once a key is removed it is absent, so by `register`'s contract the
/// same key can be registered again and succeeds.
pub proof fn lemma_removed_key_absent<M>(m: Seq<(Seq<char>, M)>, k: Seq<char>)
    requires
        model_distinct(m),
    ensures
        !model_contains(model_remove(m, k), k),
{
    lemma_model_find(m, k);
    let f = model_find(m, k);
    if f >= 0 {
        let m2 = m.remove(f);
        m.remove_ensures(f);
        lemma_model_find(m2, k);
        let f2 = model_find(m2, k);
        if f2 >= 0 {
            if f2 < f {
                assert(m2[f2] == m[f2]);
                assert(false);
            } else {
                assert(m2[f2] == m[f2 + 1]);
                assert(false);
            }
        }
    }
}

/// Law: removing a key twice is a no-op the second time — the second
/// `remove` finds nothing, changes nothing, and by `remove`'s contract
/// returns `false` without an error.
pub proof fn lemma_remove_idempotent<M>(m: Seq<(Seq<char>, M)>, k: Seq<char>)
    requires
        model_distinct(m),
    ensures
        model_remove(model_remove(m, k), k) == model_remove(m, k),
{
    lemma_removed_key_absent(m, k);
}

/// Law: the full duplicate-key cycle. Registering a fresh key makes it
/// present — so a second registration under the same key is refused with
/// `DuplicateListenerKey` — and removing it makes it absent again, so the
/// same key can then be re-registered and succeeds.
pub proof fn lemma_register_remove_reregister<M>(m: Seq<(Seq<char>, M)>, k: Seq<char>, v: M)
    requires
        model_distinct(m),
        !model_contains(m, k),
    ensures
        model_contains(m.push((k, v)), k),
        !model_contains(model_remove(m.push((k, v)), k), k),
{
    lemma_registered_key_present(m, k, v);
    lemma_push_distinct(m, k, v);
    lemma_removed_key_absent(m.push((k, v)), k);
}

/// Removal keeps the registry's keys unique.
pub proof fn lemma_remove_distinct<M>(m: Seq<(Seq<char>, M)>, k: Seq<char>)
    requires
        model_distinct(m),
    ensures
        model_distinct(model_remove(m, k)),
{
    lemma_model_find(m, k);
    let f = model_find(m, k);
    if f >= 0 {
        let m2 = m.remove(f);
        m.remove_ensures(f);
        assert forall|i: int, j: int| 0 <= i < j < m2.len() implies m2[i].0 != m2[j].0 by {
            if j < f {
                assert(m2[i] == m[i] && m2[j] == m[j]);
            } else if i < f {
                assert(m2[i] == m[i] && m2[j] == m[j + 1]);
            } else {
                assert(m2[i] == m[i + 1] && m2[j] == m[j + 1]);
            }
        }
    }
}

struct Entry<T> {
    key: String,
    slot: AudioListener<T>,
}

/// The keyed registry of consumers the producer callback dispatches to.
///
/// Each registered consumer owns one [`AudioListener`] slot; `dispatch`
/// forwards every incoming frame to every slot in registration order. Keys
/// are explicit names chosen by the caller and are unique at any instant:
/// registering an existing key fails rather than silently replacing the
/// consumer, and `remove` is idempotent.
pub struct Listener<T> {
    entries: Vec<Entry<T>>,
}

impl<T: AudioData> Listener<T> {
    /// The registered consumers as `(key, latest payload model)` pairs, in
    /// registration order.
    pub closed spec fn model(&self) -> Seq<(Seq<char>, T::Model)> {
        Seq::new(
            self.entries@.len(),
            |i: int| (self.entries@[i].key@, self.entries@[i].slot.spec_current()),
        )
    }

    /// Keys unique, every slot stable.
    pub closed spec fn wf(&self) -> bool {
        &&& forall|i: int|
            0 <= i < self.entries@.len() ==> (#[trigger] self.entries@[i]).slot.wf()
        &&& forall|i: int, j: int|
            0 <= i < j < self.entries@.len() ==> self.entries@[i].key@ != self.entries@[j].key@
    }

    /// A well-formed registry never holds a key twice.
    pub proof fn lemma_wf_distinct(&self)
        requires
            self.wf(),
        ensures
            model_distinct(self.model()),
    {
    }

    pub fn new() -> (r: Self)
        ensures
            r.wf(),
            r.model() == Seq::<(Seq<char>, T::Model)>::empty(),
    {
        let r = Listener { entries: Vec::new() };
        proof {
            assert(r.model() =~= Seq::<(Seq<char>, T::Model)>::empty());
        }
        r
    }

    /// How many consumers are registered.
    pub fn len(&self) -> (r: usize)
        ensures
            r == self.model().len(),
    {
        self.entries.len()
    }

    /// Registers a consumer under `key`. Fails with `DuplicateListenerKey`
    /// exactly when the key is already present — an existing consumer is
    /// never silently replaced; callers must `remove` it first.
    pub fn register(&mut self, key: String, adapter: T) -> (r: Result<(), Error>)
        requires
            old(self).wf(),
        ensures
            final(self).wf(),
            match r {
                Ok(()) => {
                    &&& !model_contains(old(self).model(), key@)
                    &&& final(self).model() == old(self).model().push((key@, adapter.model()))
                },
                Err(e) => {
                    &&& e == Error::DuplicateListenerKey(key)
                    &&& model_contains(old(self).model(), key@)
                    &&& final(self).model() == old(self).model()
                },
            },
    {
        let n = self.entries.len();
        let mut i: usize = 0;
        while i < n
            invariant
                old(self).wf(),
                *self == *old(self),
                n == self.entries@.len(),
                i <= n,
                forall|j: int| 0 <= j < i ==> self.entries@[j].key@ != key@,
            decreases n - i,
        {
            if self.entries[i].key == key {
                proof {
                    lemma_model_find_witness(self.model(), key@, i as int);
                }
                return Err(Error::DuplicateListenerKey(key));
            }
            i += 1;
        }
        proof {
            lemma_model_find(self.model(), key@);
        }
        let slot = AudioListener::new(adapter);
        self.entries.push(Entry { key, slot });
        proof {
            assert(self.model() =~= old(self).model().push((key@, adapter.model())));
        }
        Ok(())
    }

    /// Removes the consumer registered under `key`. Returns whether one was
    /// present; removing an absent key is a no-op, so a second `remove` of
    /// the same key neither errs nor changes anything.
    pub fn remove(&mut self, key: &String) -> (r: bool)
        requires
            old(self).wf(),
        ensures
            final(self).wf(),
            r == model_contains(old(self).model(), key@),
            final(self).model() == model_remove(old(self).model(), key@),
    {
        let n = self.entries.len();
        let mut i: usize = 0;
        while i < n
            invariant
                old(self).wf(),
                *self == *old(self),
                n == self.entries@.len(),
                i <= n,
                forall|j: int| 0 <= j < i ==> self.entries@[j].key@ != key@,
            decreases n - i,
        {
            if self.entries[i].key == *key {
                proof {
                    lemma_model_find_witness(self.model(), key@, i as int);
                }
                self.entries.remove(i);
                proof {
                    assert(self.model() =~= old(self).model().remove(i as int));
                }
                return true;
            }
            i += 1;
        }
        proof {
            lemma_model_find(self.model(), key@);
        }
        false
    }

    /// Dispatches one incoming frame: folds it, in registration order, into
    /// every registered consumer's slot. Called once per producer callback
    /// with the full current frame.
    pub fn dispatch(&mut self, frame: &Vec<u32>)
        requires
            old(self).wf(),
        ensures
            final(self).wf(),
            final(self).model() == model_dispatch::<T>(old(self).model(), frame@),
    {
        let n = self.entries.len();
        let mut i: usize = 0;
        while i < n
            invariant
                old(self).wf(),
                n == self.entries@.len(),
                self.entries@.len() == old(self).entries@.len(),
                i <= n,
                forall|j: int|
                    0 <= j < self.entries@.len() ==> (#[trigger] self.entries@[j]).key
                        == old(self).entries@[j].key,
                forall|j: int|
                    0 <= j < i ==> (#[trigger] self.entries@[j]).slot.wf()
                        && self.entries@[j].slot.spec_current() == T::folded(
                        old(self).entries@[j].slot.spec_current(),
                        frame@,
                    ),
                forall|j: int|
                    i <= j < self.entries@.len() ==> self.entries@[j]
                        == old(self).entries@[j],
            decreases n - i,
        {
            let ghost pre = self.entries@;
            let mut entry = self.entries.remove(i);
            entry.slot.publish(frame);
            self.entries.insert(i, entry);
            proof {
                assert(self.entries@ =~= pre.update(i as int, self.entries@[i as int]));
            }
            i += 1;
        }
        proof {
            assert(self.model() =~= model_dispatch::<T>(old(self).model(), frame@));
        }
    }

    /// The latest value of the consumer registered under `key`, as a fresh
    /// snapshot; `None` exactly when no consumer carries the key.
    pub fn poll(&self, key: &String) -> (r: Option<T>)
        requires
            self.wf(),
        ensures
            match r {
                Some(v) => model_contains(self.model(), key@) && v.model() == self.model()[
                    model_find(self.model(), key@)
                ].1,
                None => !model_contains(self.model(), key@),
            },
    {
        let n = self.entries.len();
        let mut i: usize = 0;
        while i < n
            invariant
                self.wf(),
                n == self.entries@.len(),
                i <= n,
                forall|j: int| 0 <= j < i ==> self.entries@[j].key@ != key@,
            decreases n - i,
        {
            if self.entries[i].key == *key {
                proof {
                    lemma_model_find_witness(self.model(), key@, i as int);
                }
                return Some(self.entries[i].slot.poll());
            }
            i += 1;
        }
        proof {
            lemma_model_find(self.model(), key@);
        }
        None
    }

    /// Attaches to the consumer registered under `key`, creating it with
    /// `initial` when absent, and returns a snapshot of its current value —
    /// the way unrelated threads share one underlying slot instead of
    /// opening a duplicate logical stream.
    pub fn create(&mut self, key: String, initial: T) -> (r: T)
        requires
            old(self).wf(),
        ensures
            final(self).wf(),
            model_contains(old(self).model(), key@) ==> {
                &&& final(self).model() == old(self).model()
                &&& r.model() == old(self).model()[model_find(old(self).model(), key@)].1
            },
            !model_contains(old(self).model(), key@) ==> {
                &&& final(self).model() == old(self).model().push((key@, initial.model()))
                &&& r.model() == initial.model()
            },
    {
        match self.poll(&key) {
            Some(v) => v,
            None => {
                let r = initial.snapshot();
                match self.register(key, initial) {
                    Ok(()) => r,
                    Err(_) => r,
                }
            },
        }
    }
}

} // verus!
