//! A transition-system model of the slot's cross-thread protocol.
//!
//! The audio callback thread publishes frames into a
//! [`crate::listener::AudioListener`] while unrelated threads poll it; Verus
//! verifies sequential code, so the concurrent interleavings are modelled
//! here explicitly, one atomic step at a time, and the protocol's safety is
//! proved over every interleaving: a reader can never return a torn value
//! (one that no completed publish ever wrote).
//!
//! The protocol is a seqlock over a double buffer. The producer alone
//! writes: it raises a generation counter to odd, writes the buffer that is
//! not exposed, raises the counter to the next even value and swaps the
//! buffers. A reader samples the counter; if odd it returns its cached
//! snapshot instead of waiting; if even it copies the exposed buffer word
//! by word — racing the producer — and then resamples the counter: only an
//! unchanged counter certifies the copy, anything else discards it. The
//! producer never waits on a reader and a reader never waits on the
//! producer.

use vstd::prelude::*;

verus! {

/// One reader's protocol state.
pub enum ReaderPhase {
    /// Between polls.
    Idle,
    /// Mid-copy: the generation and exposed length sampled when the copy
    /// began, how many words are copied, and the partial copy itself.
    Copying { g1: nat, len0: nat, idx: nat, partial: Seq<u32> },
}

pub struct Reader {
    pub phase: ReaderPhase,
    /// The reader's last certified snapshot: what it falls back to when a
    /// fresh copy cannot be certified. Staleness is acceptable; fabrication
    /// never.
    pub cache: Seq<u32>,
}

/// The whole protocol state: one slot, one producer, any number of readers.
pub struct Protocol {
    /// The generation counter: odd exactly while a publish is in flight.
    pub gen: nat,
    /// The buffer readers copy from.
    pub exposed: Seq<u32>,
    /// The buffer the producer writes into.
    pub staging: Seq<u32>,
    /// Every value a completed publish has made visible.
    pub published: Set<Seq<u32>>,
    /// The slot's initial value.
    pub init: Seq<u32>,
    /// The readers, by identity.
    pub readers: Map<int, Reader>,
    /// Every value any completed poll has handed out.
    pub returned: Seq<Seq<u32>>,
}

/// The atomic steps of the protocol, producer and readers interleaved
/// arbitrarily.
pub enum Step {
    /// The producer raises the generation to odd and starts writing the
    /// staging buffer; while the write is in flight the staging buffer
    /// holds arbitrary torn content, modelled by `junk`.
    BeginPublish { junk: Seq<u32> },
    /// The producer finishes writing `value`, raises the generation to the
    /// next even value and swaps the buffers: the new value is exposed.
    FinishPublish { value: Seq<u32> },
    /// A reader samples the generation. Odd means a publish is in flight:
    /// the reader returns its cached snapshot rather than wait. Even: it
    /// begins copying the exposed buffer.
    StartPoll { r: int },
    /// A reader copies one word of whatever is exposed at this instant —
    /// this racing read is where a torn value would come from. `junk`
    /// models the word read if the buffer meanwhile became shorter than the
    /// sampled length.
    CopyWord { r: int, junk: u32 },
    /// The reader finished copying and resamples the generation. Unchanged
    /// means no publish completed while it copied: the copy is certified,
    /// cached and returned. Changed means the copy may be torn: it is
    /// discarded, and the reader retries or falls back.
    FinishPoll { r: int },
    /// A reader out of retries (or polling a stopped producer) returns its
    /// cached snapshot.
    FallbackPoll { r: int },
}

/// The initial states: counter at zero, both buffers and every reader's
/// cache holding the slot's initial value, nothing published, nothing
/// returned.
pub open spec fn init(s: Protocol) -> bool {
    &&& s.gen == 0
    &&& s.exposed == s.init
    &&& s.staging == s.init
    &&& s.published == Set::<Seq<u32>>::empty()
    &&& forall|r: int| #[trigger]
        s.readers.dom().contains(r) ==> s.readers[r].phase == ReaderPhase::Idle
            && s.readers[r].cache == s.init
    &&& s.returned == Seq::<Seq<u32>>::empty()
}

/// The transition relation.
pub open spec fn step(pre: Protocol, post: Protocol, st: Step) -> bool {
    match st {
        Step::BeginPublish { junk } => {
            &&& pre.gen % 2 == 0
            &&& post == (Protocol { gen: pre.gen + 1, staging: junk, ..pre })
        },
        Step::FinishPublish { value } => {
            &&& pre.gen % 2 == 1
            &&& post == (Protocol {
                gen: pre.gen + 1,
                exposed: value,
                staging: pre.exposed,
                published: pre.published.insert(value),
                ..pre
            })
        },
        Step::StartPoll { r } => {
            &&& pre.readers.dom().contains(r)
            &&& pre.readers[r].phase == ReaderPhase::Idle
            &&& if pre.gen % 2 == 1 {
                post == (Protocol { returned: pre.returned.push(pre.readers[r].cache), ..pre })
            } else {
                post == (Protocol {
                    readers: pre.readers.insert(
                        r,
                        Reader {
                            phase: ReaderPhase::Copying {
                                g1: pre.gen,
                                len0: pre.exposed.len(),
                                idx: 0,
                                partial: Seq::empty(),
                            },
                            cache: pre.readers[r].cache,
                        },
                    ),
                    ..pre
                })
            }
        },
        Step::CopyWord { r, junk } => {
            &&& pre.readers.dom().contains(r)
            &&& match pre.readers[r].phase {
                ReaderPhase::Copying { g1, len0, idx, partial } => {
                    &&& idx < len0
                    &&& post == (Protocol {
                        readers: pre.readers.insert(
                            r,
                            Reader {
                                phase: ReaderPhase::Copying {
                                    g1,
                                    len0,
                                    idx: idx + 1,
                                    partial: partial.push(
                                        if idx < pre.exposed.len() {
                                            pre.exposed[idx as int]
                                        } else {
                                            junk
                                        },
                                    ),
                                },
                                cache: pre.readers[r].cache,
                            },
                        ),
                        ..pre
                    })
                },
                ReaderPhase::Idle => false,
            }
        },
        Step::FinishPoll { r } => {
            &&& pre.readers.dom().contains(r)
            &&& match pre.readers[r].phase {
                ReaderPhase::Copying { g1, len0, idx, partial } => {
                    &&& idx == len0
                    &&& if pre.gen == g1 {
                        post == (Protocol {
                            readers: pre.readers.insert(
                                r,
                                Reader { phase: ReaderPhase::Idle, cache: partial },
                            ),
                            returned: pre.returned.push(partial),
                            ..pre
                        })
                    } else {
                        post == (Protocol {
                            readers: pre.readers.insert(
                                r,
                                Reader { phase: ReaderPhase::Idle, cache: pre.readers[r].cache },
                            ),
                            ..pre
                        })
                    }
                },
                ReaderPhase::Idle => false,
            }
        },
        Step::FallbackPoll { r } => {
            &&& pre.readers.dom().contains(r)
            &&& pre.readers[r].phase == ReaderPhase::Idle
            &&& post == (Protocol { returned: pre.returned.push(pre.readers[r].cache), ..pre })
        },
    }
}

/// A value is sound when some completed publish fully wrote it, or it is
/// the slot's initial value.
pub open spec fn published_or_initial(s: Protocol, v: Seq<u32>) -> bool {
    v == s.init || s.published.contains(v)
}

/// One reader's part of the inductive invariant. The heart of the argument:
/// while the generation still equals the sampled `g1`, no publish has
/// completed since the copy began — the counter only ever grows — so the
/// exposed buffer is exactly what it was and the partial copy is a true
/// prefix of it. Once the generation moves, nothing is claimed about the
/// partial copy; the final resample then refuses to certify it.
pub open spec fn reader_inv(s: Protocol, rd: Reader) -> bool {
    &&& published_or_initial(s, rd.cache)
    &&& match rd.phase {
        ReaderPhase::Copying { g1, len0, idx, partial } => {
            &&& g1 % 2 == 0
            &&& g1 <= s.gen
            &&& idx <= len0
            &&& partial.len() == idx
            &&& (s.gen == g1 ==> len0 == s.exposed.len() && partial == s.exposed.subrange(
                0,
                idx as int,
            ))
        },
        ReaderPhase::Idle => true,
    }
}

/// The inductive invariant: the exposed buffer is always a sound value,
/// every reader is mid-protocol in a sound way, and everything ever
/// returned is sound.
pub open spec fn inv(s: Protocol) -> bool {
    &&& published_or_initial(s, s.exposed)
    &&& forall|r: int| #[trigger]
        s.readers.dom().contains(r) ==> reader_inv(s, s.readers[r])
    &&& forall|i: int|
        0 <= i < s.returned.len() ==> published_or_initial(s, #[trigger] s.returned[i])
}

/// Initial states satisfy the invariant.
pub proof fn lemma_init_inv(s: Protocol)
    requires
        init(s),
    ensures
        inv(s),
{
}

/// Every step preserves the invariant, whatever the interleaving.
pub proof fn lemma_step_inv(pre: Protocol, post: Protocol, st: Step)
    requires
        inv(pre),
        step(pre, post, st),
    ensures
        inv(post),
{
    match st {
        Step::BeginPublish { junk } => {
            assert forall|r: int| #[trigger]
                post.readers.dom().contains(r) implies reader_inv(post, post.readers[r]) by {
                assert(reader_inv(pre, pre.readers[r]));
            }
        },
        Step::FinishPublish { value } => {
            assert forall|r: int| #[trigger]
                post.readers.dom().contains(r) implies reader_inv(post, post.readers[r]) by {
                assert(reader_inv(pre, pre.readers[r]));
            }
        },
        Step::StartPoll { r } => {
            if pre.gen % 2 == 0 {
                assert(Seq::<u32>::empty() =~= pre.exposed.subrange(0, 0));
                assert forall|q: int| #[trigger]
                    post.readers.dom().contains(q) implies reader_inv(post, post.readers[q]) by {
                    assert(reader_inv(pre, pre.readers[q]));
                    if q != r {
                        assert(post.readers[q] == pre.readers[q]);
                    }
                }
            }
        },
        Step::CopyWord { r, junk } => {
            let rd = pre.readers[r];
            match rd.phase {
                ReaderPhase::Copying { g1, len0, idx, partial } => {
                    if pre.gen == g1 {
                        assert(partial.push(pre.exposed[idx as int]) =~= pre.exposed.subrange(
                            0,
                            idx as int + 1,
                        ));
                    }
                    assert forall|q: int| #[trigger]
                        post.readers.dom().contains(q) implies reader_inv(
                        post,
                        post.readers[q],
                    ) by {
                        assert(reader_inv(pre, pre.readers[q]));
                        if q != r {
                            assert(post.readers[q] == pre.readers[q]);
                        }
                    }
                },
                ReaderPhase::Idle => {},
            }
        },
        Step::FinishPoll { r } => {
            let rd = pre.readers[r];
            match rd.phase {
                ReaderPhase::Copying { g1, len0, idx, partial } => {
                    if pre.gen == g1 {
                        assert(partial =~= pre.exposed);
                    }
                    assert forall|q: int| #[trigger]
                        post.readers.dom().contains(q) implies reader_inv(
                        post,
                        post.readers[q],
                    ) by {
                        assert(reader_inv(pre, pre.readers[q]));
                        if q != r {
                            assert(post.readers[q] == pre.readers[q]);
                        }
                    }
                },
                ReaderPhase::Idle => {},
            }
        },
        Step::FallbackPoll { r } => {
            assert forall|q: int| #[trigger]
                post.readers.dom().contains(q) implies reader_inv(post, post.readers[q]) by {
                assert(reader_inv(pre, pre.readers[q]));
            }
        },
    }
}

/// The sequential publish path of [`crate::listener::AudioListener`] takes
/// exactly the two producer steps of this protocol: from any stable state,
/// beginning a publish and finishing it with `value` raises the generation
/// by two, exposes `value`, keeps the previously exposed buffer as the next
/// write target, and adds `value` to what has been published — precisely
/// the contract of `publish`.
pub proof fn lemma_publish_refines(s: Protocol, junk: Seq<u32>, value: Seq<u32>)
    requires
        s.gen % 2 == 0,
    ensures
        ({
            let mid = Protocol { gen: s.gen + 1, staging: junk, ..s };
            let post = Protocol {
                gen: s.gen + 2,
                exposed: value,
                staging: s.exposed,
                published: s.published.insert(value),
                ..s
            };
            &&& step(s, mid, Step::BeginPublish { junk })
            &&& step(mid, post, Step::FinishPublish { value })
        }),
{
}

/// The generation counter never decreases: together with the even/odd
/// discipline this is why an unchanged resample certifies that no publish
/// completed during a copy, and why snapshots are observed in
/// non-decreasing generation order.
pub proof fn lemma_generation_monotonic(pre: Protocol, post: Protocol, st: Step)
    requires
        step(pre, post, st),
    ensures
        post.gen >= pre.gen,
{
}

/// The states a sequence of steps can reach from `s0`.
pub open spec fn reachable(s0: Protocol, steps: Seq<Step>, s: Protocol) -> bool
    decreases steps.len(),
{
    if steps.len() == 0 {
        s == s0
    } else {
        exists|mid: Protocol|
            reachable(s0, steps.drop_last(), mid) && #[trigger] step(mid, s, steps.last())
    }
}

/// The invariant holds in every state reachable from an initial state,
/// under every interleaving of producer and reader steps.
pub proof fn lemma_reachable_inv(s0: Protocol, steps: Seq<Step>, s: Protocol)
    requires
        init(s0),
        reachable(s0, steps, s),
    ensures
        inv(s),
    decreases steps.len(),
{
    if steps.len() == 0 {
        lemma_init_inv(s0);
    } else {
        let mid = choose|mid: Protocol|
            reachable(s0, steps.drop_last(), mid) && #[trigger] step(mid, s, steps.last());
        lemma_reachable_inv(s0, steps.drop_last(), mid);
        lemma_step_inv(mid, s, steps.last());
    }
}

/// Law: polling never tears. In every state the protocol can reach — any
/// number of publishes, any number of readers, any interleaving — every
/// value a poll has returned was fully written by some completed publish or
/// is the slot's initial value; never a mix of two publishes.
pub proof fn lemma_poll_never_tears(s0: Protocol, steps: Seq<Step>, s: Protocol, i: int)
    requires
        init(s0),
        reachable(s0, steps, s),
        0 <= i < s.returned.len(),
    ensures
        s.returned[i] == s.init || s.published.contains(s.returned[i]),
{
    lemma_reachable_inv(s0, steps, s);
}

} // verus!
