use vstd::prelude::*;

verus! {

/// One period start: the new current source and the displaced one.
pub open spec fn handoff_step<S>(current: Option<S>, published: Option<Option<S>>) -> (Option<S>, Option<S>) {
    match published {
        Some(next) => (next, current),
        None => (current, None),
    }
}

/// The source held, if any, as a sequence of zero or one.
pub open spec fn held<S>(o: Option<S>) -> Seq<S> {
    match o {
        Some(x) => seq![x],
        None => Seq::empty(),
    }
}

/// The period starts over a run of publications, from a slot holding `init`:
/// the current source at the end and the displaced sources, in order.
pub open spec fn handoff_run<S>(init: Option<S>, pubs: Seq<Option<Option<S>>>) -> (Option<S>, Seq<S>)
    decreases pubs.len(),
{
    if pubs.len() == 0 {
        (init, Seq::empty())
    } else {
        let before = handoff_run(init, pubs.drop_last());
        let after = handoff_step(before.0, pubs.last());
        (after.0, before.1 + held(after.1))
    }
}

/// The sources installed over a run of publications, in order.
pub open spec fn installed<S>(pubs: Seq<Option<Option<S>>>) -> Seq<S>
    decreases pubs.len(),
{
    if pubs.len() == 0 {
        Seq::empty()
    } else {
        installed(pubs.drop_last()) + match pubs.last() {
            Some(next) => held(next),
            None => Seq::empty(),
        }
    }
}

/// Whatever runs of installs and period starts happen, no source is lost, made
/// twice or mixed with another: the sources ever held, the first one and those
/// installed, are exactly those displaced so far and the current one.
pub proof fn lemma_handoff_keeps_every_source<S>(init: Option<S>, pubs: Seq<Option<Option<S>>>)
    ensures
        (held(init) + installed(pubs)).to_multiset() =~= (handoff_run(init, pubs).1 + held(
            handoff_run(init, pubs).0,
        )).to_multiset(),
    decreases pubs.len(),
{
    broadcast use vstd::seq_lib::lemma_multiset_commutative;

    if pubs.len() > 0 {
        lemma_handoff_keeps_every_source(init, pubs.drop_last());
    }
}

/// The audio thread's side of the decoder handoff: the source it reads from
/// during the current period.
///
/// The control thread publishes a new source, or silence, as a whole value;
/// the audio thread takes it over at the start of a period and hands the
/// source it displaces back, so that the control thread frees it once it is
/// no longer read.
pub struct DecoderSlot<S> {
    pub current: Option<S>,
}

impl<S> DecoderSlot<S> {
    /// An empty slot: silence.
    pub fn new() -> (r: Self)
        ensures
            r.current is None,
    {
        DecoderSlot { current: None }
    }

    /// Start of a period. `published` is what the control thread installed
    /// since the last period, if anything: `Some(Some(s))` a new source,
    /// `Some(None)` silence. The installed value replaces the current one
    /// whole, and the displaced source is returned for retirement.
    pub fn observe(&mut self, published: Option<Option<S>>) -> (displaced: Option<S>)
        ensures
            (final(self).current, displaced) == handoff_step(old(self).current, published),
            match published {
                Some(next) => final(self).current == next && displaced == old(self).current,
                None => final(self).current == old(self).current && displaced is None,
            },
    {
        match published {
            Some(next) => {
                let displaced = self.current.take();
                self.current = next;
                displaced
            },
            None => None,
        }
    }

    /// End of a period. The current source, if there is one, has written
    /// `read` samples to the front of `buffer`; those are kept and the rest is
    /// filled with `silence`. Without a source the whole buffer is silence.
    pub fn render<T: Copy>(&self, buffer: &mut [T], read: usize, silence: T)
        ensures
            final(buffer)@.len() == old(buffer)@.len(),
            forall|i: int|
                0 <= i < final(buffer)@.len() ==> #[trigger] final(buffer)@[i] == if self.current is Some
                    && i < read {
                    old(buffer)@[i]
                } else {
                    silence
                },
    {
        let kept: usize = if self.current.is_some() {
            read
        } else {
            0
        };
        let n = buffer.len();
        let mut i: usize = 0;
        while i < n
            invariant
                n == buffer@.len(),
                buffer@.len() == old(buffer)@.len(),
                i <= n,
                kept == (if self.current is Some { read } else { 0 }),
                forall|k: int|
                    0 <= k < i ==> #[trigger] buffer@[k] == if self.current is Some && k < read {
                        old(buffer)@[k]
                    } else {
                        silence
                    },
                forall|k: int| i <= k < n ==> #[trigger] buffer@[k] == old(buffer)@[k],
            decreases n - i,
        {
            if i >= kept {
                buffer[i] = silence;
            }
            i = i + 1;
        }
    }
}

} // verus!
