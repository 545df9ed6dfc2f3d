//! The producer registry: one producer instance per producer kind, shared by
//! every segment that consumes that kind's snapshots, so that three segments
//! showing cpu data cause one sample per tick, not three.

use vstd::prelude::*;

use crate::tick::TickProducer;

verus! {

/// Every producer the bar can run, as a closed set of variants.
pub enum ProducerEnum {
    TickProducer(TickProducer),
}

/// The kind of a producer: registration keeps one producer per kind.
pub open spec fn producer_kind(p: ProducerEnum) -> int {
    match p {
        ProducerEnum::TickProducer(_) => 0,
    }
}

fn kind_of(p: &ProducerEnum) -> (k: u32)
    ensures
        k as int == producer_kind(*p),
{
    match p {
        ProducerEnum::TickProducer(_) => 0,
    }
}

/// Whether some producer of the given kind is already present.
pub open spec fn spec_has_kind(s: Seq<ProducerEnum>, kind: int) -> bool {
    exists|i: int| 0 <= i < s.len() && producer_kind(s[i]) == kind
}

/// The registry that configuration fills: each segment's configuration
/// registers the producer it needs, and duplicates collapse onto the first
/// instance.
pub struct ProducerMap {
    producers: Vec<ProducerEnum>,
}

impl ProducerMap {
    /// The registered producers, in registration order.
    pub closed spec fn spec_producers(self) -> Seq<ProducerEnum> {
        self.producers@
    }

    /// No kind is registered twice.
    pub open spec fn wf(self) -> bool {
        forall|i: int, j: int|
            0 <= i < j < self.spec_producers().len() ==> producer_kind(
                #[trigger] self.spec_producers()[i],
            ) != producer_kind(#[trigger] self.spec_producers()[j])
    }

    /// An empty registry.
    pub fn new() -> (m: ProducerMap)
        ensures
            m.spec_producers() == Seq::<ProducerEnum>::empty(),
            m.wf(),
    {
        ProducerMap { producers: Vec::new() }
    }

    /// Registers a producer: kept if its kind is new, dropped if a producer
    /// of the same kind is already registered — the first instance wins, so
    /// that the kind stays shared.
    pub fn register(&mut self, producer: ProducerEnum)
        requires
            old(self).wf(),
        ensures
            final(self).wf(),
            final(self).spec_producers() == if spec_has_kind(
                old(self).spec_producers(),
                producer_kind(producer),
            ) {
                old(self).spec_producers()
            } else {
                old(self).spec_producers().push(producer)
            },
    {
        let kind = kind_of(&producer);
        let n = self.producers.len();
        let mut i: usize = 0;
        while i < n
            invariant
                *self == *old(self),
                old(self).wf(),
                i <= n,
                n == self.producers@.len(),
                kind as int == producer_kind(producer),
                forall|j: int| 0 <= j < i ==> producer_kind(#[trigger] self.producers@[j]) != kind,
            decreases n - i,
        {
            if kind_of(&self.producers[i]) == kind {
                return ;
            }
            i += 1;
        }
        self.producers.push(producer);
    }

    /// Hands the registered producers out for the runtime to drive.
    pub fn into_producers(self) -> (r: Vec<ProducerEnum>)
        ensures
            r@ == self.spec_producers(),
    {
        self.producers
    }
}

} // verus!
