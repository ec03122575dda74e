//! The process-wide audio bus: named rendezvous channels through which a
//! publisher stage hands decoded frames to subscriber stages of other
//! pipelines. A channel springs into existence when either endpoint
//! attaches, holds at most one publisher, and buffers a bounded number of
//! frames with drop-oldest behavior, so publishing never blocks — a
//! subscriber may attach long after frames were first published.

use vstd::prelude::*;

use crate::stage::MediaFormat;

verus! {

/// How many frames a channel buffers before dropping the oldest.
pub const BUS_CHANNEL_CAPACITY: usize = 64;

/// Why an endpoint could not attach to a channel.
#[derive(Clone, Copy, PartialEq, Eq, Structural, Debug)]
pub enum BusError {
    /// The endpoint's declared frame format differs from the channel's.
    FormatMismatch,
    /// The channel already has its one publisher.
    PublisherTaken,
}

/// One named channel: its identity, the frame format both ends must
/// declare, its endpoints, and the frames waiting in publish order.
pub struct BusChannel {
    pub id: u32,
    pub format: MediaFormat,
    pub has_publisher: bool,
    pub subscriber_count: usize,
    pub queued: Vec<u64>,
}

/// The registry of all live channels, keyed by id.
pub struct AudioBus {
    pub channels: Vec<BusChannel>,
}

impl AudioBus {
    /// Channel ids are unique and no buffer exceeds the bound.
    pub open spec fn wf(self) -> bool {
        &&& forall|i: int, j: int| 0 <= i < j < self.channels@.len()
            ==> (#[trigger] self.channels@[i].id) != (#[trigger] self.channels@[j].id)
        &&& forall|i: int| 0 <= i < self.channels@.len()
            ==> (#[trigger] self.channels@[i]).queued@.len() <= BUS_CHANNEL_CAPACITY
    }

    /// Whether a channel named `id` exists.
    pub open spec fn has_channel(self, id: u32) -> bool {
        exists|i: int| 0 <= i < self.channels@.len() && (#[trigger] self.channels@[i]).id == id
    }

    /// The position of the channel named `id`.
    pub open spec fn index_of(self, id: u32) -> int {
        choose|i: int| 0 <= i < self.channels@.len() && (#[trigger] self.channels@[i]).id == id
    }

    /// The channel named `id`; meaningful only when it exists.
    pub open spec fn channel_at(self, id: u32) -> BusChannel {
        self.channels@[self.index_of(id)]
    }

    /// With unique ids, any position holding `id` is the position of the
    /// channel named `id`.
    pub proof fn lemma_channel_at(self, id: u32, i: int)
        requires
            self.wf(),
            0 <= i < self.channels@.len(),
            self.channels@[i].id == id,
        ensures
            self.has_channel(id),
            self.index_of(id) == i,
            self.channel_at(id) == self.channels@[i],
    {
        assert(self.has_channel(id));
        let j = self.index_of(id);
        assert(0 <= j < self.channels@.len() && self.channels@[j].id == id);
    }

    /// An empty bus: no channel exists yet.
    pub fn new() -> (r: AudioBus)
        ensures
            r.wf(),
            r.channels@.len() == 0,
            forall|id: u32| !r.has_channel(id),
    {
        AudioBus { channels: Vec::new() }
    }

    /// The position of channel `id`, if it exists.
    pub fn find_channel(&self, id: u32) -> (r: Option<usize>)
        ensures
            match r {
                Some(i) => i < self.channels@.len() && self.channels@[i as int].id == id,
                None => !self.has_channel(id),
            },
    {
        let n = self.channels.len();
        let mut i: usize = 0;
        while i < n
            invariant
                n == self.channels@.len(),
                i <= n,
                forall|k: int| 0 <= k < i ==> (#[trigger] self.channels@[k]).id != id,
            decreases n - i,
        {
            if self.channels[i].id == id {
                return Some(i);
            }
            i = i + 1;
        }
        None
    }

    /// Attaches the single publisher of channel `id`, creating the
    /// channel if neither endpoint exists yet. Fails iff the channel
    /// already exists with another format, or already has a publisher:
    /// the format constraint both ends declare at construction time is
    /// what keeps publisher and subscribers in agreement.
    pub fn attach_publisher(&mut self, id: u32, format: MediaFormat) -> (r: Result<(), BusError>)
        requires
            old(self).wf(),
        ensures
            final(self).wf(),
            r is Ok <==> (!old(self).has_channel(id) || (old(self).channel_at(id).format == format
                && !old(self).channel_at(id).has_publisher)),
            r is Err ==> *final(self) == *old(self),
            r is Err ==> (r matches Err(BusError::FormatMismatch) <==> old(self).channel_at(
                id,
            ).format != format),
            !old(self).has_channel(id) && r is Ok ==> {
                &&& final(self).channels@.len() == old(self).channels@.len() + 1
                &&& final(self).channels@.subrange(0, old(self).channels@.len() as int) == old(
                    self,
                ).channels@
                &&& final(self).index_of(id) == old(self).channels@.len()
                &&& final(self).channel_at(id).format == format
                &&& final(self).channel_at(id).has_publisher
                &&& final(self).channel_at(id).subscriber_count == 0
                &&& final(self).channel_at(id).queued@ == Seq::<u64>::empty()
            },
            old(self).has_channel(id) && r is Ok ==> final(self).channels@ == old(
                self,
            ).channels@.update(
                old(self).index_of(id),
                BusChannel {
                    id,
                    format,
                    has_publisher: true,
                    subscriber_count: old(self).channel_at(id).subscriber_count,
                    queued: old(self).channel_at(id).queued,
                },
            ),
            final(self).has_channel(id),
            r is Ok ==> final(self).channel_at(id).has_publisher,
    {
        match self.find_channel(id) {
            Some(i) => {
                proof {
                    self.lemma_channel_at(id, i as int);
                }
                if !formats_equal(&self.channels[i].format, &format) {
                    return Err(BusError::FormatMismatch);
                }
                if self.channels[i].has_publisher {
                    return Err(BusError::PublisherTaken);
                }
                let mut c = self.channels.remove(i);
                c.has_publisher = true;
                self.channels.insert(i, c);
                proof {
                    assert(self.channels@ =~= old(self).channels@.update(
                        i as int,
                        self.channels@[i as int],
                    ));
                    self.lemma_channel_at(id, i as int);
                }
                Ok(())
            },
            None => {
                let c = BusChannel {
                    id,
                    format,
                    has_publisher: true,
                    subscriber_count: 0,
                    queued: Vec::new(),
                };
                self.channels.push(c);
                proof {
                    self.lemma_channel_at(id, self.channels@.len() - 1);
                }
                Ok(())
            },
        }
    }

    /// Attaches one more subscriber to channel `id`, creating the
    /// channel if neither endpoint exists yet; a subscriber may attach
    /// before or after the publisher. Fails iff the channel exists with
    /// another format.
    pub fn attach_subscriber(&mut self, id: u32, format: MediaFormat) -> (r: Result<(), BusError>)
        requires
            old(self).wf(),
            old(self).has_channel(id) ==> old(self).channel_at(id).subscriber_count
                < usize::MAX,
        ensures
            final(self).wf(),
            r is Ok <==> (!old(self).has_channel(id) || old(self).channel_at(id).format == format),
            r is Err ==> *final(self) == *old(self) && r matches Err(BusError::FormatMismatch),
            !old(self).has_channel(id) && r is Ok ==> {
                &&& final(self).channels@.len() == old(self).channels@.len() + 1
                &&& final(self).channels@.subrange(0, old(self).channels@.len() as int) == old(
                    self,
                ).channels@
                &&& final(self).index_of(id) == old(self).channels@.len()
                &&& final(self).channel_at(id).format == format
                &&& !final(self).channel_at(id).has_publisher
                &&& final(self).channel_at(id).subscriber_count == 1
                &&& final(self).channel_at(id).queued@ == Seq::<u64>::empty()
            },
            old(self).has_channel(id) && r is Ok ==> final(self).channels@ == old(
                self,
            ).channels@.update(
                old(self).index_of(id),
                BusChannel {
                    id,
                    format,
                    has_publisher: old(self).channel_at(id).has_publisher,
                    subscriber_count: (old(self).channel_at(id).subscriber_count + 1) as usize,
                    queued: old(self).channel_at(id).queued,
                },
            ),
            final(self).has_channel(id),
    {
        match self.find_channel(id) {
            Some(i) => {
                proof {
                    self.lemma_channel_at(id, i as int);
                }
                if !formats_equal(&self.channels[i].format, &format) {
                    return Err(BusError::FormatMismatch);
                }
                let mut c = self.channels.remove(i);
                c.subscriber_count = c.subscriber_count + 1;
                self.channels.insert(i, c);
                proof {
                    assert(self.channels@ =~= old(self).channels@.update(
                        i as int,
                        self.channels@[i as int],
                    ));
                    self.lemma_channel_at(id, i as int);
                }
                Ok(())
            },
            None => {
                let c = BusChannel {
                    id,
                    format,
                    has_publisher: false,
                    subscriber_count: 1,
                    queued: Vec::new(),
                };
                self.channels.push(c);
                proof {
                    self.lemma_channel_at(id, self.channels@.len() - 1);
                }
                Ok(())
            },
        }
    }

    /// Publishes one frame into channel `id`. Total and non-blocking
    /// whatever the channel's state: with the buffer at capacity the
    /// oldest frame is dropped, so a slow or still-absent subscriber can
    /// never stall the publishing pipeline's thread.
    pub fn publish(&mut self, id: u32, frame: u64)
        requires
            old(self).wf(),
            old(self).has_channel(id),
            old(self).channel_at(id).has_publisher,
        ensures
            final(self).wf(),
            final(self).channels@ == old(self).channels@.update(
                old(self).index_of(id),
                BusChannel {
                    id,
                    format: old(self).channel_at(id).format,
                    has_publisher: true,
                    subscriber_count: old(self).channel_at(id).subscriber_count,
                    queued: final(self).channel_at(id).queued,
                },
            ),
            final(self).channel_at(id).queued@ == if old(self).channel_at(id).queued@.len()
                < BUS_CHANNEL_CAPACITY {
                old(self).channel_at(id).queued@.push(frame)
            } else {
                old(self).channel_at(id).queued@.drop_first().push(frame)
            },
    {
        let i = match self.find_channel(id) {
            Some(i) => i,
            None => {
                proof {
                    assert(false);
                }
                0
            },
        };
        proof {
            self.lemma_channel_at(id, i as int);
        }
        let mut c = self.channels.remove(i);
        if c.queued.len() >= BUS_CHANNEL_CAPACITY {
            c.queued.remove(0);
            proof {
                assert(c.queued@ =~= old(self).channel_at(id).queued@.drop_first());
            }
        }
        c.queued.push(frame);
        self.channels.insert(i, c);
        proof {
            assert(self.channels@ =~= old(self).channels@.update(
                i as int,
                self.channels@[i as int],
            ));
            self.lemma_channel_at(id, i as int);
        }
    }

    /// Pulls the oldest waiting frame from channel `id`, or `None` when
    /// none is waiting — an unfed channel yields silence, it never
    /// blocks. Frames come out in exactly the order they were published.
    pub fn pull(&mut self, id: u32) -> (r: Option<u64>)
        requires
            old(self).wf(),
            old(self).has_channel(id),
        ensures
            final(self).wf(),
            old(self).channel_at(id).queued@.len() == 0 ==> r is None && *final(self) == *old(
                self,
            ),
            old(self).channel_at(id).queued@.len() > 0 ==> {
                &&& r == Some(old(self).channel_at(id).queued@[0])
                &&& final(self).channels@ == old(self).channels@.update(
                    old(self).index_of(id),
                    BusChannel {
                        id,
                        format: old(self).channel_at(id).format,
                        has_publisher: old(self).channel_at(id).has_publisher,
                        subscriber_count: old(self).channel_at(id).subscriber_count,
                        queued: final(self).channel_at(id).queued,
                    },
                )
                &&& final(self).channel_at(id).queued@ == old(self).channel_at(
                    id,
                ).queued@.drop_first()
            },
    {
        let i = match self.find_channel(id) {
            Some(i) => i,
            None => {
                proof {
                    assert(false);
                }
                0
            },
        };
        proof {
            self.lemma_channel_at(id, i as int);
        }
        if self.channels[i].queued.len() == 0 {
            return None;
        }
        let mut c = self.channels.remove(i);
        let frame = c.queued.remove(0);
        proof {
            assert(c.queued@ =~= old(self).channel_at(id).queued@.drop_first());
        }
        self.channels.insert(i, c);
        proof {
            assert(self.channels@ =~= old(self).channels@.update(
                i as int,
                self.channels@[i as int],
            ));
            self.lemma_channel_at(id, i as int);
        }
        Some(frame)
    }
}

/// Structural equality of two formats.
pub fn formats_equal(a: &MediaFormat, b: &MediaFormat) -> (r: bool)
    ensures
        r == (*a == *b),
{
    *a == *b
}

} // verus!
