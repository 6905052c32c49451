//! One stored resource: its chunk log, its metadata and its live feed.
use vstd::prelude::*;

use bytes::Bytes;
use tokio::sync::broadcast::{Receiver, Sender};

use crate::outside::{capacity_of, chunk_bytes, new_channel, next_index, publish, sent_log, subscribe};

verus! {

/// Slots asked for in a record's live feed (the channel rounds this up to a
/// power of two); a reader that falls further behind is told that it lagged.
pub const FEED_CAPACITY: usize = 5000;

/// The content type of a resource whose upload declared none.
pub const DEFAULT_CONTENT_TYPE: &'static str = "octet-stream";

/// A stored resource. While `streaming`, every appended chunk is also
/// offered to the live feed `tx`.
pub struct IndividualVideo {
    video_file: Vec<Bytes>,
    tx: Option<Sender<Bytes>>,
    content_type: String,
    streaming: bool,
    /// How far the feed's log runs ahead of the chunk log (negative once
    /// chunks were appended with nobody listening).
    shift: Ghost<int>,
    /// From this chunk on, each chunk sits in the feed's log `shift` places
    /// further on.
    mirror_from: Ghost<nat>,
}

/// What a reader takes from a record in one shared-lock section: the chunks
/// so far and, while the upload runs, a feed positioned right after them.
pub struct Capture {
    pub snapshot: Vec<Bytes>,
    pub live: Option<Receiver<Bytes>>,
}

pub open spec fn bytes_seq(v: Seq<Bytes>) -> Seq<Seq<u8>> {
    v.map_values(|b: Bytes| chunk_bytes(b))
}

impl IndividualVideo {
    /// The chunks appended so far, in order.
    pub closed spec fn chunks(&self) -> Seq<Seq<u8>> {
        bytes_seq(self.video_file@)
    }

    pub closed spec fn is_live(&self) -> bool {
        self.streaming
    }

    pub closed spec fn content_type_view(&self) -> Seq<char> {
        self.content_type@
    }

    /// What the live feed has carried so far (empty once finalized).
    pub closed spec fn feed(&self) -> Seq<Seq<u8>> {
        match self.tx {
            Some(tx) => sent_log(tx),
            None => Seq::empty(),
        }
    }

    /// The capacity that the live feed was made with (none once finalized).
    pub closed spec fn feed_capacity(&self) -> nat {
        match self.tx {
            Some(tx) => capacity_of(tx),
            None => 0,
        }
    }

    /// Every chunk appended since `earlier` went out on the feed too.
    pub closed spec fn feed_kept_since(&self, earlier: IndividualVideo) -> bool {
        &&& self.shift@ == earlier.shift@
        &&& self.mirror_from@ == earlier.mirror_from@
    }

    pub closed spec fn wf(&self) -> bool {
        &&& self.streaming == self.tx is Some
        &&& self.streaming ==> {
            let log = self.feed();
            &&& self.feed_capacity() == FEED_CAPACITY
            &&& log.len() == self.chunks().len() + self.shift@
            &&& self.mirror_from@ <= self.chunks().len()
            &&& self.mirror_from@ + self.shift@ >= 0
            &&& forall|i: int|
                self.mirror_from@ <= i < self.chunks().len() ==> #[trigger] self.chunks()[i]
                    == log[i + self.shift@]
        }
    }

    /// A fresh record, open for upload, with no chunks. Without a declared
    /// content type it gets the generic binary one.
    pub fn new(content_type: Option<String>) -> (r: IndividualVideo)
        ensures
            r.wf(),
            r.is_live(),
            r.chunks() == Seq::<Seq<u8>>::empty(),
            r.feed() == Seq::<Seq<u8>>::empty(),
            r.feed_capacity() == FEED_CAPACITY,
            content_type is Some ==> r.content_type_view() == content_type->Some_0@,
            content_type is None ==> r.content_type_view() == DEFAULT_CONTENT_TYPE@,
    {
        let content_type = match content_type {
            Some(c) => c,
            None => DEFAULT_CONTENT_TYPE.to_string(),
        };
        let tx = new_channel(FEED_CAPACITY);
        let r = IndividualVideo {
            video_file: Vec::new(),
            tx: Some(tx),
            content_type,
            streaming: true,
            shift: Ghost(0),
            mirror_from: Ghost(0),
        };
        assert(r.chunks() =~= Seq::<Seq<u8>>::empty());
        r
    }

    pub fn content_type(&self) -> (r: &String)
        ensures
            r@ == self.content_type_view(),
    {
        &self.content_type
    }

    /// Whether the upload still runs.
    pub fn is_streaming(&self) -> (r: bool)
        ensures
            r == self.is_live(),
    {
        self.streaming
    }

    pub fn chunk_count(&self) -> (r: usize)
        ensures
            r == self.chunks().len(),
    {
        self.video_file.len()
    }

    /// Appends a chunk and, while the upload runs, offers it to the live
    /// feed. Either the feed carries it, or nobody was listening and the feed
    /// is left as it was.
    pub fn append(&mut self, chunk: Bytes)
        requires
            old(self).wf(),
        ensures
            final(self).wf(),
            final(self).chunks() == old(self).chunks().push(chunk_bytes(chunk)),
            final(self).is_live() == old(self).is_live(),
            final(self).content_type_view() == old(self).content_type_view(),
            old(self).is_live() ==> {
                ||| final(self).feed() == old(self).feed().push(chunk_bytes(chunk))
                    && final(self).feed_kept_since(*old(self))
                ||| final(self).feed() == old(self).feed()
            },
    {
        let copy = chunk.clone();
        self.video_file.push(chunk);
        assert(self.chunks() =~= old(self).chunks().push(chunk_bytes(copy)));
        let mut tx_slot = None;
        std::mem::swap(&mut tx_slot, &mut self.tx);
        match tx_slot {
            Some(mut tx) => {
                let sent = publish(&mut tx, copy);
                self.tx = Some(tx);
                if !sent {
                    self.shift = Ghost(self.shift@ - 1);
                    self.mirror_from = Ghost(self.chunks().len());
                }
            },
            None => {},
        }
    }

    /// Ends the upload: drops the live feed, so every reader still on it
    /// reads what is left in it and then sees the feed closed.
    pub fn finalize(&mut self)
        requires
            old(self).wf(),
        ensures
            final(self).wf(),
            !final(self).is_live(),
            final(self).chunks() == old(self).chunks(),
            final(self).content_type_view() == old(self).content_type_view(),
    {
        self.tx = None;
        self.streaming = false;
    }

    /// Takes, in one step under the shared lock, a copy of the chunks so far
    /// and, while the upload runs, a feed whose first value will be the next
    /// chunk appended.
    pub fn capture_and_subscribe(&self) -> (r: Capture)
        requires
            self.wf(),
        ensures
            bytes_seq(r.snapshot@) == self.chunks(),
            r.live is Some <==> self.is_live(),
            r.live is Some ==> next_index(r.live->Some_0) == self.feed().len(),
    {
        let mut snapshot: Vec<Bytes> = Vec::new();
        let mut i: usize = 0;
        while i < self.video_file.len()
            invariant
                i <= self.video_file@.len(),
                bytes_seq(snapshot@) == bytes_seq(self.video_file@.subrange(0, i as int)),
            decreases self.video_file@.len() - i,
        {
            let c = self.video_file[i].clone();
            snapshot.push(c);
            assert(bytes_seq(self.video_file@.subrange(0, i + 1)) =~= bytes_seq(
                self.video_file@.subrange(0, i as int),
            ).push(chunk_bytes(c)));
            assert(bytes_seq(snapshot@) =~= bytes_seq(self.video_file@.subrange(0, i as int)).push(
                chunk_bytes(c),
            ));
            i = i + 1;
        }
        assert(self.video_file@.subrange(0, i as int) =~= self.video_file@);
        let live = match &self.tx {
            Some(tx) => Some(subscribe(tx)),
            None => None,
        };
        Capture { snapshot, live }
    }
}

/// Exact-once delivery: a reader that captured the record in state
/// `at_capture` and then follows its feed up to state `now` receives the
/// snapshot followed by what the feed carried since, and that is exactly
/// the chunk sequence of `now`, in order, with no chunk twice and none
/// missing; this holds as long as the feed carried every chunk appended in
/// between, which it does while the reader is subscribed.
pub proof fn lemma_exact_once(at_capture: IndividualVideo, now: IndividualVideo)
    requires
        at_capture.wf(),
        now.wf(),
        at_capture.is_live(),
        now.is_live(),
        at_capture.chunks().is_prefix_of(now.chunks()),
        now.feed_kept_since(at_capture),
    ensures
        at_capture.feed().len() <= now.feed().len(),
        at_capture.chunks() + now.feed().subrange(at_capture.feed().len() as int, now.feed().len() as int)
            == now.chunks(),
{
    let n = at_capture.chunks().len() as int;
    let m = at_capture.feed().len() as int;
    let s = now.shift@;
    let live = now.feed().subrange(m, now.feed().len() as int);
    let delivered = at_capture.chunks() + live;
    assert(m == n + s);
    assert forall|i: int| 0 <= i < now.chunks().len() implies delivered[i] == now.chunks()[i] by {
        if i >= n {
            assert(now.chunks()[i] == now.feed()[i + s]);
        }
    }
    assert(delivered =~= now.chunks());
}

/// Finalize closes live readers cleanly: a reader subscribed at
/// `at_capture` whose feed stayed whole up to `last_live`, after which the
/// upload was finalized into `done`, has received exactly the chunks of
/// `done` by the time its feed reports that it closed.
pub proof fn lemma_finalize_completes(
    at_capture: IndividualVideo,
    last_live: IndividualVideo,
    done: IndividualVideo,
)
    requires
        at_capture.wf(),
        last_live.wf(),
        done.wf(),
        at_capture.is_live(),
        last_live.is_live(),
        at_capture.chunks().is_prefix_of(last_live.chunks()),
        last_live.feed_kept_since(at_capture),
        !done.is_live(),
        done.chunks() == last_live.chunks(),
    ensures
        at_capture.chunks() + last_live.feed().subrange(
            at_capture.feed().len() as int,
            last_live.feed().len() as int,
        ) == done.chunks(),
{
    lemma_exact_once(at_capture, last_live);
}

/// Order preservation: two readers that attached at different moments,
/// `first` and `second`, and follow the feed up to `now`, each receive the
/// chunks in the order they were appended; for every position both hold,
/// they hold the same chunk, namely the one appended at that position.
pub proof fn lemma_same_order_for_all_readers(
    first: IndividualVideo,
    second: IndividualVideo,
    now: IndividualVideo,
)
    requires
        first.wf(),
        second.wf(),
        now.wf(),
        first.is_live(),
        second.is_live(),
        now.is_live(),
        first.chunks().is_prefix_of(now.chunks()),
        second.chunks().is_prefix_of(now.chunks()),
        now.feed_kept_since(first),
        now.feed_kept_since(second),
    ensures
        forall|i: int|
            0 <= i < now.chunks().len() ==> {
                &&& #[trigger] (first.chunks() + now.feed().subrange(
                    first.feed().len() as int,
                    now.feed().len() as int,
                ))[i] == now.chunks()[i]
                &&& (second.chunks() + now.feed().subrange(
                    second.feed().len() as int,
                    now.feed().len() as int,
                ))[i] == now.chunks()[i]
            },
{
    lemma_exact_once(first, now);
    lemma_exact_once(second, now);
}

} // verus!
