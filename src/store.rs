use vstd::prelude::*;

verus! {

/// What an append expects of the stream's head version.
#[derive(Clone, Copy, Debug, PartialEq, Eq, Structural)]
pub enum ExpectedVersion {
    /// No check.
    Any,
    /// The head version must equal this one.
    Exact(i64),
    /// The stream must be empty.
    NoStream,
}

/// Which part of a stream a read returns.
#[derive(Clone, Copy, Debug, PartialEq, Eq, Structural)]
pub enum EventsReadRange {
    All,
    /// The events whose version is at least this one.
    FromVersion(i64),
}

/// Why the store refused an append. The store is left as it was.
#[derive(Clone, Copy, Debug, PartialEq, Eq, Structural)]
pub enum StoreError {
    /// The stream's head version does not satisfy the expected version.
    ConcurrencyConflict,
    /// The new versions would not fit in an `i64`.
    VersionOverflow,
}

/// A domain event that the store can hold: it can be copied out, and it
/// knows how it is written.
pub trait EventPayload: Sized {
    /// A copy of the event.
    fn duplicate(&self) -> (r: Self)
        ensures
            r == *self,
    ;

    /// The name under which events of this type are written.
    spec fn event_name() -> Seq<char>;

    /// The event wrapped for writing under identifier `id`, with no
    /// correlation, causation or metadata.
    fn into_write(self, id: u128) -> (r: EventWrite<Self>)
        ensures
            r.id == id,
            r.correlation_id is None,
            r.causation_id is None,
            r.name@ == Self::event_name(),
            r.data == self,
            r.metadata is None,
    ;
}

/// An event on its way into the store; the store gives it a version.
#[derive(Clone, Debug)]
pub struct EventWrite<E> {
    pub id: u128,
    pub correlation_id: Option<u128>,
    pub causation_id: Option<u128>,
    pub name: String,
    pub data: E,
    pub metadata: Option<E>,
}

/// An event as the store holds it: the written event with its stream and version.
#[derive(Clone, Debug)]
pub struct EventRead<E> {
    pub id: u128,
    pub correlation_id: Option<u128>,
    pub causation_id: Option<u128>,
    pub stream_id: String,
    pub version: i64,
    pub name: String,
    pub data: E,
    pub metadata: Option<E>,
}

/// Whether a stream whose head version is `head` satisfies `expected`.
pub open spec fn admits(expected: ExpectedVersion, head: int) -> bool {
    match expected {
        ExpectedVersion::Any => true,
        ExpectedVersion::Exact(v) => v as int == head,
        ExpectedVersion::NoStream => head == 0,
    }
}

/// Whether `n` more events after head version `head` still have `i64` versions.
pub open spec fn fits(head: int, n: int) -> bool {
    head + n < i64::MAX
}

/// The event that the store records for `w` at `version` of `stream_id`.
pub open spec fn recorded<E>(w: EventWrite<E>, stream_id: String, version: int) -> EventRead<E> {
    EventRead {
        id: w.id,
        correlation_id: w.correlation_id,
        causation_id: w.causation_id,
        stream_id,
        version: version as i64,
        name: w.name,
        data: w.data,
        metadata: w.metadata,
    }
}

/// The events of one stream are numbered 1, 2, ... in order and carry its id.
pub open spec fn sequential<E>(events: Seq<EventRead<E>>, stream_id: Seq<char>) -> bool {
    &&& events.len() < i64::MAX
    &&& forall|k: int|
        0 <= k < events.len() ==> (#[trigger] events[k]).version == k + 1 && events[k].stream_id@
            == stream_id
}

/// The position in a stream of `len` events where the events of version `v` and later start.
pub open spec fn start_index(v: int, len: int) -> int {
    if v <= 1 {
        0
    } else if v - 1 > len {
        len
    } else {
        v - 1
    }
}

/// The payloads of a sequence of stored events.
pub open spec fn payloads<E>(events: Seq<EventRead<E>>) -> Seq<E> {
    events.map_values(|e: EventRead<E>| e.data)
}

impl<E: EventPayload> EventWrite<E> {
    /// A field-by-field copy.
    pub fn copy(&self) -> (r: EventWrite<E>)
        ensures
            r == *self,
    {
        EventWrite {
            id: self.id,
            correlation_id: self.correlation_id,
            causation_id: self.causation_id,
            name: self.name.clone(),
            data: self.data.duplicate(),
            metadata: match &self.metadata {
                Some(m) => Some(m.duplicate()),
                None => None,
            },
        }
    }
}

impl<E: EventPayload> EventRead<E> {
    /// A field-by-field copy.
    pub fn copy(&self) -> (r: EventRead<E>)
        ensures
            r == *self,
    {
        EventRead {
            id: self.id,
            correlation_id: self.correlation_id,
            causation_id: self.causation_id,
            stream_id: self.stream_id.clone(),
            version: self.version,
            name: self.name.clone(),
            data: self.data.duplicate(),
            metadata: match &self.metadata {
                Some(m) => Some(m.duplicate()),
                None => None,
            },
        }
    }
}

struct StreamLog<E> {
    stream_id: String,
    events: Vec<EventRead<E>>,
}

impl<E> StreamLog<E> {
    spec fn wf(self) -> bool {
        sequential(self.events@, self.stream_id@)
    }
}

/// An in-memory, append-only store of event streams, with an
/// optimistic-concurrency check on every append.
pub struct EventStore<E> {
    streams: Vec<StreamLog<E>>,
}

impl<E: EventPayload> EventStore<E> {
    /// The store's invariant: stream ids are unique and each stream is numbered in order.
    pub closed spec fn wf(self) -> bool {
        &&& forall|i: int, j: int|
            0 <= i < j < self.streams@.len() ==> self.streams@[i].stream_id@
                != self.streams@[j].stream_id@
        &&& forall|i: int| 0 <= i < self.streams@.len() ==> (#[trigger] self.streams@[i]).wf()
    }

    /// The events of stream `id`, oldest first; empty where the stream does not exist.
    pub closed spec fn stream(self, id: Seq<char>) -> Seq<EventRead<E>> {
        if exists|i: int| 0 <= i < self.streams@.len() && self.streams@[i].stream_id@ == id {
            self.streams@[choose|i: int|
                0 <= i < self.streams@.len() && self.streams@[i].stream_id@ == id].events@
        } else {
            Seq::empty()
        }
    }

    /// The head version of stream `id`: its number of events, 0 when it is empty.
    pub open spec fn head(self, id: Seq<char>) -> int {
        self.stream(id).len() as int
    }

    /// What a read of stream `id` over `range` returns.
    pub open spec fn read_spec(self, id: Seq<char>, range: EventsReadRange) -> Seq<EventRead<E>> {
        let s = self.stream(id);
        match range {
            EventsReadRange::All => s,
            EventsReadRange::FromVersion(v) => s.subrange(start_index(v as int, s.len() as int), s.len() as int),
        }
    }

    proof fn lemma_stream_at(self, i: int)
        requires
            self.wf(),
            0 <= i < self.streams@.len(),
        ensures
            self.stream(self.streams@[i].stream_id@) == self.streams@[i].events@,
    {
        let id = self.streams@[i].stream_id@;
        let j = choose|j: int| 0 <= j < self.streams@.len() && self.streams@[j].stream_id@ == id;
        if j != i {
            if j < i {
                assert(self.streams@[j].stream_id@ != self.streams@[i].stream_id@);
            } else {
                assert(self.streams@[i].stream_id@ != self.streams@[j].stream_id@);
            }
        }
    }

    /// Every stream of a well-formed store is numbered 1, 2, ... in order.
    pub proof fn lemma_stream_sequential(self, id: Seq<char>)
        requires
            self.wf(),
        ensures
            sequential(self.stream(id), id),
    {
        if exists|i: int| 0 <= i < self.streams@.len() && self.streams@[i].stream_id@ == id {
            let i = choose|i: int| 0 <= i < self.streams@.len() && self.streams@[i].stream_id@ == id;
            assert(self.streams@[i].wf());
        }
    }

    /// An empty store.
    pub fn new() -> (r: EventStore<E>)
        ensures
            r.wf(),
            forall|id: Seq<char>| r.stream(id) == Seq::<EventRead<E>>::empty(),
    {
        EventStore { streams: Vec::new() }
    }

    fn find(&self, stream_id: &String) -> (r: Option<usize>)
        ensures
            match r {
                Some(i) => i < self.streams@.len() && self.streams@[i as int].stream_id@ == stream_id@,
                None => forall|i: int|
                    0 <= i < self.streams@.len() ==> self.streams@[i].stream_id@ != stream_id@,
            },
    {
        let mut i: usize = 0;
        while i < self.streams.len()
            invariant
                i <= self.streams@.len(),
                forall|k: int| 0 <= k < i ==> self.streams@[k].stream_id@ != stream_id@,
            decreases self.streams@.len() - i,
        {
            if self.streams[i].stream_id == *stream_id {
                return Some(i);
            }
            i = i + 1;
        }
        None
    }

    /// The head version of stream `stream_id`.
    pub fn current_version(&self, stream_id: &String) -> (r: i64)
        requires
            self.wf(),
        ensures
            r as int == self.head(stream_id@),
    {
        match self.find(stream_id) {
            Some(i) => {
                proof {
                    self.lemma_stream_at(i as int);
                }
                self.streams[i].events.len() as i64
            },
            None => 0,
        }
    }

    /// The events of stream `stream_id` that `range` selects, oldest first.
    /// A stream that does not exist reads as empty.
    pub fn get_events(&self, stream_id: &String, range: &EventsReadRange) -> (r: Vec<EventRead<E>>)
        requires
            self.wf(),
        ensures
            r@ == self.read_spec(stream_id@, *range),
    {
        let mut out: Vec<EventRead<E>> = Vec::new();
        match self.find(stream_id) {
            None => {
                assert(self.stream(stream_id@) == Seq::<EventRead<E>>::empty());
                out
            },
            Some(i) => {
                proof {
                    self.lemma_stream_at(i as int);
                }
                let events = &self.streams[i].events;
                let len: usize = events.len();
                let start: usize = match range {
                    EventsReadRange::All => 0,
                    EventsReadRange::FromVersion(v) => {
                        if *v <= 1 {
                            0
                        } else if (*v - 1) as u64 > len as u64 {
                            len
                        } else {
                            (*v - 1) as usize
                        }
                    },
                };
                let mut k: usize = start;
                while k < len
                    invariant
                        start <= k <= len,
                        len == events@.len(),
                        out@ == events@.subrange(start as int, k as int),
                    decreases len - k,
                {
                    out.push(events[k].copy());
                    k = k + 1;
                    assert(out@ =~= events@.subrange(start as int, k as int));
                }
                assert(out@ =~= self.read_spec(stream_id@, *range));
                out
            },
        }
    }
    /// Appends `events` to stream `stream_id` if its head version satisfies
    /// `expected`, numbering them on from the head, and returns them as stored.
    /// On an error the store is left as it was. Other streams never change.
    pub fn append_events(
        &mut self,
        stream_id: &String,
        expected: &ExpectedVersion,
        events: Vec<EventWrite<E>>,
    ) -> (r: Result<Vec<EventRead<E>>, StoreError>)
        requires
            old(self).wf(),
        ensures
            final(self).wf(),
            forall|other: Seq<char>|
                other != stream_id@ ==> #[trigger] final(self).stream(other) == old(self).stream(other),
            r is Ok <==> admits(*expected, old(self).head(stream_id@)) && fits(
                old(self).head(stream_id@),
                events@.len() as int,
            ),
            match r {
                Ok(reads) => {
                    &&& reads@.len() == events@.len()
                    &&& forall|k: int|
                        0 <= k < reads@.len() ==> #[trigger] reads@[k] == recorded(
                            events@[k],
                            *stream_id,
                            old(self).head(stream_id@) + k + 1,
                        )
                    &&& final(self).stream(stream_id@) == old(self).stream(stream_id@) + reads@
                },
                Err(e) => {
                    &&& *final(self) == *old(self)
                    &&& e == if admits(*expected, old(self).head(stream_id@)) {
                        StoreError::VersionOverflow
                    } else {
                        StoreError::ConcurrencyConflict
                    }
                },
            },
    {
        let found = self.find(stream_id);
        let head: usize = match found {
            Some(i) => {
                proof {
                    self.lemma_stream_at(i as int);
                }
                self.streams[i].events.len()
            },
            None => {
                assert(self.stream(stream_id@) == Seq::<EventRead<E>>::empty());
                0
            },
        };
        let admitted = match expected {
            ExpectedVersion::Any => true,
            ExpectedVersion::Exact(v) => *v >= 0 && *v as u64 == head as u64,
            ExpectedVersion::NoStream => head == 0,
        };
        if !admitted {
            return Err(StoreError::ConcurrencyConflict);
        }
        if events.len() as u128 + head as u128 >= i64::MAX as u128 {
            return Err(StoreError::VersionOverflow);
        }
        let ghost old_store = *self;
        let mut log = StreamLog { stream_id: stream_id.clone(), events: Vec::new() };
        match found {
            Some(i) => {
                self.streams.set_and_swap(i, &mut log);
            },
            None => {},
        }
        let ghost prior = log.events@;
        assert(prior == old_store.stream(stream_id@));
        let mut reads: Vec<EventRead<E>> = Vec::new();
        let mut k: usize = 0;
        while k < events.len()
            invariant
                k <= events@.len(),
                head == prior.len(),
                head + events@.len() < i64::MAX,
                log.stream_id@ == stream_id@,
                sequential(prior, stream_id@),
                reads@.len() == k,
                log.events@ == prior + reads@,
                forall|j: int|
                    0 <= j < k ==> #[trigger] reads@[j] == recorded(events@[j], *stream_id, head + j + 1),
            decreases events@.len() - k,
        {
            let w = &events[k];
            let read = EventRead {
                id: w.id,
                correlation_id: w.correlation_id,
                causation_id: w.causation_id,
                stream_id: stream_id.clone(),
                version: head as i64 + k as i64 + 1,
                name: w.name.clone(),
                data: w.data.duplicate(),
                metadata: match &w.metadata {
                    Some(m) => Some(m.duplicate()),
                    None => None,
                },
            };
            log.events.push(read.copy());
            reads.push(read);
            k = k + 1;
        }
        assert(sequential(log.events@, stream_id@)) by {
            assert forall|j: int| 0 <= j < log.events@.len() implies (#[trigger] log.events@[j]).version
                == j + 1 && log.events@[j].stream_id@ == stream_id@ by {
                if j >= prior.len() {
                    assert(log.events@[j] == reads@[j - prior.len()]);
                }
            }
        }
        match found {
            Some(i) => {
                self.streams.set(i, log);
            },
            None => {
                self.streams.push(log);
            },
        }
        proof {
            let idx: int = match found {
                Some(i) => i as int,
                None => old_store.streams@.len() as int,
            };
            assert(self.streams@[idx].stream_id@ == stream_id@);
            assert forall|i: int, j: int|
                0 <= i < j < self.streams@.len() implies self.streams@[i].stream_id@
                != self.streams@[j].stream_id@ by {
                if i != idx && j != idx {
                    assert(self.streams@[i] == old_store.streams@[i]);
                    assert(self.streams@[j] == old_store.streams@[j]);
                }
            }
            assert forall|i: int| 0 <= i < self.streams@.len() implies (#[trigger] self.streams@[i]).wf() by {
                if i != idx {
                    assert(self.streams@[i] == old_store.streams@[i]);
                }
            }
            self.lemma_stream_at(idx);
            assert forall|other: Seq<char>| other != stream_id@ implies #[trigger] self.stream(other)
                == old_store.stream(other) by {
                if exists|i: int| 0 <= i < self.streams@.len() && self.streams@[i].stream_id@ == other {
                    let i = choose|i: int|
                        0 <= i < self.streams@.len() && self.streams@[i].stream_id@ == other;
                    assert(i != idx);
                    assert(self.streams@[i] == old_store.streams@[i]);
                    self.lemma_stream_at(i);
                    old_store.lemma_stream_at(i);
                } else {
                    if exists|i: int|
                        0 <= i < old_store.streams@.len() && old_store.streams@[i].stream_id@ == other {
                        let i = choose|i: int|
                            0 <= i < old_store.streams@.len() && old_store.streams@[i].stream_id@
                                == other;
                        assert(self.streams@[i] == old_store.streams@[i]);
                    }
                }
            }
        }
        Ok(reads)
    }
}

/// Reading a stream from version `v` returns no event older than `v`, returns
/// every event of the stream whose version is `v` or later, and returns them in
/// strictly increasing version order.
pub proof fn lemma_read_from_version<E: EventPayload>(store: EventStore<E>, id: Seq<char>, v: i64)
    requires
        store.wf(),
    ensures
        ({
            let r = store.read_spec(id, EventsReadRange::FromVersion(v));
            &&& forall|k: int| 0 <= k < r.len() ==> #[trigger] r[k].version >= v
            &&& forall|k1: int, k2: int|
                0 <= k1 < k2 < r.len() ==> #[trigger] r[k1].version < #[trigger] r[k2].version
            &&& forall|e: EventRead<E>|
                #[trigger] store.stream(id).contains(e) && e.version >= v ==> r.contains(e)
        }),
{
    store.lemma_stream_sequential(id);
    let s = store.stream(id);
    let start = start_index(v as int, s.len() as int);
    let r = store.read_spec(id, EventsReadRange::FromVersion(v));
    assert forall|k: int| 0 <= k < r.len() implies #[trigger] r[k].version >= v by {
        assert(r[k] == s[start + k]);
    }
    assert forall|k1: int, k2: int| 0 <= k1 < k2 < r.len() implies #[trigger] r[k1].version
        < #[trigger] r[k2].version by {
        assert(r[k1] == s[start + k1]);
        assert(r[k2] == s[start + k2]);
    }
    assert forall|e: EventRead<E>| #[trigger] s.contains(e) && e.version >= v implies r.contains(e) by {
        let j = choose|j: int| 0 <= j < s.len() && s[j] == e;
        assert(s[j].version == j + 1);
        assert(r[j - start] == e);
    }
}

/// Two appends of the same stream that both expect `Exact(v)`: once the first,
/// of a non-empty batch, has been stored, the head has moved by exactly the size
/// of that batch and no longer satisfies `Exact(v)`, so the second is refused
/// with a conflict.
pub proof fn lemma_exact_version_single_winner<E: EventPayload>(
    before: EventStore<E>,
    after: EventStore<E>,
    id: Seq<char>,
    v: i64,
    winner: Seq<EventRead<E>>,
)
    requires
        admits(ExpectedVersion::Exact(v), before.head(id)),
        after.stream(id) == before.stream(id) + winner,
        winner.len() > 0,
    ensures
        after.head(id) == before.head(id) + winner.len(),
        after.head(id) == v + winner.len(),
        !admits(ExpectedVersion::Exact(v), after.head(id)),
{
}

} // verus!
