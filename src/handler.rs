use vstd::prelude::*;

use crate::aggregate::{
    decide_spec, fold_events, fold_spec, fold_with, lemma_patient_fold, vec_result_view, Aggregate,
    PatientAggregate, ValidationError,
};
use crate::ids::new_uuid;
use crate::store::{
    admits, fits, payloads, EventPayload, EventRead, EventStore, EventWrite, EventsReadRange,
    ExpectedVersion, StoreError,
};
use crate::types::{Patient, PatientCommand, PatientEvent, PatientMeta};

verus! {

/// Why handling a command failed. Nothing was appended.
#[derive(Clone, Copy, Debug, PartialEq, Eq)]
pub enum HandlerError<X> {
    /// The aggregate refused the command.
    Validation(X),
    /// The store refused the append.
    Store(StoreError),
}

/// The state that the events read for a command fold to.
pub open spec fn state_before(store: EventStore<PatientEvent>, stream_id: Seq<char>, range: EventsReadRange) -> Option<Patient> {
    fold_spec(None, payloads(store.read_spec(stream_id, range)))
}

/// The stream that a command is addressed to.
pub open spec fn command_stream_id(command: PatientCommand) -> String {
    match command {
        PatientCommand::AddPatient(p) => p.stream_id,
        PatientCommand::UpdatePatient(p) => p.stream_id,
        PatientCommand::UpdatePatientAddress(p) => p.stream_id,
    }
}

/// The version from which a command's stream is read.
pub open spec fn command_version(command: PatientCommand) -> i64 {
    match command {
        PatientCommand::AddPatient(p) => p.version,
        PatientCommand::UpdatePatient(p) => p.version,
        PatientCommand::UpdatePatientAddress(p) => p.version,
    }
}

/// The patient that a command is about.
pub open spec fn command_patient_id(command: PatientCommand) -> u128 {
    match command {
        PatientCommand::AddPatient(p) => p.id,
        PatientCommand::UpdatePatient(p) => p.id,
        PatientCommand::UpdatePatientAddress(p) => p.id,
    }
}

impl PatientCommand {
    /// The stream that the command is addressed to.
    pub fn stream_id(&self) -> (r: String)
        ensures
            r == command_stream_id(*self),
    {
        match self {
            PatientCommand::AddPatient(p) => p.stream_id.clone(),
            PatientCommand::UpdatePatient(p) => p.stream_id.clone(),
            PatientCommand::UpdatePatientAddress(p) => p.stream_id.clone(),
        }
    }

    /// The part of the stream that handling the command reads: the events
    /// from the command's version on.
    pub fn read_range(&self) -> (r: EventsReadRange)
        ensures
            r == EventsReadRange::FromVersion(command_version(*self)),
    {
        match self {
            PatientCommand::AddPatient(p) => EventsReadRange::FromVersion(p.version),
            PatientCommand::UpdatePatient(p) => EventsReadRange::FromVersion(p.version),
            PatientCommand::UpdatePatientAddress(p) => EventsReadRange::FromVersion(p.version),
        }
    }

    /// The patient, stream and version that the command names.
    pub fn meta(&self) -> (r: PatientMeta)
        ensures
            r.id == command_patient_id(*self),
            r.stream_id == command_stream_id(*self),
            r.version == command_version(*self),
    {
        PatientMeta { id: command_patient_id_exec(self), stream_id: self.stream_id(), version: command_version_exec(self) }
    }
}

impl From<PatientCommand> for PatientMeta {
    fn from(value: PatientCommand) -> (r: PatientMeta) {
        value.meta()
    }
}

impl vstd::std_specs::convert::FromSpecImpl<PatientCommand> for PatientMeta {
    open spec fn obeys_from_spec() -> bool {
        true
    }

    open spec fn from_spec(v: PatientCommand) -> PatientMeta {
        PatientMeta {
            id: command_patient_id(v),
            stream_id: command_stream_id(v),
            version: command_version(v),
        }
    }
}

impl From<PatientCommand> for String {
    fn from(value: PatientCommand) -> (r: String) {
        value.stream_id()
    }
}

impl vstd::std_specs::convert::FromSpecImpl<PatientCommand> for String {
    open spec fn obeys_from_spec() -> bool {
        true
    }

    open spec fn from_spec(v: PatientCommand) -> String {
        command_stream_id(v)
    }
}

impl From<PatientCommand> for EventsReadRange {
    fn from(value: PatientCommand) -> (r: EventsReadRange) {
        value.read_range()
    }
}

impl vstd::std_specs::convert::FromSpecImpl<PatientCommand> for EventsReadRange {
    open spec fn obeys_from_spec() -> bool {
        true
    }

    open spec fn from_spec(v: PatientCommand) -> EventsReadRange {
        EventsReadRange::FromVersion(command_version(v))
    }
}

fn command_patient_id_exec(command: &PatientCommand) -> (r: u128)
    ensures
        r == command_patient_id(*command),
{
    match command {
        PatientCommand::AddPatient(p) => p.id,
        PatientCommand::UpdatePatient(p) => p.id,
        PatientCommand::UpdatePatientAddress(p) => p.id,
    }
}

fn command_version_exec(command: &PatientCommand) -> (r: i64)
    ensures
        r == command_version(*command),
{
    match command {
        PatientCommand::AddPatient(p) => p.version,
        PatientCommand::UpdatePatient(p) => p.version,
        PatientCommand::UpdatePatientAddress(p) => p.version,
    }
}

/// The payloads of stored events, in order.
pub fn event_payloads<E: EventPayload>(events: &Vec<EventRead<E>>) -> (r: Vec<E>)
    ensures
        r@ == payloads(events@),
{
    let mut out: Vec<E> = Vec::new();
    let mut i: usize = 0;
    while i < events.len()
        invariant
            i <= events@.len(),
            out@ == payloads(events@.take(i as int)),
        decreases events@.len() - i,
    {
        out.push(events[i].data.duplicate());
        i = i + 1;
        assert(out@ =~= payloads(events@.take(i as int)));
    }
    assert(events@.take(events@.len() as int) == events@);
    out
}

/// Each event wrapped for writing under a fresh random identifier.
fn to_writes<E: EventPayload>(events: &Vec<E>) -> (r: Vec<EventWrite<E>>)
    ensures
        r@.len() == events@.len(),
        forall|k: int|
            0 <= k < r@.len() ==> {
                let w = #[trigger] r@[k];
                &&& w.data == events@[k]
                &&& w.name@ == E::event_name()
                &&& w.correlation_id is None
                &&& w.causation_id is None
                &&& w.metadata is None
            },
{
    let mut out: Vec<EventWrite<E>> = Vec::new();
    let mut i: usize = 0;
    while i < events.len()
        invariant
            i <= events@.len(),
            out@.len() == i,
            forall|k: int|
                0 <= k < i ==> {
                    let w = #[trigger] out@[k];
                    &&& w.data == events@[k]
                    &&& w.name@ == E::event_name()
                    &&& w.correlation_id is None
                    &&& w.causation_id is None
                    &&& w.metadata is None
                },
        decreases events@.len() - i,
    {
        out.push(events[i].duplicate().into_write(new_uuid()));
        i = i + 1;
    }
    out
}

/// The decision that `aggregate` takes on `command` over the events of stream
/// `stream_id` that `range` selects, folded from its initial state. Its
/// outcome does not depend on the identifier drawn; this one is drawn as 0.
pub open spec fn pending_decision<S, C, E: EventPayload, A: Aggregate<S, C, E>>(
    aggregate: A,
    store: EventStore<E>,
    command: C,
    stream_id: Seq<char>,
    range: EventsReadRange,
) -> Result<Seq<E>, A::Error> {
    aggregate.decision(
        fold_with(aggregate, aggregate.initial(), payloads(store.read_spec(stream_id, range))),
        command,
        0,
    )
}

/// A stored event as the pipeline writes it: in stream `stream_id` at
/// `version`, under its type's name, with no correlation, causation or metadata.
pub open spec fn written<E: EventPayload>(r: EventRead<E>, stream_id: String, version: int) -> bool {
    &&& r.stream_id == stream_id
    &&& r.version == version
    &&& r.name@ == E::event_name()
    &&& r.correlation_id is None
    &&& r.causation_id is None
    &&& r.metadata is None
}

/// What handling `command` on stream `stream_id` of store `before` does,
/// where `r` is the result and `after` the store afterwards. It succeeds
/// exactly when the aggregate accepts the command and the store admits the
/// append; then the decided events are stored after the old head, in order.
/// A refusal leaves the store as it was. Other streams never change.
pub open spec fn handled<S, C, E: EventPayload, A: Aggregate<S, C, E>>(
    aggregate: A,
    before: EventStore<E>,
    command: C,
    stream_id: String,
    range: EventsReadRange,
    expected: ExpectedVersion,
    r: Result<Vec<EventRead<E>>, HandlerError<A::Error>>,
    after: EventStore<E>,
) -> bool {
    let st = fold_with(aggregate, aggregate.initial(), payloads(before.read_spec(stream_id@, range)));
    let d = pending_decision(aggregate, before, command, stream_id@, range);
    let head = before.head(stream_id@);
    &&& after.wf()
    &&& forall|other: Seq<char>|
        other != stream_id@ ==> #[trigger] after.stream(other) == before.stream(other)
    &&& (r is Ok <==> d is Ok && admits(expected, head) && fits(head, d->Ok_0.len() as int))
    &&& match r {
        Ok(reads) => {
            &&& exists|id: u128|
                #[trigger] aggregate.decision(st, command, id) == Ok::<Seq<E>, A::Error>(payloads(reads@))
            &&& reads@.len() == d->Ok_0.len()
            &&& after.stream(stream_id@) == before.stream(stream_id@) + reads@
            &&& forall|k: int| 0 <= k < reads@.len() ==> written(#[trigger] reads@[k], stream_id, head + k + 1)
        },
        Err(HandlerError::Validation(e)) => {
            &&& d == Err::<Seq<E>, A::Error>(e)
            &&& after == before
        },
        Err(HandlerError::Store(e)) => {
            &&& d is Ok
            &&& (e == StoreError::ConcurrencyConflict <==> !admits(expected, head))
            &&& after == before
        },
    }
}

/// Handles one command: reads stream `stream_id` over `range`, folds what it
/// read from the aggregate's initial state, lets the aggregate decide, and
/// appends the decided events under `expected_version`. Returns the events
/// as stored. A refusal by the aggregate or the store appends nothing.
pub fn make_handler<S, C, E: EventPayload, A: Aggregate<S, C, E>>(
    aggregate: &A,
    store: &mut EventStore<E>,
    command: &C,
    stream_id: &String,
    range: &EventsReadRange,
    expected_version: &ExpectedVersion,
) -> (r: Result<Vec<EventRead<E>>, HandlerError<A::Error>>)
    requires
        old(store).wf(),
    ensures
        handled(*aggregate, *old(store), *command, *stream_id, *range, *expected_version, r, *final(store)),
{
    let events = store.get_events(stream_id, range);
    let payload = event_payloads(&events);
    let state = fold_events(aggregate, aggregate.init(), &payload);
    let decided = aggregate.execute(&state, command);
    let ghost st = fold_with(*aggregate, aggregate.initial(), payloads(old(store).read_spec(stream_id@, *range)));
    let ghost id = choose|id: u128| #[trigger] aggregate.decision(st, *command, id) == vec_result_view(decided);
    proof {
        aggregate.lemma_outcome_independent(st, *command, id, 0);
    }
    let new_events = match decided {
        Ok(v) => v,
        Err(e) => {
            return Err(HandlerError::Validation(e));
        },
    };
    let writes = to_writes(&new_events);
    let ghost ws = writes@;
    match store.append_events(stream_id, expected_version, writes) {
        Ok(reads) => {
            assert(payloads(reads@) =~= new_events@);
            assert forall|k: int| 0 <= k < reads@.len() implies written(
                #[trigger] reads@[k],
                *stream_id,
                old(store).head(stream_id@) + k + 1,
            ) by {
                assert(ws[k].name@ == E::event_name());
            }
            Ok(reads)
        },
        Err(e) => Err(HandlerError::Store(e)),
    }
}

/// Two commands handled one after the other on one stream, both expecting
/// `Exact(v)` where `v` is the stream's head version, each of which the
/// aggregate accepts with at least one event: the first is stored, and the
/// head moves by exactly its events; the second is refused with a conflict
/// and leaves the store as the first left it.
pub proof fn lemma_handler_single_winner<S, C, E: EventPayload, A: Aggregate<S, C, E>>(
    aggregate: A,
    stream_id: String,
    v: i64,
    s0: EventStore<E>,
    first: C,
    first_range: EventsReadRange,
    first_r: Result<Vec<EventRead<E>>, HandlerError<A::Error>>,
    s1: EventStore<E>,
    second: C,
    second_range: EventsReadRange,
    second_r: Result<Vec<EventRead<E>>, HandlerError<A::Error>>,
    s2: EventStore<E>,
)
    requires
        s0.head(stream_id@) == v,
        handled(aggregate, s0, first, stream_id, first_range, ExpectedVersion::Exact(v), first_r, s1),
        handled(aggregate, s1, second, stream_id, second_range, ExpectedVersion::Exact(v), second_r, s2),
        pending_decision(aggregate, s0, first, stream_id@, first_range) is Ok,
        pending_decision(aggregate, s0, first, stream_id@, first_range)->Ok_0.len() > 0,
        fits(v as int, pending_decision(aggregate, s0, first, stream_id@, first_range)->Ok_0.len() as int),
        pending_decision(aggregate, s1, second, stream_id@, second_range) is Ok,
    ensures
        first_r is Ok,
        s1.head(stream_id@) == v + first_r->Ok_0@.len(),
        first_r->Ok_0@.len() > 0,
        second_r == Err::<Vec<EventRead<E>>, HandlerError<A::Error>>(
            HandlerError::Store(StoreError::ConcurrencyConflict),
        ),
        s2 == s1,
{
}

/// Handles a patient command on its own stream, reading from the command's
/// version on, with no expectation of the head version.
pub fn process_patient_command(store: &mut EventStore<PatientEvent>, patient_command: &PatientCommand) -> (r: Result<
    Vec<EventRead<PatientEvent>>,
    HandlerError<ValidationError>,
>)
    requires
        old(store).wf(),
    ensures
        ({
            let sid = command_stream_id(*patient_command);
            let range = EventsReadRange::FromVersion(command_version(*patient_command));
            let st = state_before(*old(store), sid@, range);
            let d = decide_spec(st, *patient_command, 0);
            let head = old(store).head(sid@);
            &&& final(store).wf()
            &&& forall|other: Seq<char>|
                other != sid@ ==> #[trigger] final(store).stream(other) == old(store).stream(other)
            &&& r is Ok <==> d is Ok && fits(head, d->Ok_0.len() as int)
            &&& match r {
                Ok(reads) => {
                    &&& exists|id: u128| #[trigger] decide_spec(st, *patient_command, id) == Ok::<Seq<PatientEvent>, ValidationError>(payloads(reads@))
                    &&& reads@.len() == d->Ok_0.len()
                    &&& final(store).stream(sid@) == old(store).stream(sid@) + reads@
                    &&& forall|k: int| 0 <= k < reads@.len() ==> written(#[trigger] reads@[k], sid, head + k + 1)
                },
                Err(HandlerError::Validation(e)) => {
                    &&& d == Err::<Seq<PatientEvent>, ValidationError>(e)
                    &&& *final(store) == *old(store)
                },
                Err(HandlerError::Store(e)) => {
                    &&& d is Ok
                    &&& e == StoreError::VersionOverflow
                    &&& *final(store) == *old(store)
                },
            }
        }),
{
    let stream_id = patient_command.stream_id();
    let range = patient_command.read_range();
    let aggregate = PatientAggregate {};
    let ghost before = *store;
    let r = make_handler(&aggregate, store, patient_command, &stream_id, &range, &ExpectedVersion::Any);
    proof {
        lemma_patient_fold(aggregate, None, payloads(before.read_spec(stream_id@, range)));
    }
    r
}

} // verus!
