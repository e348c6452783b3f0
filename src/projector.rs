use vstd::prelude::*;

use crate::aggregate::{fold_events, fold_spec, lemma_fold_redelivery, lemma_patient_fold, PatientAggregate};
use crate::handler::event_payloads;
use crate::store::{payloads, EventRead, EventStore, EventsReadRange};
use crate::types::{Address, AddressDB, Patient, PatientDB, PatientEvent};

verus! {

/// Why a projection was refused. The read model is left untouched.
#[derive(Clone, Copy, Debug, PartialEq, Eq, Structural)]
pub enum ProjectionError {
    /// The events folded onto the snapshot leave no patient.
    EntityNotFound,
    /// A stored patient row has no address row.
    AddressMissing,
}

/// A snapshot of the read model: the patient and the version of the last
/// event folded into it.
#[derive(Clone, Debug)]
pub struct Projection {
    pub patient: Patient,
    pub version: i64,
}

/// The version of the last of `events`, or 0 when there is none.
pub open spec fn last_version(events: Seq<EventRead<PatientEvent>>) -> i64 {
    if events.len() == 0 {
        0
    } else {
        events.last().version
    }
}

/// The version that a projection of `events` onto `snapshot` is stamped
/// with: that of the last event, or the snapshot's own when there is none.
pub open spec fn stamp_spec(snapshot: Option<Projection>, events: Seq<EventRead<PatientEvent>>) -> i64 {
    if events.len() == 0 {
        match snapshot {
            Some(s) => s.version,
            None => 0,
        }
    } else {
        events.last().version
    }
}

/// The snapshot that a patient row and its address row stand for, stamped
/// with the row's version. No patient row stands for no snapshot; a patient
/// row without its address row is refused.
pub open spec fn snapshot_spec(patient: Option<PatientDB>, address: Option<AddressDB>) -> Result<
    Option<Projection>,
    ProjectionError,
> {
    match patient {
        None => Ok(None),
        Some(p) => match address {
            None => Err(ProjectionError::AddressMissing),
            Some(a) => Ok(
                Some(
                    Projection {
                        patient: Patient {
                            id: p.id,
                            name: p.name,
                            address: Address { street: a.street, city: a.city, state: a.state, zip: a.zip },
                            age: p.age,
                            phone: p.phone,
                            email: p.email,
                        },
                        version: p.version,
                    },
                ),
            ),
        },
    }
}

/// The patient of a snapshot, if there is one.
pub open spec fn snapshot_patient(snapshot: Option<Projection>) -> Option<Patient> {
    match snapshot {
        Some(s) => Some(s.patient),
        None => None,
    }
}

/// The projection of `events` onto `snapshot`.
pub open spec fn project_spec(snapshot: Option<Projection>, events: Seq<EventRead<PatientEvent>>) -> Result<
    Projection,
    ProjectionError,
> {
    match fold_spec(snapshot_patient(snapshot), payloads(events)) {
        None => Err(ProjectionError::EntityNotFound),
        Some(p) => Ok(Projection { patient: p, version: stamp_spec(snapshot, events) }),
    }
}

/// The two rows that persist `patient` at `version` of stream `stream_id`.
pub open spec fn rows_spec(patient: Patient, version: i64, stream_id: String) -> (PatientDB, AddressDB) {
    (
        PatientDB {
            id: patient.id,
            stream_id,
            version,
            name: patient.name,
            age: patient.age,
            phone: patient.phone,
            email: patient.email,
        },
        AddressDB {
            patient_id: patient.id,
            street: patient.address.street,
            city: patient.address.city,
            state: patient.address.state,
            zip: patient.address.zip,
        },
    )
}

/// The rows that projecting `events` onto the stored rows writes back.
pub open spec fn projected_rows_spec(
    patient: Option<PatientDB>,
    address: Option<AddressDB>,
    stream_id: String,
    events: Seq<EventRead<PatientEvent>>,
) -> Result<(PatientDB, AddressDB), ProjectionError> {
    match snapshot_spec(patient, address) {
        Err(e) => Err(e),
        Ok(snapshot) => match project_spec(snapshot, events) {
            Ok(pr) => Ok(rows_spec(pr.patient, pr.version, stream_id)),
            Err(e) => Err(e),
        },
    }
}

/// The snapshot held by a patient row and its address row, stamped with
/// the row's version.
pub fn snapshot_from_rows(patient: Option<PatientDB>, address: Option<AddressDB>) -> (r: Result<
    Option<Projection>,
    ProjectionError,
>)
    ensures
        r == snapshot_spec(patient, address),
{
    match patient {
        None => Ok(None),
        Some(p) => match address {
            Some(a) => Ok(
                Some(
                    Projection {
                        patient: Patient {
                            id: p.id,
                            name: p.name,
                            address: Address { street: a.street, city: a.city, state: a.state, zip: a.zip },
                            age: p.age,
                            phone: p.phone,
                            email: p.email,
                        },
                        version: p.version,
                    },
                ),
            ),
            None => Err(ProjectionError::AddressMissing),
        },
    }
}

/// Folds `events` onto `snapshot` with the aggregate's own fold step, and
/// stamps the result with the version of the last event, or keeps the
/// snapshot's version when there is no event. Refused when no patient is left.
pub fn project(snapshot: Option<Projection>, events: &Vec<EventRead<PatientEvent>>) -> (r: Result<
    Projection,
    ProjectionError,
>)
    ensures
        r == project_spec(snapshot, events@),
{
    let aggregate = PatientAggregate {};
    let payload = event_payloads(events);
    let (start, stored): (Option<Patient>, i64) = match snapshot {
        Some(s) => (Some(s.patient), s.version),
        None => (None, 0),
    };
    let folded = fold_events(&aggregate, start, &payload);
    proof {
        lemma_patient_fold(aggregate, start, payload@);
    }
    match folded {
        None => Err(ProjectionError::EntityNotFound),
        Some(p) => {
            let version: i64 = if events.len() == 0 {
                stored
            } else {
                events[events.len() - 1].version
            };
            Ok(Projection { patient: p, version })
        },
    }
}

/// The rows that persist `patient` at `version` of stream `stream_id`: the
/// patient row and its address row, both keyed by the patient's id.
pub fn patient_rows(patient: Patient, version: i64, stream_id: String) -> (r: (PatientDB, AddressDB))
    ensures
        r == rows_spec(patient, version, stream_id),
{
    let id = patient.id;
    let address = patient.address;
    (
        PatientDB {
            id,
            stream_id,
            version,
            name: patient.name,
            age: patient.age,
            phone: patient.phone,
            email: patient.email,
        },
        AddressDB {
            patient_id: id,
            street: address.street,
            city: address.city,
            state: address.state,
            zip: address.zip,
        },
    )
}

/// Projects newly read events of a patient's stream onto the stored rows of
/// that patient, and returns the rows to write back.
pub fn process_patient_events(
    patient_db: Option<PatientDB>,
    address_db: Option<AddressDB>,
    patient_stream_id: String,
    read_events: &Vec<EventRead<PatientEvent>>,
) -> (r: Result<(PatientDB, AddressDB), ProjectionError>)
    ensures
        r == projected_rows_spec(patient_db, address_db, patient_stream_id, read_events@),
{
    let snapshot = match snapshot_from_rows(patient_db, address_db) {
        Ok(s) => s,
        Err(e) => {
            return Err(e);
        },
    };
    match project(snapshot, read_events) {
        Ok(pr) => Ok(patient_rows(pr.patient, pr.version, patient_stream_id)),
        Err(e) => Err(e),
    }
}

/// Projecting one batch of events twice onto one stored snapshot writes the
/// same rows both times.
pub proof fn lemma_reprojection_identical(
    patient: Option<PatientDB>,
    address: Option<AddressDB>,
    stream_id: String,
    events: Seq<EventRead<PatientEvent>>,
    first: Result<(PatientDB, AddressDB), ProjectionError>,
    second: Result<(PatientDB, AddressDB), ProjectionError>,
)
    requires
        first == projected_rows_spec(patient, address, stream_id, events),
        second == projected_rows_spec(patient, address, stream_id, events),
    ensures
        first == second,
{
}

/// Projecting a batch again onto the snapshot that it produced gives that
/// snapshot back, with the same version: a repeated delivery of one batch
/// leaves the read model as the first delivery left it.
pub proof fn lemma_reprojection_converges(snapshot: Option<Projection>, events: Seq<EventRead<PatientEvent>>)
    requires
        project_spec(snapshot, events) is Ok,
    ensures
        project_spec(Some(project_spec(snapshot, events)->Ok_0), events) == project_spec(
            snapshot,
            events,
        ),
{
    lemma_fold_redelivery(snapshot_patient(snapshot), payloads(events));
}

/// Projecting no events leaves a snapshot as it is, version included.
pub proof fn lemma_empty_batch_keeps_snapshot(snapshot: Projection)
    ensures
        project_spec(Some(snapshot), Seq::empty()) == Ok::<Projection, ProjectionError>(snapshot),
{
    assert(payloads(Seq::<EventRead<PatientEvent>>::empty()) =~= Seq::<PatientEvent>::empty());
}

/// A projection of events read from a well-formed store is stamped with a
/// version no greater than the stream's head version.
pub proof fn lemma_stamp_within_head(store: EventStore<PatientEvent>, id: Seq<char>, range: EventsReadRange)
    requires
        store.wf(),
    ensures
        last_version(store.read_spec(id, range)) <= store.head(id),
{
    store.lemma_stream_sequential(id);
    let s = store.stream(id);
    let r = store.read_spec(id, range);
    if r.len() > 0 {
        assert(r.last() == s[s.len() - 1]);
    }
}

} // verus!
