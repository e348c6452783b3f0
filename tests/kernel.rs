use patient_cqrs::aggregate::{fold_events, Aggregate, PatientAggregate, ValidationError};
use patient_cqrs::handler::{make_handler, process_patient_command, HandlerError};
use patient_cqrs::projector::{
    patient_rows, process_patient_events, project, snapshot_from_rows, Projection, ProjectionError,
};
use patient_cqrs::store::{
    EventPayload, EventRead, EventStore, EventWrite, EventsReadRange, ExpectedVersion, StoreError,
};
use patient_cqrs::types::{
    AddPatient, Address, AddressDB, Patient, PatientAdded, PatientAddressUpdated, PatientCommand,
    PatientDB, PatientEvent, PatientUpdated, UpdatePatient, UpdatePatientAddress,
};

fn address(street: &str) -> Address {
    Address {
        street: street.to_string(),
        city: "Anytown".to_string(),
        state: "NY".to_string(),
        zip: "12345".to_string(),
    }
}

fn added(name: &str, age: i32) -> PatientEvent {
    PatientEvent::PatientAdded(PatientAdded {
        id: 7,
        name: name.to_string(),
        version: 0,
        address: address("1 Main St"),
        age,
        phone: "555".to_string(),
        email: "a@b.c".to_string(),
    })
}

fn updated(name: &str, age: i32) -> PatientEvent {
    PatientEvent::PatientUpdated(PatientUpdated {
        name: name.to_string(),
        age,
        phone: "555".to_string(),
        email: "a@b.c".to_string(),
    })
}

fn read(data: PatientEvent, version: i64) -> EventRead<PatientEvent> {
    EventRead {
        id: version as u128,
        correlation_id: None,
        causation_id: None,
        stream_id: "patient-1".to_string(),
        version,
        name: "patient_event".to_string(),
        data,
        metadata: None,
    }
}

fn patient(name: &str, age: i32) -> Patient {
    Patient {
        id: 7,
        name: name.to_string(),
        address: address("1 Main St"),
        age,
        phone: "555".to_string(),
        email: "a@b.c".to_string(),
    }
}

fn add_command(stream: &str, name: &str) -> PatientCommand {
    PatientCommand::AddPatient(AddPatient {
        id: 99,
        stream_id: stream.to_string(),
        name: name.to_string(),
        address: address("123 Main St"),
        version: 0,
        age: 42,
        phone: "555-123-4567".to_string(),
        email: "".to_string(),
    })
}

fn update_command(stream: &str, version: i64, name: &str, age: i32) -> PatientCommand {
    PatientCommand::UpdatePatient(UpdatePatient {
        id: 99,
        stream_id: stream.to_string(),
        version,
        name: name.to_string(),
        age,
        phone: "555-123-4567".to_string(),
        email: "".to_string(),
    })
}

fn write(data: PatientEvent) -> EventWrite<PatientEvent> {
    data.into_write(1)
}

fn versions(events: &[EventRead<PatientEvent>]) -> Vec<i64> {
    events.iter().map(|e| e.version).collect()
}

#[test]
fn init_is_absent() {
    assert!(PatientAggregate {}.init().is_none());
}

#[test]
fn apply_added_then_updated() {
    let agg = PatientAggregate {};
    let s = agg.apply(None, &added("A", 1));
    let s = agg.apply(s, &updated("B", 2)).unwrap();
    assert_eq!(s.id, 7);
    assert_eq!(s.name, "B");
    assert_eq!(s.age, 2);
    assert_eq!(s.address.street, "1 Main St");
}

#[test]
fn apply_address_update_keeps_details() {
    let agg = PatientAggregate {};
    let ev = PatientEvent::PatientAddressUpdated(PatientAddressUpdated { address: address("9 Elm St") });
    let s = agg.apply(Some(patient("A", 1)), &ev).unwrap();
    assert_eq!(s.address.street, "9 Elm St");
    assert_eq!(s.name, "A");
    assert_eq!(s.age, 1);
}

#[test]
fn fold_twice_gives_same_state() {
    let agg = PatientAggregate {};
    let events = vec![added("A", 1), updated("B", 2), updated("C", 3)];
    let first = fold_events(&agg, agg.init(), &events).unwrap();
    let second = fold_events(&agg, agg.init(), &events).unwrap();
    assert_eq!(first.name, second.name);
    assert_eq!(first.age, second.age);
    assert_eq!(first.name, "C");
    assert_eq!(first.age, 3);
}

#[test]
fn no_op_update_is_refused() {
    let agg = PatientAggregate {};
    let state = Some(patient("A", 1));
    let cmd = PatientCommand::UpdatePatient(UpdatePatient {
        id: 7,
        stream_id: "patient-1".to_string(),
        version: 1,
        name: "A".to_string(),
        age: 1,
        phone: "555".to_string(),
        email: "a@b.c".to_string(),
    });
    assert_eq!(agg.execute(&state, &cmd).unwrap_err(), ValidationError::PatientNotUpdated);
}

#[test]
fn no_op_address_update_is_refused() {
    let agg = PatientAggregate {};
    let state = Some(patient("A", 1));
    let cmd = PatientCommand::UpdatePatientAddress(UpdatePatientAddress {
        id: 7,
        stream_id: "patient-1".to_string(),
        version: 1,
        address: address("1 Main St"),
    });
    assert_eq!(agg.execute(&state, &cmd).unwrap_err(), ValidationError::PatientAddressNotUpdated);
}

#[test]
fn changed_update_produces_one_event() {
    let agg = PatientAggregate {};
    let state = Some(patient("A", 1));
    let events = agg.execute(&state, &update_command("patient-1", 1, "B", 1)).unwrap();
    assert_eq!(events.len(), 1);
    match &events[0] {
        PatientEvent::PatientUpdated(p) => {
            assert_eq!(p.name, "B");
            assert_eq!(p.age, 1);
        }
        _ => panic!("expected an update event"),
    }
}

#[test]
fn update_of_absent_patient_is_refused() {
    let agg = PatientAggregate {};
    let init = agg.init();
    let cmd = update_command("patient-1", 0, "B", 2);
    assert_eq!(agg.execute(&init, &cmd).unwrap_err(), ValidationError::PatientNotFound);
    let addr = PatientCommand::UpdatePatientAddress(UpdatePatientAddress {
        id: 7,
        stream_id: "patient-1".to_string(),
        version: 0,
        address: address("9 Elm St"),
    });
    assert_eq!(agg.execute(&init, &addr).unwrap_err(), ValidationError::PatientNotFound);
    assert!(agg.apply(agg.init(), &updated("B", 2)).is_none());
    let ev = PatientEvent::PatientAddressUpdated(PatientAddressUpdated { address: address("9 Elm St") });
    assert!(agg.apply(agg.init(), &ev).is_none());
}

#[test]
fn decide_add_uses_given_id() {
    let agg = PatientAggregate {};
    let events = agg.decide(&None, &add_command("patient-1", "John Doe"), 1234).unwrap();
    assert_eq!(events.len(), 1);
    match &events[0] {
        PatientEvent::PatientAdded(p) => {
            assert_eq!(p.id, 1234);
            assert_eq!(p.name, "John Doe");
            assert_eq!(p.version, 0);
            assert_eq!(p.age, 42);
        }
        _ => panic!("expected an added event"),
    }
}

#[test]
fn execute_add_draws_fresh_ids() {
    let agg = PatientAggregate {};
    let cmd = add_command("patient-1", "John Doe");
    let id_of = |events: Vec<PatientEvent>| match &events[0] {
        PatientEvent::PatientAdded(p) => p.id,
        _ => panic!("expected an added event"),
    };
    let a = id_of(agg.execute(&None, &cmd).unwrap());
    let b = id_of(agg.execute(&None, &cmd).unwrap());
    assert_ne!(a, b);
    assert_eq!((a >> 76) & 0xf, 4);
}

#[test]
fn event_write_defaults() {
    let w = updated("B", 2).into_write(5);
    assert_eq!(w.id, 5);
    assert_eq!(w.name, "patient_event");
    assert!(w.correlation_id.is_none());
    assert!(w.causation_id.is_none());
    assert!(w.metadata.is_none());
}

#[test]
fn append_assigns_versions_from_one() {
    let mut store = EventStore::new();
    let sid = "s".to_string();
    assert_eq!(store.current_version(&sid), 0);
    let reads = store
        .append_events(&sid, &ExpectedVersion::NoStream, vec![write(added("A", 1)), write(updated("B", 2))])
        .unwrap();
    assert_eq!(versions(&reads), vec![1, 2]);
    assert_eq!(reads[0].stream_id, "s");
    assert_eq!(store.current_version(&sid), 2);
}

#[test]
fn exact_version_has_one_winner() {
    let mut store = EventStore::new();
    let sid = "s".to_string();
    store.append_events(&sid, &ExpectedVersion::Any, vec![write(added("A", 1))]).unwrap();
    let first = store.append_events(
        &sid,
        &ExpectedVersion::Exact(1),
        vec![write(updated("B", 2)), write(updated("C", 3))],
    );
    let second = store.append_events(&sid, &ExpectedVersion::Exact(1), vec![write(updated("D", 4))]);
    assert_eq!(versions(&first.unwrap()), vec![2, 3]);
    assert_eq!(second.unwrap_err(), StoreError::ConcurrencyConflict);
    assert_eq!(store.current_version(&sid), 3);
}

#[test]
fn no_stream_conflicts_on_existing_stream() {
    let mut store = EventStore::new();
    let sid = "s".to_string();
    store.append_events(&sid, &ExpectedVersion::NoStream, vec![write(added("A", 1))]).unwrap();
    let r = store.append_events(&sid, &ExpectedVersion::NoStream, vec![write(updated("B", 2))]);
    assert_eq!(r.unwrap_err(), StoreError::ConcurrencyConflict);
    assert_eq!(store.current_version(&sid), 1);
}

#[test]
fn streams_are_independent() {
    let mut store = EventStore::new();
    let a = "a".to_string();
    let b = "b".to_string();
    store.append_events(&a, &ExpectedVersion::Any, vec![write(added("A", 1))]).unwrap();
    let rb = store.append_events(&b, &ExpectedVersion::Exact(0), vec![write(added("B", 2))]).unwrap();
    assert_eq!(versions(&rb), vec![1]);
    assert_eq!(store.get_events(&a, &EventsReadRange::All).len(), 1);
    assert_eq!(store.get_events(&b, &EventsReadRange::All)[0].stream_id, "b");
}

#[test]
fn read_from_version_range() {
    let mut store = EventStore::new();
    let sid = "s".to_string();
    store
        .append_events(
            &sid,
            &ExpectedVersion::Any,
            vec![write(added("A", 1)), write(updated("B", 2)), write(updated("C", 3))],
        )
        .unwrap();
    assert_eq!(versions(&store.get_events(&sid, &EventsReadRange::FromVersion(2))), vec![2, 3]);
    assert_eq!(versions(&store.get_events(&sid, &EventsReadRange::FromVersion(0))), vec![1, 2, 3]);
    assert_eq!(versions(&store.get_events(&sid, &EventsReadRange::FromVersion(3))), vec![3]);
    assert!(store.get_events(&sid, &EventsReadRange::FromVersion(4)).is_empty());
    assert!(store.get_events(&sid, &EventsReadRange::FromVersion(i64::MAX)).is_empty());
    assert_eq!(versions(&store.get_events(&sid, &EventsReadRange::All)), vec![1, 2, 3]);
    assert!(store.get_events(&"missing".to_string(), &EventsReadRange::All).is_empty());
}

#[test]
fn command_accessors() {
    let cmd = update_command("patient-9", 3, "B", 2);
    assert_eq!(cmd.stream_id(), "patient-9");
    assert_eq!(cmd.read_range(), EventsReadRange::FromVersion(3));
    let meta = cmd.meta();
    assert_eq!(meta.id, 99);
    assert_eq!(meta.stream_id, "patient-9");
    assert_eq!(meta.version, 3);
}

#[test]
fn process_command_adds_then_updates() {
    let mut store = EventStore::new();
    let added = process_patient_command(&mut store, &add_command("patient-1", "John Doe")).unwrap();
    assert_eq!(versions(&added), vec![1]);
    let updated = process_patient_command(&mut store, &update_command("patient-1", 1, "Jane Doe", 43)).unwrap();
    assert_eq!(versions(&updated), vec![2]);
    match &updated[0].data {
        PatientEvent::PatientUpdated(p) => assert_eq!(p.name, "Jane Doe"),
        _ => panic!("expected an update event"),
    }
    assert_eq!(store.current_version(&"patient-1".to_string()), 2);
}

#[test]
fn process_command_reads_only_from_its_version() {
    let mut store = EventStore::new();
    process_patient_command(&mut store, &add_command("patient-1", "John Doe")).unwrap();
    process_patient_command(&mut store, &update_command("patient-1", 1, "Jane Doe", 43)).unwrap();
    let r = process_patient_command(&mut store, &update_command("patient-1", 2, "Jim Doe", 44));
    assert_eq!(r.unwrap_err(), HandlerError::Validation(ValidationError::PatientNotFound));
    assert_eq!(store.current_version(&"patient-1".to_string()), 2);
}

#[test]
fn handler_conflict_appends_nothing() {
    let mut store = EventStore::new();
    let sid = "patient-1".to_string();
    process_patient_command(&mut store, &add_command("patient-1", "John Doe")).unwrap();
    let r = make_handler(
        &PatientAggregate {},
        &mut store,
        &update_command("patient-1", 0, "Jane Doe", 43),
        &sid,
        &EventsReadRange::All,
        &ExpectedVersion::Exact(0),
    );
    assert_eq!(r.unwrap_err(), HandlerError::Store(StoreError::ConcurrencyConflict));
    assert_eq!(store.current_version(&sid), 1);
    let ok = make_handler(
        &PatientAggregate {},
        &mut store,
        &update_command("patient-1", 0, "Jane Doe", 43),
        &sid,
        &EventsReadRange::All,
        &ExpectedVersion::Exact(1),
    )
    .unwrap();
    assert_eq!(versions(&ok), vec![2]);
}

#[test]
fn handler_validation_error_appends_nothing() {
    let mut store = EventStore::new();
    let sid = "patient-1".to_string();
    let r = make_handler(
        &PatientAggregate {},
        &mut store,
        &update_command("patient-1", 0, "Jane Doe", 43),
        &sid,
        &EventsReadRange::All,
        &ExpectedVersion::Any,
    );
    assert_eq!(r.unwrap_err(), HandlerError::Validation(ValidationError::PatientNotFound));
    assert_eq!(store.current_version(&sid), 0);
}

#[test]
fn projection_round_trip() {
    let events = vec![read(added("A", 1), 1), read(updated("B", 2), 2)];
    let (p, a) = process_patient_events(None, None, "patient-1".to_string(), &events).unwrap();
    assert_eq!(p.name, "B");
    assert_eq!(p.age, 2);
    assert_eq!(p.version, 2);
    assert_eq!(p.id, 7);
    assert_eq!(p.stream_id, "patient-1");
    assert_eq!(a.patient_id, 7);
    assert_eq!(a.street, "1 Main St");
}

#[test]
fn reprojection_is_identical() {
    let events = vec![read(added("A", 1), 1), read(updated("B", 2), 2)];
    let first = process_patient_events(None, None, "patient-1".to_string(), &events).unwrap();
    let second = process_patient_events(None, None, "patient-1".to_string(), &events).unwrap();
    assert_eq!(format!("{:?}", first), format!("{:?}", second));
}

#[test]
fn projection_onto_stored_rows() {
    let row = PatientDB {
        id: 7,
        stream_id: "patient-1".to_string(),
        version: 1,
        name: "A".to_string(),
        age: 1,
        phone: "555".to_string(),
        email: "a@b.c".to_string(),
    };
    let addr = AddressDB {
        patient_id: 7,
        street: "1 Main St".to_string(),
        city: "Anytown".to_string(),
        state: "NY".to_string(),
        zip: "12345".to_string(),
    };
    let ev = PatientEvent::PatientAddressUpdated(PatientAddressUpdated { address: address("9 Elm St") });
    let (p, a) = process_patient_events(Some(row), Some(addr), "patient-1".to_string(), &vec![read(ev, 2)]).unwrap();
    assert_eq!(p.version, 2);
    assert_eq!(p.name, "A");
    assert_eq!(a.street, "9 Elm St");
}

#[test]
fn projection_without_patient_is_refused() {
    let events = vec![read(updated("B", 2), 2)];
    let r = process_patient_events(None, None, "patient-1".to_string(), &events);
    assert_eq!(r.unwrap_err(), ProjectionError::EntityNotFound);
}

#[test]
fn projection_of_no_events_keeps_stamp() {
    let pr = project(Some(Projection { patient: patient("A", 1), version: 4 }), &vec![]).unwrap();
    assert_eq!(pr.version, 4);
    assert_eq!(pr.patient.name, "A");
    assert_eq!(project(None, &vec![]).unwrap_err(), ProjectionError::EntityNotFound);
}

fn stored_rows(version: i64) -> (PatientDB, AddressDB) {
    (
        PatientDB {
            id: 7,
            stream_id: "patient-1".to_string(),
            version,
            name: "A".to_string(),
            age: 1,
            phone: "555".to_string(),
            email: "a@b.c".to_string(),
        },
        AddressDB {
            patient_id: 7,
            street: "1 Main St".to_string(),
            city: "Anytown".to_string(),
            state: "NY".to_string(),
            zip: "12345".to_string(),
        },
    )
}

#[test]
fn empty_batch_keeps_stored_version() {
    let (row, addr) = stored_rows(3);
    let (p, a) = process_patient_events(Some(row), Some(addr), "patient-1".to_string(), &vec![]).unwrap();
    assert_eq!(p.version, 3);
    assert_eq!(p.name, "A");
    assert_eq!(a.street, "1 Main St");
}

#[test]
fn patient_row_without_address_is_refused() {
    let (row, _) = stored_rows(3);
    let events = vec![read(updated("B", 2), 4)];
    let r = process_patient_events(Some(row.clone()), None, "patient-1".to_string(), &events);
    assert_eq!(r.unwrap_err(), ProjectionError::AddressMissing);
    assert_eq!(snapshot_from_rows(Some(row), None).unwrap_err(), ProjectionError::AddressMissing);
}

#[test]
fn stored_events_carry_stream_and_name() {
    let mut store = EventStore::new();
    let reads = process_patient_command(&mut store, &add_command("patient-5", "John Doe")).unwrap();
    assert_eq!(reads.len(), 1);
    assert_eq!(reads[0].stream_id, "patient-5");
    assert_eq!(reads[0].name, "patient_event");
    assert_eq!(reads[0].version, 1);
    assert!(reads[0].correlation_id.is_none());
    assert!(reads[0].causation_id.is_none());
    assert!(reads[0].metadata.is_none());
}

#[test]
fn rows_and_snapshot_agree() {
    let (p, a) = patient_rows(patient("A", 1), 5, "patient-1".to_string());
    assert_eq!(p.version, 5);
    assert_eq!(p.stream_id, "patient-1");
    assert_eq!(a.patient_id, 7);
    let back = snapshot_from_rows(Some(p), Some(a)).unwrap().unwrap();
    assert_eq!(back.version, 5);
    assert_eq!(back.patient.name, "A");
    assert_eq!(back.patient.age, 1);
    assert_eq!(back.patient.address.zip, "12345");
    assert!(snapshot_from_rows(None, None).unwrap().is_none());
}

#[test]
fn command_conversions() {
    let cmd = update_command("patient-4", 6, "B", 2);
    let meta = patient_cqrs::types::PatientMeta::from(cmd.clone());
    assert_eq!(meta.stream_id, "patient-4");
    assert_eq!(meta.version, 6);
    assert_eq!(String::from(cmd.clone()), "patient-4");
    assert_eq!(EventsReadRange::from(cmd), EventsReadRange::FromVersion(6));
}

#[test]
fn redelivered_batch_changes_nothing() {
    let events = vec![
        read(updated("B", 2), 2),
        read(PatientEvent::PatientAddressUpdated(PatientAddressUpdated { address: address("9 Elm St") }), 3),
    ];
    let first = project(Some(Projection { patient: patient("A", 1), version: 1 }), &events).unwrap();
    let again = project(Some(first.clone()), &events).unwrap();
    assert_eq!(format!("{:?}", first), format!("{:?}", again));
    assert_eq!(again.patient.name, "B");
    assert_eq!(again.patient.address.street, "9 Elm St");
    assert_eq!(again.version, 3);
}
