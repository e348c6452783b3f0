use vstd::prelude::*;

use crate::store::{EventPayload, EventWrite};

verus! {

/// A postal address owned by a patient.
#[derive(Clone, Debug)]
pub struct Address {
    pub street: String,
    pub city: String,
    pub state: String,
    pub zip: String,
}

impl Address {
    /// A field-by-field copy.
    pub fn copy(&self) -> (r: Address)
        ensures
            r == *self,
    {
        Address {
            street: self.street.clone(),
            city: self.city.clone(),
            state: self.state.clone(),
            zip: self.zip.clone(),
        }
    }

    /// Whether two addresses hold the same text in every field.
    pub fn same_as(&self, other: &Address) -> (r: bool)
        ensures
            r == self.same_spec(*other),
    {
        self.street == other.street && self.city == other.city && self.state == other.state
            && self.zip == other.zip
    }

    pub open spec fn same_spec(self, other: Address) -> bool {
        &&& self.street@ == other.street@
        &&& self.city@ == other.city@
        &&& self.state@ == other.state@
        &&& self.zip@ == other.zip@
    }
}

/// The state of a patient that exists: what folding its events produced.
#[derive(Clone, Debug)]
pub struct Patient {
    pub id: u128,
    pub name: String,
    pub address: Address,
    pub age: i32,
    pub phone: String,
    pub email: String,
}

impl Patient {
    /// A field-by-field copy.
    pub fn copy(&self) -> (r: Patient)
        ensures
            r == *self,
    {
        Patient {
            id: self.id,
            name: self.name.clone(),
            address: self.address.copy(),
            age: self.age,
            phone: self.phone.clone(),
            email: self.email.clone(),
        }
    }
}

/// A new patient was registered.
#[derive(Clone, Debug)]
pub struct PatientAdded {
    pub id: u128,
    pub name: String,
    pub version: i64,
    pub address: Address,
    pub age: i32,
    pub phone: String,
    pub email: String,
}

/// A patient's personal details were changed.
#[derive(Clone, Debug)]
pub struct PatientUpdated {
    pub name: String,
    pub age: i32,
    pub phone: String,
    pub email: String,
}

/// A patient moved to another address.
#[derive(Clone, Debug)]
pub struct PatientAddressUpdated {
    pub address: Address,
}

/// The domain events of the patient aggregate.
#[derive(Clone, Debug)]
pub enum PatientEvent {
    PatientAdded(PatientAdded),
    PatientUpdated(PatientUpdated),
    PatientAddressUpdated(PatientAddressUpdated),
}

impl PatientEvent {
    /// A field-by-field copy.
    pub fn copy(&self) -> (r: PatientEvent)
        ensures
            r == *self,
    {
        match self {
            PatientEvent::PatientAdded(p) => PatientEvent::PatientAdded(PatientAdded {
                id: p.id,
                name: p.name.clone(),
                version: p.version,
                address: p.address.copy(),
                age: p.age,
                phone: p.phone.clone(),
                email: p.email.clone(),
            }),
            PatientEvent::PatientUpdated(p) => PatientEvent::PatientUpdated(PatientUpdated {
                name: p.name.clone(),
                age: p.age,
                phone: p.phone.clone(),
                email: p.email.clone(),
            }),
            PatientEvent::PatientAddressUpdated(a) => PatientEvent::PatientAddressUpdated(
                PatientAddressUpdated { address: a.address.copy() },
            ),
        }
    }
}

impl EventPayload for PatientEvent {
    open spec fn event_name() -> Seq<char> {
        "patient_event"@
    }

    fn duplicate(&self) -> (r: PatientEvent) {
        self.copy()
    }

    fn into_write(self, id: u128) -> (r: EventWrite<PatientEvent>) {
        EventWrite {
            id,
            correlation_id: None,
            causation_id: None,
            name: "patient_event".to_owned(),
            data: self,
            metadata: None,
        }
    }
}

/// Command: register a new patient.
#[derive(Clone, Debug)]
pub struct AddPatient {
    pub id: u128,
    pub stream_id: String,
    pub name: String,
    pub address: Address,
    pub version: i64,
    pub age: i32,
    pub phone: String,
    pub email: String,
}

/// Command: change a patient's personal details.
#[derive(Clone, Debug)]
pub struct UpdatePatient {
    pub id: u128,
    pub stream_id: String,
    pub version: i64,
    pub name: String,
    pub age: i32,
    pub phone: String,
    pub email: String,
}

/// Command: change a patient's address.
#[derive(Clone, Debug)]
pub struct UpdatePatientAddress {
    pub id: u128,
    pub stream_id: String,
    pub version: i64,
    pub address: Address,
}

/// The commands of the patient aggregate.
#[derive(Clone, Debug)]
pub enum PatientCommand {
    AddPatient(AddPatient),
    UpdatePatient(UpdatePatient),
    UpdatePatientAddress(UpdatePatientAddress),
}

/// The read-model row of a patient's own fields.
#[derive(Clone, Debug)]
pub struct PatientDB {
    pub id: u128,
    pub stream_id: String,
    pub version: i64,
    pub name: String,
    pub age: i32,
    pub phone: String,
    pub email: String,
}

/// The read-model row of a patient's address, keyed by the patient's id.
#[derive(Clone, Debug)]
pub struct AddressDB {
    pub patient_id: u128,
    pub street: String,
    pub city: String,
    pub state: String,
    pub zip: String,
}

/// Where a patient's events live and how far a caller has read them.
#[derive(Clone, Debug)]
pub struct PatientMeta {
    pub id: u128,
    pub stream_id: String,
    pub version: i64,
}

} // verus!
