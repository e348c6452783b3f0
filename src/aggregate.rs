use vstd::prelude::*;

use crate::ids::new_uuid;
use crate::types::{
    Address, PatientAdded, PatientAddressUpdated, Patient, PatientCommand, PatientEvent,
    PatientUpdated,
};

verus! {

/// What the command pipeline needs of an aggregate over states `S`,
/// commands `C` and events `E`: an initial state, a fold step that never
/// fails, and a decision that turns a command into events or refuses it.
pub trait Aggregate<S, C, E> {
    /// Why a command is refused.
    type Error;

    /// The state before any event.
    spec fn initial(&self) -> S;

    /// One fold step.
    spec fn step(&self, state: S, event: E) -> S;

    /// The events that `command` produces on `state`, or why it is refused;
    /// `new_id` is the fresh identifier drawn for the decision.
    spec fn decision(&self, state: S, command: C, new_id: u128) -> Result<Seq<E>, Self::Error>;

    fn init(&self) -> (r: S)
        ensures
            r == self.initial(),
    ;

    fn apply(&self, state: S, event: &E) -> (r: S)
        ensures
            r == self.step(state, *event),
    ;

    /// Whether a command is accepted, why it is refused, and how many events
    /// it produces do not depend on the identifier drawn for it.
    proof fn lemma_outcome_independent(&self, state: S, command: C, a: u128, b: u128)
        ensures
            self.decision(state, command, a) is Ok <==> self.decision(state, command, b) is Ok,
            self.decision(state, command, a) is Err ==> self.decision(state, command, a)
                == self.decision(state, command, b),
            self.decision(state, command, a) is Ok ==> self.decision(state, command, a)->Ok_0.len()
                == self.decision(state, command, b)->Ok_0.len(),
    ;

    /// Decides on `command`, drawing a fresh identifier for the decision.
    fn execute(&self, state: &S, command: &C) -> (r: Result<Vec<E>, Self::Error>)
        ensures
            exists|id: u128| #[trigger] self.decision(*state, *command, id) == vec_result_view(r),
    ;
}

/// The mathematical value of a result that holds a vector.
pub open spec fn vec_result_view<E, X>(r: Result<Vec<E>, X>) -> Result<Seq<E>, X> {
    match r {
        Ok(v) => Ok(v@),
        Err(e) => Err(e),
    }
}

/// The left fold of `events` onto `state` with the fold step of `aggregate`,
/// oldest event first.
pub open spec fn fold_with<S, C, E, A: Aggregate<S, C, E>>(aggregate: A, state: S, events: Seq<E>) -> S
    decreases events.len(),
{
    if events.len() == 0 {
        state
    } else {
        aggregate.step(fold_with(aggregate, state, events.drop_last()), events.last())
    }
}

/// Folds `events`, oldest first, onto `state`.
pub fn fold_events<S, C, E, A: Aggregate<S, C, E>>(aggregate: &A, state: S, events: &Vec<E>) -> (r: S)
    ensures
        r == fold_with(*aggregate, state, events@),
{
    let mut acc = state;
    let mut i: usize = 0;
    while i < events.len()
        invariant
            i <= events@.len(),
            acc == fold_with(*aggregate, state, events@.take(i as int)),
        decreases events@.len() - i,
    {
        assert(events@.take(i as int + 1).drop_last() == events@.take(i as int));
        acc = aggregate.apply(acc, &events[i]);
        i = i + 1;
    }
    assert(events@.take(events@.len() as int) == events@);
    acc
}

/// Why the aggregate refused a command.
#[derive(Clone, Copy, Debug, PartialEq, Eq, Structural)]
pub enum ValidationError {
    /// The command needs a patient, and none exists yet.
    PatientNotFound,
    /// The new personal details equal the current ones.
    PatientNotUpdated,
    /// The new address equals the current one.
    PatientAddressNotUpdated,
}

/// The patient aggregate: its initial state, how an event changes the state,
/// and which events a command produces.
#[derive(Clone, Copy, Debug)]
pub struct PatientAggregate {}

/// One fold step: the state after `event`, starting from `state`.
/// An update of a patient that does not exist leaves it absent.
pub open spec fn apply_spec(state: Option<Patient>, event: PatientEvent) -> Option<Patient> {
    match event {
        PatientEvent::PatientAdded(p) => Some(
            Patient {
                id: p.id,
                name: p.name,
                address: p.address,
                age: p.age,
                phone: p.phone,
                email: p.email,
            },
        ),
        PatientEvent::PatientUpdated(p) => match state {
            None => None,
            Some(s) => Some(
                Patient { name: p.name, age: p.age, phone: p.phone, email: p.email, ..s },
            ),
        },
        PatientEvent::PatientAddressUpdated(a) => match state {
            None => None,
            Some(s) => Some(Patient { address: a.address, ..s }),
        },
    }
}

/// The left fold of `events` onto `state`, oldest event first.
pub open spec fn fold_spec(state: Option<Patient>, events: Seq<PatientEvent>) -> Option<Patient>
    decreases events.len(),
{
    if events.len() == 0 {
        state
    } else {
        apply_spec(fold_spec(state, events.drop_last()), events.last())
    }
}

/// Whether an update would leave the personal details as they are.
pub open spec fn details_unchanged(s: Patient, name: String, age: i32, phone: String, email: String) -> bool {
    &&& name@ == s.name@
    &&& age == s.age
    &&& phone@ == s.phone@
    &&& email@ == s.email@
}

/// The events that `command` produces on `state`, or why it is refused;
/// `new_id` is the identifier that a new patient receives.
pub open spec fn decide_spec(state: Option<Patient>, command: PatientCommand, new_id: u128) -> Result<
    Seq<PatientEvent>,
    ValidationError,
> {
    match command {
        PatientCommand::AddPatient(p) => Ok(
            seq![
                PatientEvent::PatientAdded(
                    PatientAdded {
                        id: new_id,
                        name: p.name,
                        version: 0,
                        address: p.address,
                        age: p.age,
                        phone: p.phone,
                        email: p.email,
                    },
                ),
            ],
        ),
        PatientCommand::UpdatePatient(p) => match state {
            None => Err(ValidationError::PatientNotFound),
            Some(s) => if details_unchanged(s, p.name, p.age, p.phone, p.email) {
                Err(ValidationError::PatientNotUpdated)
            } else {
                Ok(
                    seq![
                        PatientEvent::PatientUpdated(
                            PatientUpdated { name: p.name, age: p.age, phone: p.phone, email: p.email },
                        ),
                    ],
                )
            },
        },
        PatientCommand::UpdatePatientAddress(a) => match state {
            None => Err(ValidationError::PatientNotFound),
            Some(s) => if a.address.same_spec(s.address) {
                Err(ValidationError::PatientAddressNotUpdated)
            } else {
                Ok(seq![PatientEvent::PatientAddressUpdated(PatientAddressUpdated { address: a.address })])
            },
        },
    }
}

impl Aggregate<Option<Patient>, PatientCommand, PatientEvent> for PatientAggregate {
    type Error = ValidationError;

    open spec fn initial(&self) -> Option<Patient> {
        None
    }

    open spec fn step(&self, state: Option<Patient>, event: PatientEvent) -> Option<Patient> {
        apply_spec(state, event)
    }

    open spec fn decision(&self, state: Option<Patient>, command: PatientCommand, new_id: u128) -> Result<
        Seq<PatientEvent>,
        ValidationError,
    > {
        decide_spec(state, command, new_id)
    }

    /// The state before any event: no patient.
    proof fn lemma_outcome_independent(
        &self,
        state: Option<Patient>,
        command: PatientCommand,
        a: u128,
        b: u128,
    ) {
    }

    fn init(&self) -> (r: Option<Patient>)
    {
        None
    }

    /// One fold step. It never fails: an update of an absent patient
    /// leaves the patient absent.
    fn apply(&self, state: Option<Patient>, event: &PatientEvent) -> (r: Option<Patient>)
    {
        match event {
            PatientEvent::PatientAdded(p) => Some(
                Patient {
                    id: p.id,
                    name: p.name.clone(),
                    address: p.address.copy(),
                    age: p.age,
                    phone: p.phone.clone(),
                    email: p.email.clone(),
                },
            ),
            PatientEvent::PatientUpdated(p) => match state {
                None => None,
                Some(s) => Some(
                    Patient {
                        id: s.id,
                        name: p.name.clone(),
                        address: s.address,
                        age: p.age,
                        phone: p.phone.clone(),
                        email: p.email.clone(),
                    },
                ),
            },
            PatientEvent::PatientAddressUpdated(a) => match state {
                None => None,
                Some(s) => Some(
                    Patient {
                        id: s.id,
                        name: s.name,
                        address: a.address.copy(),
                        age: s.age,
                        phone: s.phone,
                        email: s.email,
                    },
                ),
            },
        }
    }

    /// The events that `command` produces on `state`, or why it is refused.
    /// A new patient receives a fresh random identifier.
    fn execute(&self, state: &Option<Patient>, command: &PatientCommand) -> (r: Result<
        Vec<PatientEvent>,
        ValidationError,
    >)
    {
        let id = new_uuid();
        let r = self.decide(state, command, id);
        assert(self.decision(*state, *command, id) == vec_result_view(r));
        r
    }
}

impl PatientAggregate {
    /// The events that `command` produces on `state`, or why it is refused.
    /// A new patient receives `new_id`.
    pub fn decide(&self, state: &Option<Patient>, command: &PatientCommand, new_id: u128) -> (r: Result<
        Vec<PatientEvent>,
        ValidationError,
    >)
        ensures
            vec_result_view(r) == decide_spec(*state, *command, new_id),
    {
        match command {
            PatientCommand::AddPatient(p) => {
                let e = PatientEvent::PatientAdded(
                    PatientAdded {
                        id: new_id,
                        name: p.name.clone(),
                        version: 0,
                        address: p.address.copy(),
                        age: p.age,
                        phone: p.phone.clone(),
                        email: p.email.clone(),
                    },
                );
                let r = vec![e];
                assert(r@ =~= seq![e]);
                Ok(r)
            },
            PatientCommand::UpdatePatient(p) => match state {
                None => Err(ValidationError::PatientNotFound),
                Some(s) => {
                    if p.name == s.name && p.age == s.age && p.phone == s.phone && p.email
                        == s.email {
                        Err(ValidationError::PatientNotUpdated)
                    } else {
                        let e = PatientEvent::PatientUpdated(
                            PatientUpdated {
                                name: p.name.clone(),
                                age: p.age,
                                phone: p.phone.clone(),
                                email: p.email.clone(),
                            },
                        );
                        let r = vec![e];
                        assert(r@ =~= seq![e]);
                        Ok(r)
                    }
                },
            },
            PatientCommand::UpdatePatientAddress(a) => match state {
                None => Err(ValidationError::PatientNotFound),
                Some(s) => {
                    if a.address.same_as(&s.address) {
                        Err(ValidationError::PatientAddressNotUpdated)
                    } else {
                        let e = PatientEvent::PatientAddressUpdated(
                            PatientAddressUpdated { address: a.address.copy() },
                        );
                        let r = vec![e];
                        assert(r@ =~= seq![e]);
                        Ok(r)
                    }
                },
            },
        }
    }

}

/// Folding one sequence of events twice from an aggregate's initial state
/// gives the same state both times.
pub proof fn lemma_fold_deterministic<S, C, E, A: Aggregate<S, C, E>>(
    aggregate: A,
    events: Seq<E>,
    first: S,
    second: S,
)
    requires
        first == fold_with(aggregate, aggregate.initial(), events),
        second == fold_with(aggregate, aggregate.initial(), events),
    ensures
        first == second,
{
}

/// Folding a sequence in two parts: the state of the whole is the second part
/// folded onto the state of the first. A snapshot taken after the first part
/// thus carries all that the first part says.
pub proof fn lemma_fold_concat<S, C, E, A: Aggregate<S, C, E>>(
    aggregate: A,
    state: S,
    first: Seq<E>,
    second: Seq<E>,
)
    ensures
        fold_with(aggregate, state, first + second) == fold_with(
            aggregate,
            fold_with(aggregate, state, first),
            second,
        ),
    decreases second.len(),
{
    if second.len() == 0 {
        assert(first + second =~= first);
    } else {
        assert((first + second).drop_last() =~= first + second.drop_last());
        lemma_fold_concat(aggregate, state, first, second.drop_last());
    }
}

/// A command that the aggregate accepts produces at least one event; an
/// update whose values equal the current ones is refused.
pub proof fn lemma_no_op_refused(state: Patient, command: PatientCommand, new_id: u128)
    ensures
        decide_spec(Some(state), command, new_id) is Ok ==> decide_spec(
            Some(state),
            command,
            new_id,
        )->Ok_0.len() > 0,
        command matches PatientCommand::UpdatePatient(p) && details_unchanged(
            state,
            p.name,
            p.age,
            p.phone,
            p.email,
        ) ==> decide_spec(Some(state), command, new_id) == Err::<Seq<PatientEvent>, ValidationError>(
            ValidationError::PatientNotUpdated,
        ),
        command matches PatientCommand::UpdatePatientAddress(a) && a.address.same_spec(state.address)
            ==> decide_spec(Some(state), command, new_id) == Err::<Seq<PatientEvent>, ValidationError>(
            ValidationError::PatientAddressNotUpdated,
        ),
{
}

/// Against the initial state, an update command is refused because the
/// patient does not exist, and an update event leaves the state absent.
pub proof fn lemma_update_on_absent(command: PatientCommand, event: PatientEvent, new_id: u128)
    requires
        command is UpdatePatient || command is UpdatePatientAddress,
        event is PatientUpdated || event is PatientAddressUpdated,
    ensures
        decide_spec(None, command, new_id) == Err::<Seq<PatientEvent>, ValidationError>(
            ValidationError::PatientNotFound,
        ),
        apply_spec(None, event) == None::<Patient>,
{
}

/// `p` with the details of `details` and the address `address`, where given.
spec fn overlay(p: Patient, details: Option<PatientUpdated>, address: Option<Address>) -> Patient {
    let q = match details {
        Some(u) => Patient { name: u.name, age: u.age, phone: u.phone, email: u.email, ..p },
        None => p,
    };
    match address {
        Some(a) => Patient { address: a, ..q },
        None => q,
    }
}

/// What a sequence of events does to any state: the patient that its last
/// addition made, if any, and the last details and address set after it.
spec fn effect(events: Seq<PatientEvent>) -> (Option<Patient>, Option<PatientUpdated>, Option<Address>)
    decreases events.len(),
{
    if events.len() == 0 {
        (None, None, None)
    } else {
        let prev = effect(events.drop_last());
        match events.last() {
            PatientEvent::PatientAdded(p) => (
                Some(
                    Patient {
                        id: p.id,
                        name: p.name,
                        address: p.address,
                        age: p.age,
                        phone: p.phone,
                        email: p.email,
                    },
                ),
                None,
                None,
            ),
            PatientEvent::PatientUpdated(u) => (prev.0, Some(u), prev.2),
            PatientEvent::PatientAddressUpdated(a) => (prev.0, prev.1, Some(a.address)),
        }
    }
}

spec fn run_effect(
    eff: (Option<Patient>, Option<PatientUpdated>, Option<Address>),
    state: Option<Patient>,
) -> Option<Patient> {
    let start = if eff.0 is Some {
        eff.0
    } else {
        state
    };
    match start {
        None => None,
        Some(p) => Some(overlay(p, eff.1, eff.2)),
    }
}

proof fn lemma_fold_is_effect(state: Option<Patient>, events: Seq<PatientEvent>)
    ensures
        fold_spec(state, events) == run_effect(effect(events), state),
    decreases events.len(),
{
    if events.len() > 0 {
        lemma_fold_is_effect(state, events.drop_last());
    } else {
        match state {
            Some(p) => assert(overlay(p, None, None) == p),
            None => {},
        }
    }
}

/// Folding a batch again onto the state that it produced changes nothing:
/// every event sets fields to values of its own, so a repeated delivery of
/// the same batch leaves the state where the first one left it.
pub proof fn lemma_fold_redelivery(state: Option<Patient>, events: Seq<PatientEvent>)
    ensures
        fold_spec(fold_spec(state, events), events) == fold_spec(state, events),
{
    lemma_fold_is_effect(state, events);
    lemma_fold_is_effect(fold_spec(state, events), events);
    let eff = effect(events);
    match state {
        Some(p) => {
            let q = overlay(p, eff.1, eff.2);
            assert(overlay(q, eff.1, eff.2) == q);
        },
        None => {},
    }
    match eff.0 {
        Some(b) => {
            let q = overlay(b, eff.1, eff.2);
            assert(overlay(q, eff.1, eff.2) == q);
        },
        None => {},
    }
}

/// With the patient aggregate, the generic fold is the patient fold.
pub proof fn lemma_patient_fold(aggregate: PatientAggregate, state: Option<Patient>, events: Seq<PatientEvent>)
    ensures
        fold_with(aggregate, state, events) == fold_spec(state, events),
    decreases events.len(),
{
    if events.len() > 0 {
        lemma_patient_fold(aggregate, state, events.drop_last());
    }
}

} // verus!
