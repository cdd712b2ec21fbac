use vstd::prelude::*;
use crate::orchestrator::{
    Action, ActionModel, Event, EventModel, Orchestrator, Phase, RunModel, Scenario,
};
use crate::policy::{as_set_names_the_same_principals, one_principal_is_a_set};
use crate::principal::{Principal, UnitId};
use crate::unit::{is_valid_module, settle, OpError, Quotas, Status, Unit, UnitModel};

verus! {

/// The identifier of the unit that a service created as its `index`-th:
/// the index in eight little-endian bytes.
pub open spec fn unit_name(index: int) -> Seq<u8> {
    vstd::bytes::spec_u64_to_le_bytes(index as u64)
}

/// An administrative service as plain values: every unit it ever created,
/// in the order of creation, and the least credit it creates a unit for.
pub struct ServiceModel {
    pub units: Seq<UnitModel>,
    pub minimum_credit: u128,
}

/// The event that tells of an operation's outcome.
pub open spec fn answer(outcome: Result<(), OpError>) -> EventModel {
    match outcome {
        Ok(_) => EventModel::Done,
        Err(e) => EventModel::Failed(e),
    }
}

impl ServiceModel {
    /// Every unit is well formed and carries the identifier of its place,
    /// so that no identifier is ever given twice.
    pub open spec fn well_formed(self) -> bool {
        &&& self.units.len() <= u64::MAX
        &&& forall|i: int|
            0 <= i < self.units.len() ==> (#[trigger] self.units[i]).well_formed()
                && self.units[i].id == unit_name(i)
    }

    /// Whether the service ever created a unit under `id`.
    pub open spec fn has(self, id: Seq<u8>) -> bool {
        id.len() == 8 && vstd::bytes::spec_u64_from_le_bytes(id) < self.units.len()
    }

    /// The place of the unit `id`.
    pub open spec fn slot(self, id: Seq<u8>) -> int {
        vstd::bytes::spec_u64_from_le_bytes(id) as int
    }

    /// The unit `id` as it stands.
    pub open spec fn unit(self, id: Seq<u8>) -> UnitModel
        recommends
            self.has(id),
    {
        self.units[self.slot(id)]
    }

    /// The service with the unit `id` replaced.
    pub open spec fn with(self, id: Seq<u8>, unit: UnitModel) -> ServiceModel {
        ServiceModel { units: self.units.update(self.slot(id), unit), ..self }
    }

    /// What an operation on one unit does: on a unit that never existed it
    /// fails with `absent`; else the unit changes as the operation says, if
    /// it succeeds, and the outcome is told.
    pub open spec fn on_unit(
        self,
        id: Seq<u8>,
        absent: OpError,
        outcome: Result<(), OpError>,
        next: UnitModel,
    ) -> (ServiceModel, EventModel) {
        if !self.has(id) {
            (self, EventModel::Failed(absent))
        } else {
            (self.with(id, settle(self.unit(id), outcome, next)), answer(outcome))
        }
    }

    /// Whether `create` fails, and how: a service that has given out every
    /// identifier is unavailable; else the unit's own rule decides.
    pub open spec fn create_outcome(self, controllers: Seq<Seq<u8>>, credit: u128) -> Result<
        (),
        OpError,
    > {
        if self.units.len() >= u64::MAX {
            Err(OpError::ServiceUnavailable)
        } else {
            UnitModel::create_outcome(controllers, credit, self.minimum_credit)
        }
    }

    /// Whether the service can take `action`: a deposit must be positive
    /// and leave the balance within its range.
    pub open spec fn accepts(self, action: ActionModel) -> bool {
        match action {
            ActionModel::Deposit { unit, amount } => amount > 0 && (self.has(unit)
                ==> self.unit(unit).balance + amount <= u128::MAX),
            _ => true,
        }
    }

    /// The service after `caller` has asked for `action`, and the event
    /// that answers. A unit that never existed has no controller, so that a
    /// privileged operation on it is refused as to a stranger; a deposit to
    /// it is an invalid state. The end of a run asks nothing of the service.
    pub open spec fn respond(self, caller: Seq<u8>, action: ActionModel) -> (
        ServiceModel,
        EventModel,
    ) {
        match action {
            ActionModel::Create { controllers, quotas, credit } => {
                match self.create_outcome(controllers, credit) {
                    Ok(_) => (
                        ServiceModel {
                            units: self.units.push(
                                UnitModel::fresh(
                                    unit_name(self.units.len() as int),
                                    controllers,
                                    quotas,
                                    credit,
                                ),
                            ),
                            ..self
                        },
                        EventModel::Created(unit_name(self.units.len() as int)),
                    ),
                    Err(e) => (self, EventModel::Failed(e)),
                }
            },
            ActionModel::Install { unit, image } => self.on_unit(
                unit,
                OpError::NotController,
                self.unit(unit).install_outcome(caller, image),
                self.unit(unit).installed(image),
            ),
            ActionModel::Start { unit } => self.on_unit(
                unit,
                OpError::NotController,
                self.unit(unit).gate(caller),
                self.unit(unit).started(),
            ),
            ActionModel::Stop { unit } => self.on_unit(
                unit,
                OpError::NotController,
                self.unit(unit).gate(caller),
                self.unit(unit).stopped(),
            ),
            ActionModel::Status { unit } => if !self.has(unit) {
                (self, EventModel::Failed(OpError::NotController))
            } else {
                match self.unit(unit).status_outcome(caller) {
                    Ok(report) => (self, EventModel::Report(report)),
                    Err(e) => (self, EventModel::Failed(e)),
                }
            },
            ActionModel::Deposit { unit, amount } => self.on_unit(
                unit,
                OpError::InvalidState,
                self.unit(unit).deposit_outcome(),
                self.unit(unit).credited(amount),
            ),
            ActionModel::Uninstall { unit } => self.on_unit(
                unit,
                OpError::NotController,
                self.unit(unit).gate(caller),
                self.unit(unit).uninstalled(),
            ),
            ActionModel::Delete { unit } => self.on_unit(
                unit,
                OpError::NotController,
                self.unit(unit).delete_outcome(caller),
                self.unit(unit).deleted(),
            ),
            ActionModel::Reassign { unit, controllers } => self.on_unit(
                unit,
                OpError::NotController,
                self.unit(unit).update_outcome(caller, Some(controllers)),
                self.unit(unit).reassigned(controllers),
            ),
            ActionModel::Finish { .. } => (self, EventModel::Done),
            ActionModel::Abort { .. } => (self, EventModel::Done),
        }
    }
}

/// An administrative service held in memory: it creates units, gives each
/// an identifier of its own, and performs the operations on them.
#[derive(Debug)]
pub struct Service {
    units: Vec<Unit>,
    minimum_credit: u128,
}

impl View for Service {
    type V = ServiceModel;

    closed spec fn view(&self) -> ServiceModel {
        ServiceModel {
            units: Seq::new(self.units.len() as nat, |i: int| self.units[i]@),
            minimum_credit: self.minimum_credit,
        }
    }
}

fn told(outcome: Result<(), OpError>) -> (event: Event)
    ensures
        event@ == answer(outcome),
{
    match outcome {
        Ok(_) => Event::Done,
        Err(e) => Event::Failed(e),
    }
}

impl Service {
    /// A service without units that creates a unit for `minimum_credit` or
    /// more.
    pub fn new(minimum_credit: u128) -> (service: Service)
        ensures
            service@.units.len() == 0,
            service@.minimum_credit == minimum_credit,
            service@.well_formed(),
    {
        Service { units: Vec::new(), minimum_credit }
    }

    /// How many units the service has created, deleted ones included.
    pub fn created(&self) -> (n: usize)
        ensures
            n == self@.units.len(),
    {
        self.units.len()
    }

    /// The unit `id`, if the service ever created one under it.
    pub fn unit(&self, id: &UnitId) -> (found: Option<&Unit>)
        requires
            self@.well_formed(),
        ensures
            found is Some <==> self@.has(id@),
            found is Some ==> found->0@ == self@.unit(id@),
    {
        match self.locate(id) {
            Some(i) => Some(&self.units[i]),
            None => None,
        }
    }

    fn locate(&self, id: &UnitId) -> (place: Option<usize>)
        requires
            self@.well_formed(),
        ensures
            place is Some <==> self@.has(id@),
            place is Some ==> place->0 == self@.slot(id@) && place->0 < self.units.len()
                && self.units[place->0 as int]@.well_formed(),
    {
        let bytes = id.as_bytes();
        if bytes.len() != 8 {
            return None;
        }
        let n = vstd::bytes::u64_from_le_bytes(bytes.as_slice());
        if n < self.units.len() as u64 {
            assert(self@.units[n as int].well_formed());
            Some(n as usize)
        } else {
            None
        }
    }

    /// Whether the service can take `action`.
    pub fn accepts(&self, action: &Action) -> (ok: bool)
        requires
            self@.well_formed(),
        ensures
            ok == self@.accepts(action@),
    {
        match action {
            Action::Deposit { unit, amount } => {
                if *amount == 0 {
                    false
                } else {
                    match self.locate(unit) {
                        Some(i) => self.units[i].can_take(*amount),
                        None => true,
                    }
                }
            },
            _ => true,
        }
    }

    /// Performs `action` for `caller` and tells how it ended.
    pub fn perform(&mut self, caller: &Principal, action: Action) -> (event: Event)
        requires
            old(self)@.well_formed(),
            old(self)@.accepts(action@),
        ensures
            final(self)@ == old(self)@.respond(caller@, action@).0,
            event@ == old(self)@.respond(caller@, action@).1,
            final(self)@.well_formed(),
    {
        match action {
            Action::Create { controllers, quotas, credit } => {
                if self.units.len() as u64 >= u64::MAX {
                    return Event::Failed(OpError::ServiceUnavailable);
                }
                let name = vstd::bytes::u64_to_le_bytes(self.units.len() as u64);
                let made = Unit::create(
                    UnitId::from_bytes(name),
                    controllers,
                    quotas,
                    credit,
                    self.minimum_credit,
                );
                match made {
                    Ok(unit) => {
                        let id = unit.id().duplicate();
                        self.units.push(unit);
                        assert(self@.units =~= old(self)@.units.push(unit@));
                        Event::Created(id)
                    },
                    Err(e) => Event::Failed(e),
                }
            },
            Action::Install { unit, image } => {
                match self.locate(&unit) {
                    Some(i) => {
                        let outcome = self.units[i].install(caller, image);
                        assert(self@.units =~= old(self)@.units.update(i as int, self.units[i as int]@));
                        told(outcome)
                    },
                    None => Event::Failed(OpError::NotController),
                }
            },
            Action::Start { unit } => {
                match self.locate(&unit) {
                    Some(i) => {
                        let outcome = self.units[i].start(caller);
                        assert(self@.units =~= old(self)@.units.update(i as int, self.units[i as int]@));
                        told(outcome)
                    },
                    None => Event::Failed(OpError::NotController),
                }
            },
            Action::Stop { unit } => {
                match self.locate(&unit) {
                    Some(i) => {
                        let outcome = self.units[i].stop(caller);
                        assert(self@.units =~= old(self)@.units.update(i as int, self.units[i as int]@));
                        told(outcome)
                    },
                    None => Event::Failed(OpError::NotController),
                }
            },
            Action::Status { unit } => {
                match self.locate(&unit) {
                    Some(i) => {
                        match self.units[i].status(caller) {
                            Ok(report) => Event::Report(report),
                            Err(e) => Event::Failed(e),
                        }
                    },
                    None => Event::Failed(OpError::NotController),
                }
            },
            Action::Deposit { unit, amount } => {
                match self.locate(&unit) {
                    Some(i) => {
                        let outcome = self.units[i].deposit(amount);
                        assert(self@.units =~= old(self)@.units.update(i as int, self.units[i as int]@));
                        told(outcome)
                    },
                    None => Event::Failed(OpError::InvalidState),
                }
            },
            Action::Uninstall { unit } => {
                match self.locate(&unit) {
                    Some(i) => {
                        let outcome = self.units[i].uninstall(caller);
                        assert(self@.units =~= old(self)@.units.update(i as int, self.units[i as int]@));
                        told(outcome)
                    },
                    None => Event::Failed(OpError::NotController),
                }
            },
            Action::Delete { unit } => {
                match self.locate(&unit) {
                    Some(i) => {
                        let outcome = self.units[i].delete(caller);
                        assert(self@.units =~= old(self)@.units.update(i as int, self.units[i as int]@));
                        told(outcome)
                    },
                    None => Event::Failed(OpError::NotController),
                }
            },
            Action::Reassign { unit, controllers } => {
                match self.locate(&unit) {
                    Some(i) => {
                        let outcome = self.units[i].reassign_controllers(caller, controllers);
                        assert(self@.units =~= old(self)@.units.update(i as int, self.units[i as int]@));
                        told(outcome)
                    },
                    None => Event::Failed(OpError::NotController),
                }
            },
            Action::Finish { .. } => Event::Done,
            Action::Abort { .. } => Event::Done,
        }
    }
}

/// An upper bound on the steps that a run in `phase` still takes.
pub open spec fn remaining(phase: Phase) -> nat {
    match phase {
        Phase::Creating => 9,
        Phase::Installing => 8,
        Phase::Starting => 7,
        Phase::Stopping => 6,
        Phase::Verifying => 5,
        Phase::Depositing => 4,
        Phase::Uninstalling => 3,
        Phase::Deleting => 2,
        Phase::Reassigning => 1,
        Phase::Finished => 0,
        Phase::Aborted => 0,
    }
}

/// The run and the service after the service has answered up to `steps`
/// pending actions of the run, each asked under the orchestrator's own
/// identity, each answer taken before the next action is asked.
pub open spec fn played(run: RunModel, service: ServiceModel, steps: nat) -> (RunModel, ServiceModel)
    decreases steps,
{
    if steps == 0 || run.terminal() {
        (run, service)
    } else {
        let answered = service.respond(run.own, run.pending());
        played(run.step(answered.1), answered.0, (steps - 1) as nat)
    }
}

/// Whether the unit of `run` still holds exactly the credit it was created
/// with, while the run has not yet deposited.
pub open spec fn credit_untouched(run: RunModel, service: ServiceModel) -> bool {
    (run.phase == Phase::Installing || run.phase == Phase::Starting || run.phase == Phase::Stopping
        || run.phase == Phase::Verifying || run.phase == Phase::Depositing) ==> service.has(
        run.unit->0,
    ) && service.unit(run.unit->0).balance == run.credit
}

/// Plays a run from its start to its end against `service`: performs each
/// pending action under the orchestrator's own identity and hands the
/// outcome back, until the run is finished or aborted. Returns the run's
/// last action.
pub fn play(service: &mut Service, run: &mut Orchestrator) -> (last: Action)
    requires
        old(service)@.well_formed(),
        old(run)@.well_formed(),
        old(run)@.phase == Phase::Creating,
        old(run)@.credit + old(run)@.deposit <= u128::MAX,
    ensures
        (final(run)@, final(service)@) == played(old(run)@, old(service)@, 9),
        final(run)@.terminal(),
        final(run)@.well_formed(),
        final(service)@.well_formed(),
        last@ == final(run)@.pending(),
{
    let ghost mut left: nat = 9;
    while !run.is_over()
        invariant
            run@.well_formed(),
            service@.well_formed(),
            remaining(run@.phase) <= left,
            played(run@, service@, left) == played(old(run)@, old(service)@, 9),
            credit_untouched(run@, service@),
            run@.credit + run@.deposit <= u128::MAX,
        decreases left,
    {
        let ghost before = (run@, service@);
        let action = run.pending();
        let event = service.perform(run.own(), action);
        let _ = run.advance(event);
        proof {
            vstd::bytes::lemma_auto_spec_u64_to_from_le_bytes();
            assert(played(before.0, before.1, left) == played(run@, service@, (left - 1) as nat));
            left = (left - 1) as nat;
        }
    }
    run.pending()
}

/// The unit that an action is about, if it is about one.
pub open spec fn target(action: ActionModel) -> Option<Seq<u8>> {
    match action {
        ActionModel::Install { unit, .. } => Some(unit),
        ActionModel::Start { unit } => Some(unit),
        ActionModel::Stop { unit } => Some(unit),
        ActionModel::Status { unit } => Some(unit),
        ActionModel::Deposit { unit, .. } => Some(unit),
        ActionModel::Uninstall { unit } => Some(unit),
        ActionModel::Delete { unit } => Some(unit),
        ActionModel::Reassign { unit, .. } => Some(unit),
        _ => None,
    }
}

/// A unit is found under the identifier it carries.
pub proof fn units_are_found_by_their_identifier(service: ServiceModel, id: Seq<u8>)
    requires
        service.well_formed(),
        service.has(id),
    ensures
        service.unit(id).id == id,
        service.unit(id).well_formed(),
{
    vstd::bytes::lemma_auto_spec_u64_to_from_le_bytes();
    assert(service.units[service.slot(id)].well_formed());
}

/// A creation gives the unit an identifier that no unit had before, and
/// leaves every other unit as it was.
pub proof fn identifiers_are_never_reused(
    service: ServiceModel,
    caller: Seq<u8>,
    controllers: Seq<Seq<u8>>,
    quotas: Quotas,
    credit: u128,
    other: Seq<u8>,
)
    requires
        service.well_formed(),
        service.create_outcome(controllers, credit) is Ok,
    ensures
        ({
            let action = ActionModel::Create { controllers, quotas, credit };
            let after = service.respond(caller, action).0;
            let id = unit_name(service.units.len() as int);
            &&& service.respond(caller, action).1 == EventModel::Created(id)
            &&& !service.has(id)
            &&& after.has(id)
            &&& after.unit(id) == UnitModel::fresh(id, controllers, quotas, credit)
            &&& after.well_formed()
            &&& service.has(other) ==> other != id && after.has(other) && after.unit(other)
                == service.unit(other)
        }),
{
    vstd::bytes::lemma_auto_spec_u64_to_from_le_bytes();
    as_set_names_the_same_principals(controllers);
}

/// Nothing brings a deleted unit back, and no unit is ever forgotten:
/// whatever is asked, by whomever, a unit that the service had stays, and a
/// deleted one stays deleted.
pub proof fn deleted_units_stay_deleted(
    service: ServiceModel,
    caller: Seq<u8>,
    action: ActionModel,
    id: Seq<u8>,
)
    requires
        service.well_formed(),
        service.has(id),
    ensures
        service.respond(caller, action).0.has(id),
        service.respond(caller, action).0.well_formed(),
        service.unit(id).status == Status::Deleted ==> service.respond(caller, action).0.unit(id)
            == service.unit(id),
{
    answers_keep_the_service_well_formed(service, caller, action);
    let held = service.unit(id);
    assert(held.well_formed());
    if held.permits(caller) {
        let k = choose|k: int| 0 <= k < held.controllers.len() && held.controllers[k] == caller;
    }
    if held.status == Status::Deleted {
        assert(service.with(id, held).units =~= service.units);
    }
}

/// A run of `start` that has created the unit `id` under the orchestrator
/// alone and now waits in `phase`.
pub open spec fn waiting(start: RunModel, phase: Phase, id: Seq<u8>) -> RunModel {
    RunModel { phase, unit: Some(id), controllers: seq![start.own], ..start }
}

/// The service with one unit more.
pub open spec fn holding(service: ServiceModel, unit: UnitModel) -> ServiceModel {
    ServiceModel { units: service.units.push(unit), ..service }
}

/// Playing one step more is playing, and then one step.
pub proof fn one_more_step(run: RunModel, service: ServiceModel, steps: nat)
    ensures
        played(run, service, steps + 1) == played(
            played(run, service, steps).0,
            played(run, service, steps).1,
            1,
        ),
    decreases steps,
{
    reveal_with_fuel(played, 2);
    if steps > 0 && !run.terminal() {
        let answered = service.respond(run.own, run.pending());
        one_more_step(run.step(answered.1), answered.0, (steps - 1) as nat);
    }
}

/// The unit that was created last is found under its identifier, and an
/// operation on it touches no other unit.
proof fn new_unit_is_held(service: ServiceModel, unit: UnitModel)
    requires
        service.units.len() < u64::MAX,
        unit.id == unit_name(service.units.len() as int),
    ensures
        holding(service, unit).has(unit.id),
        holding(service, unit).unit(unit.id) == unit,
        forall|next: UnitModel| #[trigger]
            holding(service, unit).with(unit.id, next) == holding(service, next),
{
    vstd::bytes::lemma_auto_spec_u64_to_from_le_bytes();
    assert forall|next: UnitModel| #[trigger]
        holding(service, unit).with(unit.id, next) == holding(service, next) by {
        assert(holding(service, unit).with(unit.id, next).units =~= holding(service, next).units);
    }
}


/// A self-managed run that meets a willing service goes through its whole
/// pipeline. Right before the deletion the unit is stopped, without a
/// module, and holds the credit and the deposit; at the end the run is
/// finished and returns nothing, the unit is deleted, and a status inquiry
/// on it fails, whoever asks.
pub proof fn self_managed_run_ends_with_the_unit_deleted(
    service: ServiceModel,
    own: Seq<u8>,
    client: Seq<u8>,
    quotas: Quotas,
    credit: u128,
    image: Seq<u8>,
    deposit: u128,
    anyone: Seq<u8>,
)
    requires
        service.well_formed(),
        service.units.len() < u64::MAX,
        credit >= service.minimum_credit,
        is_valid_module(image),
        deposit > 0,
    ensures
        ({
            let start = RunModel::initial(
                Scenario::SelfManaged,
                own,
                client,
                quotas,
                credit,
                image,
                deposit,
            );
            let id = unit_name(service.units.len() as int);
            let near = played(start, service, 7);
            let end = played(start, service, 9);
            &&& near.0.phase == Phase::Deleting
            &&& near.1.unit(id).status == Status::Stopped
            &&& near.1.unit(id).module is None
            &&& near.1.unit(id).balance == credit + deposit
            &&& end.0.phase == Phase::Finished
            &&& end.0.pending() == (ActionModel::Finish { result: None })
            &&& end.1.has(id)
            &&& end.1.unit(id).status == Status::Deleted
            &&& end.1.respond(anyone, ActionModel::Status { unit: id }).1 == EventModel::Failed(
                OpError::NotController,
            )
        }),
{
    reveal_with_fuel(played, 2);
    one_principal_is_a_set(own);
    let start = RunModel::initial(Scenario::SelfManaged, own, client, quotas, credit, image, deposit);
    let id = unit_name(service.units.len() as int);
    let u1 = UnitModel::fresh(id, seq![own], quotas, credit);
    let u2 = u1.installed(image);
    let u4 = u2.stopped();
    let u6 = u4.credited(deposit);
    let u7 = u6.uninstalled();
    let u8 = u7.deleted();
    assert(seq![own][0] == own);
    assert(u1.permits(own) && u2.permits(own) && u4.permits(own) && u6.permits(own) && u7.permits(
        own,
    ));
    assert(u2.started() == u2);

    new_unit_is_held(service, u1);
    vstd::bytes::lemma_auto_spec_u64_to_from_le_bytes();
    let s1 = played(start, service, 1);
    assert(s1 == (waiting(start, Phase::Installing, id), holding(service, u1)));

    one_more_step(start, service, 1);
    new_unit_is_held(service, u2);
    let s2 = played(start, service, 2);
    assert(s2 == (waiting(start, Phase::Starting, id), holding(service, u2)));

    one_more_step(start, service, 2);
    let s3 = played(start, service, 3);
    assert(s3 == (waiting(start, Phase::Stopping, id), holding(service, u2)));

    one_more_step(start, service, 3);
    new_unit_is_held(service, u4);
    let s4 = played(start, service, 4);
    assert(s4 == (waiting(start, Phase::Verifying, id), holding(service, u4)));

    one_more_step(start, service, 4);
    let s5 = played(start, service, 5);
    assert(s5 == (waiting(start, Phase::Depositing, id), holding(service, u4)));

    one_more_step(start, service, 5);
    new_unit_is_held(service, u6);
    let s6 = played(start, service, 6);
    assert(s6 == (waiting(start, Phase::Uninstalling, id), holding(service, u6)));

    one_more_step(start, service, 6);
    new_unit_is_held(service, u7);
    let s7 = played(start, service, 7);
    assert(s7 == (waiting(start, Phase::Deleting, id), holding(service, u7)));

    one_more_step(start, service, 7);
    new_unit_is_held(service, u8);
    let s8 = played(start, service, 8);
    assert(s8 == (waiting(start, Phase::Finished, id), holding(service, u8)));

    one_more_step(start, service, 8);
    assert(played(start, service, 9) == s8);
    assert(u8.controllers =~= Seq::<Seq<u8>>::empty());
    assert(!u8.permits(anyone));
}

/// A handoff creates the unit under the client alone and returns its
/// identifier. The orchestrator, unless it is the client itself, is then
/// refused every privileged operation on the unit as no controller.
pub proof fn handoff_leaves_the_client_in_control(
    service: ServiceModel,
    own: Seq<u8>,
    client: Seq<u8>,
    quotas: Quotas,
    credit: u128,
    image: Seq<u8>,
    deposit: u128,
    action: ActionModel,
)
    requires
        service.well_formed(),
        service.units.len() < u64::MAX,
        credit >= service.minimum_credit,
    ensures
        ({
            let start = RunModel::initial(
                Scenario::Handoff,
                own,
                client,
                quotas,
                credit,
                image,
                deposit,
            );
            let id = unit_name(service.units.len() as int);
            let end = played(start, service, 9);
            &&& end.0.phase == Phase::Finished
            &&& end.0.pending() == (ActionModel::Finish { result: Some(id) })
            &&& end.1.has(id)
            &&& end.1.unit(id) == UnitModel::fresh(id, seq![client], quotas, credit)
            &&& own != client && action.privileged() && target(action) == Some(id)
                ==> end.1.respond(own, action) == (
                end.1,
                EventModel::Failed(OpError::NotController),
            )
        }),
{
    vstd::bytes::lemma_auto_spec_u64_to_from_le_bytes();
    one_principal_is_a_set(own);
    one_principal_is_a_set(client);
    reveal_with_fuel(played, 3);
    let start = RunModel::initial(Scenario::Handoff, own, client, quotas, credit, image, deposit);
    let id = unit_name(service.units.len() as int);
    let end = played(start, service, 9);
    assert(end.0.phase == Phase::Finished);
    assert(end.1.has(id));
    if own != client && action.privileged() && target(action) == Some(id) {
        assert(!end.1.unit(id).permits(own));
        assert(end.1.with(id, end.1.unit(id)).units =~= end.1.units);
    }
}

/// A transfer installs the module while the orchestrator is the unit's
/// controller, then hands the unit to the client alone and returns its
/// identifier. From then on a status inquiry by the orchestrator, unless it
/// is the client itself, fails as by no controller, while the client's
/// succeeds and reports the module.
pub proof fn transfer_hands_over_an_installed_unit(
    service: ServiceModel,
    own: Seq<u8>,
    client: Seq<u8>,
    quotas: Quotas,
    credit: u128,
    image: Seq<u8>,
    deposit: u128,
)
    requires
        service.well_formed(),
        service.units.len() < u64::MAX,
        credit >= service.minimum_credit,
        is_valid_module(image),
    ensures
        ({
            let start = RunModel::initial(
                Scenario::Transfer,
                own,
                client,
                quotas,
                credit,
                image,
                deposit,
            );
            let id = unit_name(service.units.len() as int);
            let installed = played(start, service, 2);
            let end = played(start, service, 9);
            &&& installed.0.phase == Phase::Reassigning
            &&& installed.1.unit(id).controllers == seq![own]
            &&& installed.1.unit(id).module == Some(image)
            &&& end.0.phase == Phase::Finished
            &&& end.0.pending() == (ActionModel::Finish { result: Some(id) })
            &&& end.1.has(id)
            &&& end.1.unit(id).controllers == seq![client]
            &&& end.1.unit(id).module == Some(image)
            &&& end.1.unit(id).status == Status::Running
            &&& own != client ==> end.1.respond(own, ActionModel::Status { unit: id }).1
                == EventModel::Failed(OpError::NotController)
            &&& end.1.respond(client, ActionModel::Status { unit: id }).1 == EventModel::Report(
                end.1.unit(id).report(),
            )
            &&& end.1.unit(id).report().module_present
        }),
{
    vstd::bytes::lemma_auto_spec_u64_to_from_le_bytes();
    one_principal_is_a_set(own);
    one_principal_is_a_set(client);
    reveal_with_fuel(played, 5);
    let start = RunModel::initial(Scenario::Transfer, own, client, quotas, credit, image, deposit);
    let id = unit_name(service.units.len() as int);
    assert(seq![own][0] == own);
    assert(seq![client][0] == client);
    let s1 = played(start, service, 1);
    assert(s1.0.phase == Phase::Installing && s1.1.has(id) && s1.0.unit == Some(id));
    let s2 = played(start, service, 2);
    assert(s2.0.phase == Phase::Reassigning);
    let s3 = played(start, service, 3);
    assert(s3.0.phase == Phase::Finished);
    assert(s3 == played(start, service, 9));
}

/// Nothing is rolled back. A run whose install fails is aborted with the
/// error of the install and names the unit it created, and the unit stays
/// as the creation left it: running, without a module. A run whose creation
/// fails leaves the service as it was and names no unit.
pub proof fn failed_steps_leave_what_was_done(
    service: ServiceModel,
    scenario: Scenario,
    own: Seq<u8>,
    client: Seq<u8>,
    quotas: Quotas,
    credit: u128,
    image: Seq<u8>,
    deposit: u128,
)
    requires
        service.well_formed(),
        service.units.len() < u64::MAX,
    ensures
        ({
            let start = RunModel::initial(scenario, own, client, quotas, credit, image, deposit);
            let id = unit_name(service.units.len() as int);
            let end = played(start, service, 9);
            &&& credit < service.minimum_credit ==> {
                &&& end.1 == service
                &&& end.0.pending() == (ActionModel::Abort {
                    error: OpError::InsufficientCredit,
                    created: None,
                })
            }
            &&& credit >= service.minimum_credit && scenario != Scenario::Handoff
                && !is_valid_module(image) ==> {
                &&& end.0.pending() == (ActionModel::Abort {
                    error: OpError::InvalidModule,
                    created: Some(id),
                })
                &&& end.1.has(id)
                &&& end.1.unit(id) == UnitModel::fresh(id, seq![own], quotas, credit)
            }
        }),
{
    vstd::bytes::lemma_auto_spec_u64_to_from_le_bytes();
    one_principal_is_a_set(own);
    one_principal_is_a_set(client);
    reveal_with_fuel(played, 4);
    let start = RunModel::initial(scenario, own, client, quotas, credit, image, deposit);
    let id = unit_name(service.units.len() as int);
    assert(seq![own][0] == own);
    assert(seq![client][0] == client);
    let s1 = played(start, service, 1);
    if credit >= service.minimum_credit && scenario != Scenario::Handoff && !is_valid_module(image) {
        assert(s1.0.phase == Phase::Installing && s1.1.has(id) && s1.0.unit == Some(id));
        let s2 = played(start, service, 2);
        assert(s2.0.phase == Phase::Aborted);
        assert(s2 == played(start, service, 9));
        assert(s2.1.units =~= s1.1.units);
    } else if credit < service.minimum_credit {
        assert(s1.0.phase == Phase::Aborted);
        assert(s1 == played(start, service, 9));
    }
}

/// A run is a line without a way back: every step of a run that has not
/// ended brings its end nearer, so that no run takes more than nine steps.
pub proof fn every_step_brings_the_end_nearer(run: RunModel, event: EventModel)
    requires
        run.well_formed(),
        !run.terminal(),
    ensures
        remaining(run.step(event).phase) < remaining(run.phase),
        remaining(run.phase) <= 9,
{
}

/// Nine steps end every run that starts at the creation, whatever the
/// service holds and however it answers.
pub proof fn nine_steps_end_every_run(run: RunModel, service: ServiceModel, steps: nat)
    requires
        run.well_formed(),
        service.well_formed(),
        remaining(run.phase) <= steps,
    ensures
        played(run, service, steps).0.terminal(),
        played(run, service, steps).0.well_formed(),
    decreases steps,
{
    if steps > 0 && !run.terminal() {
        let answered = service.respond(run.own, run.pending());
        answers_keep_the_service_well_formed(service, run.own, run.pending());
        nine_steps_end_every_run(run.step(answered.1), answered.0, (steps - 1) as nat);
    }
}

/// Whatever is asked of a well-formed service leaves it well formed.
pub proof fn answers_keep_the_service_well_formed(
    service: ServiceModel,
    caller: Seq<u8>,
    action: ActionModel,
)
    requires
        service.well_formed(),
    ensures
        service.respond(caller, action).0.well_formed(),
        service.respond(caller, action).0.units.len() >= service.units.len(),
{
    vstd::bytes::lemma_auto_spec_u64_to_from_le_bytes();
    match action {
        ActionModel::Reassign { controllers, .. } => {
            as_set_names_the_same_principals(controllers);
        },
        ActionModel::Create { controllers, .. } => {
            as_set_names_the_same_principals(controllers);
        },
        _ => {},
    }
    match target(action) {
        Some(unit) => {
            if service.has(unit) {
                assert(service.units[service.slot(unit)].well_formed());
                if service.unit(unit).permits(caller) {
                    let k = choose|k: int|
                        0 <= k < service.unit(unit).controllers.len() && service.unit(
                            unit,
                        ).controllers[k] == caller;
                }
            }
        },
        None => {},
    }
}

} // verus!
