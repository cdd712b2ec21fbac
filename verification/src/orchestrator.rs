use vstd::prelude::*;
use crate::policy::{authorized, is_authorized};
use crate::principal::{copy_bytes, duplicate_all, names, Principal, UnitId};
use crate::unit::{OpError, Quotas, ReportModel, Status, StatusReport};

verus! {

/// The three orchestration scenarios.
#[derive(Clone, Copy, Debug, PartialEq, Eq, Structural)]
pub enum Scenario {
    /// Create under the orchestrator's own identity, install, start, stop,
    /// verify that the unit is stopped, deposit, uninstall, delete.
    SelfManaged,
    /// Create under the client's identity and hand the identifier back.
    Handoff,
    /// Create under the orchestrator's own identity, install, then reassign
    /// the controllers to the client and hand the identifier back.
    Transfer,
}

/// The step whose outcome a run is waiting for, or how the run ended.
#[derive(Clone, Copy, Debug, PartialEq, Eq, Structural)]
pub enum Phase {
    Creating,
    Installing,
    Starting,
    Stopping,
    Verifying,
    Depositing,
    Uninstalling,
    Deleting,
    Reassigning,
    Finished,
    Aborted,
}

/// What a run is to use: quotas and credit for the creation, the code image
/// to install, and the amount to deposit.
#[derive(Debug)]
pub struct Plan {
    pub quotas: Quotas,
    pub credit: u128,
    pub image: Vec<u8>,
    pub deposit: u128,
}

/// What the caller of the orchestrator is to do next.
#[derive(Debug)]
pub enum Action {
    Create { controllers: Vec<Principal>, quotas: Quotas, credit: u128 },
    Install { unit: UnitId, image: Vec<u8> },
    Start { unit: UnitId },
    Stop { unit: UnitId },
    Status { unit: UnitId },
    Deposit { unit: UnitId, amount: u128 },
    Uninstall { unit: UnitId },
    Delete { unit: UnitId },
    Reassign { unit: UnitId, controllers: Vec<Principal> },
    /// The run is complete; `result` is what the scenario returns.
    Finish { result: Option<UnitId> },
    /// The run stopped at a failed step. `created` is the unit that was
    /// created before, left as the last successful step made it.
    Abort { error: OpError, created: Option<UnitId> },
}

/// An action as plain values.
pub enum ActionModel {
    Create { controllers: Seq<Seq<u8>>, quotas: Quotas, credit: u128 },
    Install { unit: Seq<u8>, image: Seq<u8> },
    Start { unit: Seq<u8> },
    Stop { unit: Seq<u8> },
    Status { unit: Seq<u8> },
    Deposit { unit: Seq<u8>, amount: u128 },
    Uninstall { unit: Seq<u8> },
    Delete { unit: Seq<u8> },
    Reassign { unit: Seq<u8>, controllers: Seq<Seq<u8>> },
    Finish { result: Option<Seq<u8>> },
    Abort { error: OpError, created: Option<Seq<u8>> },
}

/// The bytes of an identifier that may be absent.
pub open spec fn id_bytes(unit: Option<UnitId>) -> Option<Seq<u8>> {
    match unit {
        Some(id) => Some(id@),
        None => None,
    }
}

impl View for Action {
    type V = ActionModel;

    open spec fn view(&self) -> ActionModel {
        match *self {
            Action::Create { controllers, quotas, credit } => ActionModel::Create {
                controllers: names(controllers@),
                quotas,
                credit,
            },
            Action::Install { unit, image } => ActionModel::Install { unit: unit@, image: image@ },
            Action::Start { unit } => ActionModel::Start { unit: unit@ },
            Action::Stop { unit } => ActionModel::Stop { unit: unit@ },
            Action::Status { unit } => ActionModel::Status { unit: unit@ },
            Action::Deposit { unit, amount } => ActionModel::Deposit { unit: unit@, amount },
            Action::Uninstall { unit } => ActionModel::Uninstall { unit: unit@ },
            Action::Delete { unit } => ActionModel::Delete { unit: unit@ },
            Action::Reassign { unit, controllers } => ActionModel::Reassign {
                unit: unit@,
                controllers: names(controllers@),
            },
            Action::Finish { result } => ActionModel::Finish { result: id_bytes(result) },
            Action::Abort { error, created } => ActionModel::Abort {
                error,
                created: id_bytes(created),
            },
        }
    }
}

impl ActionModel {
    /// Whether the service performs this action only for a controller.
    pub open spec fn privileged(self) -> bool {
        match self {
            ActionModel::Install { .. } => true,
            ActionModel::Start { .. } => true,
            ActionModel::Stop { .. } => true,
            ActionModel::Status { .. } => true,
            ActionModel::Uninstall { .. } => true,
            ActionModel::Delete { .. } => true,
            ActionModel::Reassign { .. } => true,
            _ => false,
        }
    }

    /// Whether this action ends the run.
    pub open spec fn last(self) -> bool {
        self is Finish || self is Abort
    }
}

/// How the action that was handed out has ended.
#[derive(Debug)]
pub enum Event {
    /// The creation succeeded and the service assigned this identifier.
    Created(UnitId),
    /// The operation succeeded and returned nothing.
    Done,
    /// The status inquiry succeeded with this report.
    Report(StatusReport),
    /// The operation failed.
    Failed(OpError),
}

/// An event as plain values.
pub enum EventModel {
    Created(Seq<u8>),
    Done,
    Report(ReportModel),
    Failed(OpError),
}

impl View for Event {
    type V = EventModel;

    open spec fn view(&self) -> EventModel {
        match *self {
            Event::Created(id) => EventModel::Created(id@),
            Event::Done => EventModel::Done,
            Event::Report(report) => EventModel::Report(report@),
            Event::Failed(e) => EventModel::Failed(e),
        }
    }
}

/// The phase that follows `phase` in `scenario` when the step succeeds.
pub open spec fn successor(scenario: Scenario, phase: Phase) -> Phase {
    match (scenario, phase) {
        (Scenario::SelfManaged, Phase::Creating) => Phase::Installing,
        (Scenario::SelfManaged, Phase::Installing) => Phase::Starting,
        (Scenario::SelfManaged, Phase::Starting) => Phase::Stopping,
        (Scenario::SelfManaged, Phase::Stopping) => Phase::Verifying,
        (Scenario::SelfManaged, Phase::Verifying) => Phase::Depositing,
        (Scenario::SelfManaged, Phase::Depositing) => Phase::Uninstalling,
        (Scenario::SelfManaged, Phase::Uninstalling) => Phase::Deleting,
        (Scenario::SelfManaged, Phase::Deleting) => Phase::Finished,
        (Scenario::Handoff, Phase::Creating) => Phase::Finished,
        (Scenario::Transfer, Phase::Creating) => Phase::Installing,
        (Scenario::Transfer, Phase::Installing) => Phase::Reassigning,
        (Scenario::Transfer, Phase::Reassigning) => Phase::Finished,
        (_, Phase::Aborted) => Phase::Aborted,
        _ => Phase::Finished,
    }
}

/// Whether `phase` is a step of `scenario`, or an end of it.
pub open spec fn belongs(scenario: Scenario, phase: Phase) -> bool {
    match phase {
        Phase::Creating | Phase::Finished | Phase::Aborted => true,
        Phase::Installing => scenario != Scenario::Handoff,
        Phase::Reassigning => scenario == Scenario::Transfer,
        _ => scenario == Scenario::SelfManaged,
    }
}

/// A run as plain values.
pub struct RunModel {
    pub scenario: Scenario,
    pub phase: Phase,
    /// The orchestrator's own identity.
    pub own: Seq<u8>,
    /// The external principal on whose call the run was started.
    pub client: Seq<u8>,
    pub quotas: Quotas,
    pub credit: u128,
    pub image: Seq<u8>,
    pub deposit: u128,
    /// The unit of this run, once it is created.
    pub unit: Option<Seq<u8>>,
    /// The controllers that this run has given the unit so far.
    pub controllers: Seq<Seq<u8>>,
    /// The error at which the run was aborted.
    pub failure: Option<OpError>,
}

impl RunModel {
    /// The run as it starts: waiting for the creation, nothing created yet.
    pub open spec fn initial(
        scenario: Scenario,
        own: Seq<u8>,
        client: Seq<u8>,
        quotas: Quotas,
        credit: u128,
        image: Seq<u8>,
        deposit: u128,
    ) -> RunModel {
        RunModel {
            scenario,
            phase: Phase::Creating,
            own,
            client,
            quotas,
            credit,
            image,
            deposit,
            unit: None,
            controllers: Seq::empty(),
            failure: None,
        }
    }

    /// Whether the run has ended.
    pub open spec fn terminal(self) -> bool {
        self.phase == Phase::Finished || self.phase == Phase::Aborted
    }

    /// The controllers that the unit is created with: the client alone in a
    /// handoff, the orchestrator alone otherwise.
    pub open spec fn first_controllers(self) -> Seq<Seq<u8>> {
        if self.scenario == Scenario::Handoff {
            seq![self.client]
        } else {
            seq![self.own]
        }
    }

    /// What holds of every run from its start on: the phase is one of the
    /// scenario's, the unit is known once created, the controllers are those
    /// that the run has set, and a failure is recorded exactly when the run
    /// was aborted.
    pub open spec fn well_formed(self) -> bool {
        &&& belongs(self.scenario, self.phase)
        &&& self.phase == Phase::Aborted <==> self.failure is Some
        &&& self.phase == Phase::Creating ==> self.unit is None && self.controllers.len() == 0
        &&& self.phase != Phase::Creating && self.phase != Phase::Aborted ==> self.unit is Some
        &&& !self.terminal() && self.phase != Phase::Creating ==> self.controllers == seq![self.own]
        &&& self.phase == Phase::Finished ==> self.controllers == if self.scenario
            == Scenario::SelfManaged {
            seq![self.own]
        } else {
            seq![self.client]
        }
        &&& self.scenario == Scenario::SelfManaged ==> self.deposit > 0
    }

    /// Whether the orchestrator is a controller of the unit, as far as this
    /// run has set the controllers.
    pub open spec fn holds_control(self) -> bool {
        authorized(self.own, self.controllers)
    }

    /// The run, aborted at `error`. Nothing else changes: what was created
    /// stays known.
    pub open spec fn aborted(self, error: OpError) -> RunModel {
        RunModel { phase: Phase::Aborted, failure: Some(error), ..self }
    }

    /// The run, moved on to the next phase.
    pub open spec fn moved_on(self) -> RunModel {
        RunModel { phase: successor(self.scenario, self.phase), ..self }
    }

    /// The run after `event` has answered the pending action.
    ///
    /// A run that has ended stays as it is. A failure aborts the run with
    /// the error of the failed step. A success of the kind that the pending
    /// action gives moves the run on, except that a status report of a unit
    /// that is not stopped aborts it as an invalid state. A success of any
    /// other kind leaves the outcome of the step unknown, and the run is
    /// aborted as on an unavailable service.
    pub open spec fn step(self, event: EventModel) -> RunModel {
        if self.terminal() {
            self
        } else {
            match event {
                EventModel::Failed(error) => self.aborted(error),
                EventModel::Created(id) => if self.phase == Phase::Creating {
                    RunModel {
                        unit: Some(id),
                        controllers: self.first_controllers(),
                        ..self.moved_on()
                    }
                } else {
                    self.aborted(OpError::ServiceUnavailable)
                },
                EventModel::Report(report) => if self.phase == Phase::Verifying {
                    if report.status == Status::Stopped {
                        self.moved_on()
                    } else {
                        self.aborted(OpError::InvalidState)
                    }
                } else {
                    self.aborted(OpError::ServiceUnavailable)
                },
                EventModel::Done => if self.phase == Phase::Creating || self.phase
                    == Phase::Verifying {
                    self.aborted(OpError::ServiceUnavailable)
                } else if self.phase == Phase::Reassigning {
                    RunModel { controllers: seq![self.client], ..self.moved_on() }
                } else {
                    self.moved_on()
                },
            }
        }
    }

    /// The action that the run is waiting for, or its end.
    pub open spec fn pending(self) -> ActionModel
        recommends
            self.well_formed(),
    {
        match self.phase {
            Phase::Creating => ActionModel::Create {
                controllers: self.first_controllers(),
                quotas: self.quotas,
                credit: self.credit,
            },
            Phase::Installing => ActionModel::Install { unit: self.unit->0, image: self.image },
            Phase::Starting => ActionModel::Start { unit: self.unit->0 },
            Phase::Stopping => ActionModel::Stop { unit: self.unit->0 },
            Phase::Verifying => ActionModel::Status { unit: self.unit->0 },
            Phase::Depositing => ActionModel::Deposit { unit: self.unit->0, amount: self.deposit },
            Phase::Uninstalling => ActionModel::Uninstall { unit: self.unit->0 },
            Phase::Deleting => ActionModel::Delete { unit: self.unit->0 },
            Phase::Reassigning => ActionModel::Reassign {
                unit: self.unit->0,
                controllers: seq![self.client],
            },
            Phase::Finished => ActionModel::Finish {
                result: if self.scenario == Scenario::SelfManaged {
                    None
                } else {
                    self.unit
                },
            },
            Phase::Aborted => ActionModel::Abort { error: self.failure->0, created: self.unit },
        }
    }
}

/// One run of a scenario: it hands out one action at a time and takes the
/// outcome of each before it hands out the next.
#[derive(Debug)]
pub struct Orchestrator {
    scenario: Scenario,
    phase: Phase,
    own: Principal,
    client: Principal,
    plan: Plan,
    unit: Option<UnitId>,
    controllers: Vec<Principal>,
    failure: Option<OpError>,
}

impl View for Orchestrator {
    type V = RunModel;

    closed spec fn view(&self) -> RunModel {
        RunModel {
            scenario: self.scenario,
            phase: self.phase,
            own: self.own@,
            client: self.client@,
            quotas: self.plan.quotas,
            credit: self.plan.credit,
            image: self.plan.image@,
            deposit: self.plan.deposit,
            unit: id_bytes(self.unit),
            controllers: names(self.controllers@),
            failure: self.failure,
        }
    }
}

/// A list that holds `p` and nothing else.
fn only(p: &Principal) -> (list: Vec<Principal>)
    ensures
        names(list@) == seq![p@],
{
    let mut list: Vec<Principal> = Vec::new();
    list.push(p.duplicate());
    assert(names(list@) =~= seq![p@]);
    list
}

fn duplicate_id(unit: &Option<UnitId>) -> (copy: Option<UnitId>)
    ensures
        id_bytes(copy) == id_bytes(*unit),
{
    match unit {
        Some(id) => Some(id.duplicate()),
        None => None,
    }
}

impl Orchestrator {
    /// Starts a run of `scenario` for the orchestrator `own`, called by
    /// `client`. Its first pending action is the creation.
    pub fn new(scenario: Scenario, own: Principal, client: Principal, plan: Plan) -> (run: Orchestrator)
        requires
            scenario == Scenario::SelfManaged ==> plan.deposit > 0,
        ensures
            run@ == RunModel::initial(
                scenario,
                own@,
                client@,
                plan.quotas,
                plan.credit,
                plan.image@,
                plan.deposit,
            ),
            run@.well_formed(),
    {
        let run = Orchestrator {
            scenario,
            phase: Phase::Creating,
            own,
            client,
            plan,
            unit: None,
            controllers: Vec::new(),
            failure: None,
        };
        assert(names(run.controllers@) =~= Seq::<Seq<u8>>::empty());
        run
    }

    /// The phase that the run is in.
    pub fn phase(&self) -> (phase: Phase)
        ensures
            phase == self@.phase,
    {
        self.phase
    }

    /// The orchestrator's own identity, under which it performs its actions.
    pub fn own(&self) -> (own: &Principal)
        ensures
            own@ == self@.own,
    {
        &self.own
    }

    /// The external principal for whom the run was started.
    pub fn client(&self) -> (client: &Principal)
        ensures
            client@ == self@.client,
    {
        &self.client
    }

    /// Whether the run has ended.
    pub fn is_over(&self) -> (over: bool)
        ensures
            over == self@.terminal(),
    {
        self.phase == Phase::Finished || self.phase == Phase::Aborted
    }

    /// Whether the orchestrator is among the controllers that this run has
    /// given the unit: whether a privileged action of its own can succeed.
    pub fn holds_control(&self) -> (held: bool)
        ensures
            held == self@.holds_control(),
    {
        is_authorized(&self.own, &self.controllers)
    }

    /// The action that the run is waiting for, or its end.
    pub fn pending(&self) -> (action: Action)
        requires
            self@.well_formed(),
        ensures
            action@ == self@.pending(),
    {
        match self.phase {
            Phase::Creating => {
                let controllers = if self.scenario == Scenario::Handoff {
                    only(&self.client)
                } else {
                    only(&self.own)
                };
                Action::Create { controllers, quotas: self.plan.quotas, credit: self.plan.credit }
            },
            Phase::Installing => Action::Install {
                unit: self.known_unit(),
                image: copy_bytes(&self.plan.image),
            },
            Phase::Starting => Action::Start { unit: self.known_unit() },
            Phase::Stopping => Action::Stop { unit: self.known_unit() },
            Phase::Verifying => Action::Status { unit: self.known_unit() },
            Phase::Depositing => Action::Deposit {
                unit: self.known_unit(),
                amount: self.plan.deposit,
            },
            Phase::Uninstalling => Action::Uninstall { unit: self.known_unit() },
            Phase::Deleting => Action::Delete { unit: self.known_unit() },
            Phase::Reassigning => Action::Reassign {
                unit: self.known_unit(),
                controllers: only(&self.client),
            },
            Phase::Finished => {
                if self.scenario == Scenario::SelfManaged {
                    Action::Finish { result: None }
                } else {
                    Action::Finish { result: duplicate_id(&self.unit) }
                }
            },
            Phase::Aborted => {
                match self.failure {
                    Some(error) => Action::Abort { error, created: duplicate_id(&self.unit) },
                    None => Action::Abort {
                        error: OpError::ServiceUnavailable,
                        created: duplicate_id(&self.unit),
                    },
                }
            },
        }
    }

    fn known_unit(&self) -> (id: UnitId)
        requires
            self.unit is Some,
        ensures
            Some(id@) == id_bytes(self.unit),
    {
        match &self.unit {
            Some(id) => id.duplicate(),
            None => UnitId::from_bytes(Vec::new()),
        }
    }

    fn abort(&mut self, error: OpError)
        ensures
            final(self)@ == old(self)@.aborted(error),
    {
        self.phase = Phase::Aborted;
        self.failure = Some(error);
    }

    fn move_on(&mut self)
        ensures
            final(self)@ == old(self)@.moved_on(),
    {
        self.phase = match (self.scenario, self.phase) {
            (Scenario::SelfManaged, Phase::Creating) => Phase::Installing,
            (Scenario::SelfManaged, Phase::Installing) => Phase::Starting,
            (Scenario::SelfManaged, Phase::Starting) => Phase::Stopping,
            (Scenario::SelfManaged, Phase::Stopping) => Phase::Verifying,
            (Scenario::SelfManaged, Phase::Verifying) => Phase::Depositing,
            (Scenario::SelfManaged, Phase::Depositing) => Phase::Uninstalling,
            (Scenario::SelfManaged, Phase::Uninstalling) => Phase::Deleting,
            (Scenario::SelfManaged, Phase::Deleting) => Phase::Finished,
            (Scenario::Handoff, Phase::Creating) => Phase::Finished,
            (Scenario::Transfer, Phase::Creating) => Phase::Installing,
            (Scenario::Transfer, Phase::Installing) => Phase::Reassigning,
            (Scenario::Transfer, Phase::Reassigning) => Phase::Finished,
            (_, Phase::Aborted) => Phase::Aborted,
            _ => Phase::Finished,
        };
    }

    /// Takes the outcome of the pending action and returns the next one.
    pub fn advance(&mut self, event: Event) -> (action: Action)
        requires
            old(self)@.well_formed(),
        ensures
            final(self)@ == old(self)@.step(event@),
            final(self)@.well_formed(),
            action@ == final(self)@.pending(),
    {
        if !self.is_over() {
            match event {
                Event::Failed(error) => {
                    self.abort(error);
                },
                Event::Created(id) => {
                    if self.phase == Phase::Creating {
                        self.controllers = if self.scenario == Scenario::Handoff {
                            only(&self.client)
                        } else {
                            only(&self.own)
                        };
                        self.unit = Some(id);
                        self.move_on();
                    } else {
                        self.abort(OpError::ServiceUnavailable);
                    }
                },
                Event::Report(report) => {
                    if self.phase == Phase::Verifying {
                        if report.status == Status::Stopped {
                            self.move_on();
                        } else {
                            self.abort(OpError::InvalidState);
                        }
                    } else {
                        self.abort(OpError::ServiceUnavailable);
                    }
                },
                Event::Done => {
                    if self.phase == Phase::Creating || self.phase == Phase::Verifying {
                        self.abort(OpError::ServiceUnavailable);
                    } else if self.phase == Phase::Reassigning {
                        self.controllers = only(&self.client);
                        self.move_on();
                    } else {
                        self.move_on();
                    }
                },
            }
        }
        self.pending()
    }
}

/// Every step keeps a run well formed.
pub proof fn steps_keep_runs_well_formed(run: RunModel, event: EventModel)
    requires
        run.well_formed(),
    ensures
        run.step(event).well_formed(),
        run.step(event).scenario == run.scenario,
        run.step(event).own == run.own,
        run.step(event).client == run.client,
{
}

/// A privileged action is handed out only while the orchestrator is a
/// controller of the unit. In a handoff none is handed out at all.
pub proof fn privileged_actions_come_under_control(run: RunModel)
    requires
        run.well_formed(),
    ensures
        run.pending().privileged() ==> run.holds_control(),
        run.scenario == Scenario::Handoff ==> !run.pending().privileged(),
{
    if run.pending().privileged() {
        assert(run.controllers[0] == run.own);
    }
}

/// The controllers are reassigned only after the module was installed: a
/// run comes to wait for the reassignment only from waiting for the
/// install, and only by its success.
pub proof fn install_comes_before_handing_over(run: RunModel, event: EventModel)
    requires
        run.well_formed(),
        run.step(event).phase == Phase::Reassigning,
    ensures
        run.scenario == Scenario::Transfer,
        run.phase == Phase::Installing,
        event is Done,
{
}

/// Once a finished run has handed the unit over, the orchestrator has no
/// control left unless it is the client itself.
pub proof fn handed_over_means_no_control(run: RunModel)
    requires
        run.well_formed(),
        run.phase == Phase::Finished,
        run.scenario != Scenario::SelfManaged,
    ensures
        run.holds_control() <==> run.own == run.client,
        run.pending() == (ActionModel::Finish { result: run.unit }),
        run.unit is Some,
{
    assert(run.controllers[0] == run.client);
}

/// A failed step aborts the run where it stands: the error is that of the
/// step, the unit that was created stays known, and nothing is undone.
pub proof fn failure_aborts_in_place(run: RunModel, error: OpError)
    requires
        run.well_formed(),
        !run.terminal(),
    ensures
        run.step(EventModel::Failed(error)) == run.aborted(error),
        run.step(EventModel::Failed(error)).pending() == (ActionModel::Abort {
            error,
            created: run.unit,
        }),
        run.step(EventModel::Failed(error)).controllers == run.controllers,
{
}

/// A run that has ended takes no further step.
pub proof fn ended_runs_stay(run: RunModel, event: EventModel)
    requires
        run.terminal(),
    ensures
        run.step(event) == run,
        run.pending().last(),
{
}

/// A self-managed run deposits, uninstalls and deletes only after a status
/// report has shown the unit stopped; any other report aborts the run with
/// `InvalidState`.
pub proof fn stopped_is_verified_before_going_on(run: RunModel, report: ReportModel)
    requires
        run.well_formed(),
        run.phase == Phase::Verifying,
    ensures
        report.status == Status::Stopped ==> run.step(EventModel::Report(report)).phase
            == Phase::Depositing,
        report.status != Status::Stopped ==> run.step(EventModel::Report(report)) == run.aborted(
            OpError::InvalidState,
        ),
{
}

} // verus!
