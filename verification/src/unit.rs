use vstd::prelude::*;
use crate::policy::{
    as_set, as_set_names_the_same_principals, authorized, is_authorized, to_set,
};
use crate::principal::{duplicate_all, names, Principal, UnitId};

verus! {

/// Where a unit stands in its lifecycle. `Deleted` marks a unit that was
/// destroyed: its identifier stays taken and nothing can be done with it.
#[derive(Clone, Copy, Debug, PartialEq, Eq, Structural)]
pub enum Status {
    Running,
    Stopping,
    Stopped,
    Deleted,
}

/// Why an administrative operation failed.
#[derive(Clone, Copy, Debug, PartialEq, Eq, Structural)]
pub enum OpError {
    /// The caller is not a controller of the unit. Fatal.
    NotController,
    /// The operation is not legal in the unit's lifecycle state. Fatal.
    InvalidState,
    /// The credit offered or left is too low. May be retried after a deposit.
    InsufficientCredit,
    /// The service did not answer; the outcome is unknown.
    ServiceUnavailable,
    /// The service answered too late; the outcome is unknown.
    Timeout,
    /// The code image is malformed. Fatal.
    InvalidModule,
    /// A unit must keep at least one controller.
    EmptyControllerSet,
}

/// Compute allocation of a unit that was given none.
pub const DEFAULT_COMPUTE_ALLOCATION: u64 = 0;

/// Memory allocation of a unit that was given none.
pub const DEFAULT_MEMORY_ALLOCATION: u64 = 0;

/// Freezing threshold, in time units, of a unit that was given none.
pub const DEFAULT_FREEZING_THRESHOLD: u64 = 2_592_000;

/// The numeric quotas of a unit, each optional.
#[derive(Clone, Copy, Debug)]
pub struct Quotas {
    pub compute_allocation: Option<u64>,
    pub memory_allocation: Option<u64>,
    pub freezing_threshold: Option<u64>,
}

/// `wanted` where it is given, else `fallback`.
pub open spec fn or_fallback(wanted: Option<u64>, fallback: u64) -> u64 {
    match wanted {
        Some(v) => v,
        None => fallback,
    }
}

impl Quotas {
    /// Quotas that name nothing: at creation every default applies, in an
    /// update nothing changes.
    pub fn unspecified() -> (q: Quotas)
        ensures
            q.compute_allocation is None,
            q.memory_allocation is None,
            q.freezing_threshold is None,
    {
        Quotas { compute_allocation: None, memory_allocation: None, freezing_threshold: None }
    }

    /// The compute allocation that a unit created with these quotas gets.
    pub fn compute_at_creation(&self) -> (v: u64)
        ensures
            v == or_fallback(self.compute_allocation, DEFAULT_COMPUTE_ALLOCATION),
    {
        match self.compute_allocation {
            Some(v) => v,
            None => DEFAULT_COMPUTE_ALLOCATION,
        }
    }

    /// The memory allocation that a unit created with these quotas gets.
    pub fn memory_at_creation(&self) -> (v: u64)
        ensures
            v == or_fallback(self.memory_allocation, DEFAULT_MEMORY_ALLOCATION),
    {
        match self.memory_allocation {
            Some(v) => v,
            None => DEFAULT_MEMORY_ALLOCATION,
        }
    }

    /// The freezing threshold that a unit created with these quotas gets.
    pub fn freezing_at_creation(&self) -> (v: u64)
        ensures
            v == or_fallback(self.freezing_threshold, DEFAULT_FREEZING_THRESHOLD),
    {
        match self.freezing_threshold {
            Some(v) => v,
            None => DEFAULT_FREEZING_THRESHOLD,
        }
    }
}

/// A change of settings: each field that is absent is left as it was.
#[derive(Debug)]
pub struct Settings {
    pub controllers: Option<Vec<Principal>>,
    pub quotas: Quotas,
}

/// What a status inquiry reports.
#[derive(Debug)]
pub struct StatusReport {
    pub status: Status,
    pub controllers: Vec<Principal>,
    pub module_present: bool,
    pub balance: u128,
}

/// A status report as plain values.
pub struct ReportModel {
    pub status: Status,
    pub controllers: Seq<Seq<u8>>,
    pub module_present: bool,
    pub balance: nat,
}

impl View for StatusReport {
    type V = ReportModel;

    open spec fn view(&self) -> ReportModel {
        ReportModel {
            status: self.status,
            controllers: names(self.controllers@),
            module_present: self.module_present,
            balance: self.balance as nat,
        }
    }
}

/// Whether the bytes begin as a code image must: the four magic bytes
/// `\0asm`, then version 1 in four little-endian bytes.
pub open spec fn is_valid_module(image: Seq<u8>) -> bool {
    &&& image.len() >= 8
    &&& image[0] == 0x00
    &&& image[1] == 0x61
    &&& image[2] == 0x73
    &&& image[3] == 0x6d
    &&& image[4] == 0x01
    &&& image[5] == 0x00
    &&& image[6] == 0x00
    &&& image[7] == 0x00
}

/// Tests a code image for the header that every valid module has.
pub fn check_module(image: &Vec<u8>) -> (ok: bool)
    ensures
        ok == is_valid_module(image@),
{
    image.len() >= 8 && image[0] == 0x00 && image[1] == 0x61 && image[2] == 0x73 && image[3]
        == 0x6d && image[4] == 0x01 && image[5] == 0x00 && image[6] == 0x00 && image[7] == 0x00
}

/// A unit as plain values: what the administrative service records of it.
pub struct UnitModel {
    pub id: Seq<u8>,
    pub status: Status,
    pub controllers: Seq<Seq<u8>>,
    pub module: Option<Seq<u8>>,
    pub balance: nat,
    pub compute_allocation: u64,
    pub memory_allocation: u64,
    pub freezing_threshold: u64,
}

/// `next` where the operation succeeded, `before` where it failed: a failed
/// operation changes nothing.
pub open spec fn settle(before: UnitModel, outcome: Result<(), OpError>, next: UnitModel) -> UnitModel {
    if outcome is Ok {
        next
    } else {
        before
    }
}

impl UnitModel {
    /// A unit that exists has at least one controller; a deleted one has
    /// none, and no module. No controller is named twice.
    pub open spec fn well_formed(self) -> bool {
        &&& self.controllers.no_duplicates()
        &&& self.status != Status::Deleted <==> self.controllers.len() > 0
        &&& self.status == Status::Deleted ==> self.module is None
    }

    /// Whether `caller` may administer this unit now.
    pub open spec fn permits(self, caller: Seq<u8>) -> bool {
        authorized(caller, self.controllers)
    }

    /// The outcome of an operation that asks for a controller and nothing else.
    pub open spec fn gate(self, caller: Seq<u8>) -> Result<(), OpError> {
        if self.permits(caller) {
            Ok(())
        } else {
            Err(OpError::NotController)
        }
    }

    /// The unit that `create` makes: running, without a module, under the
    /// set of the controllers that were named.
    pub open spec fn fresh(
        id: Seq<u8>,
        controllers: Seq<Seq<u8>>,
        quotas: Quotas,
        credit: u128,
    ) -> UnitModel {
        UnitModel {
            id,
            status: Status::Running,
            controllers: as_set(controllers),
            module: None,
            balance: credit as nat,
            compute_allocation: or_fallback(quotas.compute_allocation, DEFAULT_COMPUTE_ALLOCATION),
            memory_allocation: or_fallback(quotas.memory_allocation, DEFAULT_MEMORY_ALLOCATION),
            freezing_threshold: or_fallback(quotas.freezing_threshold, DEFAULT_FREEZING_THRESHOLD),
        }
    }

    /// Whether `create` fails, and how.
    pub open spec fn create_outcome(
        controllers: Seq<Seq<u8>>,
        credit: u128,
        minimum_credit: u128,
    ) -> Result<(), OpError> {
        if credit < minimum_credit {
            Err(OpError::InsufficientCredit)
        } else if controllers.len() == 0 {
            Err(OpError::EmptyControllerSet)
        } else {
            Ok(())
        }
    }

    /// Whether `install` fails, and how: a stranger is refused first, then a
    /// unit that is not running, then a malformed image.
    pub open spec fn install_outcome(self, caller: Seq<u8>, image: Seq<u8>) -> Result<(), OpError> {
        if !self.permits(caller) {
            Err(OpError::NotController)
        } else if self.status != Status::Running {
            Err(OpError::InvalidState)
        } else if !is_valid_module(image) {
            Err(OpError::InvalidModule)
        } else {
            Ok(())
        }
    }

    /// The unit with `image` as its module. The status stays.
    pub open spec fn installed(self, image: Seq<u8>) -> UnitModel {
        UnitModel { module: Some(image), ..self }
    }

    /// The unit, running.
    pub open spec fn started(self) -> UnitModel {
        UnitModel { status: Status::Running, ..self }
    }

    /// The unit, stopped.
    pub open spec fn stopped(self) -> UnitModel {
        UnitModel { status: Status::Stopped, ..self }
    }

    /// What a controller is told of the unit.
    pub open spec fn report(self) -> ReportModel {
        ReportModel {
            status: self.status,
            controllers: self.controllers,
            module_present: self.module is Some,
            balance: self.balance,
        }
    }

    /// What a status inquiry by `caller` returns.
    pub open spec fn status_outcome(self, caller: Seq<u8>) -> Result<ReportModel, OpError> {
        if self.permits(caller) {
            Ok(self.report())
        } else {
            Err(OpError::NotController)
        }
    }

    /// Whether `deposit` fails: only a deleted unit takes no credit.
    pub open spec fn deposit_outcome(self) -> Result<(), OpError> {
        if self.status == Status::Deleted {
            Err(OpError::InvalidState)
        } else {
            Ok(())
        }
    }

    /// The unit with `amount` more on its balance.
    pub open spec fn credited(self, amount: u128) -> UnitModel {
        UnitModel { balance: self.balance + amount as nat, ..self }
    }

    /// The unit without a module. The status stays.
    pub open spec fn uninstalled(self) -> UnitModel {
        UnitModel { module: None, ..self }
    }

    /// Whether `delete` fails, and how: a stranger is refused first, then a
    /// unit that is not stopped.
    pub open spec fn delete_outcome(self, caller: Seq<u8>) -> Result<(), OpError> {
        if !self.permits(caller) {
            Err(OpError::NotController)
        } else if self.status != Status::Stopped {
            Err(OpError::InvalidState)
        } else {
            Ok(())
        }
    }

    /// What is left of a deleted unit: its identifier and quotas, no
    /// controllers, no module, no credit.
    pub open spec fn deleted(self) -> UnitModel {
        UnitModel {
            status: Status::Deleted,
            controllers: Seq::empty(),
            module: None,
            balance: 0,
            ..self
        }
    }

    /// Whether a change of settings fails, and how: a stranger is refused
    /// first, then a controller list that names nobody.
    pub open spec fn update_outcome(
        self,
        caller: Seq<u8>,
        controllers: Option<Seq<Seq<u8>>>,
    ) -> Result<(), OpError> {
        if !self.permits(caller) {
            Err(OpError::NotController)
        } else if controllers is Some && controllers->0.len() == 0 {
            Err(OpError::EmptyControllerSet)
        } else {
            Ok(())
        }
    }

    /// The unit with the settings that are named replaced, the controllers
    /// by the set of those listed, and the others as they were.
    pub open spec fn updated(self, controllers: Option<Seq<Seq<u8>>>, quotas: Quotas) -> UnitModel {
        UnitModel {
            controllers: match controllers {
                Some(list) => as_set(list),
                None => self.controllers,
            },
            compute_allocation: or_fallback(quotas.compute_allocation, self.compute_allocation),
            memory_allocation: or_fallback(quotas.memory_allocation, self.memory_allocation),
            freezing_threshold: or_fallback(quotas.freezing_threshold, self.freezing_threshold),
            ..self
        }
    }

    /// The unit under the set of the controllers listed.
    pub open spec fn reassigned(self, controllers: Seq<Seq<u8>>) -> UnitModel {
        UnitModel { controllers: as_set(controllers), ..self }
    }
}

/// One unit as the administrative service holds it.
#[derive(Debug)]
pub struct Unit {
    id: UnitId,
    status: Status,
    controllers: Vec<Principal>,
    module: Option<Vec<u8>>,
    balance: u128,
    compute_allocation: u64,
    memory_allocation: u64,
    freezing_threshold: u64,
}

impl View for Unit {
    type V = UnitModel;

    closed spec fn view(&self) -> UnitModel {
        UnitModel {
            id: self.id@,
            status: self.status,
            controllers: names(self.controllers@),
            module: match self.module {
                Some(image) => Some(image@),
                None => None,
            },
            balance: self.balance as nat,
            compute_allocation: self.compute_allocation,
            memory_allocation: self.memory_allocation,
            freezing_threshold: self.freezing_threshold,
        }
    }
}

impl Unit {
    /// Creates a unit under `id`: running, without a module, holding `credit`.
    /// Fails where the credit is under the service's minimum, or where no
    /// controller is named.
    pub fn create(
        id: UnitId,
        controllers: Vec<Principal>,
        quotas: Quotas,
        credit: u128,
        minimum_credit: u128,
    ) -> (made: Result<Unit, OpError>)
        ensures
            match made {
                Ok(unit) => {
                    &&& UnitModel::create_outcome(names(controllers@), credit, minimum_credit) is Ok
                    &&& unit@ == UnitModel::fresh(id@, names(controllers@), quotas, credit)
                    &&& unit@.well_formed()
                },
                Err(e) => UnitModel::create_outcome(names(controllers@), credit, minimum_credit)
                    == Err::<(), OpError>(e),
            },
    {
        if credit < minimum_credit {
            return Err(OpError::InsufficientCredit);
        }
        if controllers.len() == 0 {
            return Err(OpError::EmptyControllerSet);
        }
        proof {
            as_set_names_the_same_principals(names(controllers@));
        }
        Ok(
            Unit {
                id,
                status: Status::Running,
                controllers: to_set(&controllers),
                module: None,
                balance: credit,
                compute_allocation: quotas.compute_at_creation(),
                memory_allocation: quotas.memory_at_creation(),
                freezing_threshold: quotas.freezing_at_creation(),
            },
        )
    }

    /// The unit's identifier.
    pub fn id(&self) -> (id: &UnitId)
        ensures
            id@ == self@.id,
    {
        &self.id
    }

    /// The unit's lifecycle state, as the service itself sees it.
    pub fn lifecycle(&self) -> (status: Status)
        ensures
            status == self@.status,
    {
        self.status
    }

    /// The three quotas in force: compute allocation, memory allocation,
    /// freezing threshold.
    pub fn quotas(&self) -> (q: (u64, u64, u64))
        ensures
            q.0 == self@.compute_allocation,
            q.1 == self@.memory_allocation,
            q.2 == self@.freezing_threshold,
    {
        (self.compute_allocation, self.memory_allocation, self.freezing_threshold)
    }

    /// Installs a code image. The caller must be a controller, the unit
    /// running and the image valid; the status stays as it is.
    pub fn install(&mut self, caller: &Principal, image: Vec<u8>) -> (outcome: Result<(), OpError>)
        requires
            old(self)@.well_formed(),
        ensures
            outcome == old(self)@.install_outcome(caller@, image@),
            final(self)@ == settle(old(self)@, outcome, old(self)@.installed(image@)),
            final(self)@.well_formed(),
    {
        if !is_authorized(caller, &self.controllers) {
            return Err(OpError::NotController);
        }
        if self.status != Status::Running {
            return Err(OpError::InvalidState);
        }
        if !check_module(&image) {
            return Err(OpError::InvalidModule);
        }
        self.module = Some(image);
        Ok(())
    }

    /// Starts the unit. Starting a running unit changes nothing and is no
    /// error.
    pub fn start(&mut self, caller: &Principal) -> (outcome: Result<(), OpError>)
        requires
            old(self)@.well_formed(),
        ensures
            outcome == old(self)@.gate(caller@),
            final(self)@ == settle(old(self)@, outcome, old(self)@.started()),
            final(self)@.well_formed(),
    {
        if !is_authorized(caller, &self.controllers) {
            return Err(OpError::NotController);
        }
        self.status = Status::Running;
        Ok(())
    }

    /// Stops the unit. The unit passes through `Stopping` while work in
    /// flight drains; the call returns once it is `Stopped`.
    pub fn stop(&mut self, caller: &Principal) -> (outcome: Result<(), OpError>)
        requires
            old(self)@.well_formed(),
        ensures
            outcome == old(self)@.gate(caller@),
            final(self)@ == settle(old(self)@, outcome, old(self)@.stopped()),
            final(self)@.well_formed(),
    {
        if !is_authorized(caller, &self.controllers) {
            return Err(OpError::NotController);
        }
        self.status = Status::Stopping;
        self.status = Status::Stopped;
        Ok(())
    }

    /// Reports status, controllers, whether a module is present, and the
    /// balance, to a controller.
    pub fn status(&self, caller: &Principal) -> (outcome: Result<StatusReport, OpError>)
        ensures
            match outcome {
                Ok(report) => self@.status_outcome(caller@) == Ok::<ReportModel, OpError>(report@),
                Err(e) => self@.status_outcome(caller@) == Err::<ReportModel, OpError>(e),
            },
    {
        if !is_authorized(caller, &self.controllers) {
            return Err(OpError::NotController);
        }
        Ok(
            StatusReport {
                status: self.status,
                controllers: duplicate_all(&self.controllers),
                module_present: self.module.is_some(),
                balance: self.balance,
            },
        )
    }

    /// Adds `amount` to the balance. Anyone may deposit; only a deleted unit
    /// takes nothing.
    pub fn deposit(&mut self, amount: u128) -> (outcome: Result<(), OpError>)
        requires
            old(self)@.well_formed(),
            amount > 0,
            old(self)@.balance + amount <= u128::MAX,
        ensures
            outcome == old(self)@.deposit_outcome(),
            final(self)@ == settle(old(self)@, outcome, old(self)@.credited(amount)),
            final(self)@.well_formed(),
    {
        if self.status == Status::Deleted {
            return Err(OpError::InvalidState);
        }
        self.balance = self.balance + amount;
        Ok(())
    }

    /// Whether `deposit` can take `amount`: it is positive and the balance
    /// has room for it.
    pub fn can_take(&self, amount: u128) -> (ok: bool)
        ensures
            ok == (amount > 0 && self@.balance + amount <= u128::MAX),
    {
        amount > 0 && amount <= u128::MAX - self.balance
    }

    /// Removes the module. The status stays as it is.
    pub fn uninstall(&mut self, caller: &Principal) -> (outcome: Result<(), OpError>)
        requires
            old(self)@.well_formed(),
        ensures
            outcome == old(self)@.gate(caller@),
            final(self)@ == settle(old(self)@, outcome, old(self)@.uninstalled()),
            final(self)@.well_formed(),
    {
        if !is_authorized(caller, &self.controllers) {
            return Err(OpError::NotController);
        }
        self.module = None;
        Ok(())
    }

    /// Deletes the unit for good. The caller must be a controller and the
    /// unit stopped.
    pub fn delete(&mut self, caller: &Principal) -> (outcome: Result<(), OpError>)
        requires
            old(self)@.well_formed(),
        ensures
            outcome == old(self)@.delete_outcome(caller@),
            final(self)@ == settle(old(self)@, outcome, old(self)@.deleted()),
            final(self)@.well_formed(),
    {
        if !is_authorized(caller, &self.controllers) {
            return Err(OpError::NotController);
        }
        if self.status != Status::Stopped {
            return Err(OpError::InvalidState);
        }
        self.status = Status::Deleted;
        self.controllers = Vec::new();
        self.module = None;
        self.balance = 0;
        assert(names(self.controllers@) =~= Seq::<Seq<u8>>::empty());
        Ok(())
    }

    /// Replaces the controllers, all at once. An empty list is refused and
    /// the controllers stay as they were.
    pub fn reassign_controllers(&mut self, caller: &Principal, controllers: Vec<Principal>) -> (outcome:
        Result<(), OpError>)
        requires
            old(self)@.well_formed(),
        ensures
            outcome == old(self)@.update_outcome(caller@, Some(names(controllers@))),
            final(self)@ == settle(old(self)@, outcome, old(self)@.reassigned(names(controllers@))),
            final(self)@.well_formed(),
    {
        if !is_authorized(caller, &self.controllers) {
            return Err(OpError::NotController);
        }
        if controllers.len() == 0 {
            return Err(OpError::EmptyControllerSet);
        }
        proof {
            assert(self@.controllers.len() > 0) by {
                let k = choose|k: int| 0 <= k < self@.controllers.len() && self@.controllers[k] == caller@;
            }
            as_set_names_the_same_principals(names(controllers@));
        }
        self.controllers = to_set(&controllers);
        Ok(())
    }

    /// Changes the settings that `settings` names and leaves the others. An
    /// empty controller list is refused and nothing changes.
    pub fn update_settings(&mut self, caller: &Principal, settings: Settings) -> (outcome: Result<
        (),
        OpError,
    >)
        requires
            old(self)@.well_formed(),
        ensures
            outcome == old(self)@.update_outcome(caller@, controllers_named(settings)),
            final(self)@ == settle(
                old(self)@,
                outcome,
                old(self)@.updated(controllers_named(settings), settings.quotas),
            ),
            final(self)@.well_formed(),
    {
        if !is_authorized(caller, &self.controllers) {
            return Err(OpError::NotController);
        }
        proof {
            assert(self@.controllers.len() > 0) by {
                let k = choose|k: int| 0 <= k < self@.controllers.len() && self@.controllers[k] == caller@;
            }
        }
        let Settings { controllers, quotas } = settings;
        match controllers {
            Some(list) => {
                if list.len() == 0 {
                    return Err(OpError::EmptyControllerSet);
                }
                proof {
                    as_set_names_the_same_principals(names(list@));
                }
                self.controllers = to_set(&list);
            },
            None => {},
        }
        match quotas.compute_allocation {
            Some(v) => {
                self.compute_allocation = v;
            },
            None => {},
        }
        match quotas.memory_allocation {
            Some(v) => {
                self.memory_allocation = v;
            },
            None => {},
        }
        match quotas.freezing_threshold {
            Some(v) => {
                self.freezing_threshold = v;
            },
            None => {},
        }
        Ok(())
    }
}

/// The controller list that a change of settings names, if it names one.
pub open spec fn controllers_named(settings: Settings) -> Option<Seq<Seq<u8>>> {
    match settings.controllers {
        Some(list) => Some(names(list@)),
        None => None,
    }
}

/// Deleting succeeds only on a stopped unit. A controller who tries it on a
/// unit in any other state is refused with `InvalidState`, and the unit stays
/// as it was.
pub proof fn delete_only_when_stopped(unit: UnitModel, caller: Seq<u8>)
    ensures
        unit.delete_outcome(caller) is Ok ==> unit.status == Status::Stopped,
        unit.permits(caller) && unit.status != Status::Stopped ==> {
            &&& unit.delete_outcome(caller) == Err::<(), OpError>(OpError::InvalidState)
            &&& settle(unit, unit.delete_outcome(caller), unit.deleted()) == unit
        },
{
}

/// Every privileged operation is refused with `NotController` exactly when
/// the caller is not a controller at the time of the call. Starting,
/// stopping, inspecting and uninstalling ask for nothing else: they succeed
/// exactly for a controller. Installing, deleting and changing settings can
/// still fail for a controller, but never succeed for anyone else.
pub proof fn privileged_operations_ask_for_a_controller(
    unit: UnitModel,
    caller: Seq<u8>,
    image: Seq<u8>,
    controllers: Option<Seq<Seq<u8>>>,
)
    ensures
        unit.gate(caller) is Ok <==> unit.permits(caller),
        unit.gate(caller) == Err::<(), OpError>(OpError::NotController) <==> !unit.permits(caller),
        unit.status_outcome(caller) is Ok <==> unit.permits(caller),
        unit.status_outcome(caller) == Err::<ReportModel, OpError>(OpError::NotController)
            <==> !unit.permits(caller),
        unit.install_outcome(caller, image) == Err::<(), OpError>(OpError::NotController)
            <==> !unit.permits(caller),
        unit.install_outcome(caller, image) is Ok <==> unit.permits(caller) && unit.status
            == Status::Running && is_valid_module(image),
        unit.delete_outcome(caller) == Err::<(), OpError>(OpError::NotController)
            <==> !unit.permits(caller),
        unit.delete_outcome(caller) is Ok <==> unit.permits(caller) && unit.status
            == Status::Stopped,
        unit.update_outcome(caller, controllers) == Err::<(), OpError>(OpError::NotController)
            <==> !unit.permits(caller),
        unit.update_outcome(caller, controllers) is Ok <==> unit.permits(caller) && !(controllers
            == Some(Seq::<Seq<u8>>::empty())),
{
    if controllers is Some && controllers->0.len() == 0 {
        assert(controllers->0 =~= Seq::<Seq<u8>>::empty());
    }
}

/// A reassignment takes effect at once: after it, a principal is permitted
/// exactly when the new list names it, however often. A former controller whom the new list
/// leaves out is refused from then on, and a new controller is served.
pub proof fn reassignment_moves_control(
    unit: UnitModel,
    caller: Seq<u8>,
    controllers: Seq<Seq<u8>>,
    anyone: Seq<u8>,
)
    requires
        unit.update_outcome(caller, Some(controllers)) is Ok,
    ensures
        unit.permits(caller),
        unit.reassigned(controllers).permits(anyone) <==> controllers.contains(anyone),
        unit.reassigned(controllers).gate(anyone) is Ok <==> controllers.contains(anyone),
        unit.reassigned(controllers).status_outcome(anyone) is Ok <==> controllers.contains(anyone),
        !controllers.contains(caller) ==> unit.reassigned(controllers).gate(caller) == Err::<
            (),
            OpError,
        >(OpError::NotController),
        unit.reassigned(controllers) == unit.updated(
            Some(controllers),
            Quotas { compute_allocation: None, memory_allocation: None, freezing_threshold: None },
        ),
{
    as_set_names_the_same_principals(controllers);
}

/// Starting a running unit is no error and changes nothing.
pub proof fn start_is_idempotent(unit: UnitModel, caller: Seq<u8>)
    requires
        unit.permits(caller),
    ensures
        unit.gate(caller) is Ok,
        unit.status == Status::Running ==> unit.started() == unit,
        unit.started().started() == unit.started(),
        unit.started().status == Status::Running,
{
}

/// A status inquiry right after a successful install reports a module, and
/// one right after a successful uninstall reports none.
pub proof fn status_tells_of_the_module(unit: UnitModel, caller: Seq<u8>, image: Seq<u8>)
    ensures
        unit.install_outcome(caller, image) is Ok ==> {
            &&& unit.installed(image).status_outcome(caller) is Ok
            &&& unit.installed(image).report().module_present
            &&& unit.installed(image).status == unit.status
        },
        unit.gate(caller) is Ok ==> {
            &&& unit.uninstalled().status_outcome(caller) is Ok
            &&& !unit.uninstalled().report().module_present
            &&& unit.uninstalled().status == unit.status
        },
{
}

/// An empty controller list is refused, whoever asks, and the unit keeps the
/// controllers it had. A controller who asks is told `EmptyControllerSet`.
pub proof fn empty_controller_list_is_refused(unit: UnitModel, caller: Seq<u8>, quotas: Quotas)
    ensures
        unit.update_outcome(caller, Some(Seq::<Seq<u8>>::empty())) is Err,
        unit.permits(caller) ==> unit.update_outcome(caller, Some(Seq::<Seq<u8>>::empty())) == Err::<
            (),
            OpError,
        >(OpError::EmptyControllerSet),
        settle(
            unit,
            unit.update_outcome(caller, Some(Seq::<Seq<u8>>::empty())),
            unit.updated(Some(Seq::<Seq<u8>>::empty()), quotas),
        ) == unit,
{
}

/// Every operation leaves a well-formed unit well formed: a unit keeps a
/// controller for as long as it exists.
pub proof fn controllers_never_run_out(
    unit: UnitModel,
    caller: Seq<u8>,
    image: Seq<u8>,
    amount: u128,
    controllers: Option<Seq<Seq<u8>>>,
    quotas: Quotas,
)
    requires
        unit.well_formed(),
    ensures
        settle(unit, unit.install_outcome(caller, image), unit.installed(image)).well_formed(),
        settle(unit, unit.gate(caller), unit.started()).well_formed(),
        settle(unit, unit.gate(caller), unit.stopped()).well_formed(),
        settle(unit, unit.deposit_outcome(), unit.credited(amount)).well_formed(),
        settle(unit, unit.gate(caller), unit.uninstalled()).well_formed(),
        settle(unit, unit.delete_outcome(caller), unit.deleted()).well_formed(),
        settle(
            unit,
            unit.update_outcome(caller, controllers),
            unit.updated(controllers, quotas),
        ).well_formed(),
{
    if controllers is Some {
        as_set_names_the_same_principals(controllers->0);
    }
    if unit.permits(caller) {
        let k = choose|k: int| 0 <= k < unit.controllers.len() && unit.controllers[k] == caller;
    }
}

/// The status changes only by starting, stopping and deleting: installing,
/// uninstalling, depositing and changing settings leave it alone. A deleted
/// unit permits nobody, so no privileged operation brings it back.
pub proof fn status_moves_only_by_start_stop_delete(
    unit: UnitModel,
    caller: Seq<u8>,
    image: Seq<u8>,
    amount: u128,
    controllers: Option<Seq<Seq<u8>>>,
    quotas: Quotas,
)
    requires
        unit.well_formed(),
    ensures
        unit.installed(image).status == unit.status,
        unit.uninstalled().status == unit.status,
        unit.credited(amount).status == unit.status,
        unit.updated(controllers, quotas).status == unit.status,
        unit.status == Status::Deleted ==> !unit.permits(caller),
        unit.status == Status::Deleted ==> unit.deposit_outcome() is Err,
{
    if unit.permits(caller) {
        let k = choose|k: int| 0 <= k < unit.controllers.len() && unit.controllers[k] == caller;
    }
}

} // verus!
