use unit_lifecycle::orchestrator::{Action, Event, Orchestrator, Phase, Plan, Scenario};
use unit_lifecycle::principal::{Principal, UnitId};
use unit_lifecycle::service::{play, Service};
use unit_lifecycle::unit::{OpError, Quotas, Status, StatusReport};

/// The smallest valid code image.
const MINIMAL_MODULE: [u8; 8] = [0x00, 0x61, 0x73, 0x6d, 0x01, 0x00, 0x00, 0x00];

const CREDIT: u128 = 200_000_000_000;
const DEPOSIT: u128 = 1_000_000_000_000;
const MINIMUM: u128 = 100_000_000_000;

fn orchestrator_identity() -> Principal {
    Principal::from_bytes(vec![0xaa, 0x01])
}

fn external_principal() -> Principal {
    Principal::from_bytes(vec![0xbb, 0x02, 0x03])
}

fn plan() -> Plan {
    Plan {
        quotas: Quotas {
            compute_allocation: Some(0),
            memory_allocation: Some(10000),
            freezing_threshold: Some(10000),
        },
        credit: CREDIT,
        image: MINIMAL_MODULE.to_vec(),
        deposit: DEPOSIT,
    }
}

fn start(scenario: Scenario) -> Orchestrator {
    Orchestrator::new(scenario, orchestrator_identity(), external_principal(), plan())
}

fn first_id() -> UnitId {
    UnitId::from_bytes(vec![0, 0, 0, 0, 0, 0, 0, 0])
}

fn stopped_report() -> StatusReport {
    StatusReport {
        status: Status::Stopped,
        controllers: vec![orchestrator_identity()],
        module_present: true,
        balance: CREDIT,
    }
}

fn status_of(service: &mut Service, caller: &Principal, unit: &UnitId) -> Event {
    service.perform(caller, Action::Status { unit: unit.duplicate() })
}

#[test]
fn self_managed_run_asks_for_each_step_in_order() {
    let mut run = start(Scenario::SelfManaged);
    assert_eq!(run.phase(), Phase::Creating);
    match run.pending() {
        Action::Create { controllers, quotas, credit } => {
            assert_eq!(controllers.len(), 1);
            assert!(controllers[0].same(&orchestrator_identity()));
            assert_eq!(quotas.compute_allocation, Some(0));
            assert_eq!(quotas.memory_allocation, Some(10000));
            assert_eq!(quotas.freezing_threshold, Some(10000));
            assert_eq!(credit, CREDIT);
        }
        other => panic!("unexpected action {:?}", other),
    }
    let id = UnitId::from_bytes(vec![4, 5, 6]);
    match run.advance(Event::Created(id.duplicate())) {
        Action::Install { unit, image } => {
            assert!(unit.same(&id));
            assert_eq!(image, MINIMAL_MODULE.to_vec());
        }
        other => panic!("unexpected action {:?}", other),
    }
    assert!(run.holds_control());
    assert!(matches!(run.advance(Event::Done), Action::Start { unit } if unit.same(&id)));
    assert!(matches!(run.advance(Event::Done), Action::Stop { unit } if unit.same(&id)));
    assert!(matches!(run.advance(Event::Done), Action::Status { unit } if unit.same(&id)));
    assert_eq!(run.phase(), Phase::Verifying);
    match run.advance(Event::Report(stopped_report())) {
        Action::Deposit { unit, amount } => {
            assert!(unit.same(&id));
            assert_eq!(amount, DEPOSIT);
        }
        other => panic!("unexpected action {:?}", other),
    }
    assert!(matches!(run.advance(Event::Done), Action::Uninstall { unit } if unit.same(&id)));
    assert!(matches!(run.advance(Event::Done), Action::Delete { unit } if unit.same(&id)));
    assert!(!run.is_over());
    assert!(matches!(run.advance(Event::Done), Action::Finish { result: None }));
    assert!(run.is_over());
    assert_eq!(run.phase(), Phase::Finished);
}

#[test]
fn handoff_run_only_creates() {
    let mut run = start(Scenario::Handoff);
    match run.pending() {
        Action::Create { controllers, .. } => {
            assert_eq!(controllers.len(), 1);
            assert!(controllers[0].same(&external_principal()));
        }
        other => panic!("unexpected action {:?}", other),
    }
    assert!(!run.holds_control());
    let id = UnitId::from_bytes(vec![4, 5, 6]);
    match run.advance(Event::Created(id.duplicate())) {
        Action::Finish { result } => assert!(result.unwrap().same(&id)),
        other => panic!("unexpected action {:?}", other),
    }
    assert!(run.is_over());
    assert!(!run.holds_control());
    assert!(run.own().same(&orchestrator_identity()));
    assert!(run.client().same(&external_principal()));
}

#[test]
fn transfer_run_installs_before_it_reassigns() {
    let mut run = start(Scenario::Transfer);
    let id = UnitId::from_bytes(vec![4, 5, 6]);
    assert!(matches!(run.pending(), Action::Create { controllers, .. }
        if controllers.len() == 1 && controllers[0].same(&orchestrator_identity())));
    assert!(matches!(run.advance(Event::Created(id.duplicate())), Action::Install { unit, .. }
        if unit.same(&id)));
    assert!(run.holds_control());
    match run.advance(Event::Done) {
        Action::Reassign { unit, controllers } => {
            assert!(unit.same(&id));
            assert_eq!(controllers.len(), 1);
            assert!(controllers[0].same(&external_principal()));
        }
        other => panic!("unexpected action {:?}", other),
    }
    assert_eq!(run.phase(), Phase::Reassigning);
    assert!(run.holds_control());
    match run.advance(Event::Done) {
        Action::Finish { result } => assert!(result.unwrap().same(&id)),
        other => panic!("unexpected action {:?}", other),
    }
    assert!(!run.holds_control());
}

#[test]
fn a_failed_step_aborts_with_its_error_and_the_unit() {
    let mut run = start(Scenario::SelfManaged);
    let id = UnitId::from_bytes(vec![4, 5, 6]);
    run.advance(Event::Created(id.duplicate()));
    run.advance(Event::Done);
    match run.advance(Event::Failed(OpError::Timeout)) {
        Action::Abort { error, created } => {
            assert_eq!(error, OpError::Timeout);
            assert!(created.unwrap().same(&id));
        }
        other => panic!("unexpected action {:?}", other),
    }
    assert_eq!(run.phase(), Phase::Aborted);
    assert!(run.is_over());
    assert!(matches!(run.advance(Event::Done), Action::Abort { error: OpError::Timeout, .. }));
    assert!(matches!(run.pending(), Action::Abort { error: OpError::Timeout, .. }));
}

#[test]
fn a_failed_creation_names_no_unit() {
    let mut run = start(Scenario::Transfer);
    match run.advance(Event::Failed(OpError::InsufficientCredit)) {
        Action::Abort { error, created } => {
            assert_eq!(error, OpError::InsufficientCredit);
            assert!(created.is_none());
        }
        other => panic!("unexpected action {:?}", other),
    }
}

#[test]
fn a_unit_that_is_not_stopped_aborts_the_verification() {
    let mut run = start(Scenario::SelfManaged);
    run.advance(Event::Created(first_id()));
    run.advance(Event::Done);
    run.advance(Event::Done);
    run.advance(Event::Done);
    let report = StatusReport { status: Status::Running, ..stopped_report() };
    assert!(matches!(
        run.advance(Event::Report(report)),
        Action::Abort { error: OpError::InvalidState, created: Some(_) }
    ));
    let mut run = start(Scenario::SelfManaged);
    run.advance(Event::Created(first_id()));
    run.advance(Event::Done);
    run.advance(Event::Done);
    run.advance(Event::Done);
    let report = StatusReport { status: Status::Stopping, ..stopped_report() };
    assert!(matches!(
        run.advance(Event::Report(report)),
        Action::Abort { error: OpError::InvalidState, .. }
    ));
}

#[test]
fn an_answer_of_the_wrong_kind_leaves_the_outcome_unknown() {
    let mut run = start(Scenario::SelfManaged);
    assert!(matches!(
        run.advance(Event::Done),
        Action::Abort { error: OpError::ServiceUnavailable, created: None }
    ));
    let mut run = start(Scenario::Transfer);
    run.advance(Event::Created(first_id()));
    assert!(matches!(
        run.advance(Event::Created(first_id())),
        Action::Abort { error: OpError::ServiceUnavailable, created: Some(_) }
    ));
    let mut run = start(Scenario::Transfer);
    run.advance(Event::Created(first_id()));
    assert!(matches!(
        run.advance(Event::Report(stopped_report())),
        Action::Abort { error: OpError::ServiceUnavailable, .. }
    ));
    let mut run = start(Scenario::SelfManaged);
    run.advance(Event::Created(first_id()));
    run.advance(Event::Done);
    run.advance(Event::Done);
    run.advance(Event::Done);
    assert!(matches!(
        run.advance(Event::Done),
        Action::Abort { error: OpError::ServiceUnavailable, .. }
    ));
}

#[test]
fn a_finished_run_takes_no_further_step() {
    let mut run = start(Scenario::Handoff);
    run.advance(Event::Created(first_id()));
    assert!(matches!(run.advance(Event::Failed(OpError::Timeout)), Action::Finish { result: Some(_) }));
    assert!(matches!(run.advance(Event::Done), Action::Finish { result: Some(_) }));
    assert_eq!(run.phase(), Phase::Finished);
}

#[test]
fn scenario_a_end_to_end() {
    let mut service = Service::new(MINIMUM);
    let mut run = start(Scenario::SelfManaged);
    let mut action = run.pending();
    let mut asked = 0;
    while !matches!(action, Action::Delete { .. }) {
        assert!(service.accepts(&action));
        let event = service.perform(&orchestrator_identity(), action);
        action = run.advance(event);
        asked += 1;
    }
    assert_eq!(asked, 7);
    {
        let unit = service.unit(&first_id()).unwrap();
        assert_eq!(unit.lifecycle(), Status::Stopped);
        let report = unit.status(&orchestrator_identity()).unwrap();
        assert_eq!(report.status, Status::Stopped);
        assert!(!report.module_present);
        assert_eq!(report.balance, CREDIT + DEPOSIT);
        assert_eq!(unit.quotas(), (0, 10000, 10000));
    }
    let event = service.perform(&orchestrator_identity(), action);
    assert!(matches!(event, Event::Done));
    assert!(matches!(run.advance(event), Action::Finish { result: None }));
    assert_eq!(service.unit(&first_id()).unwrap().lifecycle(), Status::Deleted);
    assert!(matches!(
        status_of(&mut service, &orchestrator_identity(), &first_id()),
        Event::Failed(OpError::NotController)
    ));
    assert!(matches!(
        status_of(&mut service, &external_principal(), &first_id()),
        Event::Failed(OpError::NotController)
    ));
}

#[test]
fn scenario_a_played_in_one_go() {
    let mut service = Service::new(MINIMUM);
    let mut run = start(Scenario::SelfManaged);
    assert!(matches!(play(&mut service, &mut run), Action::Finish { result: None }));
    assert_eq!(run.phase(), Phase::Finished);
    assert_eq!(service.created(), 1);
    assert_eq!(service.unit(&first_id()).unwrap().lifecycle(), Status::Deleted);
    assert!(matches!(
        status_of(&mut service, &orchestrator_identity(), &first_id()),
        Event::Failed(OpError::NotController)
    ));
}

#[test]
fn scenario_b_end_to_end() {
    let mut service = Service::new(MINIMUM);
    let mut run = start(Scenario::Handoff);
    let id = match play(&mut service, &mut run) {
        Action::Finish { result } => result.unwrap(),
        other => panic!("unexpected action {:?}", other),
    };
    assert!(id.same(&first_id()));
    match status_of(&mut service, &external_principal(), &id) {
        Event::Report(report) => {
            assert_eq!(report.controllers.len(), 1);
            assert!(report.controllers[0].same(&external_principal()));
            assert_eq!(report.status, Status::Running);
            assert!(!report.module_present);
            assert_eq!(report.balance, CREDIT);
        }
        other => panic!("unexpected event {:?}", other),
    }
    let own = orchestrator_identity();
    let refused = |event: Event| matches!(event, Event::Failed(OpError::NotController));
    assert!(refused(service.perform(
        &own,
        Action::Install { unit: id.duplicate(), image: MINIMAL_MODULE.to_vec() }
    )));
    assert!(refused(service.perform(&own, Action::Start { unit: id.duplicate() })));
    assert!(refused(service.perform(&own, Action::Stop { unit: id.duplicate() })));
    assert!(refused(service.perform(&own, Action::Status { unit: id.duplicate() })));
    assert!(refused(service.perform(&own, Action::Uninstall { unit: id.duplicate() })));
    assert!(refused(service.perform(&own, Action::Delete { unit: id.duplicate() })));
    assert!(refused(service.perform(
        &own,
        Action::Reassign { unit: id.duplicate(), controllers: vec![orchestrator_identity()] }
    )));
    assert!(matches!(
        status_of(&mut service, &external_principal(), &id),
        Event::Report(StatusReport { status: Status::Running, module_present: false, .. })
    ));
}

#[test]
fn scenario_c_end_to_end() {
    let mut service = Service::new(MINIMUM);
    let mut run = Orchestrator::new(
        Scenario::Transfer,
        orchestrator_identity(),
        external_principal(),
        Plan { quotas: Quotas::unspecified(), ..plan() },
    );
    let id = match play(&mut service, &mut run) {
        Action::Finish { result } => result.unwrap(),
        other => panic!("unexpected action {:?}", other),
    };
    assert!(matches!(
        status_of(&mut service, &orchestrator_identity(), &id),
        Event::Failed(OpError::NotController)
    ));
    match status_of(&mut service, &external_principal(), &id) {
        Event::Report(report) => {
            assert!(report.module_present);
            assert_eq!(report.controllers.len(), 1);
            assert!(report.controllers[0].same(&external_principal()));
            assert_eq!(report.status, Status::Running);
        }
        other => panic!("unexpected event {:?}", other),
    }
    assert_eq!(service.unit(&id).unwrap().quotas(), (0, 0, 2_592_000));
}

#[test]
fn a_run_with_too_little_credit_creates_nothing() {
    let mut service = Service::new(MINIMUM);
    let mut run = Orchestrator::new(
        Scenario::SelfManaged,
        orchestrator_identity(),
        external_principal(),
        Plan { credit: MINIMUM - 1, ..plan() },
    );
    assert!(matches!(
        play(&mut service, &mut run),
        Action::Abort { error: OpError::InsufficientCredit, created: None }
    ));
    assert_eq!(service.created(), 0);
}

#[test]
fn a_run_with_a_malformed_image_leaves_the_unit_running_and_empty() {
    let mut service = Service::new(MINIMUM);
    let mut run = Orchestrator::new(
        Scenario::Transfer,
        orchestrator_identity(),
        external_principal(),
        Plan { image: vec![1, 2, 3], ..plan() },
    );
    match play(&mut service, &mut run) {
        Action::Abort { error, created } => {
            assert_eq!(error, OpError::InvalidModule);
            assert!(created.unwrap().same(&first_id()));
        }
        other => panic!("unexpected action {:?}", other),
    }
    match status_of(&mut service, &orchestrator_identity(), &first_id()) {
        Event::Report(report) => {
            assert_eq!(report.status, Status::Running);
            assert!(!report.module_present);
            assert!(report.controllers[0].same(&orchestrator_identity()));
        }
        other => panic!("unexpected event {:?}", other),
    }
}

#[test]
fn the_service_gives_each_unit_its_own_identifier() {
    let mut service = Service::new(10);
    let create = || Action::Create {
        controllers: vec![external_principal()],
        quotas: Quotas::unspecified(),
        credit: 10,
    };
    let first = match service.perform(&external_principal(), create()) {
        Event::Created(id) => id,
        other => panic!("unexpected event {:?}", other),
    };
    let second = match service.perform(&external_principal(), create()) {
        Event::Created(id) => id,
        other => panic!("unexpected event {:?}", other),
    };
    assert_eq!(first.as_bytes(), &vec![0u8, 0, 0, 0, 0, 0, 0, 0]);
    assert_eq!(second.as_bytes(), &vec![1u8, 0, 0, 0, 0, 0, 0, 0]);
    assert!(!first.same(&second));
    assert_eq!(service.created(), 2);
    assert!(matches!(service.perform(&external_principal(), Action::Stop { unit: first.duplicate() }), Event::Done));
    assert!(matches!(service.perform(&external_principal(), Action::Delete { unit: first.duplicate() }), Event::Done));
    let third = match service.perform(&external_principal(), create()) {
        Event::Created(id) => id,
        other => panic!("unexpected event {:?}", other),
    };
    assert_eq!(third.as_bytes(), &vec![2u8, 0, 0, 0, 0, 0, 0, 0]);
    assert_eq!(service.unit(&first).unwrap().lifecycle(), Status::Deleted);
    assert_eq!(service.unit(&second).unwrap().lifecycle(), Status::Running);
    assert!(service.unit(&second).unwrap().id().same(&second));
}

#[test]
fn the_service_knows_no_unit_it_did_not_create() {
    let mut service = Service::new(10);
    let nowhere = UnitId::from_bytes(vec![7, 0, 0, 0, 0, 0, 0, 0]);
    let short = UnitId::from_bytes(vec![0]);
    assert!(service.unit(&nowhere).is_none());
    assert!(service.unit(&short).is_none());
    let caller = external_principal();
    assert!(matches!(
        service.perform(&caller, Action::Start { unit: nowhere.duplicate() }),
        Event::Failed(OpError::NotController)
    ));
    assert!(matches!(
        service.perform(&caller, Action::Status { unit: short.duplicate() }),
        Event::Failed(OpError::NotController)
    ));
    let deposit = Action::Deposit { unit: nowhere.duplicate(), amount: 5 };
    assert!(service.accepts(&deposit));
    assert!(matches!(service.perform(&caller, deposit), Event::Failed(OpError::InvalidState)));
    assert!(!service.accepts(&Action::Deposit { unit: nowhere.duplicate(), amount: 0 }));
    assert!(matches!(
        service.perform(&caller, Action::Create { controllers: vec![], quotas: Quotas::unspecified(), credit: 10 }),
        Event::Failed(OpError::EmptyControllerSet)
    ));
    assert!(matches!(
        service.perform(&caller, Action::Create { controllers: vec![external_principal()], quotas: Quotas::unspecified(), credit: 9 }),
        Event::Failed(OpError::InsufficientCredit)
    ));
    assert_eq!(service.created(), 0);
    assert!(matches!(service.perform(&caller, Action::Finish { result: None }), Event::Done));
}

#[test]
fn the_service_takes_deposits_from_anyone_within_range() {
    let mut service = Service::new(10);
    let owner = external_principal();
    let stranger = orchestrator_identity();
    let id = match service.perform(
        &owner,
        Action::Create { controllers: vec![external_principal()], quotas: Quotas::unspecified(), credit: 10 },
    ) {
        Event::Created(id) => id,
        other => panic!("unexpected event {:?}", other),
    };
    let deposit = Action::Deposit { unit: id.duplicate(), amount: 32 };
    assert!(service.accepts(&deposit));
    assert!(matches!(service.perform(&stranger, deposit), Event::Done));
    assert!(matches!(
        status_of(&mut service, &owner, &id),
        Event::Report(StatusReport { balance: 42, .. })
    ));
    assert!(!service.accepts(&Action::Deposit { unit: id.duplicate(), amount: u128::MAX }));
    assert!(service.accepts(&Action::Deposit { unit: id.duplicate(), amount: u128::MAX - 42 }));
}
