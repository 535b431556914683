use givc_cli::registry::{
    EnsureError, EnsureState, QueryResult, Test, UnitType, Verdict, LOOK_INTERVAL_SECS,
};

fn entry(name: &str, vm_type: i32, service_type: i32, vm_name: Option<&str>) -> QueryResult {
    QueryResult {
        name: name.to_string(),
        vm_type,
        service_type,
        vm_name: vm_name.map(|s| s.to_string()),
    }
}

fn ensure(retry: i32, unit_type: Option<UnitType>, vm: Option<&str>) -> Test {
    Test::Ensure {
        retry,
        service: "svc".to_string(),
        unit_type,
        vm: vm.map(|s| s.to_string()),
    }
}

#[test]
fn verdicts() {
    let list = vec![
        entry("other", 1, 1, None),
        entry("svc", 2, 3, Some("net-vm")),
        entry("svc", 9, 9, None),
    ];
    let kind = |vm, service| Some(UnitType { vm, service });
    assert_eq!(ensure(1, None, None).judge(&list), Verdict::Registered);
    assert_eq!(ensure(1, kind(2, 3), Some("net-vm")).judge(&list), Verdict::Registered);
    assert_eq!(ensure(1, kind(9, 9), None).judge(&list), Verdict::WrongType);
    assert_eq!(ensure(1, kind(2, 4), None).judge(&list), Verdict::WrongType);
    assert_eq!(ensure(1, kind(1, 3), Some("gui-vm")).judge(&list), Verdict::WrongType);
    assert_eq!(ensure(1, kind(2, 3), Some("gui-vm")).judge(&list), Verdict::WrongVm);
    assert_eq!(ensure(1, None, None).judge(&vec![]), Verdict::Absent);
    assert_eq!(ensure(1, None, None).judge(&vec![entry("svc2", 0, 0, None)]), Verdict::Absent);
}

#[test]
fn service_on_no_vm_is_on_the_wrong_one() {
    let list = vec![entry("svc", 0, 0, None)];
    assert_eq!(ensure(1, None, Some("net-vm")).judge(&list), Verdict::WrongVm);
    assert_eq!(ensure(1, None, None).judge(&list), Verdict::Registered);
}

#[test]
fn without_looks_the_test_fails_at_once() {
    let failed = EnsureState::Failed { error: EnsureError::NotRegistered };
    assert_eq!(ensure(0, None, None).begin(), failed);
    assert_eq!(ensure(-5, None, None).begin(), failed);
    assert_eq!(ensure(i32::MIN, None, None).begin(), failed);
    assert_eq!(
        ensure(i32::MAX, None, None).begin(),
        EnsureState::Query { wait_secs: 0, further: i32::MAX as u32 - 1 }
    );
}

#[test]
fn looks_are_counted() {
    let test = ensure(3, None, None);
    let none = vec![];
    let mut state = test.begin();
    let mut looks = 0;
    while let EnsureState::Query { .. } = state {
        looks += 1;
        state = test.handle(state, &none);
    }
    assert_eq!(looks, 3);
    assert_eq!(state, EnsureState::Failed { error: EnsureError::NotRegistered });
}

#[test]
fn looks_are_a_second_apart() {
    assert_eq!(LOOK_INTERVAL_SECS, 1);
    let test = ensure(4, None, None);
    let mut state = test.begin();
    let mut waits = vec![];
    while let EnsureState::Query { wait_secs, .. } = state {
        waits.push(wait_secs);
        state = test.handle(state, &vec![]);
    }
    assert_eq!(waits, vec![0, 1, 1, 1]);
}

#[test]
fn first_sighting_decides() {
    let test = ensure(3, Some(UnitType { vm: 1, service: 1 }), Some("a"));
    let wrong_type = vec![entry("svc", 1, 2, Some("a"))];
    let wrong_vm = vec![entry("svc", 1, 1, Some("b"))];
    let right = vec![entry("svc", 1, 1, Some("a"))];
    let state = test.handle(test.begin(), &vec![]);
    assert_eq!(state, EnsureState::Query { wait_secs: 1, further: 1 });
    assert_eq!(test.handle(state, &right), EnsureState::Passed);
    let failed = test.handle(state, &wrong_type);
    assert_eq!(failed, EnsureState::Failed { error: EnsureError::WrongType });
    assert_eq!(test.handle(failed, &right), failed);
    assert_eq!(
        test.handle(state, &wrong_vm),
        EnsureState::Failed { error: EnsureError::WrongVm }
    );
    assert_eq!(test.handle(EnsureState::Passed, &wrong_vm), EnsureState::Passed);
}

#[test]
fn failures_are_explained() {
    assert_eq!(
        EnsureError::WrongType.message("svc"),
        "test failed 'svc' registered but of wrong type"
    );
    assert_eq!(EnsureError::WrongVm.message("svc"), "test failed 'svc' registered but on wrong VM");
    assert_eq!(EnsureError::NotRegistered.message("svc"), "test failed 'svc' not registered");
}
