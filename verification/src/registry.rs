//! Checking that a service is registered with the admin service.

use vstd::prelude::*;
use crate::text::{option_text, quoted, quoted_text, same_text};

verus! {

/// How far apart the looks of a test are due.
pub const LOOK_INTERVAL_SECS: u64 = 1;

/// The kind of a unit, by the numbers that the admin protocol has for its two sides.
#[derive(Clone, Copy, Debug, PartialEq, Eq, Structural)]
pub struct UnitType {
    pub vm: i32,
    pub service: i32,
}

/// What the registry says of one unit.
#[derive(Debug)]
pub struct QueryResult {
    pub name: String,
    pub vm_type: i32,
    pub service_type: i32,
    pub vm_name: Option<String>,
}

/// A test of the running system.
#[derive(Debug)]
pub enum Test {
    /// The service is registered within `retry` looks, the first at once and each further one
    /// [`LOOK_INTERVAL_SECS`] seconds after the one before it, and of the given type and on the given VM
    /// where they are given.
    Ensure { retry: i32, service: String, unit_type: Option<UnitType>, vm: Option<String> },
}

/// Why a test fails.
#[derive(Clone, Copy, Debug, PartialEq, Eq, Structural)]
pub enum EnsureError {
    WrongType,
    WrongVm,
    NotRegistered,
}

/// What has to be done next in a test.
#[derive(Clone, Copy, Debug, PartialEq, Eq, Structural)]
pub enum EnsureState {
    /// Ask the registry for its list, `wait_secs` seconds after the look before this one was due;
    /// `further` looks remain after this one.
    Query { wait_secs: u64, further: u32 },
    /// The test has passed.
    Passed,
    /// The test has failed.
    Failed { error: EnsureError },
}

/// What one list of the registry says of the service.
#[derive(Clone, Copy, Debug, PartialEq, Eq, Structural)]
pub enum Verdict {
    Absent,
    WrongType,
    WrongVm,
    Registered,
}

/// Whether the first entry of `list` with the name `service` stands at `i`.
pub open spec fn listed_at(list: Seq<QueryResult>, service: Seq<char>, i: int) -> bool {
    &&& 0 <= i < list.len()
    &&& list[i].name@ == service
    &&& forall|j: int| 0 <= j < i ==> (#[trigger] list[j]).name@ != service
}

/// Whether `entry` has a type other than the wanted one.
pub open spec fn type_differs(wanted: Option<UnitType>, entry: QueryResult) -> bool {
    wanted matches Some(t) && (t.vm != entry.vm_type || t.service != entry.service_type)
}

/// Whether `entry` is on a VM other than the wanted one, or on none.
pub open spec fn vm_differs(wanted: Option<String>, entry: QueryResult) -> bool {
    wanted is Some && option_text(wanted) != option_text(entry.vm_name)
}

/// What the entry of the service says.
pub open spec fn entry_verdict(
    unit_type: Option<UnitType>,
    vm: Option<String>,
    entry: QueryResult,
) -> Verdict {
    if type_differs(unit_type, entry) {
        Verdict::WrongType
    } else if vm_differs(vm, entry) {
        Verdict::WrongVm
    } else {
        Verdict::Registered
    }
}

impl Test {
    /// What `list` says of the service: its first entry counts.
    pub open spec fn list_verdict(self, list: Seq<QueryResult>) -> Verdict {
        match self {
            Test::Ensure { service, unit_type, vm, .. } => if exists|i: int|
                listed_at(list, service@, i) {
                entry_verdict(unit_type, vm, list[choose|i: int| listed_at(list, service@, i)])
            } else {
                Verdict::Absent
            },
        }
    }

    /// How often the test may look.
    pub open spec fn looks(self) -> nat {
        match self {
            Test::Ensure { retry, .. } => if retry > 0 {
                retry as nat
            } else {
                0
            },
        }
    }

    /// What has to be done first.
    pub open spec fn first_state(self) -> EnsureState {
        if self.looks() > 0 {
            EnsureState::Query { wait_secs: 0, further: (self.looks() - 1) as u32 }
        } else {
            EnsureState::Failed { error: EnsureError::NotRegistered }
        }
    }

    /// What has to be done after `list` came in. A test that is over stays as it is.
    pub open spec fn next_state(self, state: EnsureState, list: Seq<QueryResult>) -> EnsureState {
        match state {
            EnsureState::Query { further, .. } => match self.list_verdict(list) {
                Verdict::Registered => EnsureState::Passed,
                Verdict::WrongType => EnsureState::Failed { error: EnsureError::WrongType },
                Verdict::WrongVm => EnsureState::Failed { error: EnsureError::WrongVm },
                Verdict::Absent => if further == 0 {
                    EnsureState::Failed { error: EnsureError::NotRegistered }
                } else {
                    EnsureState::Query {
                        wait_secs: LOOK_INTERVAL_SECS,
                        further: (further - 1) as u32,
                    }
                },
            },
            _ => state,
        }
    }

    /// Begins the test.
    pub fn begin(&self) -> (state: EnsureState)
        ensures
            state == self.first_state(),
    {
        match self {
            Test::Ensure { retry, .. } => {
                let retry: i32 = *retry;
                if retry > 0 {
                    EnsureState::Query { wait_secs: 0, further: (retry - 1) as u32 }
                } else {
                    EnsureState::Failed { error: EnsureError::NotRegistered }
                }
            },
        }
    }

    /// What `list` says of the service.
    pub fn judge(&self, list: &Vec<QueryResult>) -> (verdict: Verdict)
        ensures
            verdict == self.list_verdict(list@),
    {
        match self {
            Test::Ensure { service, unit_type, vm, .. } => {
                let n: usize = list.len();
                let mut i: usize = 0;
                while i < n
                    invariant
                        i <= n,
                        n == list@.len(),
                        forall|j: int| 0 <= j < i ==> (#[trigger] list@[j]).name@ != service@,
                        *self matches Test::Ensure { service: s, unit_type: t, vm: v, .. } && s
                            == *service && t == *unit_type && v == *vm,
                    decreases n - i,
                {
                    let entry: &QueryResult = &list[i];
                    if entry.name == *service {
                        assert(listed_at(list@, service@, i as int));
                        proof {
                            lemma_listed_once(list@, service@, i as int);
                        }
                        if let Some(t) = unit_type {
                            if t.vm != entry.vm_type || t.service != entry.service_type {
                                return Verdict::WrongType;
                            }
                        }
                        if vm.is_some() && !same_text(vm, &entry.vm_name) {
                            return Verdict::WrongVm;
                        }
                        return Verdict::Registered;
                    }
                    i += 1;
                }
                Verdict::Absent
            },
        }
    }

    /// Goes on with the test after `list` came in. A test that is over stays as it is.
    pub fn handle(&self, state: EnsureState, list: &Vec<QueryResult>) -> (next: EnsureState)
        ensures
            next == self.next_state(state, list@),
    {
        match state {
            EnsureState::Query { further, .. } => match self.judge(list) {
                Verdict::Registered => EnsureState::Passed,
                Verdict::WrongType => EnsureState::Failed { error: EnsureError::WrongType },
                Verdict::WrongVm => EnsureState::Failed { error: EnsureError::WrongVm },
                Verdict::Absent => if further == 0 {
                    EnsureState::Failed { error: EnsureError::NotRegistered }
                } else {
                    EnsureState::Query { wait_secs: LOOK_INTERVAL_SECS, further: further - 1 }
                },
            },
            _ => state,
        }
    }

    /// What the test has come to after `lists` came in, one after the other.
    pub open spec fn state_after(self, lists: Seq<Seq<QueryResult>>) -> EnsureState
        decreases lists.len(),
    {
        if lists.len() == 0 {
            self.first_state()
        } else {
            self.next_state(self.state_after(lists.drop_last()), lists.last())
        }
    }

    /// Whether `lists[k]` is the first one that holds the service, and the test gets to see it.
    pub open spec fn found_at(self, lists: Seq<Seq<QueryResult>>, k: int) -> bool {
        &&& 0 <= k < lists.len()
        &&& k < self.looks()
        &&& self.list_verdict(lists[k]) != Verdict::Absent
        &&& forall|j: int| 0 <= j < k ==> self.list_verdict(#[trigger] lists[j]) == Verdict::Absent
    }
}

proof fn lemma_listed_once(list: Seq<QueryResult>, service: Seq<char>, i: int)
    requires
        listed_at(list, service, i),
    ensures
        forall|k: int| #[trigger] listed_at(list, service, k) ==> k == i,
{
    assert forall|k: int| #[trigger] listed_at(list, service, k) implies k == i by {
        if k < i {
            assert(list[k].name@ != service);
        }
        if i < k {
            assert(list[i].name@ != service);
        }
    }
}

/// The first list that holds the service decides the test, and no later list changes that.
pub proof fn law_first_sighting_decides(test: Test, lists: Seq<Seq<QueryResult>>, k: int)
    requires
        test.found_at(lists, k),
    ensures
        test.state_after(lists) == (match test.list_verdict(lists[k]) {
            Verdict::WrongType => EnsureState::Failed { error: EnsureError::WrongType },
            Verdict::WrongVm => EnsureState::Failed { error: EnsureError::WrongVm },
            _ => EnsureState::Passed,
        }),
    decreases lists.len(),
{
    let before = lists.drop_last();
    if k < lists.len() - 1 {
        assert forall|j: int| 0 <= j < k implies test.list_verdict(#[trigger] before[j])
            == Verdict::Absent by {
            assert(before[j] == lists[j]);
        }
        law_first_sighting_decides(test, before, k);
    } else {
        assert forall|j: int| 0 <= j < before.len() implies test.list_verdict(#[trigger] before[j])
            == Verdict::Absent by {
            assert(before[j] == lists[j]);
        }
        law_unseen_service_fails_in_the_end(test, before);
    }
}

/// As long as no list holds the service, the test goes on looking; after its last look it fails
/// as not registered.
pub proof fn law_unseen_service_fails_in_the_end(test: Test, lists: Seq<Seq<QueryResult>>)
    requires
        forall|j: int|
            0 <= j < lists.len() ==> test.list_verdict(#[trigger] lists[j]) == Verdict::Absent,
    ensures
        test.state_after(lists) == (if lists.len() < test.looks() {
            EnsureState::Query {
                wait_secs: if lists.len() == 0 {
                    0
                } else {
                    LOOK_INTERVAL_SECS
                },
                further: (test.looks() - 1 - lists.len()) as u32,
            }
        } else {
            EnsureState::Failed { error: EnsureError::NotRegistered }
        }),
    decreases lists.len(),
{
    if lists.len() > 0 {
        let before = lists.drop_last();
        assert forall|j: int| 0 <= j < before.len() implies test.list_verdict(#[trigger] before[j])
            == Verdict::Absent by {
            assert(before[j] == lists[j]);
        }
        law_unseen_service_fails_in_the_end(test, before);
        assert(test.list_verdict(lists[lists.len() - 1]) == Verdict::Absent);
    }
}

/// The test never looks more often than it may: after that many lists it is over.
pub proof fn law_looks_are_bounded(test: Test, lists: Seq<Seq<QueryResult>>)
    ensures
        test.state_after(lists) matches EnsureState::Query { further, .. } ==> lists.len() + 1 + further
            == test.looks(),
    decreases lists.len(),
{
    if lists.len() > 0 {
        law_looks_are_bounded(test, lists.drop_last());
    }
}

/// The first look of a test is made at once, and every further one a fixed interval after the one
/// before it was due.
pub proof fn law_looks_are_evenly_spaced(test: Test, lists: Seq<Seq<QueryResult>>)
    ensures
        test.state_after(lists) matches EnsureState::Query { wait_secs, .. } ==> wait_secs == (
        if lists.len() == 0 {
            0
        } else {
            LOOK_INTERVAL_SECS
        }),
{
}

/// A service of the wrong type is reported as that, wherever it runs.
pub proof fn law_wrong_type_comes_first(
    unit_type: Option<UnitType>,
    vm: Option<String>,
    entry: QueryResult,
)
    ensures
        entry_verdict(unit_type, vm, entry) == Verdict::WrongType <==> type_differs(
            unit_type,
            entry,
        ),
        entry_verdict(unit_type, vm, entry) == Verdict::WrongVm <==> !type_differs(unit_type, entry)
            && vm_differs(vm, entry),
{
}

/// What the user is told of a failed test.
pub open spec fn failure_text(error: EnsureError, service: Seq<char>) -> Seq<char> {
    quoted_text(
        "test failed '"@,
        service,
        match error {
            EnsureError::WrongType => "' registered but of wrong type"@,
            EnsureError::WrongVm => "' registered but on wrong VM"@,
            EnsureError::NotRegistered => "' not registered"@,
        },
    )
}

impl EnsureError {
    /// What the user is told of a failed test for `service`.
    pub fn message(&self, service: &str) -> (text: String)
        ensures
            text@ == failure_text(*self, service@),
    {
        let end: &str = match self {
            EnsureError::WrongType => "' registered but of wrong type",
            EnsureError::WrongVm => "' registered but on wrong VM",
            EnsureError::NotRegistered => "' not registered",
        };
        quoted("test failed '", service, end)
    }
}

/// The first entry named like the service decides what a list says of it, and entries behind it
/// have no say. It is of the wrong type exactly where a type is given and either side of it
/// differs; otherwise on the wrong VM exactly where a VM is given and the entry is on another one
/// or on none; and otherwise registered.
pub proof fn law_first_entry_decides(
    retry: i32,
    service: String,
    unit_type: Option<UnitType>,
    vm: Option<String>,
    list: Seq<QueryResult>,
    i: int,
)
    requires
        0 <= i < list.len(),
        list[i].name@ == service@,
        forall|j: int| 0 <= j < i ==> (#[trigger] list[j]).name@ != service@,
    ensures
        (Test::Ensure { retry, service, unit_type, vm }).list_verdict(list) == (if (unit_type
            matches Some(t) && !(t.vm == list[i].vm_type && t.service == list[i].service_type)) {
            Verdict::WrongType
        } else if (vm matches Some(wanted) && !(list[i].vm_name matches Some(actual) && actual@
            == wanted@)) {
            Verdict::WrongVm
        } else {
            Verdict::Registered
        }),
{
    assert(listed_at(list, service@, i));
    lemma_listed_once(list, service@, i);
}

/// A list says that the service is absent exactly where no entry has its name.
pub proof fn law_absent_without_an_entry(
    retry: i32,
    service: String,
    unit_type: Option<UnitType>,
    vm: Option<String>,
    list: Seq<QueryResult>,
)
    ensures
        (Test::Ensure { retry, service, unit_type, vm }).list_verdict(list) == Verdict::Absent
            <==> forall|i: int| 0 <= i < list.len() ==> (#[trigger] list[i]).name@ != service@,
{
    if exists|i: int| 0 <= i < list.len() && (#[trigger] list[i]).name@ == service@ {
        let i = choose|i: int| 0 <= i < list.len() && (#[trigger] list[i]).name@ == service@;
        lemma_first_listed(list, service@, i);
        let k = choose|k: int| listed_at(list, service@, k);
        law_first_entry_decides(retry, service, unit_type, vm, list, k);
    }
}

proof fn lemma_first_listed(list: Seq<QueryResult>, service: Seq<char>, i: int)
    requires
        0 <= i < list.len(),
        list[i].name@ == service,
    ensures
        exists|k: int| listed_at(list, service, k),
    decreases i,
{
    if exists|j: int| 0 <= j < i && (#[trigger] list[j]).name@ == service {
        let j = choose|j: int| 0 <= j < i && (#[trigger] list[j]).name@ == service;
        lemma_first_listed(list, service, j);
    } else {
        assert(listed_at(list, service, i));
    }
}

/// A test begins with a look made at once where it may look at all, and fails without one
/// otherwise; what it is looking for makes no difference.
pub proof fn law_test_begins_with_a_look(
    retry: i32,
    service: String,
    unit_type: Option<UnitType>,
    vm: Option<String>,
)
    ensures
        (Test::Ensure { retry, service, unit_type, vm }).looks() == (if retry > 0 {
            retry as int
        } else {
            0
        }),
        retry <= 0 ==> (Test::Ensure { retry, service, unit_type, vm }).first_state() == (
        EnsureState::Failed { error: EnsureError::NotRegistered }),
        retry > 0 ==> ((Test::Ensure { retry, service, unit_type, vm }).first_state() matches
            EnsureState::Query { wait_secs, further } && wait_secs == 0 && further + 1 == retry),
{
}

/// After a look the test goes by what the list says: it passes, fails for the reason found, looks
/// again a second later with one look less to come, or fails where that was the last look.
pub proof fn law_look_follows_the_verdict(
    test: Test,
    wait_secs: u64,
    further: u32,
    list: Seq<QueryResult>,
)
    ensures
        match test.list_verdict(list) {
            Verdict::Registered => test.next_state(EnsureState::Query { wait_secs, further }, list)
                == EnsureState::Passed,
            Verdict::WrongType => test.next_state(EnsureState::Query { wait_secs, further }, list)
                == (EnsureState::Failed { error: EnsureError::WrongType }),
            Verdict::WrongVm => test.next_state(EnsureState::Query { wait_secs, further }, list)
                == (EnsureState::Failed { error: EnsureError::WrongVm }),
            Verdict::Absent => if further == 0 {
                test.next_state(EnsureState::Query { wait_secs, further }, list) == (
                EnsureState::Failed { error: EnsureError::NotRegistered })
            } else {
                test.next_state(EnsureState::Query { wait_secs, further }, list) matches
                    EnsureState::Query { wait_secs: w, further: f } && w == 1 && f + 1 == further
            },
        },
{
}

/// A test that is over stays as it is, whatever list comes in.
pub proof fn law_verdict_is_final(test: Test, state: EnsureState, list: Seq<QueryResult>)
    requires
        !(state is Query),
    ensures
        test.next_state(state, list) == state,
{
}

/// A failed test names the service in quotes and says what is wrong with it.
pub proof fn law_failures_name_the_service(service: Seq<char>)
    ensures
        failure_text(EnsureError::WrongType, service) == "test failed '"@ + service
            + "' registered but of wrong type"@,
        failure_text(EnsureError::WrongVm, service) == "test failed '"@ + service
            + "' registered but on wrong VM"@,
        failure_text(EnsureError::NotRegistered, service) == "test failed '"@ + service
            + "' not registered"@,
{
}

} // verus!
