//! The commands that a user can give, and the work that each of them stands for.
//!
//! `Q` and `C` stand for the options of the update query and of the Cachix pin, which are handed
//! on as they are.

use vstd::prelude::*;
use crate::locale_settings::{
    locales_requested, parse_locales, settings, LocaleAssignment, LocaleError, LocaleFault, LocaleKey,
    LocaleMacroKey,
};
use crate::registry::Test;
use crate::report::{dump, format_for, Format};
use crate::text::{lemma_split_joined, split_first, split_once, texts};
use crate::watch::WatchLimit;

verus! {

/// What to start.
#[derive(Debug)]
pub enum StartSub {
    App { app: String, vm: String, args: Vec<String> },
    Vm { vm: String },
    /// With `direct`, the unit start goes straight to the agent of the target VM.
    Service { servicename: String, vm: String, direct: bool },
}

/// What to do about updates.
#[derive(Debug)]
pub enum UpdateSub<Q, C> {
    Query { query: Q },
    List,
    Cachix { options: C },
}

/// A notification for the user of a VM.
#[derive(Debug)]
pub struct Notification {
    pub vm: String,
    pub event: String,
    pub title: String,
    pub urgency: String,
    pub icon: String,
    pub message: String,
}

/// A command of the user.
#[derive(Debug)]
pub enum Commands<Q, C> {
    Start { start: StartSub },
    Stop { app: String },
    Pause { app: String },
    Resume { app: String },
    Reboot,
    Poweroff,
    Suspend,
    Wakeup,
    Sysinfo,
    Query { as_json: bool, by_type: Option<u32>, by_name: Vec<String> },
    QueryList { as_json: bool },
    GetStatus { vm_name: String, unit_name: String },
    SetLocale { locales: Vec<String> },
    SetTimezone { timezone: String },
    GetStats { vm_name: String },
    Watch { as_json: bool, initial: bool, limit: Option<u32> },
    NotifyUser { notification: Notification },
    Update { update: UpdateSub<Q, C> },
    Test { test: Test },
    Ctap { op: String },
}

/// A call to the admin service.
#[derive(Debug)]
pub enum Call<C> {
    StartApp { app: String, vm: String, args: Vec<String> },
    StartVm { vm: String },
    StartService { servicename: String, vm: String },
    Stop { app: String },
    Pause { app: String },
    Resume { app: String },
    Reboot,
    Poweroff,
    Suspend,
    Wakeup,
    Sysinfo,
    Query { by_type: Option<u32>, by_name: Vec<String> },
    QueryList,
    GetStatus { vm_name: String, unit_name: String },
    SetLocales { assignments: Vec<LocaleAssignment> },
    SetTimezone { timezone: String },
    GetStats { vm_name: String },
    NotifyUser { notification: Notification },
    ListGenerations,
    SetGenerationCachix { options: C },
    Ctap { op: String, args: Vec<String> },
}

/// What is printed of the reply to a call.
#[derive(Clone, Copy, Debug, PartialEq, Eq, Structural)]
pub enum Report {
    /// Nothing.
    Silent,
    /// Its debug rendering, with no end of line.
    Debug,
    /// Its debug rendering on a line of its own.
    DebugLine,
    /// The lines of the system's state.
    Sysinfo,
    /// The whole of it, in this form.
    Dump { format: Format },
    /// Its bytes.
    Raw,
}

/// The work that a command stands for.
#[derive(Debug)]
pub enum Job<Q, C> {
    /// One call, and what is printed of the reply.
    Ask { call: Call<C>, report: Report },
    /// Following the registry: the present list first where `initial` says so, then as many
    /// messages as `limit` lets through.
    Watch { format: Format, initial: bool, limit: WatchLimit },
    /// A test of the running system.
    Ensure { test: Test },
    /// A query for updates, which needs no admin service.
    QueryUpdates { query: Q },
}

impl StartSub {
    /// The call that starts it.
    pub open spec fn start_call<C>(self) -> Call<C> {
        match self {
            StartSub::App { app, vm, args } => Call::StartApp { app, vm, args },
            StartSub::Vm { vm } => Call::StartVm { vm },
            StartSub::Service { servicename, vm, .. } => Call::StartService { servicename, vm },
        }
    }

    /// The call that starts it by way of the admin service.
    pub fn start<C>(self) -> (call: Call<C>)
        ensures
            call == self.start_call::<C>(),
    {
        match self {
            StartSub::App { app, vm, args } => Call::StartApp { app, vm, args },
            StartSub::Vm { vm } => Call::StartVm { vm },
            StartSub::Service { servicename, vm, direct: _ } => Call::StartService {
                servicename,
                vm,
            },
        }
    }
}

impl<Q, C> UpdateSub<Q, C> {
    /// The work that it stands for.
    pub open spec fn update_job(self) -> Job<Q, C> {
        match self {
            UpdateSub::Query { query } => Job::QueryUpdates { query },
            UpdateSub::List => Job::Ask {
                call: Call::ListGenerations,
                report: Report::DebugLine,
            },
            UpdateSub::Cachix { options } => Job::Ask {
                call: Call::SetGenerationCachix { options },
                report: Report::Silent,
            },
        }
    }

    /// The work that it stands for.
    pub fn handle(self) -> (job: Job<Q, C>)
        ensures
            job == self.update_job(),
    {
        match self {
            UpdateSub::Query { query } => Job::QueryUpdates { query },
            UpdateSub::List => Job::Ask { call: Call::ListGenerations, report: Report::DebugLine },
            UpdateSub::Cachix { options } => Job::Ask {
                call: Call::SetGenerationCachix { options },
                report: Report::Silent,
            },
        }
    }
}

/// The work of notifying a user: the reply is printed with no end of line.
pub fn notify_user<Q, C>(notification: Notification) -> (job: Job<Q, C>)
    ensures
        job == (Job::<Q, C>::Ask {
            call: Call::NotifyUser { notification },
            report: Report::Debug,
        }),
{
    Job::Ask { call: Call::NotifyUser { notification }, report: Report::Debug }
}

/// The operation and the arguments in the text of a CTAP command: what stands behind the first
/// plus sign is the one argument.
pub open spec fn ctap_request(operation: Seq<char>) -> (Seq<char>, Seq<Seq<char>>) {
    match split_first(operation, '+') {
        Some((op, arg)) => (op, seq![arg]),
        None => (operation, Seq::empty()),
    }
}

/// Splits the text of a CTAP command into the operation and its arguments.
pub fn ctap(operation: String) -> (request: (String, Vec<String>))
    ensures
        (request.0@, texts(request.1@)) == ctap_request(operation@),
{
    let mut args: Vec<String> = Vec::new();
    let op: Option<String> = match split_once(operation.as_str(), '+') {
        Some((op, arg)) => {
            args.push(arg.to_owned());
            assert(texts(args@) =~= seq![arg@]);
            Some(op.to_owned())
        },
        None => None,
    };
    match op {
        Some(op) => (op, args),
        None => {
            assert(texts(args@) =~= Seq::empty());
            (operation, args)
        },
    }
}

/// An operation and an argument joined by a plus sign are told apart again, also where the
/// argument holds further plus signs; an operation by itself has no argument.
pub proof fn law_ctap_parts_are_told_apart(op: Seq<char>, arg: Seq<char>)
    requires
        !op.contains('+'),
    ensures
        ctap_request(op + seq!['+'] + arg) == (op, seq![arg]),
        ctap_request(op) == (op, Seq::<Seq<char>>::empty()),
{
    lemma_split_joined(op, '+', arg);
    op.index_of_first_ensures('+');
}

/// The unit that a command asks to start directly at an agent.
pub open spec fn direct_target<Q, C>(command: Commands<Q, C>) -> Option<Seq<char>> {
    match command {
        Commands::Start { start: StartSub::Service { servicename, direct: true, .. } } => Some(
            servicename@,
        ),
        _ => None,
    }
}

/// If `command` starts a service with `--direct`, the name of the target unit.
pub fn direct_service_target<Q, C>(command: &Commands<Q, C>) -> (unit: Option<&str>)
    ensures
        match unit {
            Some(name) => direct_target(*command) == Some(name@),
            None => direct_target(*command) is None,
        },
{
    match command {
        Commands::Start { start: StartSub::Service { servicename, direct, .. } } => {
            if *direct {
                Some(servicename.as_str())
            } else {
                None
            }
        },
        _ => None,
    }
}

impl<Q, C> Commands<Q, C> {
    /// The work that a command stands for, where no text has to be read for it: of all commands
    /// but `SetLocale` and `Ctap`.
    pub open spec fn plain_job(self) -> Job<Q, C> {
        match self {
            Commands::Start { start } => Job::Ask {
                call: start.start_call::<C>(),
                report: Report::DebugLine,
            },
            Commands::Stop { app } => Job::Ask { call: Call::Stop { app }, report: Report::Silent },
            Commands::Pause { app } => Job::Ask {
                call: Call::Pause { app },
                report: Report::Silent,
            },
            Commands::Resume { app } => Job::Ask {
                call: Call::Resume { app },
                report: Report::Silent,
            },
            Commands::Reboot => Job::Ask { call: Call::Reboot, report: Report::Silent },
            Commands::Poweroff => Job::Ask { call: Call::Poweroff, report: Report::Silent },
            Commands::Suspend => Job::Ask { call: Call::Suspend, report: Report::Silent },
            Commands::Wakeup => Job::Ask { call: Call::Wakeup, report: Report::Silent },
            Commands::Sysinfo => Job::Ask { call: Call::Sysinfo, report: Report::Sysinfo },
            Commands::Query { as_json, by_type, by_name } => Job::Ask {
                call: Call::Query { by_type, by_name },
                report: Report::Dump { format: format_for(as_json) },
            },
            Commands::QueryList { as_json } => Job::Ask {
                call: Call::QueryList,
                report: Report::Dump { format: format_for(as_json) },
            },
            Commands::GetStatus { vm_name, unit_name } => Job::Ask {
                call: Call::GetStatus { vm_name, unit_name },
                report: Report::Debug,
            },
            Commands::SetTimezone { timezone } => Job::Ask {
                call: Call::SetTimezone { timezone },
                report: Report::Silent,
            },
            Commands::GetStats { vm_name } => Job::Ask {
                call: Call::GetStats { vm_name },
                report: Report::DebugLine,
            },
            Commands::Watch { as_json, initial, limit } => Job::Watch {
                format: format_for(as_json),
                initial,
                limit: WatchLimit { left: limit },
            },
            Commands::NotifyUser { notification } => Job::Ask {
                call: Call::NotifyUser { notification },
                report: Report::Debug,
            },
            Commands::Update { update } => update.update_job(),
            Commands::Test { test } => Job::Ensure { test },
            Commands::SetLocale { .. } | Commands::Ctap { .. } => arbitrary(),
        }
    }

    /// The work that the command stands for. Only a locale request can be refused.
    pub fn job(self, catalogue: &Vec<LocaleKey>) -> (result: Result<Job<Q, C>, LocaleError>)
        ensures
            match self {
                Commands::SetLocale { locales } => match result {
                    Ok(job) => {
                        &&& job matches Job::Ask {
                            call: Call::SetLocales { assignments },
                            report: Report::Silent,
                        }
                        &&& locales_requested(catalogue@, texts(locales@)) == Ok::<_, LocaleFault>(
                            settings(assignments@),
                        )
                    },
                    Err(error) => locales_requested(catalogue@, texts(locales@)) == Err::<
                        Seq<(LocaleMacroKey, Seq<char>)>,
                        _,
                    >(error@),
                },
                Commands::Ctap { op } => {
                    &&& result matches Ok(
                        Job::Ask { call: Call::Ctap { op: operation, args }, report: Report::Raw },
                    )
                    &&& ctap_request(op@) == (operation@, texts(args@))
                },
                _ => result == Ok::<_, LocaleError>(self.plain_job()),
            },
    {
        let job: Job<Q, C> = match self {
            Commands::Start { start } => Job::Ask {
                call: start.start(),
                report: Report::DebugLine,
            },
            Commands::Stop { app } => Job::Ask { call: Call::Stop { app }, report: Report::Silent },
            Commands::Pause { app } => Job::Ask {
                call: Call::Pause { app },
                report: Report::Silent,
            },
            Commands::Resume { app } => Job::Ask {
                call: Call::Resume { app },
                report: Report::Silent,
            },
            Commands::Reboot => Job::Ask { call: Call::Reboot, report: Report::Silent },
            Commands::Poweroff => Job::Ask { call: Call::Poweroff, report: Report::Silent },
            Commands::Suspend => Job::Ask { call: Call::Suspend, report: Report::Silent },
            Commands::Wakeup => Job::Ask { call: Call::Wakeup, report: Report::Silent },
            Commands::Sysinfo => Job::Ask { call: Call::Sysinfo, report: Report::Sysinfo },
            Commands::Query { as_json, by_type, by_name } => Job::Ask {
                call: Call::Query { by_type, by_name },
                report: Report::Dump { format: dump(as_json) },
            },
            Commands::QueryList { as_json } => Job::Ask {
                call: Call::QueryList,
                report: Report::Dump { format: dump(as_json) },
            },
            Commands::GetStatus { vm_name, unit_name } => Job::Ask {
                call: Call::GetStatus { vm_name, unit_name },
                report: Report::Debug,
            },
            Commands::SetLocale { locales } => match parse_locales(locales, catalogue) {
                Ok(assignments) => Job::Ask {
                    call: Call::SetLocales { assignments },
                    report: Report::Silent,
                },
                Err(error) => {
                    return Err(error);
                },
            },
            Commands::SetTimezone { timezone } => Job::Ask {
                call: Call::SetTimezone { timezone },
                report: Report::Silent,
            },
            Commands::GetStats { vm_name } => Job::Ask {
                call: Call::GetStats { vm_name },
                report: Report::DebugLine,
            },
            Commands::Watch { as_json, initial, limit } => Job::Watch {
                format: dump(as_json),
                initial,
                limit: WatchLimit::new(limit),
            },
            Commands::Ctap { op } => {
                let (op, args) = ctap(op);
                Job::Ask { call: Call::Ctap { op, args }, report: Report::Raw }
            },
            Commands::NotifyUser { notification } => notify_user(notification),
            Commands::Update { update } => update.handle(),
            Commands::Test { test } => Job::Ensure { test },
        };
        Ok(job)
    }
}

/// Starting an app, a VM or a service hands on just the names and arguments that were given, and
/// the reply is printed on a line. Whether a service start was to be direct makes no difference
/// here.
pub proof fn law_starts_hand_on_what_was_given<Q, C>(
    app: String,
    vm: String,
    args: Vec<String>,
    servicename: String,
    direct: bool,
)
    ensures
        (StartSub::App { app, vm, args }).start_call::<C>() == (Call::<C>::StartApp {
            app,
            vm,
            args,
        }),
        (StartSub::Vm { vm }).start_call::<C>() == (Call::<C>::StartVm { vm }),
        (StartSub::Service { servicename, vm, direct }).start_call::<C>() == (
        Call::<C>::StartService { servicename, vm }),
        (Commands::<Q, C>::Start { start: StartSub::App { app, vm, args } }).plain_job() == (Job::<Q, C>::Ask {
            call: Call::StartApp { app, vm, args },
            report: Report::DebugLine,
        }),
        (Commands::<Q, C>::Start { start: StartSub::Vm { vm } }).plain_job() == (Job::<Q, C>::Ask {
            call: Call::StartVm { vm },
            report: Report::DebugLine,
        }),
        (Commands::<Q, C>::Start { start: StartSub::Service { servicename, vm, direct } }).plain_job() == (Job::<Q, C>::Ask {
            call: Call::StartService { servicename, vm },
            report: Report::DebugLine,
        }),
{
}

/// Stopping, pausing and resuming name the app that was given, and print nothing.
pub proof fn law_apps_are_controlled_by_name<Q, C>(app: String)
    ensures
        (Commands::<Q, C>::Stop { app }).plain_job() == (Job::<Q, C>::Ask {
            call: Call::Stop { app },
            report: Report::Silent,
        }),
        (Commands::<Q, C>::Pause { app }).plain_job() == (Job::<Q, C>::Ask {
            call: Call::Pause { app },
            report: Report::Silent,
        }),
        (Commands::<Q, C>::Resume { app }).plain_job() == (Job::<Q, C>::Ask {
            call: Call::Resume { app },
            report: Report::Silent,
        }),
{
}

/// Each command on the whole system asks for just that, and only the system's state prints
/// anything.
pub proof fn law_system_commands<Q, C>()
    ensures
        (Commands::<Q, C>::Reboot).plain_job() == (Job::<Q, C>::Ask {
            call: Call::Reboot,
            report: Report::Silent,
        }),
        (Commands::<Q, C>::Poweroff).plain_job() == (Job::<Q, C>::Ask {
            call: Call::Poweroff,
            report: Report::Silent,
        }),
        (Commands::<Q, C>::Suspend).plain_job() == (Job::<Q, C>::Ask {
            call: Call::Suspend,
            report: Report::Silent,
        }),
        (Commands::<Q, C>::Wakeup).plain_job() == (Job::<Q, C>::Ask {
            call: Call::Wakeup,
            report: Report::Silent,
        }),
        (Commands::<Q, C>::Sysinfo).plain_job() == (Job::<Q, C>::Ask {
            call: Call::Sysinfo,
            report: Report::Sysinfo,
        }),
{
}

/// A query asks with its filters unchanged, whether or not they are given, and the reply is
/// printed whole in the form that the switch asks for; so is the list of all units.
pub proof fn law_queries_keep_their_filters<Q, C>(
    as_json: bool,
    by_type: Option<u32>,
    by_name: Vec<String>,
)
    ensures
        (Commands::<Q, C>::Query { as_json, by_type, by_name }).plain_job() == (Job::<Q, C>::Ask {
            call: Call::Query { by_type, by_name },
            report: Report::Dump { format: if as_json { Format::Json } else { Format::Pretty } },
        }),
        (Commands::<Q, C>::QueryList { as_json }).plain_job() == (Job::<Q, C>::Ask {
            call: Call::QueryList,
            report: Report::Dump { format: if as_json { Format::Json } else { Format::Pretty } },
        }),
{
}

/// Asking for a status or for statistics names the VM and the unit that were given; only the
/// statistics end their line.
pub proof fn law_details_are_asked_by_name<Q, C>(vm_name: String, unit_name: String)
    ensures
        (Commands::<Q, C>::GetStatus { vm_name, unit_name }).plain_job() == (Job::<Q, C>::Ask {
            call: Call::GetStatus { vm_name, unit_name },
            report: Report::Debug,
        }),
        (Commands::<Q, C>::GetStats { vm_name }).plain_job() == (Job::<Q, C>::Ask {
            call: Call::GetStats { vm_name },
            report: Report::DebugLine,
        }),
{
}

/// The time zone is set as it was given, and nothing is printed.
pub proof fn law_timezone_is_set_as_given<Q, C>(timezone: String)
    ensures
        (Commands::<Q, C>::SetTimezone { timezone }).plain_job() == (Job::<Q, C>::Ask {
            call: Call::SetTimezone { timezone },
            report: Report::Silent,
        }),
{
}

/// A notification is sent as it was given, and the reply printed with no end of line.
pub proof fn law_notification_is_sent_as_given<Q, C>(notification: Notification)
    ensures
        (Commands::<Q, C>::NotifyUser { notification }).plain_job() == (Job::<Q, C>::Ask {
            call: Call::NotifyUser { notification },
            report: Report::Debug,
        }),
{
}

/// A watch shows the present list exactly where that was asked for, in the form that the switch
/// asks for, and has the limit that was given, or none.
pub proof fn law_watch_keeps_its_options<Q, C>(as_json: bool, initial: bool, limit: Option<u32>)
    ensures
        (Commands::<Q, C>::Watch { as_json, initial, limit }).plain_job() matches Job::Watch {
            format,
            initial: shown,
            limit: counter,
        } && shown == initial && counter.left == limit && (format == Format::Json <==> as_json),
{
}

/// A test is run as it was given.
pub proof fn law_test_is_run_as_given<Q, C>(test: Test)
    ensures
        (Commands::<Q, C>::Test { test }).plain_job() == (Job::<Q, C>::Ensure { test }),
{
}

/// The update commands hand on their options: the query needs no admin service, the list of
/// generations is printed on a line, and the pin prints nothing.
pub proof fn law_updates_hand_on_their_options<Q, C>(query: Q, options: C)
    ensures
        (UpdateSub::<Q, C>::Query { query }).update_job() == (Job::<Q, C>::QueryUpdates { query }),
        (UpdateSub::<Q, C>::List).update_job() == (Job::<Q, C>::Ask {
            call: Call::ListGenerations,
            report: Report::DebugLine,
        }),
        (UpdateSub::<Q, C>::Cachix { options }).update_job() == (Job::<Q, C>::Ask {
            call: Call::SetGenerationCachix { options },
            report: Report::Silent,
        }),
        forall|update: UpdateSub<Q, C>|
            (#[trigger] (Commands::<Q, C>::Update { update }).plain_job())
                == update.update_job(),
{
}

/// No command does the work of another: two commands that stand for the same work are the same,
/// but for service starts that differ in being direct.
pub proof fn law_commands_are_told_apart<Q, C>(one: Commands<Q, C>, other: Commands<Q, C>)
    requires
        !(one is SetLocale || one is Ctap || other is SetLocale || other is Ctap),
        one.plain_job() == other.plain_job(),
    ensures
        one == other || (one matches Commands::Start {
            start: StartSub::Service { servicename, vm, .. },
        } && other matches Commands::Start {
            start: StartSub::Service { servicename: name, vm: place, .. },
        } && servicename == name && vm == place),
{
}

/// A command has a direct target exactly where it starts a service with the switch for it, and
/// the target is then the unit that was named, on whatever VM.
pub proof fn law_direct_target_is_the_named_unit<Q, C>(
    command: Commands<Q, C>,
    servicename: String,
    vm: String,
)
    ensures
        direct_target(Commands::<Q, C>::Start {
            start: StartSub::Service { servicename, vm, direct: true },
        }) == Some(servicename@),
        direct_target(command) is Some <==> (command matches Commands::Start {
            start: StartSub::Service { direct, .. },
        } && direct),
{
}

} // verus!
