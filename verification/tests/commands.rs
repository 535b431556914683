use givc_cli::command::{
    ctap, direct_service_target, Call, Commands, Job, Notification, Report, StartSub, UpdateSub,
};
use givc_cli::connection::{Cli, EndpointAddress, MissingCredential, Route};
use givc_cli::locale_settings::{LocaleError, LocaleKey, LocaleMacroKey};
use givc_cli::registry::Test;
use givc_cli::report::Format;

type Command = Commands<u8, &'static str>;

fn s(text: &str) -> String {
    text.to_string()
}

fn job(command: Command) -> String {
    format!("{:?}", command.job(&vec![]).unwrap())
}

fn ask(call: Call<&'static str>, report: Report) -> String {
    format!("{:?}", Job::<u8, &'static str>::Ask { call, report })
}

fn service(direct: bool) -> Command {
    Commands::Start {
        start: StartSub::Service { servicename: s("poweroff.target"), vm: s("net-vm"), direct },
    }
}

#[test]
fn starts() {
    let app = StartSub::App { app: s("clock"), vm: s("gui-vm"), args: vec![s("-x")] };
    assert_eq!(
        job(Commands::Start { start: app }),
        ask(
            Call::StartApp { app: s("clock"), vm: s("gui-vm"), args: vec![s("-x")] },
            Report::DebugLine
        )
    );
    assert_eq!(
        job(Commands::Start { start: StartSub::Vm { vm: s("net-vm") } }),
        ask(Call::StartVm { vm: s("net-vm") }, Report::DebugLine)
    );
    assert_eq!(
        job(service(false)),
        ask(
            Call::StartService { servicename: s("poweroff.target"), vm: s("net-vm") },
            Report::DebugLine
        )
    );
}

#[test]
fn simple_calls() {
    let app = || s("clock@1");
    let silent = Report::Silent;
    assert_eq!(job(Commands::Stop { app: app() }), ask(Call::Stop { app: app() }, silent));
    assert_eq!(job(Commands::Pause { app: app() }), ask(Call::Pause { app: app() }, silent));
    assert_eq!(job(Commands::Resume { app: app() }), ask(Call::Resume { app: app() }, silent));
    assert_eq!(job(Commands::Reboot), ask(Call::Reboot, silent));
    assert_eq!(job(Commands::Poweroff), ask(Call::Poweroff, silent));
    assert_eq!(job(Commands::Suspend), ask(Call::Suspend, silent));
    assert_eq!(job(Commands::Wakeup), ask(Call::Wakeup, silent));
    assert_eq!(job(Commands::Sysinfo), ask(Call::Sysinfo, Report::Sysinfo));
    assert_eq!(
        job(Commands::SetTimezone { timezone: s("Europe/Helsinki") }),
        ask(Call::SetTimezone { timezone: s("Europe/Helsinki") }, silent)
    );
}

#[test]
fn queries() {
    assert_eq!(
        job(Commands::Query { as_json: true, by_type: Some(4), by_name: vec![s("a")] }),
        ask(
            Call::Query { by_type: Some(4), by_name: vec![s("a")] },
            Report::Dump { format: Format::Json }
        )
    );
    assert_eq!(
        job(Commands::QueryList { as_json: false }),
        ask(Call::QueryList, Report::Dump { format: Format::Pretty })
    );
    assert_eq!(
        job(Commands::GetStatus { vm_name: s("vm"), unit_name: s("unit") }),
        ask(Call::GetStatus { vm_name: s("vm"), unit_name: s("unit") }, Report::Debug)
    );
    assert_eq!(
        job(Commands::GetStats { vm_name: s("vm") }),
        ask(Call::GetStats { vm_name: s("vm") }, Report::DebugLine)
    );
}

#[test]
fn notifications() {
    let notification = || Notification {
        vm: s("gui-vm"),
        event: s("Default Event"),
        title: s("Default Title"),
        urgency: s("Normal"),
        icon: s("dialog-information"),
        message: s("(no message)"),
    };
    assert_eq!(
        job(Commands::NotifyUser { notification: notification() }),
        ask(Call::NotifyUser { notification: notification() }, Report::Debug)
    );
}

#[test]
fn updates() {
    assert_eq!(
        job(Commands::Update { update: UpdateSub::List }),
        ask(Call::ListGenerations, Report::DebugLine)
    );
    assert_eq!(
        job(Commands::Update { update: UpdateSub::Cachix { options: "pin" } }),
        ask(Call::SetGenerationCachix { options: "pin" }, Report::Silent)
    );
    let query: Command = Commands::Update { update: UpdateSub::Query { query: 7 } };
    assert!(matches!(query.job(&vec![]), Ok(Job::QueryUpdates { query: 7 })));
}

#[test]
fn watches_and_tests() {
    let watch: Command = Commands::Watch { as_json: true, initial: true, limit: Some(2) };
    match watch.job(&vec![]).unwrap() {
        Job::Watch { format, initial, mut limit } => {
            assert_eq!(format, Format::Json);
            assert!(initial);
            assert_eq!((limit.next(), limit.next(), limit.next()), (true, true, false));
        }
        other => panic!("{other:?}"),
    }
    let test: Command = Commands::Test {
        test: Test::Ensure { retry: 1, service: s("x"), unit_type: None, vm: None },
    };
    assert!(matches!(test.job(&vec![]), Ok(Job::Ensure { .. })));
}

#[test]
fn locale_requests() {
    let catalogue = vec![LocaleKey { name: s("LC_ALL"), key: LocaleMacroKey::LcAll }];
    let set: Command = Commands::SetLocale { locales: vec![s("LC_ALL=C"), s("?")] };
    match set.job(&catalogue).unwrap() {
        Job::Ask { call: Call::SetLocales { assignments }, report } => {
            assert_eq!(report, Report::Silent);
            assert_eq!(assignments.len(), 1);
            assert_eq!(assignments[0].key, LocaleMacroKey::LcAll);
            assert_eq!(assignments[0].value, "C");
        }
        other => panic!("{other:?}"),
    }
    let refused: Command = Commands::SetLocale { locales: vec![s("LANG=C")] };
    assert!(matches!(refused.job(&catalogue), Err(LocaleError::UnknownKey { key }) if key == "LANG"));
}

#[test]
fn ctap_operations() {
    assert_eq!(ctap(s("make+arg")), (s("make"), vec![s("arg")]));
    assert_eq!(ctap(s("make+a+b")), (s("make"), vec![s("a+b")]));
    assert_eq!(ctap(s("make+")), (s("make"), vec![s("")]));
    assert_eq!(ctap(s("make")), (s("make"), vec![]));
    assert_eq!(
        job(Commands::Ctap { op: s("+x") }),
        ask(Call::Ctap { op: s(""), args: vec![s("x")] }, Report::Raw)
    );
}

#[test]
fn direct_targets() {
    assert_eq!(direct_service_target(&service(true)), Some("poweroff.target"));
    assert_eq!(direct_service_target(&service(false)), None);
    let vm: Command = Commands::Start { start: StartSub::Vm { vm: s("net-vm") } };
    assert_eq!(direct_service_target(&vm), None);
    let poweroff: Command = Commands::Poweroff;
    assert_eq!(direct_service_target(&poweroff), None);
}

fn cli(command: Command) -> Cli<&'static str, u8, &'static str> {
    Cli {
        addr: s("127.0.0.1"),
        port: 9000,
        name: s("admin.ghaf"),
        vsock: None,
        cacert: Some("ca.pem"),
        cert: Some("cert.pem"),
        key: Some("key.pem"),
        notls: false,
        timeout: None,
        command,
    }
}

#[test]
fn missing_credentials() {
    assert_eq!(cli(Commands::Reboot).missing_credential(), None);
    let mut all = cli(Commands::Reboot);
    all.key = None;
    assert_eq!(all.missing_credential(), Some(MissingCredential::Key));
    all.cert = None;
    assert_eq!(all.missing_credential(), Some(MissingCredential::Cert));
    all.cacert = None;
    assert_eq!(all.missing_credential(), Some(MissingCredential::CaCert));
    all.notls = true;
    assert_eq!(all.missing_credential(), None);
    assert_eq!(MissingCredential::CaCert.message(), "cacert is required");
    assert_eq!(MissingCredential::Cert.message(), "cert is required");
    assert_eq!(MissingCredential::Key.message(), "key is required");
}

#[test]
fn admin_route() {
    match cli(service(false)).route() {
        Route::Admin { address: EndpointAddress::Tcp { addr, port }, tls: Some((name, tls)), command } => {
            assert_eq!((addr.as_str(), port), ("127.0.0.1", 9000));
            assert_eq!(name, "admin.ghaf");
            assert_eq!(tls.tls_name.as_deref(), Some("admin.ghaf"));
            assert_eq!(
                (tls.ca_cert_file_path, tls.cert_file_path, tls.key_file_path),
                ("ca.pem", "cert.pem", "key.pem")
            );
            assert!(matches!(command, Commands::Start { .. }));
        }
        other => panic!("{other:?}"),
    }
    let mut plain = cli(Commands::Reboot);
    plain.notls = true;
    plain.vsock = Some(s("2:9000"));
    match plain.route() {
        Route::Admin { address: EndpointAddress::Vsock { text }, tls: None, .. } => {
            assert_eq!(text, "2:9000");
        }
        other => panic!("{other:?}"),
    }
}

#[test]
fn direct_route() {
    match cli(service(true)).route() {
        Route::Direct { endpoint, unit, timeout_secs } => {
            assert_eq!(unit, "poweroff.target");
            assert_eq!(timeout_secs, 3);
            assert_eq!(endpoint.transport.tls_name, "admin.ghaf");
            assert_eq!(endpoint.tls.unwrap().key_file_path, "key.pem");
            assert!(matches!(endpoint.transport.address, EndpointAddress::Tcp { port: 9000, .. }));
        }
        other => panic!("{other:?}"),
    }
    let mut plain = cli(service(true));
    plain.notls = true;
    plain.timeout = Some(8);
    plain.vsock = Some(s("5:1"));
    match plain.route() {
        Route::Direct { endpoint, timeout_secs, .. } => {
            assert_eq!(timeout_secs, 8);
            assert_eq!(endpoint.transport.tls_name, "bogus(no tls)");
            assert!(endpoint.tls.is_none());
            assert!(matches!(endpoint.transport.address, EndpointAddress::Vsock { .. }));
        }
        other => panic!("{other:?}"),
    }
}
