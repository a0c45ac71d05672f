use windows_service_controller::config::{ServiceConfig, INITIAL_CONFIG_CAPACITY};
use windows_service_controller::dword::{
    ScManagerAccess, ServiceAccess, ServiceError, ServiceErrorControl, ServiceErrorKind,
    ServiceStartType, ServiceStatus, ServiceType, ERROR_INSUFFICIENT_BUFFER,
};
use windows_service_controller::platform::{
    PlatformCall, PlatformReply, RawServiceConfig, Registration,
};
use windows_service_controller::wide::encode_wide;
use windows_service_controller::session::{Completion, Outcome, Step};
use windows_service_controller::WindowsService;

/// Answers the calls of an operation with `replies`, in order, and gives the
/// calls that were made and how the operation ended.
fn drive(mut step: Step, replies: Vec<PlatformReply>) -> (Vec<PlatformCall>, Completion) {
    let mut calls = Vec::new();
    let mut replies = replies.into_iter();
    loop {
        match step {
            Step::Call { session, call } => {
                calls.push(call);
                let reply = replies.next().expect("the operation asked for too many calls");
                step = session.resume(reply);
            }
            Step::Finished(completion) => {
                assert!(replies.next().is_none(), "the operation ended too early");
                return (calls, completion);
            }
        }
    }
}

fn w(text: &str) -> Vec<u16> {
    encode_wide(text).unwrap()
}

fn failed(code: u32) -> PlatformReply {
    PlatformReply::Failed { error: ServiceError::from(code), needed: 0 }
}

fn record(display_name: &str) -> RawServiceConfig {
    RawServiceConfig {
        service_type: ServiceType::SERVICE_WIN32_OWN_PROCESS(),
        start_type: ServiceStartType::SERVICE_DEMAND_START(),
        error_control: ServiceErrorControl::SERVICE_ERROR_NORMAL(),
        binary_path: w("D:\\example\\some.exe"),
        load_order_group: w(""),
        dependencies: vec![0, 0],
        service_start_name: w("LocalSystem"),
        display_name: w(display_name),
    }
}

fn opened(name: &str, manager: isize, service: isize, display_name: &str) -> WindowsService {
    let (_, completion) = drive(
        WindowsService::open(name, None, None),
        vec![
            PlatformReply::Handle(manager),
            PlatformReply::Handle(service),
            PlatformReply::Config { needed: 200, record: record(display_name) },
        ],
    );
    match completion.outcome {
        Outcome::Opened(service) => service,
        other => panic!("not opened: {:?}", other),
    }
}

#[test]
fn open_service() {
    let step = WindowsService::open("WSearch", Some(ServiceAccess::GENERIC_READ()), None);
    let (calls, completion) = drive(
        step,
        vec![
            PlatformReply::Handle(11),
            PlatformReply::Handle(22),
            PlatformReply::Config { needed: 300, record: record("Windows Search") },
        ],
    );
    assert_eq!(
        calls,
        vec![
            PlatformCall::OpenManager { access: ScManagerAccess::SC_MANAGER_CONNECT() },
            PlatformCall::OpenService {
                manager: 11,
                name: w("WSearch"),
                access: ServiceAccess::GENERIC_READ(),
            },
            PlatformCall::QueryConfig { service: 22, capacity: 370 },
        ]
    );
    assert!(completion.diagnostics.is_empty());
    match completion.outcome {
        Outcome::Opened(s) => {
            println!("{:?}", s.config);
            assert_eq!(s.name(), "WSearch");
            assert_eq!(s.config.display_name, "Windows Search");
            assert_eq!(s.config.binary_path, "D:\\example\\some.exe");
            assert_eq!(s.config.service_start_name, "LocalSystem");
            assert_eq!(s.config.load_order_group, "");
            assert!(s.config.dependencies.is_empty());
            assert_eq!(s.config.service_type, ServiceType::SERVICE_WIN32_OWN_PROCESS());
            assert_eq!(s.config.start_type, ServiceStartType::SERVICE_DEMAND_START());
            assert_eq!(s.config.error_control, ServiceErrorControl::SERVICE_ERROR_NORMAL());
        }
        other => panic!("not opened: {:?}", other),
    }
}

#[test]
fn create_service() {
    let step = WindowsService::new(
        "Lers",
        None,
        Some(ScManagerAccess::GENERIC_WRITE()),
        Some(ServiceAccess::GENERIC_WRITE()),
        ServiceType::SERVICE_WIN32_OWN_PROCESS(),
        ServiceStartType::SERVICE_DEMAND_START(),
        ServiceErrorControl::SERVICE_ERROR_NORMAL(),
        "D:\\example\\some.exe",
        None,
    );
    let (calls, completion) = drive(
        step,
        vec![
            PlatformReply::Handle(5),
            PlatformReply::Handle(6),
            PlatformReply::Config { needed: 120, record: record("Lers") },
        ],
    );
    assert_eq!(
        calls,
        vec![
            PlatformCall::OpenManager { access: ScManagerAccess::GENERIC_WRITE() },
            PlatformCall::CreateService {
                manager: 5,
                registration: Registration {
                    name: w("Lers"),
                    display_name: w("Lers"),
                    access: ServiceAccess::GENERIC_WRITE(),
                    service_type: ServiceType::SERVICE_WIN32_OWN_PROCESS(),
                    start_type: ServiceStartType::SERVICE_DEMAND_START(),
                    error_control: ServiceErrorControl::SERVICE_ERROR_NORMAL(),
                    binary_path: w("D:\\example\\some.exe"),
                    dependencies: None,
                },
            },
            PlatformCall::QueryConfig { service: 6, capacity: 370 },
        ]
    );
    match completion.outcome {
        Outcome::Opened(s) => {
            println!("{:?}", s.config);
            assert_eq!(s.name(), "Lers");
            assert_eq!(s.config.display_name, "Lers");
        }
        other => panic!("not created: {:?}", other),
    }
}

#[test]
fn delete_service() {
    let s = opened("Lers", 1, 2, "Lers");
    let (calls, completion) = drive(s.delete_service(), vec![PlatformReply::Done]);
    assert_eq!(calls, vec![PlatformCall::DeleteService { service: 2 }]);
    assert_eq!(completion.outcome, Outcome::Completed);
    assert!(completion.diagnostics.is_empty());
    println!("succeed");
}

#[test]
fn update_service_config() {
    let mut s = opened("Lers", 1, 2, "Lers");
    s.config.display_name = String::from("lers test");
    let (calls, completion) = drive(s.update_service_config(None), vec![PlatformReply::Done]);
    assert_eq!(
        calls,
        vec![PlatformCall::ChangeConfig {
            service: 2,
            config: RawServiceConfig {
                service_type: ServiceType::SERVICE_WIN32_OWN_PROCESS(),
                start_type: ServiceStartType::SERVICE_DEMAND_START(),
                error_control: ServiceErrorControl::SERVICE_ERROR_NORMAL(),
                binary_path: w("D:\\example\\some.exe"),
                load_order_group: vec![0],
                dependencies: vec![0],
                service_start_name: w("LocalSystem"),
                display_name: w("lers test"),
            },
            password: None,
        }]
    );
    assert_eq!(completion.outcome, Outcome::Completed);
    println!("succeed");
}

#[test]
fn open_uses_the_rights_that_are_named() {
    let step = WindowsService::open(
        "Lers",
        Some(ServiceAccess::SERVICE_QUERY_STATUS() | ServiceAccess::SERVICE_START()),
        Some(ScManagerAccess::GENERIC_READ()),
    );
    match step {
        Step::Call { session, call } => {
            assert_eq!(call, PlatformCall::OpenManager { access: ScManagerAccess::GENERIC_READ() });
            match session.resume(PlatformReply::Handle(9)) {
                Step::Call { call, .. } => assert_eq!(
                    call,
                    PlatformCall::OpenService {
                        manager: 9,
                        name: w("Lers"),
                        access: ServiceAccess::from_bits(0x14).unwrap(),
                    }
                ),
                other => panic!("no call: {:?}", other),
            }
        }
        other => panic!("no call: {:?}", other),
    }
}

#[test]
fn open_defaults_to_all_access_to_the_service() {
    let (calls, _) = drive(WindowsService::open("Lers", None, None), vec![failed(5)]);
    assert_eq!(
        calls,
        vec![PlatformCall::OpenManager { access: ScManagerAccess::SC_MANAGER_CONNECT() }]
    );
    let (calls, _) = drive(
        WindowsService::open("Lers", None, None),
        vec![PlatformReply::Handle(1), failed(5), PlatformReply::Done],
    );
    assert_eq!(
        calls[1],
        PlatformCall::OpenService {
            manager: 1,
            name: w("Lers"),
            access: ServiceAccess::SERVICE_ALL_ACCESS(),
        }
    );
}

#[test]
fn create_defaults_to_all_access() {
    let step = WindowsService::new(
        "Lers",
        Some("Lers service"),
        None,
        None,
        ServiceType::SERVICE_WIN32_SHARE_PROCESS(),
        ServiceStartType::SERVICE_AUTO_START(),
        ServiceErrorControl::SERVICE_ERROR_SEVERE(),
        "C:\\svc.exe -run",
        Some(vec!["Tcpip", "Dnscache"]),
    );
    let (calls, completion) =
        drive(step, vec![PlatformReply::Handle(3), failed(1073), PlatformReply::Done]);
    assert_eq!(calls.len(), 3);
    assert_eq!(
        calls[0],
        PlatformCall::OpenManager { access: ScManagerAccess::SC_MANAGER_ALL_ACCESS() }
    );
    let mut dependencies = w("Tcpip");
    dependencies.extend(w("Dnscache"));
    dependencies.push(0);
    assert_eq!(
        calls[1],
        PlatformCall::CreateService {
            manager: 3,
            registration: Registration {
                name: w("Lers"),
                display_name: w("Lers service"),
                access: ServiceAccess::SERVICE_ALL_ACCESS(),
                service_type: ServiceType::SERVICE_WIN32_SHARE_PROCESS(),
                start_type: ServiceStartType::SERVICE_AUTO_START(),
                error_control: ServiceErrorControl::SERVICE_ERROR_SEVERE(),
                binary_path: w("C:\\svc.exe -run"),
                dependencies: Some(dependencies),
            },
        }
    );
    assert_eq!(calls[2], PlatformCall::CloseHandle { handle: 3 });
    assert_eq!(completion.outcome, Outcome::Failed(ServiceError::ERROR_SERVICE_EXISTS()));
    match completion.outcome {
        Outcome::Failed(error) => assert_eq!(error.kind(), ServiceErrorKind::DuplicateServiceName),
        other => panic!("created: {:?}", other),
    }
}

#[test]
fn opening_a_service_that_does_not_exist_fails_with_the_platform_error() {
    let (calls, completion) = drive(
        WindowsService::open("NoSuchService", None, None),
        vec![PlatformReply::Handle(7), failed(1060), PlatformReply::Done],
    );
    assert_eq!(calls.len(), 3);
    assert_eq!(calls[2], PlatformCall::CloseHandle { handle: 7 });
    match completion.outcome {
        Outcome::Failed(error) => {
            assert_eq!(error.code(), 1060);
            assert_eq!(error.kind(), ServiceErrorKind::Unknown(1060));
        }
        other => panic!("opened: {:?}", other),
    }
    assert!(completion.diagnostics.is_empty());

    let (_, completion) = drive(
        WindowsService::open("bad/name", None, None),
        vec![PlatformReply::Handle(7), failed(123), PlatformReply::Done],
    );
    match completion.outcome {
        Outcome::Failed(error) => assert_eq!(error.kind(), ServiceErrorKind::InvalidName),
        other => panic!("opened: {:?}", other),
    }
}

#[test]
fn a_name_with_the_character_zero_is_refused_without_a_call() {
    let (calls, completion) = drive(WindowsService::open("a\0b", None, None), vec![]);
    assert!(calls.is_empty());
    assert_eq!(completion.outcome, Outcome::Failed(ServiceError::ERROR_INVALID_NAME()));
}

#[test]
fn creating_under_a_name_in_use_fails_with_duplicate_service_name() {
    let create = || {
        WindowsService::new(
            "Lers",
            None,
            None,
            None,
            ServiceType::SERVICE_WIN32_OWN_PROCESS(),
            ServiceStartType::SERVICE_DEMAND_START(),
            ServiceErrorControl::SERVICE_ERROR_NORMAL(),
            "D:\\example\\some.exe",
            None,
        )
    };
    for code in [1073, 1078] {
        let (calls, completion) =
            drive(create(), vec![PlatformReply::Handle(4), failed(code), PlatformReply::Done]);
        assert_eq!(calls.len(), 3);
        assert!(matches!(calls[1], PlatformCall::CreateService { manager: 4, .. }));
        assert_eq!(calls[2], PlatformCall::CloseHandle { handle: 4 });
        assert!(completion.diagnostics.is_empty());
        match completion.outcome {
            Outcome::Failed(error) => {
                assert_eq!(error.code(), code);
                assert_eq!(error.kind(), ServiceErrorKind::DuplicateServiceName);
            }
            other => panic!("created: {:?}", other),
        }
    }
}

#[test]
fn create_refuses_what_cannot_be_written() {
    let create = |name: &str, display: Option<&str>, path: &str, deps: Option<Vec<&str>>| {
        WindowsService::new(
            name,
            display,
            None,
            None,
            ServiceType::SERVICE_WIN32_OWN_PROCESS(),
            ServiceStartType::SERVICE_DEMAND_START(),
            ServiceErrorControl::SERVICE_ERROR_NORMAL(),
            path,
            deps,
        )
    };
    let (calls, completion) = drive(create("Le\0rs", None, "x.exe", None), vec![]);
    assert!(calls.is_empty());
    assert_eq!(completion.outcome, Outcome::Failed(ServiceError::ERROR_INVALID_NAME()));
    let (_, completion) = drive(create("Lers", Some("a\0"), "x.exe", None), vec![]);
    assert_eq!(completion.outcome, Outcome::Failed(ServiceError::ERROR_INVALID_PARAMETER()));
    let (_, completion) = drive(create("Lers", None, "x\0.exe", None), vec![]);
    assert_eq!(completion.outcome, Outcome::Failed(ServiceError::ERROR_INVALID_PARAMETER()));
    let (_, completion) = drive(create("Lers", None, "x.exe", Some(vec!["a", ""])), vec![]);
    assert_eq!(completion.outcome, Outcome::Failed(ServiceError::ERROR_INVALID_PARAMETER()));
    let (_, completion) = drive(create("Lers", None, "x.exe", Some(vec!["a\0b"])), vec![]);
    assert_eq!(completion.outcome, Outcome::Failed(ServiceError::ERROR_INVALID_PARAMETER()));
    match create("Lers", None, "x.exe", Some(vec![])) {
        Step::Call { session, .. } => match session.resume(PlatformReply::Handle(1)) {
            Step::Call { call: PlatformCall::CreateService { registration, .. }, .. } => {
                assert_eq!(registration.dependencies, Some(vec![0]));
            }
            other => panic!("no registration: {:?}", other),
        },
        other => panic!("refused: {:?}", other),
    }
}

#[test]
fn starting_a_running_service_is_done_with_a_diagnostic() {
    let s = opened("Lers", 1, 2, "Lers");
    let (calls, completion) = drive(s.start_service(), vec![failed(1056)]);
    assert_eq!(calls, vec![PlatformCall::StartService { service: 2 }]);
    assert_eq!(completion.outcome, Outcome::Completed);
    assert_eq!(completion.diagnostics, vec![ServiceError::ERROR_SERVICE_ALREADY_RUNNING()]);

    let (_, completion) = drive(s.start_service(), vec![PlatformReply::Done]);
    assert_eq!(completion.outcome, Outcome::Completed);
    assert!(completion.diagnostics.is_empty());

    let (_, completion) = drive(s.start_service(), vec![failed(1058)]);
    assert_eq!(completion.outcome, Outcome::Failed(ServiceError::ERROR_SERVICE_DISABLED()));
    assert!(completion.diagnostics.is_empty());
}

#[test]
fn opening_a_deleted_service_fails_as_marked_for_deletion() {
    let s = opened("Lers", 1, 2, "Lers");
    let (_, completion) = drive(s.delete_service(), vec![PlatformReply::Done]);
    assert_eq!(completion.outcome, Outcome::Completed);
    let (calls, completion) = drive(s.close(), vec![PlatformReply::Done, PlatformReply::Done]);
    assert_eq!(
        calls,
        vec![PlatformCall::CloseHandle { handle: 2 }, PlatformCall::CloseHandle { handle: 1 }]
    );
    assert_eq!(completion.outcome, Outcome::Completed);

    let (_, completion) = drive(
        WindowsService::open("Lers", None, None),
        vec![PlatformReply::Handle(3), failed(1072), PlatformReply::Done],
    );
    match completion.outcome {
        Outcome::Failed(error) => assert_eq!(error.kind(), ServiceErrorKind::MarkedForDeletion),
        other => panic!("opened: {:?}", other),
    }
}

#[test]
fn deleting_twice_reports_the_platform_error() {
    let s = opened("Lers", 1, 2, "Lers");
    let (_, completion) = drive(s.delete_service(), vec![failed(1072)]);
    assert_eq!(
        completion.outcome,
        Outcome::Failed(ServiceError::ERROR_SERVICE_MARKED_FOR_DELETE())
    );
}

#[test]
fn query_status_gives_what_the_platform_reports() {
    let s = opened("Lers", 1, 2, "Lers");
    let (calls, completion) =
        drive(s.query_service_status(), vec![PlatformReply::Status(ServiceStatus::from(4))]);
    assert_eq!(calls, vec![PlatformCall::QueryStatus { service: 2 }]);
    assert_eq!(completion.outcome, Outcome::Status(ServiceStatus::SERVICE_RUNNING()));

    let (_, completion) =
        drive(s.query_service_status(), vec![PlatformReply::Status(ServiceStatus::from(99))]);
    assert_eq!(completion.outcome, Outcome::Status(ServiceStatus::from(99)));

    let (_, completion) = drive(s.query_service_status(), vec![failed(5)]);
    assert_eq!(completion.outcome, Outcome::Failed(ServiceError::ERROR_ACCESS_DENIED()));
}

#[test]
fn an_answer_to_another_call_counts_as_an_invalid_parameter() {
    let s = opened("Lers", 1, 2, "Lers");
    let (_, completion) = drive(s.query_service_status(), vec![PlatformReply::Done]);
    assert_eq!(completion.outcome, Outcome::Failed(ServiceError::ERROR_INVALID_PARAMETER()));
    let (_, completion) = drive(s.delete_service(), vec![PlatformReply::Handle(8)]);
    assert_eq!(completion.outcome, Outcome::Failed(ServiceError::ERROR_INVALID_PARAMETER()));
    let (_, completion) =
        drive(WindowsService::open("Lers", None, None), vec![PlatformReply::Done]);
    assert_eq!(completion.outcome, Outcome::Failed(ServiceError::ERROR_INVALID_PARAMETER()));
}

#[test]
fn update_submits_a_password_and_refuses_what_cannot_be_written() {
    let mut s = opened("Lers", 1, 2, "Lers");
    s.config.start_type = ServiceStartType::SERVICE_AUTO_START();
    s.config.dependencies = vec![String::from("Tcpip")];
    let (calls, completion) = drive(s.update_service_config(Some("secret")), vec![failed(5)]);
    match &calls[0] {
        PlatformCall::ChangeConfig { service, config, password } => {
            assert_eq!(*service, 2);
            assert_eq!(config.start_type, ServiceStartType::SERVICE_AUTO_START());
            assert_eq!(config.dependencies, vec![84, 99, 112, 105, 112, 0, 0]);
            assert_eq!(password, &Some(w("secret")));
        }
        other => panic!("another call: {:?}", other),
    }
    assert_eq!(completion.outcome, Outcome::Failed(ServiceError::ERROR_ACCESS_DENIED()));

    let (calls, completion) = drive(s.update_service_config(Some("se\0cret")), vec![]);
    assert!(calls.is_empty());
    assert_eq!(completion.outcome, Outcome::Failed(ServiceError::ERROR_INVALID_PARAMETER()));

    s.config.display_name = String::from("a\0b");
    let (calls, completion) = drive(s.update_service_config(None), vec![]);
    assert!(calls.is_empty());
    assert_eq!(completion.outcome, Outcome::Failed(ServiceError::ERROR_INVALID_PARAMETER()));
}

#[test]
fn fetch_retries_once_with_the_size_that_was_asked_for() {
    let (calls, completion) = drive(
        WindowsService::open("Lers", None, None),
        vec![
            PlatformReply::Handle(1),
            PlatformReply::Handle(2),
            PlatformReply::Failed {
                error: ServiceError::from(ERROR_INSUFFICIENT_BUFFER),
                needed: 812,
            },
            PlatformReply::Config { needed: 812, record: record("Lers") },
        ],
    );
    assert_eq!(INITIAL_CONFIG_CAPACITY, 370);
    assert_eq!(calls[2], PlatformCall::QueryConfig { service: 2, capacity: 370 });
    assert_eq!(calls[3], PlatformCall::QueryConfig { service: 2, capacity: 812 });
    assert_eq!(calls.len(), 4);
    let retried = match completion.outcome {
        Outcome::Opened(s) => s.config,
        other => panic!("not opened: {:?}", other),
    };
    assert_eq!(retried, opened("Lers", 1, 2, "Lers").config);
    assert_eq!(retried, ServiceConfig::parse(&record("Lers")));
}

#[test]
fn fetch_gives_up_after_the_second_query_and_closes_both_handles() {
    let too_small = PlatformReply::Failed { error: ServiceError::from(122), needed: 812 };
    let (calls, completion) = drive(
        WindowsService::open("Lers", None, None),
        vec![
            PlatformReply::Handle(1),
            PlatformReply::Handle(2),
            too_small.clone(),
            PlatformReply::Failed { error: ServiceError::from(122), needed: 900 },
            PlatformReply::Done,
            PlatformReply::Done,
        ],
    );
    assert_eq!(
        &calls[2..],
        &[
            PlatformCall::QueryConfig { service: 2, capacity: 370 },
            PlatformCall::QueryConfig { service: 2, capacity: 812 },
            PlatformCall::CloseHandle { handle: 2 },
            PlatformCall::CloseHandle { handle: 1 },
        ]
    );
    assert_eq!(completion.outcome, Outcome::Failed(ServiceError::from(122)));
    assert!(completion.diagnostics.is_empty());
}

#[test]
fn fetch_does_not_retry_after_another_failure() {
    let (calls, completion) = drive(
        WindowsService::open("Lers", None, None),
        vec![
            PlatformReply::Handle(1),
            PlatformReply::Handle(2),
            PlatformReply::Failed { error: ServiceError::from(5), needed: 812 },
            PlatformReply::Done,
            PlatformReply::Done,
        ],
    );
    assert_eq!(calls.len(), 5);
    assert_eq!(calls[3], PlatformCall::CloseHandle { handle: 2 });
    assert_eq!(calls[4], PlatformCall::CloseHandle { handle: 1 });
    assert_eq!(completion.outcome, Outcome::Failed(ServiceError::ERROR_ACCESS_DENIED()));
}

#[test]
fn a_record_larger_than_the_buffer_is_not_read() {
    let (calls, completion) = drive(
        WindowsService::open("Lers", None, None),
        vec![
            PlatformReply::Handle(1),
            PlatformReply::Handle(2),
            PlatformReply::Config { needed: 371, record: record("unconfirmed") },
            PlatformReply::Config { needed: 371, record: record("confirmed") },
        ],
    );
    assert_eq!(calls[3], PlatformCall::QueryConfig { service: 2, capacity: 371 });
    match completion.outcome {
        Outcome::Opened(s) => assert_eq!(s.config.display_name, "confirmed"),
        other => panic!("not opened: {:?}", other),
    }

    let (_, completion) = drive(
        WindowsService::open("Lers", None, None),
        vec![
            PlatformReply::Handle(1),
            PlatformReply::Handle(2),
            PlatformReply::Config { needed: 371, record: record("unconfirmed") },
            PlatformReply::Config { needed: 372, record: record("unconfirmed") },
            PlatformReply::Done,
            PlatformReply::Done,
        ],
    );
    assert_eq!(completion.outcome, Outcome::Failed(ServiceError::from(122)));

    let (calls, completion) = drive(
        WindowsService::open("Lers", None, None),
        vec![
            PlatformReply::Handle(1),
            PlatformReply::Handle(2),
            PlatformReply::Config { needed: 370, record: record("exact") },
        ],
    );
    assert_eq!(calls.len(), 3);
    assert!(matches!(completion.outcome, Outcome::Opened(_)));
}

#[test]
fn a_failure_to_close_is_kept_and_stops_nothing() {
    let s = opened("Lers", 1, 2, "Lers");
    let (calls, completion) = drive(s.close(), vec![failed(6), failed(5)]);
    assert_eq!(
        calls,
        vec![PlatformCall::CloseHandle { handle: 2 }, PlatformCall::CloseHandle { handle: 1 }]
    );
    assert_eq!(completion.outcome, Outcome::Completed);
    assert_eq!(
        completion.diagnostics,
        vec![ServiceError::ERROR_INVALID_HANDLE(), ServiceError::ERROR_ACCESS_DENIED()]
    );

    let (_, completion) = drive(
        WindowsService::open("Lers", None, None),
        vec![PlatformReply::Handle(1), failed(1060), failed(6)],
    );
    assert_eq!(completion.outcome, Outcome::Failed(ServiceError::from(1060)));
    assert_eq!(completion.diagnostics, vec![ServiceError::ERROR_INVALID_HANDLE()]);
}

#[test]
fn a_failure_to_open_the_manager_ends_at_once() {
    let (calls, completion) = drive(WindowsService::open("Lers", None, None), vec![failed(5)]);
    assert_eq!(calls.len(), 1);
    assert_eq!(completion.outcome, Outcome::Failed(ServiceError::ERROR_ACCESS_DENIED()));
    assert!(completion.diagnostics.is_empty());
}

#[test]
fn the_name_stays_while_the_display_name_changes() {
    let mut s = opened("Lers", 1, 2, "Lers");
    s.config.display_name = String::from("lers test");
    assert_eq!(s.name(), "Lers");
    assert_eq!(s.config.display_name, "lers test");
}

#[test]
fn what_is_updated_is_what_a_new_fetch_brings() {
    let mut s = opened("Lers", 1, 2, "Lers");
    s.config.display_name = String::from("lers test");
    s.config.start_type = ServiceStartType::SERVICE_AUTO_START();
    let (calls, completion) =
        drive(s.update_service_config(Some("secret")), vec![PlatformReply::Done]);
    assert_eq!(completion.outcome, Outcome::Completed);
    let stored = match &calls[0] {
        PlatformCall::ChangeConfig { config, .. } => config.clone(),
        other => panic!("another call: {:?}", other),
    };

    let (calls, completion) = drive(
        s.fetch_config(),
        vec![
            PlatformReply::Failed { error: ServiceError::from(122), needed: 400 },
            PlatformReply::Config { needed: 400, record: stored },
        ],
    );
    assert_eq!(
        calls,
        vec![
            PlatformCall::QueryConfig { service: 2, capacity: 370 },
            PlatformCall::QueryConfig { service: 2, capacity: 400 },
        ]
    );
    match completion.outcome {
        Outcome::Fetched(config) => {
            assert_eq!(config, s.config);
            assert_eq!(config.display_name, "lers test");
            assert_eq!(config.start_type, ServiceStartType::SERVICE_AUTO_START());
        }
        other => panic!("not fetched: {:?}", other),
    }
}

#[test]
fn a_new_fetch_that_fails_leaves_the_service_open() {
    let s = opened("Lers", 1, 2, "Lers");
    let (calls, completion) = drive(s.fetch_config(), vec![failed(5)]);
    assert_eq!(calls.len(), 1);
    assert_eq!(completion.outcome, Outcome::Failed(ServiceError::ERROR_ACCESS_DENIED()));
    let (calls, completion) = drive(
        s.fetch_config(),
        vec![
            PlatformReply::Failed { error: ServiceError::from(122), needed: 400 },
            PlatformReply::Failed { error: ServiceError::from(122), needed: 500 },
        ],
    );
    assert_eq!(calls.len(), 2);
    assert_eq!(completion.outcome, Outcome::Failed(ServiceError::from(122)));
    let (calls, _) = drive(s.close(), vec![PlatformReply::Done, PlatformReply::Done]);
    assert_eq!(calls.len(), 2);
}

#[test]
fn what_was_fetched_can_always_be_written_back() {
    let odd = RawServiceConfig {
        service_type: ServiceType::from(0x110),
        start_type: ServiceStartType::from(9),
        error_control: ServiceErrorControl::from(9),
        binary_path: vec![0x41, 0xD800, 0x42],
        load_order_group: vec![],
        dependencies: vec![0xDC00, 0, 0x41, 0, 0, 0x42, 0],
        service_start_name: vec![0x41, 0, 0x42, 0],
        display_name: vec![0xD83D, 0xDE00],
    };
    let (_, completion) = drive(
        WindowsService::open("Lers", None, None),
        vec![
            PlatformReply::Handle(1),
            PlatformReply::Handle(2),
            PlatformReply::Config { needed: 100, record: odd },
        ],
    );
    let s = match completion.outcome {
        Outcome::Opened(s) => s,
        other => panic!("not opened: {:?}", other),
    };
    assert_eq!(s.config.binary_path, "A\u{FFFD}B");
    assert_eq!(s.config.dependencies, vec!["\u{FFFD}", "A"]);
    assert_eq!(s.config.service_start_name, "A");
    assert_eq!(s.config.display_name, "\u{1F600}");
    assert!(s.config.encode().is_some());
    let (calls, completion) = drive(s.update_service_config(None), vec![PlatformReply::Done]);
    assert_eq!(calls.len(), 1);
    assert!(matches!(calls[0], PlatformCall::ChangeConfig { service: 2, .. }));
    assert_eq!(completion.outcome, Outcome::Completed);
}
