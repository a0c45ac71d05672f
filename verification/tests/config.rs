use windows_service_controller::config::{
    ConfigFetch, FetchStep, ServiceConfig, INITIAL_CONFIG_CAPACITY,
};
use windows_service_controller::dword::{
    ServiceError, ServiceErrorControl, ServiceStartType, ServiceType,
};
use windows_service_controller::handle::ResourceHandle;
use windows_service_controller::platform::{PlatformCall, PlatformReply, RawServiceConfig};

fn sample() -> ServiceConfig {
    ServiceConfig {
        service_type: ServiceType::SERVICE_WIN32_OWN_PROCESS(),
        start_type: ServiceStartType::SERVICE_AUTO_START(),
        error_control: ServiceErrorControl::SERVICE_ERROR_NORMAL(),
        binary_path: String::from("\"C:\\Program Files\\Lers\\lers.exe\" --service"),
        load_order_group: String::from("Network"),
        dependencies: vec![String::from("Tcpip"), String::from("+NetworkProvider")],
        service_start_name: String::from(".\\lers"),
        display_name: String::from("Lers 服务 \u{1F600}"),
    }
}

fn handle(raw: isize) -> ResourceHandle {
    ResourceHandle::acquire(&PlatformReply::Handle(raw)).unwrap()
}

#[test]
fn a_configuration_is_written_field_by_field() {
    let config = ServiceConfig {
        service_type: ServiceType::from(0x110),
        start_type: ServiceStartType::SERVICE_DISABLED(),
        error_control: ServiceErrorControl::SERVICE_ERROR_CRITICAL(),
        binary_path: String::from("a"),
        load_order_group: String::new(),
        dependencies: vec![String::from("b"), String::from("c")],
        service_start_name: String::from("d"),
        display_name: String::from("e"),
    };
    assert_eq!(
        config.encode(),
        Some(RawServiceConfig {
            service_type: ServiceType::from(0x110),
            start_type: ServiceStartType::SERVICE_DISABLED(),
            error_control: ServiceErrorControl::SERVICE_ERROR_CRITICAL(),
            binary_path: vec![97, 0],
            load_order_group: vec![0],
            dependencies: vec![98, 0, 99, 0, 0],
            service_start_name: vec![100, 0],
            display_name: vec![101, 0],
        })
    );
}

#[test]
fn a_record_is_read_field_by_field() {
    let raw = RawServiceConfig {
        service_type: ServiceType::from(0x20),
        start_type: ServiceStartType::from(2),
        error_control: ServiceErrorControl::from(7),
        binary_path: vec![97, 0, 120],
        load_order_group: vec![],
        dependencies: vec![98, 0, 99, 0, 0, 100, 0],
        service_start_name: vec![0xD800, 0],
        display_name: vec![101],
    };
    let config = ServiceConfig::parse(&raw);
    assert_eq!(config.service_type, ServiceType::SERVICE_WIN32_SHARE_PROCESS());
    assert_eq!(config.start_type, ServiceStartType::SERVICE_AUTO_START());
    assert_eq!(config.error_control.code(), 7);
    assert!(!config.error_control.is_known());
    assert_eq!(config.binary_path, "a");
    assert_eq!(config.load_order_group, "");
    assert_eq!(config.dependencies, vec!["b", "c"]);
    assert_eq!(config.service_start_name, "\u{FFFD}");
    assert_eq!(config.display_name, "e");
}

#[test]
fn what_is_replaced_is_what_a_fetch_reads_back() {
    let config = sample();
    let raw = config.encode().unwrap();
    assert_eq!(ServiceConfig::parse(&raw), config);

    let mut changed = sample();
    changed.start_type = ServiceStartType::SERVICE_DEMAND_START();
    changed.display_name = String::from("lers test");
    changed.dependencies.clear();
    let call = changed.replace(&handle(2), Some("write-only")).unwrap();
    match call {
        PlatformCall::ChangeConfig { service, config, password } => {
            assert_eq!(service, 2);
            assert_eq!(password, Some("write-only\0".encode_utf16().collect::<Vec<u16>>()));
            let fetched = match ConfigFetch::begin()
                .resume(&PlatformReply::Config { needed: 100, record: config })
            {
                FetchStep::Parsed(fetched) => fetched,
                other => panic!("not read: {:?}", other),
            };
            assert_eq!(fetched, changed);
            assert_eq!(fetched.start_type, ServiceStartType::SERVICE_DEMAND_START());
            assert_eq!(fetched.display_name, "lers test");
        }
        other => panic!("another call: {:?}", other),
    }
}

#[test]
fn a_configuration_that_cannot_be_written_is_an_invalid_parameter() {
    let with = |change: fn(&mut ServiceConfig)| {
        let mut config = sample();
        change(&mut config);
        config
    };
    let broken = [
        with(|c| c.binary_path.push('\0')),
        with(|c| c.load_order_group.push('\0')),
        with(|c| c.service_start_name.insert(0, '\0')),
        with(|c| c.display_name.push('\0')),
        with(|c| c.dependencies.push(String::new())),
        with(|c| c.dependencies.push(String::from("x\0y"))),
    ];
    for config in broken {
        assert_eq!(config.encode(), None);
        assert_eq!(config.replace(&handle(1), None), Err(ServiceError::ERROR_INVALID_PARAMETER()));
    }
    assert_eq!(
        sample().replace(&handle(1), Some("\0")),
        Err(ServiceError::ERROR_INVALID_PARAMETER())
    );
    assert!(sample().replace(&handle(1), None).is_ok());
}

#[test]
fn a_fetch_begins_with_the_initial_buffer() {
    let fetch = ConfigFetch::begin();
    assert_eq!(fetch, ConfigFetch { capacity: 370, retried: false });
    assert_eq!(fetch.capacity, INITIAL_CONFIG_CAPACITY);
    assert_eq!(fetch.query(&handle(9)), PlatformCall::QueryConfig { service: 9, capacity: 370 });
}

#[test]
fn a_fetch_asks_again_once_with_the_size_reported() {
    let record = sample().encode().unwrap();
    let too_small = PlatformReply::Failed { error: ServiceError::from(122), needed: 1024 };
    let again = match ConfigFetch::begin().resume(&too_small) {
        FetchStep::Retry(again) => again,
        other => panic!("no second query: {:?}", other),
    };
    assert_eq!(again, ConfigFetch { capacity: 1024, retried: true });
    assert_eq!(again.query(&handle(9)), PlatformCall::QueryConfig { service: 9, capacity: 1024 });

    let answer = PlatformReply::Config { needed: 1024, record: record.clone() };
    let large_enough_at_once = ConfigFetch { capacity: 1024, retried: false };
    assert_eq!(again.resume(&answer), FetchStep::Parsed(sample()));
    assert_eq!(again.resume(&answer), large_enough_at_once.resume(&answer));

    assert_eq!(again.resume(&too_small), FetchStep::Failed(ServiceError::from(122)));
    assert_eq!(
        again.resume(&PlatformReply::Failed { error: ServiceError::from(5), needed: 0 }),
        FetchStep::Failed(ServiceError::ERROR_ACCESS_DENIED())
    );
    assert_eq!(
        again.resume(&PlatformReply::Config { needed: 1025, record }),
        FetchStep::Failed(ServiceError::from(122))
    );
}

#[test]
fn a_fetch_ends_at_once_on_any_other_failure() {
    let fetch = ConfigFetch::begin();
    assert_eq!(
        fetch.resume(&PlatformReply::Failed { error: ServiceError::from(6), needed: 999 }),
        FetchStep::Failed(ServiceError::ERROR_INVALID_HANDLE())
    );
    assert_eq!(
        fetch.resume(&PlatformReply::Done),
        FetchStep::Failed(ServiceError::ERROR_INVALID_PARAMETER())
    );
    assert_eq!(
        fetch.resume(&PlatformReply::Handle(3)),
        FetchStep::Failed(ServiceError::ERROR_INVALID_PARAMETER())
    );
}

#[test]
fn a_handle_is_acquired_from_a_handle_and_released_by_closing_it() {
    let handle = ResourceHandle::acquire(&PlatformReply::Handle(77)).unwrap();
    assert_eq!(handle.raw(), 77);
    assert_eq!(handle.release(), PlatformCall::CloseHandle { handle: 77 });
    assert_eq!(
        ResourceHandle::acquire(&PlatformReply::Failed { error: ServiceError::from(5), needed: 0 }),
        Err(ServiceError::ERROR_ACCESS_DENIED())
    );
    assert_eq!(
        ResourceHandle::acquire(&PlatformReply::Done),
        Err(ServiceError::ERROR_INVALID_PARAMETER())
    );
}
