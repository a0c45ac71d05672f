use windows_service_controller::catalog::DiagnosticCatalog;
use windows_service_controller::dword::{ServiceError, ServiceStatus};

#[test]
fn every_named_status_has_its_description() {
    let catalog = DiagnosticCatalog::new();
    let expected = [
        (1, "服务状态(1):服务未运行。"),
        (2, "服务状态(2):服务正在启动。"),
        (3, "服务状态(3):服务正在停止。"),
        (4, "服务状态(4):服务正在运行。"),
        (5, "服务状态(5):服务即将继续。"),
        (6, "服务状态(6):服务即将暂停。"),
        (7, "服务状态(7):服务已暂停。"),
    ];
    for (code, text) in expected {
        assert_eq!(catalog.describe_status(ServiceStatus::from(code)), text);
    }
    assert_eq!(catalog.describe_status(ServiceStatus::SERVICE_RUNNING()), "服务状态(4):服务正在运行。");
}

#[test]
fn any_other_status_is_described_by_its_number() {
    let catalog = DiagnosticCatalog::new();
    assert_eq!(catalog.describe_status(ServiceStatus::from(0)), "未知服务状态(0),请查看官方文档");
    assert_eq!(catalog.describe_status(ServiceStatus::from(8)), "未知服务状态(8),请查看官方文档");
    assert_eq!(catalog.describe_status(ServiceStatus::from(10)), "未知服务状态(10),请查看官方文档");
    assert_eq!(
        catalog.describe_status(ServiceStatus::from(u32::MAX)),
        "未知服务状态(4294967295),请查看官方文档"
    );
    for code in [0u32, 8, 9, 99, 100, 1000, 70007, 4294967295] {
        let text = catalog.describe_status(ServiceStatus::from(code));
        assert_eq!(text, format!("未知服务状态({}),请查看官方文档", code));
        assert!(text.contains(&code.to_string()));
    }
}

#[test]
fn every_named_error_has_its_description() {
    let catalog = DiagnosticCatalog::new();
    let expected = [
        (5, "错误(5):SCM 数据库的句柄没有 SC_MANAGER_CREATE_SERVICE 访问权限。"),
        (1059, "错误(1059):指定了循环服务依赖项。"),
        (1078, "错误(1078):显示名称已作为服务名称或其他显示名称存在于服务控制管理器数据库中。"),
        (6, "错误(6):指定服务控制管理器数据库的句柄无效。"),
        (123, "错误(123):指定的服务名称无效。"),
        (87, "错误(87):指定的参数无效。"),
        (1057, "错误(1057):ServiceStartName 参数中指定的用户帐户名不存在。"),
        (1073, "错误(1073):此数据库中已存在指定的服务。"),
        (1072, "错误(1072):指定的服务已存在于此数据库中，并且已标记为要删除。"),
        (3, "错误(3):找不到服务二进制文件。"),
        (1056, "错误(1056):服务的实例已在运行。"),
        (1055, "错误(1055):数据库已锁定。"),
        (1075, "错误(1075):该服务依赖于不存在或已标记为删除的服务。"),
        (1068, "错误(1068):该服务依赖于另一个无法启动的服务。"),
        (1058, "错误(1058):服务已被禁用。"),
        (1069, "错误(1069):由于登录失败而无法启动服务。 如果将服务配置为在没有“作为服务登录”权限的帐户下运行，则会发生此错误。"),
        (1054, "错误(1054):无法为服务创建线程。"),
        (1053, "错误(1053):服务的进程已启动，但它未调用 StartServiceCtrlDispatcher，或者调用 StartServiceCtrlDispatcher 的线程可能在控制处理程序函数中被阻止。"),
    ];
    for (code, text) in expected {
        assert_eq!(catalog.describe_error(ServiceError::from(code)), text);
    }
    assert_eq!(
        catalog.describe_error(ServiceError::ERROR_INVALID_NAME()),
        "错误(123):指定的服务名称无效。"
    );
}

#[test]
fn any_other_error_is_described_by_its_number() {
    let catalog = DiagnosticCatalog::new();
    assert_eq!(catalog.describe_error(ServiceError::from(0)), "未知错误(0),请查看官方文档");
    assert_eq!(catalog.describe_error(ServiceError::from(122)), "未知错误(122),请查看官方文档");
    assert_eq!(catalog.describe_error(ServiceError::from(1060)), "未知错误(1060),请查看官方文档");
    assert_eq!(
        catalog.describe_error(ServiceError::from(u32::MAX)),
        "未知错误(4294967295),请查看官方文档"
    );
    for code in [1u32, 2, 4, 7, 10, 86, 88, 999, 1052, 1079, 123456789] {
        let text = catalog.describe_error(ServiceError::from(code));
        assert_eq!(text, format!("未知错误({}),请查看官方文档", code));
        assert!(text.contains(&code.to_string()));
    }
}

#[test]
fn one_catalog_answers_again_and_again() {
    let catalog = DiagnosticCatalog::new();
    let shared = &catalog;
    let first = shared.describe_error(ServiceError::from(5));
    let second = shared.describe_error(ServiceError::from(5));
    assert_eq!(first, second);
    assert_eq!(DiagnosticCatalog::new().describe_error(ServiceError::from(5)), first);
}
