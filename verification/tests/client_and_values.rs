use winsvc::registry::{ValueBuf, ERROR_INVALID_DATA};
use winsvc::service_configuration::get_service_key_path;
use winsvc::service_control_manager::{
    build_service_command_line, poll_step, Access, ServicePollStep, LOCAL_SERVICE,
    NETWORK_SERVICE, SC_MANAGER_ALL_ACCESS,
};
use winsvc::service_dispatcher::{
    SERVICE_RUNNING, SERVICE_START_PENDING, SERVICE_STOPPED, SERVICE_STOP_PENDING,
};
use winsvc::std_cli::LoggingConfig;
use winsvc::{Error, IsTrue};

#[test]
fn access_mask() {
    assert_eq!(Access::All.into_raw(), SC_MANAGER_ALL_ACCESS);
    assert_eq!(SC_MANAGER_ALL_ACCESS, 0xF003F);
}

#[test]
fn account_names() {
    assert_eq!(LOCAL_SERVICE, "NT AUTHORITY\\LocalService");
    assert_eq!(NETWORK_SERVICE, "NT AUTHORITY\\NetworkService");
}

#[test]
fn start_wait_decisions() {
    let target = SERVICE_RUNNING;
    let pending = SERVICE_START_PENDING;
    assert_eq!(
        poll_step(SERVICE_RUNNING, target, pending, true),
        ServicePollStep::Complete
    );
    assert_eq!(
        poll_step(SERVICE_START_PENDING, target, pending, true),
        ServicePollStep::Wait
    );
    assert_eq!(
        poll_step(SERVICE_STOPPED, target, pending, true),
        ServicePollStep::Absent
    );
    assert_eq!(
        poll_step(SERVICE_STOPPED, target, pending, false),
        ServicePollStep::Failed
    );
}

#[test]
fn stop_wait_decisions() {
    let target = SERVICE_STOPPED;
    let pending = SERVICE_STOP_PENDING;
    assert_eq!(
        poll_step(SERVICE_STOPPED, target, pending, false),
        ServicePollStep::Complete
    );
    assert_eq!(
        poll_step(SERVICE_STOP_PENDING, target, pending, false),
        ServicePollStep::Wait
    );
    assert_eq!(
        poll_step(SERVICE_RUNNING, target, pending, true),
        ServicePollStep::Absent
    );
    assert_eq!(
        poll_step(SERVICE_RUNNING, target, pending, false),
        ServicePollStep::Failed
    );
}

fn wide(s: &str) -> Vec<u16> {
    s.encode_utf16().collect()
}

#[test]
fn command_line_assembly() {
    let path = wide("C:\\svc\\app.exe");
    let args = vec![
        wide("run-as-service"),
        wide("--log-file"),
        wide("C:\\log dir\\svc.log"),
    ];
    let line = build_service_command_line(&path, &args);
    let mut expected = wide("C:\\svc\\app.exe run-as-service --log-file \"C:\\log dir\\svc.log\"");
    expected.push(0);
    assert_eq!(line, expected);
}

#[test]
fn command_line_without_arguments() {
    let path = wide("C:\\app.exe");
    let args: Vec<Vec<u16>> = Vec::new();
    let line = build_service_command_line(&path, &args);
    let mut expected = wide("C:\\app.exe");
    expected.push(0);
    assert_eq!(line, expected);
}

#[test]
fn service_key_path() {
    assert_eq!(
        get_service_key_path("MySvc"),
        "SYSTEM\\CurrentControlSet\\Services\\MySvc"
    );
}

#[test]
fn error_checks() {
    let last = Error { code: 7 };
    assert_eq!(Error::check_true(true, last), Ok(()));
    assert_eq!(Error::check_true(false, last), Err(last));
    assert_eq!(Error::check_true(1u32, last), Ok(()));
    assert_eq!(Error::check_true(0u32, last), Err(last));
    assert_eq!(Error::check_true(-1i32, last), Ok(()));
    assert_eq!(Error::check_true(0i32, last), Err(last));
    assert_eq!(Error::check_code(0), Ok(()));
    assert_eq!(Error::check_code(5), Err(Error { code: 5 }));
    assert!(true.is_true());
    assert!(!0u32.is_true());
}

#[test]
fn value_buf_conversions() {
    assert_eq!(ValueBuf::from(7u32), ValueBuf::Dword(7));
    assert_eq!(ValueBuf::from(7u64), ValueBuf::Qword(7));
    assert_eq!(ValueBuf::from(true), ValueBuf::Qword(1));
    assert_eq!(ValueBuf::from(false), ValueBuf::Qword(0));

    assert_eq!(u32::try_from(ValueBuf::Dword(9)), Ok(9));
    assert_eq!(
        u32::try_from(ValueBuf::Qword(9)),
        Err(Error {
            code: ERROR_INVALID_DATA
        })
    );
    assert_eq!(u64::try_from(ValueBuf::Qword(9)), Ok(9));
    assert_eq!(
        u64::try_from(ValueBuf::Binary(vec![1, 2])),
        Err(Error {
            code: ERROR_INVALID_DATA
        })
    );
    assert_eq!(bool::try_from(ValueBuf::Dword(0)), Ok(false));
    assert_eq!(bool::try_from(ValueBuf::Dword(3)), Ok(true));
    assert_eq!(bool::try_from(ValueBuf::Qword(0)), Ok(false));
    assert_eq!(bool::try_from(ValueBuf::Qword(1)), Ok(true));
    assert_eq!(
        bool::try_from(ValueBuf::String(vec![65])),
        Err(Error {
            code: ERROR_INVALID_DATA
        })
    );
}

#[test]
fn logging_config_fields() {
    let cfg = LoggingConfig::new(Some(String::from("svc.log")), None);
    assert_eq!(cfg.log_file.as_deref(), Some("svc.log"));
    assert!(cfg.log_filter.is_none());
}
