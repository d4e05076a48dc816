use windows_service::database::{
    ServiceDatabase, ERROR_ACCESS_DENIED, ERROR_INSUFFICIENT_BUFFER, ERROR_SERVICE_DOES_NOT_EXIST,
    ERROR_SERVICE_EXISTS, RPC_S_SERVER_UNAVAILABLE,
};
use windows_service::sc_handle::ScHandle;
use windows_service::service::{
    launch_command, Service, ServiceAccess, ServiceInfo, SERVICE_QUERY_STATUS, SERVICE_START,
};
use windows_service::service_dispatcher::{
    check_service_table, parse_service_arguments, registration_result, start, ServiceTableEntry,
};
use windows_service::service_manager::{
    key_name_result, ServiceManager, ServiceManagerAccess, KEY_NAME_BUFFER_LEN,
    SC_MANAGER_ALL_ACCESS, SC_MANAGER_CONNECT, SC_MANAGER_CREATE_SERVICE,
};
use windows_service::wide::{copy_until_nul, to_c_wide, to_double_nul_list};
use windows_service::Error;

fn wide(s: &str) -> Vec<u16> {
    s.encode_utf16().collect()
}

fn c_wide(s: &str) -> Vec<u16> {
    let mut v = wide(s);
    v.push(0);
    v
}

fn entry_point(_argc: u32, _argv: usize) {}

fn info(name: &str, display_name: &str, dependencies: Vec<String>) -> ServiceInfo {
    ServiceInfo {
        name: name.to_string(),
        display_name: display_name.to_string(),
        service_type: 0x10,
        start_type: 3,
        error_control: 1,
        executable_path: "C:\\svc\\svc.exe".to_string(),
        launch_arguments: vec![],
        dependencies,
        account_name: None,
        account_password: None,
    }
}

fn connect(db: &mut ServiceDatabase, rights: u32) -> ServiceManager {
    let q = ServiceManager::local_computer(None, ServiceManagerAccess::from_bits(rights)).unwrap();
    ServiceManager::from_native(db.open_manager(&q)).unwrap()
}

fn close_service(db: &mut ServiceDatabase, s: &mut Service) {
    if let Some(t) = s.release() {
        let _ = db.close_service_handle(t);
    }
}

fn close_manager(db: &mut ServiceDatabase, m: &mut ServiceManager) {
    if let Some(t) = m.release() {
        let _ = db.close_service_handle(t);
    }
}

#[test]
fn parse_no_arguments() {
    let r = parse_service_arguments(0, &[]);
    assert!(r.is_empty());
}

#[test]
fn parse_three_arguments() {
    let argv = vec![c_wide("a"), c_wide("bb"), c_wide("ccc")];
    let r = parse_service_arguments(3, &argv);
    assert_eq!(r, vec![wide("a"), wide("bb"), wide("ccc")]);
}

#[test]
fn parse_reads_only_argc_strings() {
    let argv = vec![c_wide("x"), c_wide("y")];
    assert_eq!(parse_service_arguments(1, &argv), vec![wide("x")]);
}

#[test]
fn copy_stops_at_first_nul() {
    assert_eq!(copy_until_nul(&[104, 105, 0, 106, 0]), vec![104, 105]);
    assert_eq!(copy_until_nul(&[104, 105]), vec![104, 105]);
    assert_eq!(copy_until_nul(&[0]), Vec::<u16>::new());
}

#[test]
fn start_builds_terminated_table() {
    let t = start("myservice", entry_point as fn(u32, usize)).unwrap();
    assert_eq!(t.len(), 2);
    assert_eq!(t[0].service_name, Some(c_wide("myservice")));
    assert!(t[0].service_proc.is_some());
    assert!(t[1].service_name.is_none() && t[1].service_proc.is_none());
    assert_eq!(check_service_table(&t), Ok(()));
}

#[test]
fn start_refuses_name_with_nul() {
    let r = start("my\0service", entry_point as fn(u32, usize));
    assert!(matches!(r, Err(Error::ArgumentHasNulByte)));
}

#[test]
fn table_without_entries_is_refused() {
    let empty: Vec<ServiceTableEntry<fn(u32, usize)>> = vec![];
    assert_eq!(check_service_table(&empty), Err(Error::InvalidServiceTable));
    let only_terminator: Vec<ServiceTableEntry<fn(u32, usize)>> =
        vec![ServiceTableEntry { service_name: None, service_proc: None }];
    assert_eq!(check_service_table(&only_terminator), Err(Error::InvalidServiceTable));
    let two_terminators: Vec<ServiceTableEntry<fn(u32, usize)>> = vec![
        ServiceTableEntry { service_name: None, service_proc: None },
        ServiceTableEntry { service_name: None, service_proc: None },
    ];
    assert_eq!(check_service_table(&two_terminators), Err(Error::InvalidServiceTable));
}

#[test]
fn table_without_terminator_is_refused() {
    let f = entry_point as fn(u32, usize);
    let t = vec![
        ServiceTableEntry { service_name: Some(c_wide("a")), service_proc: Some(f) },
        ServiceTableEntry { service_name: Some(c_wide("b")), service_proc: Some(f) },
    ];
    assert_eq!(check_service_table(&t), Err(Error::InvalidServiceTable));
}

#[test]
fn table_with_unterminated_name_is_refused() {
    let f = entry_point as fn(u32, usize);
    let t = vec![
        ServiceTableEntry { service_name: Some(wide("a")), service_proc: Some(f) },
        ServiceTableEntry { service_name: None, service_proc: None },
    ];
    assert_eq!(check_service_table(&t), Err(Error::InvalidServiceTable));
}

#[test]
fn registration_failure_carries_status() {
    assert_eq!(registration_result(Err(1063)), Err(Error::Winapi(1063)));
    assert_eq!(registration_result(Ok(())), Ok(()));
}

#[test]
fn release_twice_closes_once() {
    let mut db = ServiceDatabase::new();
    let mut m = connect(&mut db, SC_MANAGER_CONNECT);
    let first = m.release();
    assert!(first.is_some());
    let _ = db.close_service_handle(first.unwrap());
    let second = m.release();
    assert_eq!(second, None);
    assert_eq!(db.close_calls(), 1);
    assert_eq!(db.open_handles(), 0);
}

#[test]
fn handle_keeps_its_token() {
    let mut h = ScHandle::new(42);
    assert_eq!(h.raw_handle(), 42);
    assert!(h.is_open());
    assert_eq!(h.release(), Some(42));
    assert!(!h.is_open());
    assert_eq!(h.release(), None);
}

#[test]
fn closing_a_closed_token_is_refused() {
    let mut db = ServiceDatabase::new();
    let m = connect(&mut db, SC_MANAGER_CONNECT);
    let t = m.raw_handle();
    assert_eq!(db.close_service_handle(t), Ok(()));
    assert!(db.close_service_handle(t).is_err());
    assert_eq!(db.close_calls(), 2);
}

#[test]
fn open_unknown_service_fails() {
    let mut db = ServiceDatabase::new();
    let m = connect(&mut db, SC_MANAGER_CONNECT);
    let q = m.open_service("never_created", ServiceAccess::from_bits(SERVICE_QUERY_STATUS)).unwrap();
    let r = Service::from_native(db.open_service(&q));
    assert!(matches!(r, Err(Error::Winapi(ERROR_SERVICE_DOES_NOT_EXIST))));
}

#[test]
fn open_after_create_gives_distinct_handles() {
    let mut db = ServiceDatabase::new();
    let m = connect(&mut db, SC_MANAGER_CONNECT | SC_MANAGER_CREATE_SERVICE);
    let access = ServiceAccess::from_bits(SERVICE_QUERY_STATUS);
    let c = m.create_service(&info("svc", "Service", vec![]), access).unwrap();
    let created = Service::from_native(db.create_service(&c)).unwrap();
    let q = m.open_service("svc", access).unwrap();
    let a = Service::from_native(db.open_service(&q)).unwrap();
    let b = Service::from_native(db.open_service(&q)).unwrap();
    assert_ne!(a.raw_handle(), b.raw_handle());
    assert_ne!(a.raw_handle(), created.raw_handle());
    assert_ne!(b.raw_handle(), m.raw_handle());
}

#[test]
fn create_twice_fails() {
    let mut db = ServiceDatabase::new();
    let m = connect(&mut db, SC_MANAGER_ALL_ACCESS);
    let access = ServiceAccess::from_bits(SERVICE_QUERY_STATUS);
    let c = m.create_service(&info("svc", "Service", vec![]), access).unwrap();
    assert!(db.create_service(&c).is_ok());
    assert_eq!(db.create_service(&c), Err(ERROR_SERVICE_EXISTS));
}


#[test]
fn create_without_right_is_denied() {
    let mut db = ServiceDatabase::new();
    let m = connect(&mut db, SC_MANAGER_CONNECT);
    let c = m
        .create_service(&info("svc", "Service", vec![]), ServiceAccess::from_bits(SERVICE_START))
        .unwrap();
    assert_eq!(db.create_service(&c), Err(ERROR_ACCESS_DENIED));
}

#[test]
fn remote_machine_is_named() {
    let q = ServiceManager::remote_computer("host", Some("db"), ServiceManagerAccess::from_bits(1))
        .unwrap();
    assert_eq!(q.machine_name, Some(c_wide("host")));
    assert_eq!(q.database_name, Some(c_wide("db")));
    assert_eq!(q.access, 1);
    let mut db = ServiceDatabase::new();
    assert_eq!(db.open_manager(&q), Err(RPC_S_SERVER_UNAVAILABLE));
    let local = ServiceManager::local_computer(None, ServiceManagerAccess::from_bits(1)).unwrap();
    assert!(local.machine_name.is_none() && local.database_name.is_none());
}

#[test]
fn native_failure_is_mapped() {
    assert!(matches!(ServiceManager::from_native(Err(5)), Err(Error::Winapi(5))));
}

#[test]
fn dependencies_are_double_nul_terminated() {
    let deps = vec!["dep1".to_string(), "dep2".to_string()];
    let block = to_double_nul_list(&deps).unwrap().unwrap();
    let mut expected = c_wide("dep1");
    expected.extend(c_wide("dep2"));
    expected.push(0);
    assert_eq!(block, expected);
    assert_eq!(to_double_nul_list(&[]), Ok(None));
    assert_eq!(
        to_double_nul_list(&["a\0b".to_string()]),
        Err(Error::ArgumentHasNulByte)
    );
}

#[test]
fn wide_encoding_is_utf16() {
    assert_eq!(to_c_wide("h\u{e9}\u{1f600}").unwrap(), vec![0x68, 0xe9, 0xd83d, 0xde00, 0]);
    assert_eq!(to_c_wide("").unwrap(), vec![0]);
    assert_eq!(to_c_wide("a\0"), Err(Error::ArgumentHasNulByte));
}

#[test]
fn launch_command_quotes_path_with_space() {
    let r = launch_command("C:\\Program Files\\svc.exe", &["-a".to_string(), "b".to_string()]);
    assert_eq!(r.unwrap(), wide("\"C:\\Program Files\\svc.exe\" -a b"));
    assert_eq!(launch_command("C:\\svc.exe", &[]).unwrap(), wide("C:\\svc.exe"));
    assert_eq!(launch_command("C:\\svc.exe", &["x\0".to_string()]), Err(Error::ArgumentHasNulByte));
}

#[test]
fn create_request_passes_null_for_missing_fields() {
    let mut db = ServiceDatabase::new();
    let m = connect(&mut db, SC_MANAGER_CREATE_SERVICE);
    let c = m.create_service(&info("svc", "Service", vec![]), ServiceAccess::from_bits(4)).unwrap();
    assert_eq!(c.manager, m.raw_handle());
    assert_eq!(c.name, c_wide("svc"));
    assert_eq!(c.display_name, c_wide("Service"));
    assert_eq!(c.binary_path, c_wide("C:\\svc\\svc.exe"));
    assert_eq!((c.service_type, c.start_type, c.error_control, c.access), (0x10, 3, 1, 4));
    assert!(c.dependencies.is_none());
    assert!(c.account_name.is_none() && c.account_password.is_none());
    let mut with_account = info("svc", "Service", vec![]);
    with_account.account_name = Some(".\\user".to_string());
    with_account.account_password = Some("SECRET-REDACTED".to_string());
    let c = m.create_service(&with_account, ServiceAccess::from_bits(4)).unwrap();
    assert_eq!(c.account_name, Some(c_wide(".\\user")));
    assert_eq!(c.account_password, Some(c_wide("SECRET-REDACTED")));
    let bad = info("s\0vc", "Service", vec![]);
    assert!(matches!(m.create_service(&bad, ServiceAccess::from_bits(4)), Err(Error::ArgumentHasNulByte)));
}

#[test]
fn display_name_resolves() {
    let mut db = ServiceDatabase::new();
    let m = connect(&mut db, SC_MANAGER_CONNECT | SC_MANAGER_CREATE_SERVICE);
    let c = m.create_service(&info("svc", "My Service", vec![]), ServiceAccess::from_bits(4)).unwrap();
    db.create_service(&c).unwrap();
    let q = m.service_name_from_display_name("My Service").unwrap();
    assert_eq!(q.buffer_len, KEY_NAME_BUFFER_LEN);
    assert_eq!(key_name_result(db.get_service_key_name(&q)), Ok(wide("svc")));
    let q = m.service_name_from_display_name("Unknown").unwrap();
    assert_eq!(
        key_name_result(db.get_service_key_name(&q)),
        Err(Error::Winapi(ERROR_SERVICE_DOES_NOT_EXIST))
    );
}

#[test]
fn long_name_is_not_cut() {
    let mut db = ServiceDatabase::new();
    let m = connect(&mut db, SC_MANAGER_CONNECT | SC_MANAGER_CREATE_SERVICE);
    let long = "n".repeat(2048);
    let c = m.create_service(&info(&long, "Long", vec![]), ServiceAccess::from_bits(4)).unwrap();
    db.create_service(&c).unwrap();
    let q = m.service_name_from_display_name("Long").unwrap();
    assert_eq!(
        key_name_result(db.get_service_key_name(&q)),
        Err(Error::Winapi(ERROR_INSUFFICIENT_BUFFER))
    );
    assert_eq!(key_name_result(Ok(vec![110; 2048])), Err(Error::MissingNulTerminator));
    let fits = "n".repeat(2047);
    assert_eq!(key_name_result(Ok(c_wide(&fits))), Ok(wide(&fits)));
}

#[test]
fn end_to_end_with_two_dependencies() {
    let mut db = ServiceDatabase::new();
    let mut m = connect(&mut db, SC_MANAGER_CONNECT | SC_MANAGER_CREATE_SERVICE);
    let deps = vec!["dep1".to_string(), "dep2".to_string()];
    let c = m
        .create_service(&info("svc", "Service", deps), ServiceAccess::from_bits(SERVICE_QUERY_STATUS))
        .unwrap();
    let mut expected = c_wide("dep1");
    expected.extend(c_wide("dep2"));
    expected.push(0);
    assert_eq!(c.dependencies, Some(expected));
    assert!(c.account_name.is_none());
    let mut created = Service::from_native(db.create_service(&c)).unwrap();
    let q = m.open_service("svc", ServiceAccess::from_bits(SERVICE_QUERY_STATUS)).unwrap();
    let mut opened = Service::from_native(db.open_service(&q)).unwrap();
    let before = db.close_calls();
    close_service(&mut db, &mut created);
    close_service(&mut db, &mut opened);
    assert_eq!(db.close_calls() - before, 2);
    close_service(&mut db, &mut opened);
    assert_eq!(db.close_calls() - before, 2);
    close_manager(&mut db, &mut m);
    assert_eq!(db.open_handles(), 0);
}
