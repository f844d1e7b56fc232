use attendance_registry::backing::backing_new;
use attendance_registry::id_alloc::IdAllocator;
use attendance_registry::records::{Attendance, Employee, Error};
use attendance_registry::service::{HrService, _get_attendance, _get_employee};
use attendance_registry::stores::{AttendanceStore, EmployeeStore};

fn fresh_allocator() -> IdAllocator {
    let (cell, _, _) = backing_new();
    IdAllocator::from_cell(cell)
}

fn fresh_attendance_store() -> AttendanceStore {
    let (_, map, _) = backing_new();
    AttendanceStore::from_backing(map)
}

fn fresh_employee_store() -> EmployeeStore {
    let (_, _, map) = backing_new();
    EmployeeStore::from_backing(map)
}

fn employee(id: u64, name: &str, role: &str) -> Employee {
    Employee { employee_id: id, name: name.to_string(), role: role.to_string() }
}

#[test]
fn allocator_starts_at_one_and_increases() {
    let mut alloc = fresh_allocator();
    assert_eq!(alloc.current(), 0);
    let a = alloc.next();
    let b = alloc.next();
    let c = alloc.next();
    assert_eq!((a, b, c), (1, 2, 3));
    assert!(a < b && b < c);
    assert_eq!(alloc.current(), 3);
}

#[test]
fn allocator_monotonic_across_restart() {
    let mut alloc = fresh_allocator();
    let mut issued = Vec::new();
    for _ in 0..4 {
        issued.push(alloc.next());
    }
    let mut alloc = alloc.reopen();
    assert_eq!(alloc.current(), 4);
    for _ in 0..3 {
        issued.push(alloc.next());
    }
    for w in issued.windows(2) {
        assert!(w[0] < w[1]);
    }
    assert_eq!(issued, vec![1, 2, 3, 4, 5, 6, 7]);
}

#[test]
fn employee_store_round_trip_multibyte() {
    let mut store = fresh_employee_store();
    let record = employee(7, "Zoë Ångström", "façade manager — 設計");
    assert!(store.try_put(7, &record));
    let back = store.get(7).unwrap();
    assert_eq!(back.employee_id, 7);
    assert_eq!(back.name, "Zoë Ångström");
    assert_eq!(back.role, "façade manager — 設計");
}

#[test]
fn attendance_store_round_trip() {
    let mut store = fresh_attendance_store();
    let record = Attendance { id: 11, employee_id: 3, time: 1700000000 };
    store.put(11, record);
    let back = store.get(11).unwrap();
    assert_eq!(back, record);
}

#[test]
fn absent_key_is_absent_not_default() {
    let store = fresh_employee_store();
    assert!(store.get(0).is_none());
    assert!(store.get(42).is_none());
    let mut store = store;
    assert!(store.try_put(1, &employee(1, "Ann", "Clerk")));
    assert!(store.try_put(2, &employee(2, "Ben", "Clerk")));
    assert!(store.get(3).is_none());
    let att = fresh_attendance_store();
    assert!(att.get(1).is_none());
}

#[test]
fn overwrite_leaves_second_record() {
    let mut store = fresh_employee_store();
    assert!(store.try_put(5, &employee(5, "First", "Old")));
    assert!(store.try_put(5, &employee(5, "Second", "New")));
    let back = store.get(5).unwrap();
    assert_eq!(back.name, "Second");
    assert_eq!(back.role, "New");
}

#[test]
fn store_survives_reopen() {
    let mut store = fresh_employee_store();
    assert!(store.try_put(9, &employee(9, "Durable", "Keeper")));
    let store = store.reopen();
    let back = store.get(9).unwrap();
    assert_eq!(back.name, "Durable");
    assert_eq!(back.role, "Keeper");
    assert!(store.get(10).is_none());
}

#[test]
fn oversized_record_is_rejected_without_write() {
    let mut store = fresh_employee_store();
    let big = "x".repeat(2000);
    assert!(!store.try_put(1, &employee(1, &big, "Clerk")));
    assert!(store.get(1).is_none());
    assert!(store.try_put(1, &employee(1, "Fits", "Clerk")));
    assert_eq!(store.get(1).unwrap().name, "Fits");
}

#[test]
fn update_preserves_identity() {
    let mut service = HrService::new();
    service.try_add_employee(4, "Alice".to_string(), "Clerk".to_string()).unwrap();
    let updated = service.update_employee(4, "Alice".to_string(), "Manager".to_string()).unwrap();
    assert_eq!(updated.employee_id, 4);
    assert_eq!(updated.name, "Alice");
    assert_eq!(updated.role, "Manager");
    let back = service.get_employee(4).unwrap();
    assert_eq!(back.employee_id, 4);
    assert_eq!(back.role, "Manager");
}

#[test]
fn update_of_missing_record_fails_without_write() {
    let mut service = HrService::new();
    let r = service.update_employee(77, "Ghost".to_string(), "None".to_string());
    match r {
        Err(Error::NotFound { msg }) => assert_eq!(msg, "Employee with ID 77 not found"),
        _ => panic!("expected NotFound"),
    }
    assert!(matches!(service.get_employee(77), Err(Error::NotFound { .. })));
}

#[test]
fn service_scenario() {
    let mut service = HrService::new();
    service.try_add_employee(1, "Bob".to_string(), "Clerk".to_string()).unwrap();
    let e = service.get_employee(1).unwrap();
    assert_eq!(e.employee_id, 1);
    assert_eq!(e.name, "Bob");
    assert_eq!(e.role, "Clerk");

    let t1: u64 = 1000;
    let t2: u64 = 1005;
    let first = service.submit_attendance(1, t1).unwrap();
    assert_eq!(first.id, 1);
    assert_eq!(first.employee_id, 1);
    assert_eq!(first.time, t1);
    let second = service.submit_attendance(1, t2).unwrap();
    assert_eq!(second.id, 2);
    assert_eq!(second.employee_id, 1);
    assert!(second.time >= first.time);

    match service.get_attendance(999) {
        Err(Error::NotFound { msg }) => assert_eq!(msg, "Attendance with ID 999 not found"),
        _ => panic!("expected NotFound"),
    }
}

#[test]
fn service_survives_reopen() {
    let mut service = HrService::new();
    service.try_add_employee(1, "Kim".to_string(), "Lead".to_string()).unwrap();
    service.submit_attendance(1, 500).unwrap();
    service.submit_attendance(1, 501).unwrap();
    let mut service = service.reopen();
    assert_eq!(service.last_issued_id(), 2);
    assert_eq!(service.get_employee(1).unwrap().name, "Kim");
    assert_eq!(service.get_attendance(2).unwrap().time, 501);
    let third = service.submit_attendance(1, 502).unwrap();
    assert_eq!(third.id, 3);
}

#[test]
fn underscore_lookups_match_store_state() {
    let mut service = HrService::new();
    assert!(_get_employee(&service, &8).is_none());
    assert!(_get_attendance(&service, &1).is_none());
    service.try_add_employee(8, "Pat".to_string(), "Scout".to_string()).unwrap();
    let rec = service.submit_attendance(8, 99).unwrap();
    assert_eq!(_get_employee(&service, &8).unwrap().name, "Pat");
    assert_eq!(_get_attendance(&service, &rec.id).unwrap().employee_id, 8);
}

#[test]
fn add_employee_overwrites_silently() {
    let mut service = HrService::new();
    service.try_add_employee(2, "Old".to_string(), "Role".to_string()).unwrap();
    let r = service.try_add_employee(2, "New".to_string(), "Role".to_string());
    assert!(r.is_some());
    assert_eq!(service.get_employee(2).unwrap().name, "New");
}

#[test]
fn oversized_employee_is_rejected_by_service() {
    let mut service = HrService::new();
    let big = "y".repeat(1200);
    assert!(service.try_add_employee(3, big, "Clerk".to_string()).is_none());
    assert!(matches!(service.get_employee(3), Err(Error::NotFound { .. })));
}

#[test]
fn update_of_missing_record_allows_oversized_input() {
    let mut service = HrService::new();
    let big = "z".repeat(5000);
    let r = service.update_employee(6, big, "Clerk".to_string());
    assert!(matches!(r, Err(Error::NotFound { .. })));
    assert!(matches!(service.get_employee(6), Err(Error::NotFound { .. })));
}

#[test]
fn error_messages_name_the_identifier() {
    let service = HrService::new();
    match service.get_employee(0) {
        Err(Error::NotFound { msg }) => assert_eq!(msg, "Employee with ID 0 not found"),
        _ => panic!("expected NotFound"),
    }
    match service.get_attendance(18446744073709551615) {
        Err(Error::NotFound { msg }) => {
            assert_eq!(msg, "Attendance with ID 18446744073709551615 not found")
        }
        _ => panic!("expected NotFound"),
    }
}
