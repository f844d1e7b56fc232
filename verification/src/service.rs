//! The entity service: the domain operations over the allocator and the two
//! record stores. Creation of an attendance event draws a fresh identifier
//! and stamps the server time handed in by the caller; employee records are
//! keyed by caller-chosen identifiers.

use vstd::prelude::*;
use crate::backing::backing_new;
use crate::id_alloc::IdAllocator;
use crate::records::{Attendance, Employee, EmployeeV, Error};
use crate::records::{
    attendance_not_found,
    attendance_not_found_msg,
    employee_not_found,
    employee_not_found_msg,
};
use crate::stores::{AttendanceStore, EmployeeStore};
use crate::wire::{employee_fits, spec_encode_employee};

verus! {

/// The registry's owned state: the identifier counter and one store per
/// entity type, each over its own durable region.
pub struct HrService {
    allocator: IdAllocator,
    attendance: AttendanceStore,
    employees: EmployeeStore,
}

impl HrService {
    /// The counter and both stores are well formed; every stored attendance
    /// identifier was issued by the allocator, so it never exceeds the
    /// counter; and every stored record carries the identifier it is keyed
    /// under.
    pub closed spec fn wf(self) -> bool {
        &&& self.attendance.wf()
        &&& self.employees.wf()
        &&& forall|k: u64|
            #[trigger] self.attendance@.contains_key(k) ==> k <= self.allocator.counter()
        &&& forall|k: u64| #[trigger] self.attendance@.contains_key(k) ==> self.attendance@[k].id == k
        &&& forall|k: u64|
            #[trigger] self.employees@.contains_key(k) ==> self.employees@[k].employee_id == k
    }

    /// The identifier counter: the last attendance identifier handed out.
    pub closed spec fn counter(self) -> u64 {
        self.allocator.counter()
    }

    /// The attendance records currently stored, by identifier.
    pub closed spec fn attendance_map(self) -> Map<u64, Attendance> {
        self.attendance@
    }

    /// The employee records currently stored, by identifier.
    pub closed spec fn employee_map(self) -> Map<u64, EmployeeV> {
        self.employees@
    }

    /// A fresh service: counter at zero, both stores empty, each over a fresh
    /// durable region.
    pub fn new() -> (s: Self)
        ensures
            s.wf(),
            s.counter() == 0,
            s.attendance_map() == Map::<u64, Attendance>::empty(),
            s.employee_map() == Map::<u64, EmployeeV>::empty(),
    {
        let (cell, attendance_map, employee_map) = backing_new();
        HrService {
            allocator: IdAllocator::from_cell(cell),
            attendance: AttendanceStore::from_backing(attendance_map),
            employees: EmployeeStore::from_backing(employee_map),
        }
    }

    /// Reloads the whole service from its durable regions, as a restarted
    /// process would: counter and records are the durably committed ones.
    pub fn reopen(self) -> (s: Self)
        requires
            self.wf(),
        ensures
            s.wf(),
            s.counter() == self.counter(),
            s.attendance_map() == self.attendance_map(),
            s.employee_map() == self.employee_map(),
    {
        HrService {
            allocator: self.allocator.reopen(),
            attendance: self.attendance.reopen(),
            employees: self.employees.reopen(),
        }
    }

    /// The last attendance identifier handed out, or zero when none has been
    /// yet.
    pub fn last_issued_id(&self) -> (id: u64)
        ensures
            id == self.counter(),
    {
        self.allocator.current()
    }

    /// Records an attendance event for `employee_id` at server time `now`:
    /// allocates a fresh identifier, stores the record under it, and returns
    /// the record. Never fails; each call creates a new record. The
    /// `employee_id` is not checked against the employee store.
    pub fn submit_attendance(&mut self, employee_id: u64, now: u64) -> (r: Result<
        Attendance,
        Error,
    >)
        requires
            old(self).wf(),
            old(self).counter() < u64::MAX,
        ensures
            final(self).wf(),
            final(self).counter() == old(self).counter() + 1,
            final(self).employee_map() == old(self).employee_map(),
            ({
                let rec = (Attendance {
                    id: (old(self).counter() + 1) as u64,
                    employee_id,
                    time: now,
                });
                &&& r == Result::<Attendance, Error>::Ok(rec)
                &&& final(self).attendance_map() == old(self).attendance_map().insert(
                    rec.id,
                    rec,
                )
                &&& !old(self).attendance_map().contains_key(rec.id)
            }),
    {
        let id = self.allocator.next();
        let record = Attendance { id, employee_id, time: now };
        self.attendance.put(id, record);
        Ok(record)
    }

    /// Point lookup of an attendance record: the stored record, or `NotFound`
    /// exactly when no record was ever stored under the identifier.
    pub fn get_attendance(&self, req_id: u64) -> (r: Result<Attendance, Error>)
        requires
            self.wf(),
        ensures
            match r {
                Ok(a) => self.attendance_map().contains_key(req_id) && a
                    == self.attendance_map()[req_id] && a.id == req_id,
                Err(e) => !self.attendance_map().contains_key(req_id) && (e matches
                Error::NotFound { msg } && msg@ == attendance_not_found_msg(req_id)),
            },
    {
        match _get_attendance(self, &req_id) {
            Some(record) => Ok(record),
            None => Err(attendance_not_found(req_id)),
        }
    }

    /// Stores an employee record under the caller-chosen identifier,
    /// overwriting any record already there, and returns the stored record.
    /// No `AlreadyExists` error is raised: overwrites succeed silently.
    pub fn add_employee(&mut self, employee_id: u64, name: String, role: String) -> (r: Result<
        Employee,
        Error,
    >)
        requires
            old(self).wf(),
            employee_fits((EmployeeV { employee_id, name: name@, role: role@ })),
        ensures
            final(self).wf(),
            final(self).counter() == old(self).counter(),
            final(self).attendance_map() == old(self).attendance_map(),
            ({
                let v = (EmployeeV { employee_id, name: name@, role: role@ });
                &&& final(self).employee_map() == old(self).employee_map().insert(employee_id, v)
                &&& r matches Ok(e) && e@ == v
            }),
    {
        let record = Employee { employee_id, name, role };
        self.employees.put(employee_id, &record);
        Ok(record)
    }

    /// Stores an employee record if it keeps within the record size bound;
    /// a record too large leaves the registry unchanged and returns nothing.
    pub fn try_add_employee(&mut self, employee_id: u64, name: String, role: String) -> (r: Option<
        Employee,
    >)
        requires
            old(self).wf(),
        ensures
            final(self).wf(),
            final(self).counter() == old(self).counter(),
            final(self).attendance_map() == old(self).attendance_map(),
            ({
                let v = (EmployeeV { employee_id, name: name@, role: role@ });
                &&& employee_fits(v) ==> final(self).employee_map() == old(
                    self,
                ).employee_map().insert(employee_id, v) && (r matches Some(e) && e@ == v)
                &&& !employee_fits(v) ==> final(self).employee_map() == old(self).employee_map()
                    && r is None
            }),
    {
        let record = Employee { employee_id, name, role };
        if self.employees.try_put(employee_id, &record) {
            Some(record)
        } else {
            None
        }
    }

    /// Replaces the name and role of the employee stored under `employee_id`,
    /// leaving the stored identifier untouched, and returns the updated
    /// record; fails with `NotFound`, writing nothing, exactly when no record
    /// is stored there.
    pub fn update_employee(&mut self, employee_id: u64, name: String, role: String) -> (r: Result<
        Employee,
        Error,
    >)
        requires
            old(self).wf(),
            old(self).employee_map().contains_key(employee_id) ==> employee_fits(
                (EmployeeV { employee_id, name: name@, role: role@ }),
            ),
        ensures
            final(self).wf(),
            final(self).counter() == old(self).counter(),
            final(self).attendance_map() == old(self).attendance_map(),
            ({
                let m = old(self).employee_map();
                if m.contains_key(employee_id) {
                    let v = (EmployeeV {
                        employee_id: m[employee_id].employee_id,
                        name: name@,
                        role: role@,
                    });
                    &&& m[employee_id].employee_id == employee_id
                    &&& final(self).employee_map() == m.insert(employee_id, v)
                    &&& r matches Ok(e) && e@ == v
                } else {
                    &&& final(self).employee_map() == m
                    &&& r matches Err(e) && (e matches Error::NotFound { msg } && msg@
                        == employee_not_found_msg(employee_id))
                }
            }),
    {
        match self.employees.get(employee_id) {
            Some(existing) => {
                let updated = Employee { employee_id: existing.employee_id, name, role };
                proof {
                    let vreq = EmployeeV {
                        employee_id,
                        name: updated@.name,
                        role: updated@.role,
                    };
                    assert(spec_encode_employee(updated@).len() == spec_encode_employee(
                        vreq,
                    ).len());
                }
                self.employees.put(employee_id, &updated);
                Ok(updated)
            },
            None => Err(employee_not_found(employee_id)),
        }
    }

    /// Point lookup of an employee record: the stored record, or `NotFound`
    /// exactly when no record was ever stored under the identifier.
    pub fn get_employee(&self, req_id: u64) -> (r: Result<Employee, Error>)
        requires
            self.wf(),
        ensures
            match r {
                Ok(e) => self.employee_map().contains_key(req_id) && e@
                    == self.employee_map()[req_id] && e.employee_id == req_id,
                Err(e) => !self.employee_map().contains_key(req_id) && (e matches
                Error::NotFound { msg } && msg@ == employee_not_found_msg(req_id)),
            },
    {
        match _get_employee(self, &req_id) {
            Some(record) => Ok(record),
            None => Err(employee_not_found(req_id)),
        }
    }
}

/// Point lookup of an attendance record, as an optional value.
pub fn _get_attendance(service: &HrService, req_id: &u64) -> (r: Option<Attendance>)
    requires
        service.wf(),
    ensures
        match r {
            Some(a) => service.attendance_map().contains_key(*req_id) && a
                == service.attendance_map()[*req_id],
            None => !service.attendance_map().contains_key(*req_id),
        },
{
    service.attendance.get(*req_id)
}

/// Point lookup of an employee record, as an optional value.
pub fn _get_employee(service: &HrService, req_id: &u64) -> (r: Option<Employee>)
    requires
        service.wf(),
    ensures
        match r {
            Some(e) => service.employee_map().contains_key(*req_id) && e@
                == service.employee_map()[*req_id],
            None => !service.employee_map().contains_key(*req_id),
        },
{
    service.employees.get(*req_id)
}

} // verus!
