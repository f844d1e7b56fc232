//! The record stores: one durable sorted byte map per entity type, together
//! with the proof that what comes back out of a store is exactly what was put
//! in. Each store's view is the mathematical map of the records it holds; its
//! well-formedness ties every stored byte string to the encoding of the
//! record under the same key.

use vstd::prelude::*;
use crate::backing::{
    StableByteMap,
    byte_map_contents,
    byte_map_insert,
    byte_map_get,
    byte_map_reopen,
};
use crate::records::{Attendance, Employee, EmployeeV};
use crate::wire::{
    MAX_RECORD_BYTES,
    spec_encode_attendance,
    encode_attendance,
    decode_attendance,
    lemma_attendance_encoding_injective,
    spec_encode_employee,
    employee_fits,
    encode_employee,
    decode_employee,
    lemma_employee_encoding_injective,
};

verus! {

/// A durable store of attendance records keyed by their identifier.
pub struct AttendanceStore {
    map: StableByteMap,
    records: Ghost<Map<u64, Attendance>>,
}

impl View for AttendanceStore {
    type V = Map<u64, Attendance>;

    closed spec fn view(&self) -> Map<u64, Attendance> {
        self.records@
    }
}

impl AttendanceStore {
    /// The durable bytes hold exactly the encodings of this store's records.
    pub closed spec fn wf(self) -> bool {
        &&& byte_map_contents(self.map).dom() == self.records@.dom()
        &&& forall|k: u64|
            #[trigger] self.records@.contains_key(k) ==> byte_map_contents(self.map)[k]
                == spec_encode_attendance(self.records@[k])
    }

    /// An empty store over a durable map that holds nothing yet, such as one
    /// fresh from `backing_new`.
    pub fn from_backing(map: StableByteMap) -> (s: Self)
        requires
            forall|k: u64| !byte_map_contents(map).contains_key(k),
        ensures
            s.wf(),
            s@ == Map::<u64, Attendance>::empty(),
    {
        let s = AttendanceStore { map, records: Ghost(Map::empty()) };
        proof {
            assert(byte_map_contents(s.map).dom() =~= s.records@.dom());
        }
        s
    }

    /// Inserts or overwrites the record at `key`, durably. An attendance
    /// record encodes to 24 bytes, well within the record size bound.
    pub fn put(&mut self, key: u64, record: Attendance)
        requires
            old(self).wf(),
        ensures
            final(self).wf(),
            final(self)@ == old(self)@.insert(key, record),
    {
        let bytes = encode_attendance(&record);
        byte_map_insert(&mut self.map, key, bytes);
        proof {
            self.records@ = self.records@.insert(key, record);
            assert(byte_map_contents(self.map).dom() =~= self.records@.dom());
        }
    }

    /// Point lookup: returns the record stored at `key`, or absence when no
    /// record was ever stored there. Read-only.
    pub fn get(&self, key: u64) -> (r: Option<Attendance>)
        requires
            self.wf(),
        ensures
            match r {
                Some(a) => self@.contains_key(key) && a == self@[key],
                None => !self@.contains_key(key),
            },
    {
        match byte_map_get(&self.map, key) {
            None => None,
            Some(bytes) => {
                proof {
                    assert(self.records@.contains_key(key));
                }
                match decode_attendance(&bytes) {
                    Some(a) => {
                        proof {
                            lemma_attendance_encoding_injective(a, self.records@[key]);
                        }
                        Some(a)
                    },
                    None => {
                        proof {
                            assert(bytes@ == spec_encode_attendance(self.records@[key]));
                            assert(false);
                        }
                        None
                    },
                }
            },
        }
    }

    /// Reloads the store from its durable region, as a restarted process
    /// would: the records are the durably committed ones.
    pub fn reopen(self) -> (s: Self)
        requires
            self.wf(),
        ensures
            s.wf(),
            s@ == self@,
    {
        AttendanceStore { map: byte_map_reopen(self.map), records: self.records }
    }
}

/// A durable store of employee records keyed by their identifier.
pub struct EmployeeStore {
    map: StableByteMap,
    records: Ghost<Map<u64, EmployeeV>>,
}

impl View for EmployeeStore {
    type V = Map<u64, EmployeeV>;

    closed spec fn view(&self) -> Map<u64, EmployeeV> {
        self.records@
    }
}

impl EmployeeStore {
    /// The durable bytes hold exactly the encodings of this store's records.
    pub closed spec fn wf(self) -> bool {
        &&& byte_map_contents(self.map).dom() == self.records@.dom()
        &&& forall|k: u64|
            #[trigger] self.records@.contains_key(k) ==> byte_map_contents(self.map)[k]
                == spec_encode_employee(self.records@[k])
    }

    /// An empty store over a durable map that holds nothing yet, such as one
    /// fresh from `backing_new`.
    pub fn from_backing(map: StableByteMap) -> (s: Self)
        requires
            forall|k: u64| !byte_map_contents(map).contains_key(k),
        ensures
            s.wf(),
            s@ == Map::<u64, EmployeeV>::empty(),
    {
        let s = EmployeeStore { map, records: Ghost(Map::empty()) };
        proof {
            assert(byte_map_contents(s.map).dom() =~= s.records@.dom());
        }
        s
    }

    /// Inserts or overwrites the record at `key`, durably. A record larger
    /// than the size bound is a programming error, ruled out here rather than
    /// truncated; `try_put` checks the bound at run time instead.
    pub fn put(&mut self, key: u64, record: &Employee)
        requires
            old(self).wf(),
            employee_fits(record@),
        ensures
            final(self).wf(),
            final(self)@ == old(self)@.insert(key, record@),
    {
        let bytes = encode_employee(record);
        byte_map_insert(&mut self.map, key, bytes);
        proof {
            self.records@ = self.records@.insert(key, record@);
            assert(byte_map_contents(self.map).dom() =~= self.records@.dom());
        }
    }

    /// Inserts the record if its encoding keeps within the size bound;
    /// otherwise leaves the store unchanged and reports the failure.
    pub fn try_put(&mut self, key: u64, record: &Employee) -> (ok: bool)
        requires
            old(self).wf(),
        ensures
            final(self).wf(),
            ok == employee_fits(record@),
            ok ==> final(self)@ == old(self)@.insert(key, record@),
            !ok ==> final(self)@ == old(self)@,
    {
        let bytes = encode_employee(record);
        if bytes.len() <= MAX_RECORD_BYTES {
            self.put(key, record);
            true
        } else {
            false
        }
    }

    /// Point lookup: returns the record stored at `key`, or absence when no
    /// record was ever stored there. Read-only.
    pub fn get(&self, key: u64) -> (r: Option<Employee>)
        requires
            self.wf(),
        ensures
            match r {
                Some(e) => self@.contains_key(key) && e@ == self@[key],
                None => !self@.contains_key(key),
            },
    {
        match byte_map_get(&self.map, key) {
            None => None,
            Some(bytes) => {
                let nbytes = bytes.len();
                proof {
                    assert(self.records@.contains_key(key));
                    assert(bytes@ == spec_encode_employee(self.records@[key]));
                    assert(nbytes == bytes@.len() && bytes@.len() <= u64::MAX);
                }
                match decode_employee(&bytes) {
                    Some(e) => {
                        proof {
                            lemma_employee_encoding_injective(e@, self.records@[key]);
                        }
                        Some(e)
                    },
                    None => {
                        proof {
                            assert(false);
                        }
                        None
                    },
                }
            },
        }
    }

    /// Reloads the store from its durable region, as a restarted process
    /// would: the records are the durably committed ones.
    pub fn reopen(self) -> (s: Self)
        requires
            self.wf(),
        ensures
            s.wf(),
            s@ == self@,
    {
        EmployeeStore { map: byte_map_reopen(self.map), records: self.records }
    }
}

} // verus!
