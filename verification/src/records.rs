//! The two record shapes the registry stores, and the error type its
//! operations return.

use vstd::prelude::*;
use vstd::string::StringExecFns;

verus! {

/// A single attendance event: an allocator-issued identifier, the employee it
/// refers to, and the server-assigned time of submission. Created once and
/// never mutated.
#[derive(Clone, Copy, PartialEq, Eq, Structural, Debug)]
pub struct Attendance {
    pub id: u64,
    pub employee_id: u64,
    pub time: u64,
}

/// An employee record. The key is chosen by the caller; name and role may be
/// replaced by updates.
#[derive(Clone, Debug)]
pub struct Employee {
    pub employee_id: u64,
    pub name: String,
    pub role: String,
}

/// The mathematical value of an employee record: the identifier and the two
/// strings as character sequences.
pub struct EmployeeV {
    pub employee_id: u64,
    pub name: Seq<char>,
    pub role: Seq<char>,
}

impl View for Employee {
    type V = EmployeeV;

    open spec fn view(&self) -> EmployeeV {
        EmployeeV { employee_id: self.employee_id, name: self.name@, role: self.role@ }
    }
}

/// The outcomes an operation can fail with. `AlreadyExists` is part of the
/// declared taxonomy but no operation of this registry raises it: inserting
/// under a used key overwrites silently.
#[derive(Clone, Debug)]
pub enum Error {
    NotFound { msg: String },
    AlreadyExists { msg: String },
}

/// The character of one decimal digit.
pub open spec fn digit_char(d: u64) -> char
    recommends
        d < 10,
{
    ((48 + d) as u8) as char
}

/// The decimal digits of `x`, most significant first.
pub open spec fn u64_dec(x: u64) -> Seq<char>
    decreases x,
{
    if x < 10 {
        seq![digit_char(x)]
    } else {
        u64_dec(x / 10).push(digit_char(x % 10))
    }
}

/// Relies on `u64::to_string` (through `Display`): an unsigned integer is
/// rendered as its plain decimal digits, most significant first.
#[verifier::external_body]
fn u64_to_decimal(x: u64) -> (s: String)
    ensures
        s@ == u64_dec(x),
{
    x.to_string()
}

/// The message of an error for a missing employee record.
pub open spec fn employee_not_found_msg(id: u64) -> Seq<char> {
    "Employee with ID "@ + u64_dec(id) + " not found"@
}

/// The message of an error for a missing attendance record.
pub open spec fn attendance_not_found_msg(id: u64) -> Seq<char> {
    "Attendance with ID "@ + u64_dec(id) + " not found"@
}

/// The error for a missing employee record, naming the identifier.
pub fn employee_not_found(id: u64) -> (e: Error)
    ensures
        e matches Error::NotFound { msg } && msg@ == employee_not_found_msg(id),
{
    let digits = u64_to_decimal(id);
    let mut msg = String::from_str("Employee with ID ");
    msg.append(digits.as_str());
    msg.append(" not found");
    proof {
        assert(msg@ =~= employee_not_found_msg(id));
    }
    Error::NotFound { msg }
}

/// The error for a missing attendance record, naming the identifier.
pub fn attendance_not_found(id: u64) -> (e: Error)
    ensures
        e matches Error::NotFound { msg } && msg@ == attendance_not_found_msg(id),
{
    let digits = u64_to_decimal(id);
    let mut msg = String::from_str("Attendance with ID ");
    msg.append(digits.as_str());
    msg.append(" not found");
    proof {
        assert(msg@ =~= attendance_not_found_msg(id));
    }
    Error::NotFound { msg }
}

} // verus!
