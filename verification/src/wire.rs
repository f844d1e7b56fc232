//! The bounded byte encoding of the two record shapes, with exact decoders.
//!
//! An attendance record is its three fields, each as eight little-endian
//! bytes. An employee record is the identifier, the byte lengths of the two
//! strings, each as eight little-endian bytes, followed by the UTF-8 bytes of
//! the name and of the role. Encoding and decoding round-trip exactly.

use vstd::prelude::*;
use vstd::utf8::{encode_utf8, valid_utf8, encode_utf8_valid_utf8, encode_utf8_decode_utf8};
use vstd::string::StrSliceExecFns;
use crate::records::{Attendance, Employee, EmployeeV};

verus! {

/// Largest encoded record the stores accept, in bytes.
pub const MAX_RECORD_BYTES: usize = 1024;

/// The eight bytes of `x`, least significant first.
pub open spec fn u64_le(x: u64) -> Seq<u8> {
    seq![
        (x & 0xff) as u8,
        ((x >> 8) & 0xff) as u8,
        ((x >> 16) & 0xff) as u8,
        ((x >> 24) & 0xff) as u8,
        ((x >> 32) & 0xff) as u8,
        ((x >> 40) & 0xff) as u8,
        ((x >> 48) & 0xff) as u8,
        ((x >> 56) & 0xff) as u8,
    ]
}

/// The number held by eight bytes, least significant first.
pub open spec fn u64_from_le(s: Seq<u8>) -> u64
    recommends
        s.len() == 8,
{
    ((s[0] as u64) | ((s[1] as u64) << 8) | ((s[2] as u64) << 16) | ((s[3] as u64) << 24)
        | ((s[4] as u64) << 32) | ((s[5] as u64) << 40) | ((s[6] as u64) << 48) | ((s[7] as u64)
        << 56)) as u64
}

/// Reading back the eight little-endian bytes of a number yields the number.
pub proof fn lemma_u64_le_round_trip(x: u64)
    ensures
        u64_from_le(u64_le(x)) == x,
{
    assert((((x & 0xff) as u8) as u64) | (((((x >> 8) & 0xff) as u8) as u64) << 8) | (((((x >> 16)
        & 0xff) as u8) as u64) << 16) | (((((x >> 24) & 0xff) as u8) as u64) << 24) | (((((x >> 32)
        & 0xff) as u8) as u64) << 32) | (((((x >> 40) & 0xff) as u8) as u64) << 40) | (((((x >> 48)
        & 0xff) as u8) as u64) << 48) | (((((x >> 56) & 0xff) as u8) as u64) << 56) == x)
        by (bit_vector);
}

/// Two numbers with the same little-endian bytes are the same number.
pub proof fn lemma_u64_le_injective(x: u64, y: u64)
    requires
        u64_le(x) == u64_le(y),
    ensures
        x == y,
{
    lemma_u64_le_round_trip(x);
    lemma_u64_le_round_trip(y);
}

/// Eight bytes are exactly the little-endian bytes of the number they hold.
pub proof fn lemma_u64_from_le_inverse(s: Seq<u8>)
    requires
        s.len() == 8,
    ensures
        u64_le(u64_from_le(s)) == s,
{
    let b0 = s[0];
    let b1 = s[1];
    let b2 = s[2];
    let b3 = s[3];
    let b4 = s[4];
    let b5 = s[5];
    let b6 = s[6];
    let b7 = s[7];
    let x = u64_from_le(s);
    assert(x == ((b0 as u64) | ((b1 as u64) << 8) | ((b2 as u64) << 16) | ((b3 as u64) << 24) | ((
    b4 as u64) << 32) | ((b5 as u64) << 40) | ((b6 as u64) << 48) | ((b7 as u64) << 56)) as u64);
    assert(x == ((b0 as u64) | ((b1 as u64) << 8) | ((b2 as u64) << 16) | ((b3 as u64) << 24) | ((
    b4 as u64) << 32) | ((b5 as u64) << 40) | ((b6 as u64) << 48) | ((b7 as u64) << 56)) as u64
        ==> ((x & 0xff) as u8 == b0 && ((x >> 8) & 0xff) as u8 == b1 && ((x >> 16) & 0xff) as u8
        == b2 && ((x >> 24) & 0xff) as u8 == b3 && ((x >> 32) & 0xff) as u8 == b4 && ((x >> 40)
        & 0xff) as u8 == b5 && ((x >> 48) & 0xff) as u8 == b6 && ((x >> 56) & 0xff) as u8 == b7))
        by (bit_vector);
    assert(u64_le(x) =~= s);
}

/// Appends the eight little-endian bytes of `x`.
pub fn push_u64_le(out: &mut Vec<u8>, x: u64)
    ensures
        final(out)@ == old(out)@ + u64_le(x),
{
    proof {
        assert((x & 0xff) < 256 && ((x >> 8) & 0xff) < 256 && ((x >> 16) & 0xff) < 256 && ((x
            >> 24) & 0xff) < 256 && ((x >> 32) & 0xff) < 256 && ((x >> 40) & 0xff) < 256 && ((x
            >> 48) & 0xff) < 256 && ((x >> 56) & 0xff) < 256) by (bit_vector);
    }
    out.push((x & 0xff) as u8);
    out.push(((x >> 8) & 0xff) as u8);
    out.push(((x >> 16) & 0xff) as u8);
    out.push(((x >> 24) & 0xff) as u8);
    out.push(((x >> 32) & 0xff) as u8);
    out.push(((x >> 40) & 0xff) as u8);
    out.push(((x >> 48) & 0xff) as u8);
    out.push(((x >> 56) & 0xff) as u8);
    proof {
        assert(out@ =~= old(out)@ + u64_le(x));
    }
}

/// Reads the number held by the eight bytes at `off`.
pub fn read_u64_le(b: &Vec<u8>, off: usize) -> (x: u64)
    requires
        off + 8 <= b.len(),
    ensures
        x == u64_from_le(b@.subrange(off as int, off as int + 8)),
{
    let x: u64 = (b[off] as u64) | ((b[off + 1] as u64) << 8) | ((b[off + 2] as u64) << 16) | ((
    b[off + 3] as u64) << 24) | ((b[off + 4] as u64) << 32) | ((b[off + 5] as u64) << 40) | ((b[off
        + 6] as u64) << 48) | ((b[off + 7] as u64) << 56);
    proof {
        let s = b@.subrange(off as int, off as int + 8);
        assert(s[0] == b@[off as int] && s[1] == b@[off as int + 1] && s[2] == b@[off as int + 2]
            && s[3] == b@[off as int + 3] && s[4] == b@[off as int + 4] && s[5] == b@[off as int
            + 5] && s[6] == b@[off as int + 6] && s[7] == b@[off as int + 7]);
    }
    x
}

/// Copies the bytes from `start` (inclusive) to `end` (exclusive).
pub fn copy_range(b: &Vec<u8>, start: usize, end: usize) -> (out: Vec<u8>)
    requires
        start <= end && end <= b@.len(),
    ensures
        out@ == b@.subrange(start as int, end as int),
{
    let mut out: Vec<u8> = Vec::new();
    let mut i: usize = start;
    while i < end
        invariant
            start <= i <= end <= b@.len(),
            out@ == b@.subrange(start as int, i as int),
        decreases end - i,
    {
        out.push(b[i]);
        i = i + 1;
        proof {
            assert(out@ =~= b@.subrange(start as int, i as int));
        }
    }
    out
}

/// The byte encoding of an attendance record.
pub open spec fn spec_encode_attendance(a: Attendance) -> Seq<u8> {
    u64_le(a.id) + u64_le(a.employee_id) + u64_le(a.time)
}

/// Encodes an attendance record; the result is always 24 bytes.
pub fn encode_attendance(a: &Attendance) -> (out: Vec<u8>)
    ensures
        out@ == spec_encode_attendance(*a),
        out@.len() == 24,
{
    let mut out: Vec<u8> = Vec::new();
    push_u64_le(&mut out, a.id);
    push_u64_le(&mut out, a.employee_id);
    push_u64_le(&mut out, a.time);
    proof {
        assert(out@ =~= spec_encode_attendance(*a));
    }
    out
}

/// Decodes an attendance record: succeeds exactly on the byte strings that
/// encode one, and then returns the record it encodes.
pub fn decode_attendance(b: &Vec<u8>) -> (r: Option<Attendance>)
    ensures
        match r {
            Some(a) => b@ == spec_encode_attendance(a),
            None => forall|a: Attendance| b@ != spec_encode_attendance(a),
        },
{
    if b.len() != 24 {
        proof {
            assert forall|a: Attendance| b@ != spec_encode_attendance(a) by {
                assert(spec_encode_attendance(a).len() == 24);
            }
        }
        return None;
    }
    let id = read_u64_le(b, 0);
    let employee_id = read_u64_le(b, 8);
    let time = read_u64_le(b, 16);
    let a = Attendance { id, employee_id, time };
    proof {
        lemma_u64_from_le_inverse(b@.subrange(0, 8));
        lemma_u64_from_le_inverse(b@.subrange(8, 16));
        lemma_u64_from_le_inverse(b@.subrange(16, 24));
        assert(b@ =~= b@.subrange(0, 8) + b@.subrange(8, 16) + b@.subrange(16, 24));
    }
    Some(a)
}

/// Two attendance records with the same encoding are the same record.
pub proof fn lemma_attendance_encoding_injective(a1: Attendance, a2: Attendance)
    requires
        spec_encode_attendance(a1) == spec_encode_attendance(a2),
    ensures
        a1 == a2,
{
    let b = spec_encode_attendance(a1);
    assert(b.subrange(0, 8) =~= u64_le(a1.id));
    assert(b.subrange(0, 8) =~= u64_le(a2.id));
    assert(b.subrange(8, 16) =~= u64_le(a1.employee_id));
    assert(b.subrange(8, 16) =~= u64_le(a2.employee_id));
    assert(b.subrange(16, 24) =~= u64_le(a1.time));
    assert(b.subrange(16, 24) =~= u64_le(a2.time));
    lemma_u64_le_injective(a1.id, a2.id);
    lemma_u64_le_injective(a1.employee_id, a2.employee_id);
    lemma_u64_le_injective(a1.time, a2.time);
}

/// Relies on `String::from_utf8`: it returns the string whose UTF-8 encoding
/// is the given bytes, and fails exactly when the bytes are not valid UTF-8.
#[verifier::external_body]
fn string_from_utf8(bytes: Vec<u8>) -> (r: Option<String>)
    ensures
        match r {
            Some(s) => encode_utf8(s@) == bytes@,
            None => !valid_utf8(bytes@),
        },
{
    std::string::String::from_utf8(bytes).ok()
}

/// The byte encoding of an employee record.
pub open spec fn spec_encode_employee(v: EmployeeV) -> Seq<u8> {
    u64_le(v.employee_id) + u64_le(encode_utf8(v.name).len() as u64) + u64_le(
        encode_utf8(v.role).len() as u64,
    ) + encode_utf8(v.name) + encode_utf8(v.role)
}

/// Whether an employee record keeps within the record size bound.
pub open spec fn employee_fits(v: EmployeeV) -> bool {
    spec_encode_employee(v).len() <= MAX_RECORD_BYTES
}

/// What the pieces of an employee encoding are, provided the whole is no
/// longer than a byte string held in memory can be.
proof fn lemma_employee_encoding_shape(v: EmployeeV, b: Seq<u8>)
    requires
        b == spec_encode_employee(v),
        b.len() <= u64::MAX,
    ensures
        encode_utf8(v.name).len() < 0x1_0000_0000_0000_0000,
        encode_utf8(v.role).len() < 0x1_0000_0000_0000_0000,
        b.len() == 24 + encode_utf8(v.name).len() + encode_utf8(v.role).len(),
        b.subrange(0, 8) == u64_le(v.employee_id),
        u64_from_le(b.subrange(8, 16)) == encode_utf8(v.name).len(),
        u64_from_le(b.subrange(16, 24)) == encode_utf8(v.role).len(),
        b.subrange(24, 24 + encode_utf8(v.name).len() as int) == encode_utf8(v.name),
        b.subrange(24 + encode_utf8(v.name).len() as int, b.len() as int) == encode_utf8(v.role),
{
    let nb = encode_utf8(v.name);
    let rb = encode_utf8(v.role);
    assert(b.subrange(0, 8) =~= u64_le(v.employee_id));
    assert(b.subrange(8, 16) =~= u64_le(nb.len() as u64));
    assert(b.subrange(16, 24) =~= u64_le(rb.len() as u64));
    lemma_u64_le_round_trip(nb.len() as u64);
    lemma_u64_le_round_trip(rb.len() as u64);
    assert(b.subrange(24, 24 + nb.len() as int) =~= nb);
    assert(b.subrange(24 + nb.len() as int, b.len() as int) =~= rb);
}

/// Two employee records with the same encoding are the same record, as long
/// as the encoding is short enough to be held in memory.
pub proof fn lemma_employee_encoding_injective(v1: EmployeeV, v2: EmployeeV)
    requires
        spec_encode_employee(v1) == spec_encode_employee(v2),
        spec_encode_employee(v1).len() <= u64::MAX,
    ensures
        v1 == v2,
{
    let b = spec_encode_employee(v1);
    lemma_employee_encoding_shape(v1, b);
    lemma_employee_encoding_shape(v2, b);
    lemma_u64_le_injective(v1.employee_id, v2.employee_id);
    assert(encode_utf8(v1.name) == encode_utf8(v2.name));
    assert(encode_utf8(v1.role) == encode_utf8(v2.role));
    encode_utf8_decode_utf8(v1.name);
    encode_utf8_decode_utf8(v2.name);
    encode_utf8_decode_utf8(v1.role);
    encode_utf8_decode_utf8(v2.role);
}

/// Encodes an employee record.
pub fn encode_employee(e: &Employee) -> (out: Vec<u8>)
    ensures
        out@ == spec_encode_employee(e@),
{
    let mut name_bytes = e.name.as_str().as_bytes_vec();
    let mut role_bytes = e.role.as_str().as_bytes_vec();
    let mut out: Vec<u8> = Vec::new();
    push_u64_le(&mut out, e.employee_id);
    push_u64_le(&mut out, name_bytes.len() as u64);
    push_u64_le(&mut out, role_bytes.len() as u64);
    out.append(&mut name_bytes);
    out.append(&mut role_bytes);
    proof {
        assert(out@ =~= spec_encode_employee(e@));
    }
    out
}

/// Decodes an employee record: succeeds exactly on the byte strings that
/// encode one, and then returns the record it encodes.
pub fn decode_employee(b: &Vec<u8>) -> (r: Option<Employee>)
    ensures
        match r {
            Some(e) => b@ == spec_encode_employee(e@),
            None => forall|v: EmployeeV| b@ != spec_encode_employee(v),
        },
{
    let len = b.len();
    proof {
        assert(b@.len() <= u64::MAX);
    }
    if len < 24 {
        proof {
            assert forall|v: EmployeeV| b@ != spec_encode_employee(v) by {
                assert(spec_encode_employee(v).len() >= 24);
            }
        }
        return None;
    }
    let employee_id = read_u64_le(b, 0);
    let nlen64 = read_u64_le(b, 8);
    let rlen64 = read_u64_le(b, 16);
    let rem: usize = len - 24;
    if nlen64 > rem as u64 || rlen64 != rem as u64 - nlen64 {
        proof {
            assert forall|v: EmployeeV| b@ != spec_encode_employee(v) by {
                if b@ == spec_encode_employee(v) {
                    lemma_employee_encoding_shape(v, b@);
                }
            }
        }
        return None;
    }
    let nlen = nlen64 as usize;
    let name_vec = copy_range(b, 24, 24 + nlen);
    let name = match string_from_utf8(name_vec) {
        Some(s) => s,
        None => {
            proof {
                assert forall|v: EmployeeV| b@ != spec_encode_employee(v) by {
                    if b@ == spec_encode_employee(v) {
                        lemma_employee_encoding_shape(v, b@);
                        encode_utf8_valid_utf8(v.name);
                    }
                }
            }
            return None;
        },
    };
    let role_vec = copy_range(b, 24 + nlen, len);
    let role = match string_from_utf8(role_vec) {
        Some(s) => s,
        None => {
            proof {
                assert forall|v: EmployeeV| b@ != spec_encode_employee(v) by {
                    if b@ == spec_encode_employee(v) {
                        lemma_employee_encoding_shape(v, b@);
                        encode_utf8_valid_utf8(v.role);
                    }
                }
            }
            return None;
        },
    };
    let e = Employee { employee_id, name, role };
    proof {
        lemma_u64_from_le_inverse(b@.subrange(0, 8));
        lemma_u64_from_le_inverse(b@.subrange(8, 16));
        lemma_u64_from_le_inverse(b@.subrange(16, 24));
        assert(b@ =~= b@.subrange(0, 8) + b@.subrange(8, 16) + b@.subrange(16, 24) + b@.subrange(
            24,
            24 + nlen as int,
        ) + b@.subrange(24 + nlen as int, len as int));
        assert(b@ =~= spec_encode_employee(e@));
    }
    Some(e)
}

} // verus!
