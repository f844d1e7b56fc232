use attendance_registry::records::{Attendance, Employee};
use attendance_registry::wire::{
    encode_attendance, decode_attendance, encode_employee, decode_employee,
};

#[test]
fn attendance_encoding_exact_bytes() {
    let record = Attendance { id: 1, employee_id: 2, time: 0x0102030405060708 };
    let bytes = encode_attendance(&record);
    let mut expected = vec![1u8, 0, 0, 0, 0, 0, 0, 0];
    expected.extend_from_slice(&[2, 0, 0, 0, 0, 0, 0, 0]);
    expected.extend_from_slice(&[8, 7, 6, 5, 4, 3, 2, 1]);
    assert_eq!(bytes, expected);
}

#[test]
fn attendance_decode_rejects_wrong_length() {
    assert!(decode_attendance(&vec![0u8; 0]).is_none());
    assert!(decode_attendance(&vec![0u8; 23]).is_none());
    assert!(decode_attendance(&vec![0u8; 25]).is_none());
}

#[test]
fn attendance_codec_round_trip() {
    let record = Attendance { id: u64::MAX, employee_id: 0, time: 42 };
    let back = decode_attendance(&encode_attendance(&record)).unwrap();
    assert_eq!(back, record);
}

#[test]
fn employee_encoding_exact_bytes() {
    let record = Employee { employee_id: 1, name: "A".to_string(), role: "BC".to_string() };
    let bytes = encode_employee(&record);
    let mut expected = vec![1u8, 0, 0, 0, 0, 0, 0, 0];
    expected.extend_from_slice(&[1, 0, 0, 0, 0, 0, 0, 0]);
    expected.extend_from_slice(&[2, 0, 0, 0, 0, 0, 0, 0]);
    expected.extend_from_slice(b"A");
    expected.extend_from_slice(b"BC");
    assert_eq!(bytes, expected);
}

#[test]
fn employee_codec_round_trip_multibyte() {
    let record = Employee {
        employee_id: 0xdeadbeef,
        name: "Åse 🌱".to_string(),
        role: "жök".to_string(),
    };
    let back = decode_employee(&encode_employee(&record)).unwrap();
    assert_eq!(back.employee_id, record.employee_id);
    assert_eq!(back.name, record.name);
    assert_eq!(back.role, record.role);
}

#[test]
fn employee_decode_rejects_malformed_bytes() {
    assert!(decode_employee(&vec![1, 2, 3]).is_none());

    let mut wrong_lengths = vec![0u8; 24];
    wrong_lengths[8] = 200;
    assert!(decode_employee(&wrong_lengths).is_none());

    let mut bad_utf8 = Vec::new();
    bad_utf8.extend_from_slice(&[1, 0, 0, 0, 0, 0, 0, 0]);
    bad_utf8.extend_from_slice(&[1, 0, 0, 0, 0, 0, 0, 0]);
    bad_utf8.extend_from_slice(&[0, 0, 0, 0, 0, 0, 0, 0]);
    bad_utf8.push(0xff);
    assert!(decode_employee(&bad_utf8).is_none());
}

#[test]
fn employee_decode_accepts_exact_encoding() {
    let mut bytes = Vec::new();
    bytes.extend_from_slice(&[9, 0, 0, 0, 0, 0, 0, 0]);
    bytes.extend_from_slice(&[3, 0, 0, 0, 0, 0, 0, 0]);
    bytes.extend_from_slice(&[4, 0, 0, 0, 0, 0, 0, 0]);
    bytes.extend_from_slice(b"Sam");
    bytes.extend_from_slice(b"Cook");
    let back = decode_employee(&bytes).unwrap();
    assert_eq!(back.employee_id, 9);
    assert_eq!(back.name, "Sam");
    assert_eq!(back.role, "Cook");
}
