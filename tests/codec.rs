use openttd_admin::de::from_bytes;
use openttd_admin::frame::{parse_header, read_packet, write_frame, write_packet};
use openttd_admin::ser::to_bytes;
use openttd_admin::{Error, Shape, Value};

fn option_struct(optional: Option<u8>) -> Value {
    Value::Record(vec![
        Value::U8(10),
        Value::Opt(optional.map(|x| Box::new(Value::U8(x)))),
    ])
}

fn simple_struct_shape() -> Shape {
    Shape::Record(vec![Shape::U8, Shape::U16, Shape::U32, Shape::Bool])
}

fn simple_struct() -> Value {
    Value::Record(vec![
        Value::U8(1),
        Value::U16(2),
        Value::U32(3),
        Value::Bool(true),
    ])
}

#[test]
fn test_empty_packet_read() {
    let empty_packet: &[u8] = &[3, 0, 10];
    assert_eq!(read_packet(empty_packet).unwrap(), (10, Vec::new()));
}

#[test]
fn test_simple_struct_read() {
    let input: &[u8] = &[
        11, 0, // Length
        10, // Packet type
        1, // a
        2, 0, // b
        3, 0, 0, 0, // c
        1, // d
    ];
    let (packet_type, buffer) = read_packet(input).unwrap();
    assert_eq!(packet_type, 10);
    assert_eq!(
        from_bytes(&simple_struct_shape(), &buffer).unwrap(),
        simple_struct()
    );
}

#[test]
fn test_simple_struct_ser() {
    let buffer = write_packet(10, &simple_struct()).unwrap();
    assert_eq!(
        buffer,
        vec![
            11, 0, // Length
            10, // Packet type
            1, // a
            2, 0, // b
            3, 0, 0, 0, // c
            1, // d
        ]
    );
}

#[test]
fn test_vec_ser() {
    let vec_struct = Value::Record(vec![Value::List(
        (0..5u8).map(Value::U8).collect(),
    )]);
    let buffer = write_packet(0xFF, &vec_struct).unwrap();
    assert_eq!(
        buffer,
        vec![
            14, 0, // Length
            0xFF, // Packet type
            1, 0, // boolean, item
            1, 1, 1, 2, 1, 3, 1, 4, 0, // False
        ]
    );
}

#[test]
fn test_some_ser() {
    let buffer = write_packet(3, &option_struct(Some(10))).unwrap();
    assert_eq!(
        buffer,
        vec![
            5, 0, // Length
            3, // Packet type
            10, // mandatory
            10, // optional
        ]
    );
}

#[test]
fn test_none_ser() {
    let buffer = write_packet(3, &option_struct(None)).unwrap();
    assert_eq!(
        buffer,
        vec![
            4, 0, // Length
            3, // Packet type
            10, // mandatory
        ]
    );
}

#[test]
fn option_read_back_present_and_absent() {
    let shape = Shape::Record(vec![Shape::U8, Shape::Opt(Box::new(Shape::U8))]);
    assert_eq!(from_bytes(&shape, &[10, 10]).unwrap(), option_struct(Some(10)));
    assert_eq!(from_bytes(&shape, &[10]).unwrap(), option_struct(None));
}

#[test]
fn round_trip_of_every_kind() {
    let shape = Shape::Record(vec![
        Shape::Bool,
        Shape::U8,
        Shape::I8,
        Shape::U16,
        Shape::I16,
        Shape::U32,
        Shape::I32,
        Shape::U64,
        Shape::I64,
        Shape::U16Max(9),
        Shape::U32Max(1000),
        Shape::Str,
        Shape::List(Box::new(Shape::Str)),
        Shape::Opt(Box::new(Shape::U64)),
    ]);
    let value = Value::Record(vec![
        Value::Bool(false),
        Value::U8(200),
        Value::I8(-5),
        Value::U16(0xBEEF),
        Value::I16(-300),
        Value::U32(0xDEADBEEF),
        Value::I32(-70000),
        Value::U64(u64::MAX - 1),
        Value::I64(i64::MIN),
        Value::U16(9),
        Value::U32(1000),
        Value::Str("héllo wörld".to_string()),
        Value::List(vec![Value::Str("a".to_string()), Value::Str(String::new())]),
        Value::Opt(Some(Box::new(Value::U64(7)))),
    ]);
    let bytes = to_bytes(&value).unwrap();
    assert_eq!(from_bytes(&shape, &bytes).unwrap(), value);
}

#[test]
fn little_endian_integers() {
    let bytes = to_bytes(&Value::Record(vec![
        Value::U16(0x0102),
        Value::I32(-2),
        Value::U64(0x0807060504030201),
    ]))
    .unwrap();
    assert_eq!(
        bytes,
        vec![2, 1, 0xFE, 0xFF, 0xFF, 0xFF, 1, 2, 3, 4, 5, 6, 7, 8]
    );
}

#[test]
fn string_bytes_are_utf8_and_nul() {
    let bytes = to_bytes(&Value::Str("é!".to_string())).unwrap();
    assert_eq!(bytes, vec![0xC3, 0xA9, b'!', 0]);
    assert_eq!(
        from_bytes(&Shape::Str, &bytes).unwrap(),
        Value::Str("é!".to_string())
    );
}

#[test]
fn empty_sequence_is_one_zero_byte() {
    assert_eq!(to_bytes(&Value::List(Vec::new())).unwrap(), vec![0]);
}

#[test]
fn sequence_of_fixed_size_elements_length() {
    let items: Vec<Value> = (0..4u32).map(Value::U32).collect();
    let bytes = to_bytes(&Value::List(items)).unwrap();
    assert_eq!(bytes.len(), 4 * (1 + 4) + 1);
}

#[test]
fn value_after_absent_option_is_refused() {
    let v = Value::Record(vec![Value::U8(1), Value::Opt(None), Value::U8(2)]);
    assert_eq!(to_bytes(&v), Err(Error::InvalidOption));
    assert_eq!(write_packet(3, &v), Err(Error::InvalidOption));
}

#[test]
fn trailing_bytes_are_refused() {
    assert_eq!(
        from_bytes(&simple_struct_shape(), &[1, 2, 0, 3, 0, 0, 0, 1, 9]),
        Err(Error::TrailingBytes)
    );
}

#[test]
fn decoding_errors() {
    assert_eq!(from_bytes(&Shape::U32, &[1, 2]), Err(Error::UnexpectedEnd));
    assert_eq!(from_bytes(&Shape::Bool, &[2]), Err(Error::InvalidBool));
    assert_eq!(from_bytes(&Shape::Str, b"abc"), Err(Error::UnterminatedString));
    assert_eq!(from_bytes(&Shape::Str, &[0xFF, 0]), Err(Error::InvalidUtf8));
    assert_eq!(from_bytes(&Shape::U16Max(9), &[10, 0]), Err(Error::InvalidValue));
    assert_eq!(
        from_bytes(&Shape::List(Box::new(Shape::U8)), &[1, 5]),
        Err(Error::UnexpectedEnd)
    );
}

#[test]
fn frame_round_trip_and_length() {
    let frame = write_frame(7, &[1, 2, 3]).unwrap();
    assert_eq!(frame, vec![6, 0, 7, 1, 2, 3]);
    assert_eq!(read_packet(&frame).unwrap(), (7, vec![1, 2, 3]));
}

#[test]
fn frame_length_over_one_byte() {
    let body = vec![0xAB; 300];
    let frame = write_frame(1, &body).unwrap();
    assert_eq!(&frame[..3], &[0x2F, 0x01, 1]);
    assert_eq!(read_packet(&frame).unwrap(), (1, body));
}

#[test]
fn frame_too_large() {
    let body = vec![0; 65533];
    assert_eq!(write_frame(1, &body), Err(Error::PacketTooLarge));
    assert!(write_frame(1, &body[..65532]).is_ok());
}

#[test]
fn malformed_and_short_frames() {
    assert_eq!(read_packet(&[2, 0, 5]), Err(Error::MalformedHeader));
    assert_eq!(read_packet(&[5, 0, 5, 1]), Err(Error::UnexpectedEnd));
    assert_eq!(read_packet(&[5, 0]), Err(Error::UnexpectedEnd));
    assert_eq!(parse_header(&[9, 0, 104]), Ok((104, 6)));
    assert_eq!(parse_header(&[1, 0, 104]), Err(Error::MalformedHeader));
}

#[test]
fn error_descriptions() {
    assert_eq!(Error::InvalidBool.description(), "invalid bool");
    assert_eq!(Error::InvalidOption.description(), "invalid option");
}
