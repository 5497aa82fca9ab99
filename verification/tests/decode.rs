//! Tests of the binary decoding engine: primitives, strings, buffers,
//! counted containers, and the enum discriminant registry.

use std::collections::HashMap;

use zklog::codec::from_reader;
use zklog::codec::EnumEncoding;
use zklog::codec::MAX_LENGTH;
use zklog::error::Error;
use zklog::proto::ErrorCode;
use zklog::proto::OpCode;
use zklog::proto::OpCodeEnum;
use zklog::perm_all;
use zklog::perm_read;
use zklog::perm_write;
use zklog::CreateMode;

#[derive(Debug, PartialEq)]
enum FooBar {
    Foo(i32),
    Bar(String),
}

fn foobar_codes() -> Vec<(i32, String)> {
    vec![(3, "Foo".to_owned()), (4, "Bar".to_owned())]
}

#[test]
fn de_test_deser() {
    let data: Vec<u8> = vec![
        0x01, 0x02, 0x03, 0x04, // i32
        0x05, 0x06, 0x07, 0x08, // i32
        0x00, 0x00, 0x00, 0x04, // string length
        0x61, 0x62, 0x63, 0x64, // "abcd"
        0x00, 0x00, 0x00, 0x01, // map length
        0x0F, // i8
        0x00, 0x00, 0x00, 0x04, // string length
        0x61, 0x62, 0x63, 0x64, // string
    ];
    let mut deser = from_reader(data);

    let a = deser.read_i32().expect("Failed to deserialize");
    let x = deser.read_i32().expect("Failed to deserialize");
    let y = deser.read_string().expect("Failed to deserialize");
    let n = deser.read_count().expect("Failed to deserialize");
    let mut z: HashMap<i8, String> = HashMap::new();
    for _ in 0..n {
        let k = deser.read_i8().expect("Failed to deserialize");
        let v = deser.read_string().expect("Failed to deserialize");
        z.insert(k, v);
    }

    assert_eq!(a, 0x01020304);
    assert_eq!(x, 0x05060708);
    assert_eq!(&y, "abcd");

    assert_eq!(z.len(), 1);
    assert_eq!(z.get(&0xF), Some(&("abcd".to_owned())));
}

fn read_foobar(deser: &mut zklog::codec::Deserializer) -> Result<FooBar, Error> {
    let code = deser.read_enum_discriminant("FooBar")?;
    match code {
        3 => Ok(FooBar::Foo(deser.read_i32()?)),
        4 => Ok(FooBar::Bar(deser.read_string()?)),
        other => Err(Error::UnknownDiscriminant(other)),
    }
}

#[test]
fn de_test_enum() {
    let data: Vec<u8> = vec![
        0x00, 0x00, 0x00, 0x03, // Foo discriminant
        0x01, 0x02, 0x03, 0x04, // i32
    ];
    let mut deser = from_reader(data);
    deser.add_enum_mapping("FooBar", foobar_codes(), EnumEncoding::Type);

    let foobar = read_foobar(&mut deser).expect("fail");
    println!("FooBar = {:?}", foobar);

    assert_eq!(foobar, FooBar::Foo(0x01020304));

    let data: Vec<u8> = vec![
        0x00, 0x00, 0x00, 0x04, // Bar discriminant
        0x00, 0x00, 0x00, 0x04, // string length
        0x61, 0x62, 0x63, 0x64, // "abcd"
    ];
    let mut deser = from_reader(data);
    deser.add_enum_mapping("FooBar", foobar_codes(), EnumEncoding::Type);
    let foobar = read_foobar(&mut deser).expect("fail");
    println!("FooBar = {:?}", foobar);

    assert_eq!(foobar, FooBar::Bar("abcd".to_owned()));
}

#[test]
fn test_opcode_derives() {
    // Use CloseSession as its value is different from its position in the
    // variants.
    let x = OpCode::CloseSession;
    assert_eq!(x.code(), -11);

    let name: &'static str = OpCode::Create.name();
    assert_eq!(name, "Create");

    let v = OpCode::all();
    assert_eq!(&v[0..3], &[OpCode::Notification, OpCode::Create, OpCode::Delete]);
}

#[test]
fn test_primitives() {
    let data: Vec<u8> = vec![
        0x00, // bool false
        0x02, // bool true (any non-zero)
        0xFF, // i8 -1
        0x80, // u8 128
        0xFF, 0xFF, 0xFF, 0xFE, // i32 -2
        0x00, 0x00, 0x00, 0x2A, // u32 42
        0xFF, 0xFF, 0xFF, 0xFF, 0xFF, 0xFF, 0xFF, 0xFD, // i64 -3
        0x00, 0x00, 0x00, 0x00, 0x00, 0x00, 0x01, 0x00, // u64 256
    ];
    let mut d = from_reader(data);
    assert_eq!(d.read_bool().unwrap(), false);
    assert_eq!(d.read_bool().unwrap(), true);
    assert_eq!(d.read_i8().unwrap(), -1);
    assert_eq!(d.read_u8().unwrap(), 128);
    assert_eq!(d.read_i32().unwrap(), -2);
    assert_eq!(d.read_u32().unwrap(), 42);
    assert_eq!(d.read_i64().unwrap(), -3);
    assert_eq!(d.read_u64().unwrap(), 256);
    assert_eq!(d.read_u8(), Err(Error::Eof));
}

#[test]
fn test_negative_count_is_empty() {
    // A negative count field is the wire format's null container: it decodes
    // as zero elements, never as an error.
    let data: Vec<u8> = vec![0xFF, 0xFF, 0xFF, 0xFF];
    let mut d = from_reader(data);
    assert_eq!(d.read_count(), Ok(0));

    let data: Vec<u8> = vec![0x80, 0x00, 0x00, 0x00];
    let mut d = from_reader(data);
    assert_eq!(d.read_count(), Ok(0));
}

#[test]
fn test_byte_seq_negative_count() {
    let data: Vec<u8> = vec![0xFF, 0xFF, 0xFF, 0xFF, 0x99];
    let mut d = from_reader(data);
    assert_eq!(d.read_byte_seq(), Ok(vec![]));
    assert_eq!(d.read_u8(), Ok(0x99));
}

#[test]
fn test_string_too_large() {
    // Length 0x00200000 = 2 MiB exceeds the 1 MiB maximum.
    let data: Vec<u8> = vec![0x00, 0x20, 0x00, 0x00];
    let mut d = from_reader(data);
    assert_eq!(d.read_string(), Err(Error::TooLarge(0x0020_0000)));
    assert_eq!(MAX_LENGTH, 1024 * 1024);
}

#[test]
fn test_string_invalid_utf8() {
    let data: Vec<u8> = vec![0x00, 0x00, 0x00, 0x02, 0xC0, 0x20];
    let mut d = from_reader(data);
    assert_eq!(d.read_string(), Err(Error::InvalidText));
}

#[test]
fn test_string_truncated() {
    let data: Vec<u8> = vec![0x00, 0x00, 0x00, 0x05, 0x61, 0x62];
    let mut d = from_reader(data);
    assert_eq!(d.read_string(), Err(Error::Eof));
}

#[test]
fn test_buffer_roundtrip() {
    let data: Vec<u8> = vec![0x00, 0x00, 0x00, 0x03, 0x0A, 0x0B, 0x0C, 0x7F];
    let mut d = from_reader(data);
    assert_eq!(d.read_buffer(), Ok(vec![0x0A, 0x0B, 0x0C]));
    assert_eq!(d.read_u8(), Ok(0x7F));
}

#[test]
fn test_unregistered_enum() {
    let data: Vec<u8> = vec![0x00, 0x00, 0x00, 0x03];
    let mut d = from_reader(data);
    assert_eq!(d.read_enum_discriminant("FooBar"), Err(Error::UnregisteredEnum));
}

#[test]
fn test_unknown_discriminant() {
    let data: Vec<u8> = vec![0x00, 0x00, 0x00, 0x07];
    let mut d = from_reader(data);
    d.add_enum_mapping("FooBar", foobar_codes(), EnumEncoding::Type);
    assert_eq!(d.read_enum_discriminant("FooBar"), Err(Error::UnknownDiscriminant(7)));
}

#[test]
fn test_discriminant_layouts() {
    // Type then length: the length is consumed and discarded.
    let data: Vec<u8> = vec![
        0x00, 0x00, 0x00, 0x03, // type
        0x00, 0x00, 0x00, 0x63, // length, ignored
        0x55, // payload
    ];
    let mut d = from_reader(data);
    d.add_enum_mapping("FooBar", foobar_codes(), EnumEncoding::TypeThenLength);
    assert_eq!(d.read_enum_discriminant("FooBar"), Ok(3));
    assert_eq!(d.read_u8(), Ok(0x55));

    // Length then type: the length comes first and is discarded.
    let data: Vec<u8> = vec![
        0x00, 0x00, 0x00, 0x63, // length, ignored
        0x00, 0x00, 0x00, 0x04, // type
        0x66, // payload
    ];
    let mut d = from_reader(data);
    d.add_enum_mapping("FooBar", foobar_codes(), EnumEncoding::LengthThenType);
    assert_eq!(d.read_enum_discriminant("FooBar"), Ok(4));
    assert_eq!(d.read_u8(), Ok(0x66));
}

#[test]
fn test_reregistration_shadows() {
    let data: Vec<u8> = vec![0x00, 0x00, 0x00, 0x05];
    let mut d = from_reader(data);
    d.add_enum_mapping("FooBar", foobar_codes(), EnumEncoding::Type);
    d.add_enum_mapping("FooBar", vec![(5, "Baz".to_owned())], EnumEncoding::Type);
    assert_eq!(d.read_enum_discriminant("FooBar"), Ok(5));
}

#[test]
fn test_code_tables() {
    let codes = OpCode::codes_to_names();
    assert_eq!(codes.len(), 27);
    assert!(codes.contains(&(-11, "CloseSession".to_owned())));
    assert!(codes.contains(&(1, "Create".to_owned())));
    let names = OpCode::names_to_codes();
    assert!(names.contains(&("Multi".to_owned(), 14)));
}

#[test]
fn test_error_code_ranges() {
    assert!(ErrorCode::ConnectionLoss.is_system_error());
    assert!(!ErrorCode::ConnectionLoss.is_api_error());
    assert!(ErrorCode::NoNode.is_api_error());
    assert!(!ErrorCode::NoNode.is_system_error());
    assert!(!ErrorCode::Okay.is_system_error());
    assert_eq!(ErrorCode::from_code(-101), Some(ErrorCode::NoNode));
    assert_eq!(ErrorCode::from_code(12345), None);
    assert_eq!(ErrorCode::NoNode.name(), "NoNode");
}

#[test]
fn test_perms() {
    assert!(perm_all().has(perm_read()));
    assert!(perm_read().has(perm_read()));
    assert!(!perm_read().has(perm_write()));
    assert!(perm_read().union(perm_write()).has(perm_write()));
}

#[test]
fn test_create_mode() {
    assert!(CreateMode::Ephemeral.is_ephemeral());
    assert!(CreateMode::EphemeralSequential.is_ephemeral());
    assert!(!CreateMode::Persistent.is_ephemeral());
    assert!(CreateMode::PersistentSequential.is_sequential());
    assert!(CreateMode::Container.is_container());
    assert!(CreateMode::PersistentWithTTL.is_ttl());
    assert!(!CreateMode::Container.is_ttl());
}
