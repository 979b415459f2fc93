//! Exercises the field rendering.

use crustal::BaseType;
use crustal::Field;
use crustal::Type;

#[test]
fn test_fields_basics() {
    let t = Type::new(BaseType::UInt8);
    assert_eq!(t.to_string(), "uint8_t");

    let f = Field::new("my_field", t);
    assert_eq!(f.to_string(), "uint8_t my_field;\n");
}

#[test]
fn test_fields_bitfields() {
    let t = Type::new(BaseType::UInt8);
    assert_eq!(t.to_string(), "uint8_t");

    let mut f = Field::new("my_field", t);
    f.bitfield_width(8);
    assert_eq!(f.to_string(), "uint8_t my_field : 8;\n");
}

#[test]
fn test_fields_docs() {
    let t = Type::new(BaseType::UInt8);
    assert_eq!(t.to_string(), "uint8_t");

    let mut f = Field::new("my_field", t);
    f.push_doc_str("my documentation");
    assert_eq!(f.to_string(), "/// my documentation\nuint8_t my_field;\n");
}
