use compiler::types::{PrimitiveType, PrimitiveValue};

const ALL: [PrimitiveType; 11] = [
    PrimitiveType::Int8,
    PrimitiveType::Int16,
    PrimitiveType::Int32,
    PrimitiveType::Int64,
    PrimitiveType::UInt8,
    PrimitiveType::UInt16,
    PrimitiveType::UInt32,
    PrimitiveType::UInt64,
    PrimitiveType::Bool,
    PrimitiveType::Unknown,
    PrimitiveType::Void,
];

#[test]
fn sizes_of_all_types() {
    assert_eq!(PrimitiveType::Int8.get_size(), 8);
    assert_eq!(PrimitiveType::Int16.get_size(), 16);
    assert_eq!(PrimitiveType::Int32.get_size(), 32);
    assert_eq!(PrimitiveType::Int64.get_size(), 64);
    assert_eq!(PrimitiveType::UInt8.get_size(), 8);
    assert_eq!(PrimitiveType::UInt16.get_size(), 16);
    assert_eq!(PrimitiveType::UInt32.get_size(), 32);
    assert_eq!(PrimitiveType::UInt64.get_size(), 64);
    assert_eq!(PrimitiveType::Bool.get_size(), 8);
    assert_eq!(PrimitiveType::Void.get_size(), 0);
    assert_eq!(PrimitiveType::Unknown.get_size(), 0);
}

#[test]
fn signedness_of_all_types() {
    for t in ALL {
        let signed = matches!(
            t,
            PrimitiveType::Int8 | PrimitiveType::Int16 | PrimitiveType::Int32 | PrimitiveType::Int64
        );
        let unsigned = matches!(
            t,
            PrimitiveType::UInt8
                | PrimitiveType::UInt16
                | PrimitiveType::UInt32
                | PrimitiveType::UInt64
        );
        assert_eq!(t.is_signed(), signed);
        assert_eq!(t.is_unsigned(), unsigned);
    }
}

#[test]
fn every_type_is_compatible_with_itself() {
    for t in ALL {
        assert!(t.is_compatible_with(&t, true));
        assert!(t.is_compatible_with(&t, false));
    }
}

#[test]
fn bool_mixes_with_nothing_else() {
    for t in ALL {
        if t != PrimitiveType::Bool {
            for one_sided in [true, false] {
                assert!(!PrimitiveType::Bool.is_compatible_with(&t, one_sided));
                assert!(!t.is_compatible_with(&PrimitiveType::Bool, one_sided));
            }
        }
    }
}

#[test]
fn signed_never_becomes_unsigned() {
    for src in ALL {
        for dst in ALL {
            if src.is_signed() && dst.is_unsigned() {
                assert!(!src.is_compatible_with(&dst, true));
                assert!(!src.is_compatible_with(&dst, false));
            }
        }
    }
}

#[test]
fn one_sided_compatibility_only_widens() {
    assert!(PrimitiveType::UInt8.is_compatible_with(&PrimitiveType::UInt32, true));
    assert!(PrimitiveType::UInt8.is_compatible_with(&PrimitiveType::UInt16, true));
    assert!(PrimitiveType::UInt32.is_compatible_with(&PrimitiveType::UInt64, true));
    assert!(!PrimitiveType::UInt64.is_compatible_with(&PrimitiveType::UInt8, true));
    assert!(!PrimitiveType::UInt32.is_compatible_with(&PrimitiveType::UInt16, true));
    assert!(PrimitiveType::Int8.is_compatible_with(&PrimitiveType::Int16, true));
    assert!(PrimitiveType::UInt8.is_compatible_with(&PrimitiveType::Int16, true));
    assert!(!PrimitiveType::UInt8.is_compatible_with(&PrimitiveType::Int8, true));
}

#[test]
fn two_sided_compatibility_ignores_width() {
    assert!(PrimitiveType::UInt64.is_compatible_with(&PrimitiveType::UInt8, false));
    assert!(PrimitiveType::UInt8.is_compatible_with(&PrimitiveType::UInt64, false));
    assert!(PrimitiveType::Int64.is_compatible_with(&PrimitiveType::Int8, false));
    assert!(!PrimitiveType::UInt8.is_compatible_with(&PrimitiveType::Int16, false));
    assert!(!PrimitiveType::Int8.is_compatible_with(&PrimitiveType::UInt16, false));
}

#[test]
fn literal_types_at_the_boundaries() {
    assert_eq!(PrimitiveType::for_literal(0), PrimitiveType::UInt8);
    assert_eq!(PrimitiveType::for_literal(255), PrimitiveType::UInt8);
    assert_eq!(PrimitiveType::for_literal(256), PrimitiveType::UInt16);
    assert_eq!(PrimitiveType::for_literal(65535), PrimitiveType::UInt16);
    assert_eq!(PrimitiveType::for_literal(65536), PrimitiveType::UInt32);
    assert_eq!(PrimitiveType::for_literal(4294967295), PrimitiveType::UInt32);
    assert_eq!(PrimitiveType::for_literal(4294967296), PrimitiveType::UInt64);
    assert_eq!(PrimitiveType::for_literal(u64::MAX), PrimitiveType::UInt64);
}

#[test]
fn type_keywords_parse() {
    assert_eq!("i8".parse::<PrimitiveType>(), Ok(PrimitiveType::Int8));
    assert_eq!("i16".parse::<PrimitiveType>(), Ok(PrimitiveType::Int16));
    assert_eq!("i32".parse::<PrimitiveType>(), Ok(PrimitiveType::Int32));
    assert_eq!("i64".parse::<PrimitiveType>(), Ok(PrimitiveType::Int64));
    assert_eq!("u8".parse::<PrimitiveType>(), Ok(PrimitiveType::UInt8));
    assert_eq!("u16".parse::<PrimitiveType>(), Ok(PrimitiveType::UInt16));
    assert_eq!("u32".parse::<PrimitiveType>(), Ok(PrimitiveType::UInt32));
    assert_eq!("u64".parse::<PrimitiveType>(), Ok(PrimitiveType::UInt64));
    assert_eq!("bool".parse::<PrimitiveType>(), Ok(PrimitiveType::Bool));
    assert_eq!("void".parse::<PrimitiveType>(), Err(()));
    assert_eq!("".parse::<PrimitiveType>(), Err(()));
    assert_eq!("u".parse::<PrimitiveType>(), Err(()));
    assert_eq!("u644".parse::<PrimitiveType>(), Err(()));
}

#[test]
fn switching_the_sign() {
    assert_eq!(PrimitiveType::Int8.switch_sign(), PrimitiveType::UInt8);
    assert_eq!(PrimitiveType::UInt64.switch_sign(), PrimitiveType::Int64);
    assert_eq!(PrimitiveType::Bool.switch_sign(), PrimitiveType::Bool);
    assert_eq!(PrimitiveType::Void.switch_sign(), PrimitiveType::Void);
}

#[test]
fn raw_bits_read_both_ways() {
    assert_eq!(PrimitiveValue { bits: 7 }.as_u64(), 7);
    assert_eq!(PrimitiveValue { bits: 7 }.as_i64(), 7);
    assert_eq!(PrimitiveValue { bits: u64::MAX }.as_i64(), -1);
    assert_eq!(PrimitiveValue { bits: 1 << 63 }.as_i64(), i64::MIN);
    assert_eq!(PrimitiveValue { bits: (1 << 63) - 1 }.as_i64(), i64::MAX);
}
