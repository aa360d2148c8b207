use compiler::scope::{Scope, ScopeError, SymbolType};
use compiler::types::PrimitiveType;

fn declare(scope: &mut Scope, name: &str, primitive_type: PrimitiveType) -> i32 {
    scope
        .add(&name.to_string(), primitive_type, Vec::new(), SymbolType::Variable)
        .expect("the name is new")
        .offset
}

#[test]
fn a_new_scope_is_empty() {
    let scope = Scope::new();
    assert_eq!(scope.last_offset, 0);
    assert!(scope.get("x").is_none());
}

#[test]
fn offsets_accumulate_byte_widths() {
    let mut scope = Scope::new();
    assert_eq!(declare(&mut scope, "a", PrimitiveType::UInt8), 1);
    assert_eq!(declare(&mut scope, "b", PrimitiveType::UInt32), 5);
    assert_eq!(declare(&mut scope, "c", PrimitiveType::UInt64), 13);
    assert_eq!(scope.last_offset, 13);
}

#[test]
fn offsets_of_every_width() {
    let mut scope = Scope::new();
    assert_eq!(declare(&mut scope, "a", PrimitiveType::Int16), 2);
    assert_eq!(declare(&mut scope, "b", PrimitiveType::Bool), 3);
    assert_eq!(declare(&mut scope, "c", PrimitiveType::Int64), 11);
    assert_eq!(declare(&mut scope, "d", PrimitiveType::Void), 11);
}

#[test]
fn get_finds_what_add_declared() {
    let mut scope = Scope::new();
    let added = scope
        .add(
            &"f".to_string(),
            PrimitiveType::Void,
            vec![PrimitiveType::UInt8, PrimitiveType::Bool],
            SymbolType::Function,
        )
        .unwrap();
    assert_eq!(added.name, "f");
    assert_eq!(added.symbol_type, SymbolType::Function);
    assert_eq!(added.primitive_type, PrimitiveType::Void);
    assert_eq!(added.parameter_types, vec![PrimitiveType::UInt8, PrimitiveType::Bool]);
    assert_eq!(scope.get("f"), Some(&added));
    assert!(scope.get("g").is_none());
    assert!(scope.get("").is_none());
}

#[test]
fn a_name_is_declared_once_in_a_scope() {
    let mut scope = Scope::new();
    declare(&mut scope, "x", PrimitiveType::UInt8);
    let again =
        scope.add(&"x".to_string(), PrimitiveType::UInt32, Vec::new(), SymbolType::Variable);
    assert_eq!(again, Err(ScopeError::Redeclaration));
    assert_eq!(scope.last_offset, 1);
    assert_eq!(scope.get("x").unwrap().primitive_type, PrimitiveType::UInt8);
    let with_offset = scope.add_with_offset(
        &"x".to_string(),
        PrimitiveType::UInt32,
        Vec::new(),
        SymbolType::FunctionParameter,
        0,
    );
    assert_eq!(with_offset, Err(ScopeError::Redeclaration));
}

#[test]
fn an_explicit_location_is_kept_and_the_frame_still_grows() {
    let mut scope = Scope::new();
    let first = scope
        .add_with_offset(
            &"a".to_string(),
            PrimitiveType::UInt16,
            Vec::new(),
            SymbolType::FunctionParameter,
            0,
        )
        .unwrap();
    let second = scope
        .add_with_offset(
            &"b".to_string(),
            PrimitiveType::UInt64,
            Vec::new(),
            SymbolType::FunctionParameter,
            1,
        )
        .unwrap();
    assert_eq!(first.offset, 0);
    assert_eq!(second.offset, 1);
    assert_eq!(scope.last_offset, 10);
    assert_eq!(declare(&mut scope, "c", PrimitiveType::UInt8), 11);
}

#[test]
fn a_frame_that_no_longer_fits_is_refused() {
    let mut scope = Scope::new();
    scope.last_offset = i32::MAX - 3;
    assert_eq!(declare(&mut scope, "a", PrimitiveType::UInt16), i32::MAX - 1);
    let too_large =
        scope.add(&"b".to_string(), PrimitiveType::UInt32, Vec::new(), SymbolType::Variable);
    assert_eq!(too_large, Err(ScopeError::FrameTooLarge));
    assert_eq!(scope.last_offset, i32::MAX - 1);
    assert!(scope.get("b").is_none());
    assert_eq!(declare(&mut scope, "c", PrimitiveType::UInt8), i32::MAX);
}
