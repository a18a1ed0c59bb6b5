use wren_rs::{
    check_element_index, check_index, check_slot, check_type, ErrorType, InterpretResult,
    SlotError, Type,
};

#[test]
fn insert_at_minus_one_appends_to_three_elements() {
    assert_eq!(check_index(3, -1), Ok(3));
    assert_eq!(check_index(3, -1), check_index(3, 3));
}

#[test]
fn insert_indices() {
    assert_eq!(check_index(3, 0), Ok(0));
    assert_eq!(check_index(3, -4), Ok(0));
    assert_eq!(check_index(0, -1), Ok(0));
    assert_eq!(check_index(3, 4), Err(SlotError::IndexOutOfBounds { index: 4, count: 3 }));
    assert_eq!(check_index(3, -5), Err(SlotError::IndexOutOfBounds { index: -5, count: 3 }));
    assert_eq!(check_index(i32::MAX, -1), Ok(i32::MAX));
    assert_eq!(check_index(0, i32::MIN), Err(SlotError::IndexOutOfBounds { index: i32::MIN, count: 0 }));
}

#[test]
fn element_indices() {
    assert_eq!(check_element_index(3, 2), Ok(2));
    assert_eq!(check_element_index(3, -2), Ok(2));
    assert_eq!(check_element_index(3, 3), Err(SlotError::IndexOutOfBounds { index: 3, count: 3 }));
    assert_eq!(check_element_index(3, -1), Err(SlotError::IndexOutOfBounds { index: -1, count: 3 }));
    assert_eq!(check_element_index(0, 0), Err(SlotError::IndexOutOfBounds { index: 0, count: 0 }));
}

#[test]
fn slot_bounds() {
    assert_eq!(check_slot(0, 1), Ok(()));
    assert_eq!(check_slot(4, 5), Ok(()));
    assert_eq!(check_slot(5, 5), Err(SlotError::OutOfRange { slot: 5, count: 5 }));
    assert_eq!(check_slot(-1, 5), Err(SlotError::OutOfRange { slot: -1, count: 5 }));
    assert_eq!(check_slot(0, 0), Err(SlotError::OutOfRange { slot: 0, count: 0 }));
}

#[test]
fn slot_types() {
    assert_eq!(check_type(1, Type::Num, Type::Num), Ok(()));
    assert_eq!(
        check_type(1, Type::String, Type::Num),
        Err(SlotError::WrongType { slot: 1, expected: Type::Num, found: Type::String })
    );
}

#[test]
fn type_codes() {
    let all = [
        Type::Bool,
        Type::Num,
        Type::Foreign,
        Type::List,
        Type::Mapping,
        Type::Null,
        Type::String,
        Type::Unknown,
    ];
    for (i, t) in all.iter().enumerate() {
        assert_eq!(t.code(), i as i32);
        assert_eq!(Type::from_code(i as i32), *t);
    }
    assert_eq!(Type::from_code(42), Type::Unknown);
    assert_eq!(Type::from_code(-1), Type::Unknown);
}

#[test]
fn result_and_error_codes() {
    assert_eq!(InterpretResult::from_code(0), InterpretResult::Success);
    assert_eq!(InterpretResult::from_code(1), InterpretResult::CompileError);
    assert_eq!(InterpretResult::from_code(2), InterpretResult::RuntimeError);
    assert_eq!(ErrorType::from_code(0), Some(ErrorType::Compile));
    assert_eq!(ErrorType::from_code(1), Some(ErrorType::Runtime));
    assert_eq!(ErrorType::from_code(2), Some(ErrorType::StackTrace));
    assert_eq!(ErrorType::from_code(3), None);
}
