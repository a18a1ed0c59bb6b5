use vstd::prelude::*;

verus! {

/// The dynamic type tag of a slot.
#[derive(Debug, Clone, Copy, PartialEq, Eq, Structural)]
pub enum Type {
    Bool,
    Num,
    Foreign,
    List,
    Mapping,
    Null,
    String,
    Unknown,
}

/// How a run of guest code ended.
#[derive(Debug, Clone, Copy, PartialEq, Eq, Structural)]
pub enum InterpretResult {
    Success,
    CompileError,
    RuntimeError,
}

/// What the error hook is told about.
#[derive(Debug, Clone, Copy, PartialEq, Eq, Structural)]
pub enum ErrorType {
    /// Source failed to compile: module, line and message.
    Compile,
    /// Guest code raised: the message.
    Runtime,
    /// One frame of the stack trace that follows a runtime error.
    StackTrace,
}

/// Why a slot access was refused.
#[derive(Debug, Clone, Copy, PartialEq, Eq, Structural)]
pub enum SlotError {
    /// The slot index is negative or not below the current slot count.
    OutOfRange { slot: i32, count: i32 },
    /// The slot holds a value of another type than the access needs.
    WrongType { slot: i32, expected: Type, found: Type },
    /// A list index that, once resolved, falls outside the list.
    IndexOutOfBounds { index: i32, count: i32 },
}

pub open spec fn type_of_code(code: i32) -> Type {
    if code == 0 {
        Type::Bool
    } else if code == 1 {
        Type::Num
    } else if code == 2 {
        Type::Foreign
    } else if code == 3 {
        Type::List
    } else if code == 4 {
        Type::Mapping
    } else if code == 5 {
        Type::Null
    } else if code == 6 {
        Type::String
    } else {
        Type::Unknown
    }
}

pub open spec fn code_of_type(t: Type) -> i32 {
    match t {
        Type::Bool => 0,
        Type::Num => 1,
        Type::Foreign => 2,
        Type::List => 3,
        Type::Mapping => 4,
        Type::Null => 5,
        Type::String => 6,
        Type::Unknown => 7,
    }
}

impl Type {
    /// The tag for a type code of the native interface; codes it does not
    /// define read as `Unknown`.
    pub fn from_code(code: i32) -> (r: Type)
        ensures
            r == type_of_code(code),
    {
        match code {
            0 => Type::Bool,
            1 => Type::Num,
            2 => Type::Foreign,
            3 => Type::List,
            4 => Type::Mapping,
            5 => Type::Null,
            6 => Type::String,
            _ => Type::Unknown,
        }
    }

    /// The type code of the native interface for this tag.
    pub fn code(&self) -> (r: i32)
        ensures
            r == code_of_type(*self),
            type_of_code(r) == *self,
    {
        match self {
            Type::Bool => 0,
            Type::Num => 1,
            Type::Foreign => 2,
            Type::List => 3,
            Type::Mapping => 4,
            Type::Null => 5,
            Type::String => 6,
            Type::Unknown => 7,
        }
    }
}

impl InterpretResult {
    /// The outcome for a result code of the native interface: 0 is success,
    /// 1 a compile error, anything else a runtime error.
    pub fn from_code(code: i32) -> (r: InterpretResult)
        ensures
            code == 0 ==> r == InterpretResult::Success,
            code == 1 ==> r == InterpretResult::CompileError,
            code != 0 && code != 1 ==> r == InterpretResult::RuntimeError,
    {
        match code {
            0 => InterpretResult::Success,
            1 => InterpretResult::CompileError,
            _ => InterpretResult::RuntimeError,
        }
    }
}

impl ErrorType {
    /// The kind for an error code of the native interface, if it defines one.
    pub fn from_code(code: i32) -> (r: Option<ErrorType>)
        ensures
            code == 0 <==> r == Some(ErrorType::Compile),
            code == 1 <==> r == Some(ErrorType::Runtime),
            code == 2 <==> r == Some(ErrorType::StackTrace),
            r is None <==> !(0 <= code <= 2),
    {
        match code {
            0 => Some(ErrorType::Compile),
            1 => Some(ErrorType::Runtime),
            2 => Some(ErrorType::StackTrace),
            _ => None,
        }
    }
}

/// Accepts `slot` exactly when it addresses one of the `count` slots of the current call.
pub fn check_slot(slot: i32, count: i32) -> (r: Result<(), SlotError>)
    ensures
        r is Ok <==> 0 <= slot < count,
        r is Err ==> r == Err::<(), SlotError>(SlotError::OutOfRange { slot, count }),
{
    if 0 <= slot && slot < count {
        Ok(())
    } else {
        Err(SlotError::OutOfRange { slot, count })
    }
}

/// Accepts a slot whose tag `found` is the `expected` one.
pub fn check_type(slot: i32, found: Type, expected: Type) -> (r: Result<(), SlotError>)
    ensures
        r is Ok <==> found == expected,
        r is Err ==> r == Err::<(), SlotError>(SlotError::WrongType { slot, expected, found }),
{
    if found == expected {
        Ok(())
    } else {
        Err(SlotError::WrongType { slot, expected, found })
    }
}

/// A list index as given, or, where negative, counted back from one past the
/// end: `-1` stands for `count`.
pub open spec fn resolve_index(count: int, index: int) -> int {
    if index < 0 {
        count + 1 + index
    } else {
        index
    }
}

/// Resolves `index` for an insertion into a list of `count` elements: the
/// result is a position from `0` to `count`, where `count` appends.
pub fn check_index(list_count: i32, index: i32) -> (r: Result<i32, SlotError>)
    requires
        list_count >= 0,
    ensures
        r is Ok <==> 0 <= resolve_index(list_count as int, index as int) <= list_count,
        r is Ok ==> r.unwrap() as int == resolve_index(list_count as int, index as int),
        r is Err ==> r == Err::<i32, SlotError>(
            SlotError::IndexOutOfBounds { index, count: list_count },
        ),
{
    let resolved: i32 = if index < 0 {
        list_count + (index + 1)
    } else {
        index
    };
    if 0 <= resolved && resolved <= list_count {
        Ok(resolved)
    } else {
        Err(SlotError::IndexOutOfBounds { index, count: list_count })
    }
}

/// Resolves `index` for reading or replacing an element of a list of `count`
/// elements: the result must name an element, so lies below `count`.
pub fn check_element_index(list_count: i32, index: i32) -> (r: Result<i32, SlotError>)
    requires
        list_count >= 0,
    ensures
        r is Ok <==> 0 <= resolve_index(list_count as int, index as int) < list_count,
        r is Ok ==> r.unwrap() as int == resolve_index(list_count as int, index as int),
        r is Err ==> r == Err::<i32, SlotError>(
            SlotError::IndexOutOfBounds { index, count: list_count },
        ),
{
    match check_index(list_count, index) {
        Ok(i) => {
            if i < list_count {
                Ok(i)
            } else {
                Err(SlotError::IndexOutOfBounds { index, count: list_count })
            }
        },
        Err(e) => Err(e),
    }
}

/// Inserting at `-1` appends: it lands where inserting at the list's length does.
pub proof fn lemma_insert_minus_one_appends(list_count: int)
    requires
        0 <= list_count,
    ensures
        resolve_index(list_count, -1) == list_count,
        resolve_index(list_count, -1) == resolve_index(list_count, list_count),
{
}

} // verus!
