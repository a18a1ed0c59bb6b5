//! Host-side bindings for an embeddable scripting VM that talks to its host
//! through numbered slots and opaque handles.
//!
//! The library holds the rules of that boundary, proved: how module paths are
//! classified and resolved, how text is framed for the native interface, how
//! slot and list indices are checked, how handles are released exactly once,
//! when a VM is freed, which closures can be installed as hooks, and how the
//! foreign methods and classes of the guest are found.
pub mod callback;
pub mod cstring;
pub mod dispatch;
pub mod handle;
pub mod path;
pub mod slots;
pub mod vm;

pub use callback::{check_zero_sized, CapturingClosure};
pub use cstring::{from_c_bytes, to_c_bytes, NulError};
pub use dispatch::{foreign_method_key, BindingTable, ForeignBindings, ForeignClassMethods};
pub use handle::{Handle, HandleError, HandleRegistry};
pub use path::{canonicalize, default_resolve_module, module_file_name, path_type, PathStyle, PathType};
pub use slots::{
    check_element_index, check_index, check_slot, check_type, ErrorType, InterpretResult,
    SlotError, Type,
};
pub use vm::{Configuration, Ownership, VM};
