use wren_rs::{Configuration, Handle, HandleError, HandleRegistry, Ownership, VM};

#[test]
fn handle_release_is_valid_exactly_once() {
    let mut reg: HandleRegistry<u64> = HandleRegistry::new();
    let a = reg.register(0xa).unwrap();
    let b = reg.register(0xb).unwrap();
    assert_eq!(a, Handle { id: 0 });
    assert_eq!(b, Handle { id: 1 });
    assert_eq!(reg.get(a), Ok(0xa));
    assert_eq!(reg.release(a), Ok(0xa));
    assert_eq!(reg.release(a), Err(HandleError::Released));
    assert_eq!(reg.get(a), Err(HandleError::Released));
    assert_eq!(reg.get(b), Ok(0xb));
}

#[test]
fn unknown_handle_is_refused() {
    let mut reg: HandleRegistry<u64> = HandleRegistry::new();
    assert_eq!(reg.get(Handle { id: 0 }), Err(HandleError::Unknown));
    assert_eq!(reg.release(Handle { id: 3 }), Err(HandleError::Unknown));
}

#[test]
fn handles_die_with_their_vm() {
    let mut reg: HandleRegistry<u64> = HandleRegistry::new();
    let a = reg.register(7).unwrap();
    reg.close();
    assert_eq!(reg.get(a), Err(HandleError::VmDestroyed));
    assert_eq!(reg.release(a), Err(HandleError::VmDestroyed));
    assert_eq!(reg.register(8), Err(HandleError::VmDestroyed));
}

#[test]
fn owned_vm_is_freed_once() {
    let mut vm = VM::new(17u64);
    assert_eq!(vm.ownership(), Ownership::Owned);
    assert_eq!(vm.raw(), Some(17));
    assert_eq!(vm.teardown(), Some(17));
    assert_eq!(vm.teardown(), None);
    assert_eq!(vm.raw(), None);
}

#[test]
fn borrowed_vm_is_never_freed() {
    let mut vm = VM::from_ptr(5u64);
    assert_eq!(vm.ownership(), Ownership::Borrowed);
    assert_eq!(vm.raw(), Some(5));
    assert_eq!(vm.teardown(), None);
    assert_eq!(vm.raw(), None);
}

#[test]
fn configuration_setters_replace_one_hook() {
    let mut c: Configuration<u8, u16, u32, u64, i8, i16, i32> = Configuration::new(20, 30, 50, 40);
    assert_eq!(c.reallocate_fn, None);
    assert_eq!(c.write_fn, Some(20));
    assert_eq!(c.error_fn, Some(30));
    assert_eq!(c.resolve_module_fn, Some(40));
    assert_eq!(c.load_module_fn, Some(50));
    assert_eq!(c.bind_foreign_method_fn, None);
    assert_eq!(c.bind_foreign_class_fn, None);
    c.set_reallocate_fn(Some(1));
    c.set_write_fn(Some(2));
    c.set_error_fn(Some(3));
    c.set_resolve_module_fn(Some(4));
    c.set_load_module_fn(Some(5));
    c.set_bind_foreign_method_fn(Some(6));
    c.set_bind_foreign_class_fn(Some(7));
    assert_eq!(c.reallocate_fn, Some(1));
    assert_eq!(c.write_fn, Some(2));
    assert_eq!(c.error_fn, Some(3));
    assert_eq!(c.resolve_module_fn, Some(4));
    assert_eq!(c.load_module_fn, Some(5));
    assert_eq!(c.bind_foreign_method_fn, Some(6));
    assert_eq!(c.bind_foreign_class_fn, Some(7));
    c.set_write_fn(None);
    assert_eq!(c.write_fn, None);
    assert_eq!(c.error_fn, Some(3));
}
