use wren_rs::{
    check_zero_sized, foreign_method_key, BindingTable, CapturingClosure, ForeignBindings,
    ForeignClassMethods,
};

#[test]
fn method_keys() {
    assert_eq!(foreign_method_key("Counter", false, "increment(_)"), b"Counter.increment(_)".to_vec());
    assert_eq!(foreign_method_key("ForeignClass", true, "finalized"), b"static ForeignClass.finalized".to_vec());
}

#[test]
fn unregistered_method_has_no_binding() {
    let mut b: ForeignBindings<u32, u32> = ForeignBindings::new();
    assert_eq!(b.bind_foreign_method("main", "Api", true, "call()"), None);
    b.add_method("main", "Api", true, "call()", 1);
    assert_eq!(b.bind_foreign_method("main", "Api", true, "call()"), Some(1));
    assert_eq!(b.bind_foreign_method("main", "Api", false, "call()"), None);
    assert_eq!(b.bind_foreign_method("other", "Api", true, "call()"), None);
    assert_eq!(b.bind_foreign_method("main", "Api", true, "call(_)"), None);
}

#[test]
fn later_method_binding_wins() {
    let mut b: ForeignBindings<u32, u32> = ForeignBindings::new();
    b.add_method("main", "Counter", false, "value", 1);
    b.add_method("main", "Counter", false, "increment(_)", 2);
    b.add_method("main", "Counter", false, "value", 3);
    assert_eq!(b.bind_foreign_method("main", "Counter", false, "value"), Some(3));
    assert_eq!(b.bind_foreign_method("main", "Counter", false, "increment(_)"), Some(2));
}

#[test]
fn foreign_class_hooks() {
    let mut b: ForeignBindings<u32, u8> = ForeignBindings::new();
    b.add_class("main", "Resource", ForeignClassMethods { allocate: Some(10), finalize: Some(1) });
    b.add_class("main", "Counter", ForeignClassMethods { allocate: Some(11), finalize: None });
    assert_eq!(
        b.bind_foreign_class("main", "Resource"),
        ForeignClassMethods { allocate: Some(10), finalize: Some(1) }
    );
    assert_eq!(
        b.bind_foreign_class("main", "Counter"),
        ForeignClassMethods { allocate: Some(11), finalize: None }
    );
    assert_eq!(
        b.bind_foreign_class("main", "Missing"),
        ForeignClassMethods { allocate: None, finalize: None }
    );
    assert_eq!(b.bind_foreign_method("main", "Counter", false, "value"), None);
}

fn plain_hook(_text: &str) {}

#[test]
fn capture_free_closures_are_accepted() {
    assert_eq!(check_zero_sized(&plain_hook), Ok(()));
    assert_eq!(check_zero_sized(&|x: i32| x * 2), Ok(()));
}

#[test]
fn capturing_closure_is_refused_at_registration() {
    let prefix = String::from("log: ");
    let hook = move |text: &str| format!("{}{}", prefix, text);
    assert_eq!(
        check_zero_sized(&hook),
        Err(CapturingClosure { size: std::mem::size_of::<String>() })
    );
    let n: u64 = 3;
    let add = move |x: u64| x + n;
    assert_eq!(check_zero_sized(&add), Err(CapturingClosure { size: 8 }));
}

#[test]
fn binding_table_keys_by_module_and_key() {
    let mut t: BindingTable<u8> = BindingTable::new();
    assert_eq!(t.find(b"main", b"Point"), None);
    t.insert(b"main", b"Point".to_vec(), 1);
    t.insert(b"geo", b"Point".to_vec(), 2);
    assert_eq!(t.find(b"main", b"Point"), Some(1));
    assert_eq!(t.find(b"geo", b"Point"), Some(2));
    assert_eq!(t.find(b"main", b"Poin"), None);
    assert_eq!(t.find(b"", b""), None);
}
