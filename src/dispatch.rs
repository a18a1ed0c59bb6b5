use vstd::prelude::*;
use vstd::string::StringSliceAdditionalSpecFns;

use crate::path::{append_range, DOT};

verus! {

/// The bytes of `static `, which open the key of a static method.
pub open spec fn static_prefix() -> Seq<u8> {
    seq![0x73u8, 0x74u8, 0x61u8, 0x74u8, 0x69u8, 0x63u8, 0x20u8]
}

/// The dispatch key of a foreign method: `Class.signature`, or
/// `static Class.signature` for a static one.
pub open spec fn method_key(class: Seq<u8>, is_static: bool, signature: Seq<u8>) -> Seq<u8> {
    let base = class + seq![DOT] + signature;
    if is_static {
        static_prefix() + base
    } else {
        base
    }
}

/// The value bound last to `key` in `module` among `bindings`, which are
/// (module, key, value) triples in the order they were made.
pub open spec fn find_binding<V>(
    bindings: Seq<(Seq<u8>, Seq<u8>, V)>,
    module: Seq<u8>,
    key: Seq<u8>,
) -> Option<V>
    decreases bindings.len(),
{
    if bindings.len() == 0 {
        None
    } else if bindings.last().0 == module && bindings.last().1 == key {
        Some(bindings.last().2)
    } else {
        find_binding(bindings.drop_last(), module, key)
    }
}

/// The dispatch key of a foreign method, as the bind hook matches it.
pub fn foreign_method_key(class: &str, is_static: bool, signature: &str) -> (r: Vec<u8>)
    ensures
        r@ == method_key(class.spec_bytes(), is_static, signature.spec_bytes()),
{
    let mut out: Vec<u8> = Vec::new();
    if is_static {
        out.push(0x73u8);
        out.push(0x74u8);
        out.push(0x61u8);
        out.push(0x74u8);
        out.push(0x69u8);
        out.push(0x63u8);
        out.push(0x20u8);
    }
    let c = class.as_bytes();
    append_range(&mut out, c, 0, c.len());
    out.push(DOT);
    let s = signature.as_bytes();
    append_range(&mut out, s, 0, s.len());
    assert(c@.subrange(0, c@.len() as int) =~= c@);
    assert(s@.subrange(0, s@.len() as int) =~= s@);
    assert(out@ =~= method_key(c@, is_static, s@));
    out
}

fn bytes_equal(a: &Vec<u8>, b: &[u8]) -> (r: bool)
    ensures
        r == (a@ == b@),
{
    if a.len() != b.len() {
        return false;
    }
    let mut i: usize = 0;
    while i < a.len()
        invariant
            i <= a@.len() == b@.len(),
            forall|j: int| 0 <= j < i ==> a@[j] == b@[j],
        decreases a@.len() - i,
    {
        if a[i] != b[i] {
            return false;
        }
        i = i + 1;
    }
    assert(a@ =~= b@);
    true
}

struct Binding<V> {
    module: Vec<u8>,
    key: Vec<u8>,
    value: V,
}

/// A table from (module, key) to a value, where a later binding of the same
/// pair takes the place of an earlier one.
pub struct BindingTable<V> {
    entries: Vec<Binding<V>>,
}

impl<V: Copy> BindingTable<V> {
    /// The bindings as (module, key, value), in the order they were made.
    pub closed spec fn bindings(&self) -> Seq<(Seq<u8>, Seq<u8>, V)> {
        self.entries@.map_values(|b: Binding<V>| (b.module@, b.key@, b.value))
    }

    pub fn new() -> (r: Self)
        ensures
            r.bindings() == Seq::<(Seq<u8>, Seq<u8>, V)>::empty(),
    {
        let r = BindingTable { entries: Vec::new() };
        assert(r.bindings() =~= Seq::<(Seq<u8>, Seq<u8>, V)>::empty());
        r
    }

    /// Binds `key` in `module` to `value`.
    pub fn insert(&mut self, module: &[u8], key: Vec<u8>, value: V)
        ensures
            final(self).bindings() == old(self).bindings().push((module@, key@, value)),
    {
        let mut m: Vec<u8> = Vec::new();
        append_range(&mut m, module, 0, module.len());
        assert(module@.subrange(0, module@.len() as int) =~= module@);
        self.entries.push(Binding { module: m, key, value });
        assert(self.bindings() =~= old(self).bindings().push((module@, key@, value)));
    }

    /// The value bound last to `key` in `module`, if any.
    pub fn find(&self, module: &[u8], key: &[u8]) -> (r: Option<V>)
        ensures
            r == find_binding(self.bindings(), module@, key@),
    {
        let ghost all = self.bindings();
        let mut i: usize = self.entries.len();
        assert(all.subrange(0, i as int) =~= all);
        while i > 0
            invariant
                i <= self.entries@.len(),
                all == self.bindings(),
                find_binding(all, module@, key@) == find_binding(
                    all.subrange(0, i as int),
                    module@,
                    key@,
                ),
            decreases i,
        {
            let e = &self.entries[i - 1];
            assert(all[i - 1] == (e.module@, e.key@, e.value));
            assert(all.subrange(0, i as int).drop_last() =~= all.subrange(0, i - 1));
            if bytes_equal(&e.module, module) && bytes_equal(&e.key, key) {
                return Some(e.value);
            }
            i = i - 1;
        }
        None
    }
}

/// A lookup finds what was bound last, and a binding of one pair leaves the
/// lookup of every other pair as it was.
pub proof fn lemma_find_after_bind<V>(
    bindings: Seq<(Seq<u8>, Seq<u8>, V)>,
    module: Seq<u8>,
    key: Seq<u8>,
    value: V,
    other_module: Seq<u8>,
    other_key: Seq<u8>,
)
    ensures
        find_binding(bindings.push((module, key, value)), module, key) == Some(value),
        !(other_module == module && other_key == key) ==> find_binding(
            bindings.push((module, key, value)),
            other_module,
            other_key,
        ) == find_binding(bindings, other_module, other_key),
{
    assert(bindings.push((module, key, value)).drop_last() =~= bindings);
}

/// A pair that was never bound finds nothing.
pub proof fn lemma_unbound_finds_nothing<V>(
    bindings: Seq<(Seq<u8>, Seq<u8>, V)>,
    module: Seq<u8>,
    key: Seq<u8>,
)
    requires
        forall|i: int|
            0 <= i < bindings.len() ==> !(#[trigger] bindings[i].0 == module && bindings[i].1
                == key),
    ensures
        find_binding(bindings, module, key) is None,
    decreases bindings.len(),
{
    if bindings.len() > 0 {
        let rest = bindings.drop_last();
        assert forall|i: int| 0 <= i < rest.len() implies !(#[trigger] rest[i].0 == module
            && rest[i].1 == key) by {
            assert(rest[i] == bindings[i]);
        }
        assert(bindings.last() == bindings[bindings.len() - 1]);
        lemma_unbound_finds_nothing(rest, module, key);
    }
}

/// The pair of hooks that a foreign class is bound to: the one that
/// initializes a new instance and, optionally, the one that cleans up after
/// it once the guest collects it.
#[derive(Debug, Clone, Copy, PartialEq, Eq)]
pub struct ForeignClassMethods<A, F> {
    pub allocate: Option<A>,
    pub finalize: Option<F>,
}

/// The foreign methods and classes that the host provides, as the two bind
/// hooks look them up. `M` is a foreign method, `F` a finalizer.
pub struct ForeignBindings<M, F> {
    methods: BindingTable<M>,
    classes: BindingTable<ForeignClassMethods<M, F>>,
}

impl<M: Copy, F: Copy> ForeignBindings<M, F> {
    pub closed spec fn methods(&self) -> Seq<(Seq<u8>, Seq<u8>, M)> {
        self.methods.bindings()
    }

    pub closed spec fn classes(&self) -> Seq<(Seq<u8>, Seq<u8>, ForeignClassMethods<M, F>)> {
        self.classes.bindings()
    }

    /// Nothing bound.
    pub fn new() -> (r: Self)
        ensures
            r.methods() == Seq::<(Seq<u8>, Seq<u8>, M)>::empty(),
            r.classes() == Seq::<(Seq<u8>, Seq<u8>, ForeignClassMethods<M, F>)>::empty(),
    {
        ForeignBindings { methods: BindingTable::new(), classes: BindingTable::new() }
    }

    /// Binds the method `signature` of `class` in `module`, static or not.
    pub fn add_method(
        &mut self,
        module: &str,
        class: &str,
        is_static: bool,
        signature: &str,
        method: M,
    )
        ensures
            final(self).methods() == old(self).methods().push(
                (
                    module.spec_bytes(),
                    method_key(class.spec_bytes(), is_static, signature.spec_bytes()),
                    method,
                ),
            ),
            final(self).classes() == old(self).classes(),
    {
        let key = foreign_method_key(class, is_static, signature);
        self.methods.insert(module.as_bytes(), key, method);
    }

    /// Binds the foreign class `class` of `module` to its hooks.
    pub fn add_class(&mut self, module: &str, class: &str, hooks: ForeignClassMethods<M, F>)
        ensures
            final(self).classes() == old(self).classes().push(
                (module.spec_bytes(), class.spec_bytes(), hooks),
            ),
            final(self).methods() == old(self).methods(),
    {
        let mut key: Vec<u8> = Vec::new();
        let c = class.as_bytes();
        append_range(&mut key, c, 0, c.len());
        assert(c@.subrange(0, c@.len() as int) =~= c@);
        self.classes.insert(module.as_bytes(), key, hooks);
    }

    /// The method that the guest's `signature` of `class` in `module` runs,
    /// or `None` where none is bound: the guest then raises a runtime error
    /// when the method is called.
    pub fn bind_foreign_method(
        &self,
        module: &str,
        class: &str,
        is_static: bool,
        signature: &str,
    ) -> (r: Option<M>)
        ensures
            r == find_binding(
                self.methods(),
                module.spec_bytes(),
                method_key(class.spec_bytes(), is_static, signature.spec_bytes()),
            ),
    {
        let key = foreign_method_key(class, is_static, signature);
        self.methods.find(module.as_bytes(), key.as_slice())
    }

    /// The hooks of foreign class `class` in `module`; neither hook where the
    /// class is not bound.
    pub fn bind_foreign_class(&self, module: &str, class: &str) -> (r: ForeignClassMethods<M, F>)
        ensures
            find_binding(self.classes(), module.spec_bytes(), class.spec_bytes()) matches Some(
                h,
            ) ==> r == h,
            find_binding(self.classes(), module.spec_bytes(), class.spec_bytes()) is None ==> r
                == (ForeignClassMethods::<M, F> { allocate: None, finalize: None }),
    {
        match self.classes.find(module.as_bytes(), class.as_bytes()) {
            Some(h) => h,
            None => ForeignClassMethods { allocate: None, finalize: None },
        }
    }
}

} // verus!
