use vstd::prelude::*;

verus! {

/// Whether a wrapper frees its native VM.
#[derive(Debug, Clone, Copy, PartialEq, Eq, Structural)]
pub enum Ownership {
    /// Made by the host: the wrapper frees the VM, once.
    Owned,
    /// Handed to a callback: the wrapper never frees it.
    Borrowed,
}

/// A native VM `P` together with who frees it and whether it still stands.
pub struct VM<P> {
    raw: P,
    ownership: Ownership,
    alive: bool,
}

impl<P: Copy> VM<P> {
    pub closed spec fn raw_spec(&self) -> P {
        self.raw
    }

    pub closed spec fn ownership_spec(&self) -> Ownership {
        self.ownership
    }

    pub closed spec fn alive(&self) -> bool {
        self.alive
    }

    /// What a teardown hands back to be freed: the native VM where this
    /// wrapper owns it and has not torn it down yet, else nothing.
    pub open spec fn teardown_spec(&self) -> Option<P> {
        if self.alive() && self.ownership_spec() == Ownership::Owned {
            Some(self.raw_spec())
        } else {
            None
        }
    }

    /// Wraps a VM that the host has just made; the wrapper owns it.
    pub fn new(raw: P) -> (r: VM<P>)
        ensures
            r.raw_spec() == raw,
            r.ownership_spec() == Ownership::Owned,
            r.alive(),
    {
        VM { raw, ownership: Ownership::Owned, alive: true }
    }

    /// Wraps a VM handed to a callback; the wrapper never frees it.
    pub fn from_ptr(raw: P) -> (r: VM<P>)
        ensures
            r.raw_spec() == raw,
            r.ownership_spec() == Ownership::Borrowed,
            r.alive(),
    {
        VM { raw, ownership: Ownership::Borrowed, alive: true }
    }

    pub fn ownership(&self) -> (r: Ownership)
        ensures
            r == self.ownership_spec(),
    {
        self.ownership
    }

    /// The native VM, while the wrapper has not been torn down.
    pub fn raw(&self) -> (r: Option<P>)
        ensures
            self.alive() ==> r == Some(self.raw_spec()),
            !self.alive() ==> r is None,
    {
        if self.alive {
            Some(self.raw)
        } else {
            None
        }
    }

    /// Ends the wrapper's use of the VM. Returns the native VM exactly when
    /// the caller must free it now: the wrapper owns it and this is the first
    /// teardown.
    pub fn teardown(&mut self) -> (r: Option<P>)
        ensures
            r == old(self).teardown_spec(),
            !final(self).alive(),
            final(self).raw_spec() == old(self).raw_spec(),
            final(self).ownership_spec() == old(self).ownership_spec(),
    {
        let r = if self.alive {
            match self.ownership {
                Ownership::Owned => Some(self.raw),
                Ownership::Borrowed => None,
            }
        } else {
            None
        };
        self.alive = false;
        r
    }
}

/// An owned VM is freed once: after a teardown, nothing is left to free. A
/// borrowed one is never freed.
pub proof fn lemma_teardown_at_most_once<P: Copy>(before: VM<P>, after: VM<P>)
    requires
        !after.alive(),
        after.raw_spec() == before.raw_spec(),
        after.ownership_spec() == before.ownership_spec(),
    ensures
        after.teardown_spec() is None,
        before.ownership_spec() == Ownership::Borrowed ==> before.teardown_spec() is None,
        before.ownership_spec() == Ownership::Owned && before.alive() ==> before.teardown_spec()
            == Some(before.raw_spec()),
{
}

/// The hooks that a VM is made with. Each is the native function pointer of
/// its kind, or `None` for the VM's own default.
pub struct Configuration<R, W, E, S, L, M, C> {
    pub reallocate_fn: Option<R>,
    pub write_fn: Option<W>,
    pub error_fn: Option<E>,
    pub resolve_module_fn: Option<S>,
    pub load_module_fn: Option<L>,
    pub bind_foreign_method_fn: Option<M>,
    pub bind_foreign_class_fn: Option<C>,
}

impl<R, W, E, S, L, M, C> Configuration<R, W, E, S, L, M, C> {
    /// A configuration with the default hooks installed: `write` for output,
    /// `error` for error reports, `load_module` to read a module's source and
    /// `resolve_module` to resolve an import. The allocator and the two
    /// foreign-binding hooks are left to the VM's own defaults.
    pub fn new(write: W, error: E, load_module: L, resolve_module: S) -> (r: Self)
        ensures
            r.reallocate_fn is None,
            r.write_fn == Some(write),
            r.error_fn == Some(error),
            r.resolve_module_fn == Some(resolve_module),
            r.load_module_fn == Some(load_module),
            r.bind_foreign_method_fn is None,
            r.bind_foreign_class_fn is None,
    {
        Configuration {
            reallocate_fn: None,
            write_fn: Some(write),
            error_fn: Some(error),
            resolve_module_fn: Some(resolve_module),
            load_module_fn: Some(load_module),
            bind_foreign_method_fn: None,
            bind_foreign_class_fn: None,
        }
    }

    pub fn set_reallocate_fn(&mut self, f: Option<R>)
        ensures
            *final(self) == (Configuration { reallocate_fn: f, ..*old(self) }),
    {
        self.reallocate_fn = f;
    }

    pub fn set_write_fn(&mut self, f: Option<W>)
        ensures
            *final(self) == (Configuration { write_fn: f, ..*old(self) }),
    {
        self.write_fn = f;
    }

    pub fn set_error_fn(&mut self, f: Option<E>)
        ensures
            *final(self) == (Configuration { error_fn: f, ..*old(self) }),
    {
        self.error_fn = f;
    }

    pub fn set_resolve_module_fn(&mut self, f: Option<S>)
        ensures
            *final(self) == (Configuration { resolve_module_fn: f, ..*old(self) }),
    {
        self.resolve_module_fn = f;
    }

    pub fn set_load_module_fn(&mut self, f: Option<L>)
        ensures
            *final(self) == (Configuration { load_module_fn: f, ..*old(self) }),
    {
        self.load_module_fn = f;
    }

    pub fn set_bind_foreign_method_fn(&mut self, f: Option<M>)
        ensures
            *final(self) == (Configuration { bind_foreign_method_fn: f, ..*old(self) }),
    {
        self.bind_foreign_method_fn = f;
    }

    pub fn set_bind_foreign_class_fn(&mut self, f: Option<C>)
        ensures
            *final(self) == (Configuration { bind_foreign_class_fn: f, ..*old(self) }),
    {
        self.bind_foreign_class_fn = f;
    }
}

} // verus!
