use vstd::prelude::*;

verus! {

/// The host's token for a value, or a compiled call signature, that the
/// guest heap keeps alive on its behalf. It names an entry of the
/// [`HandleRegistry`] of the VM it came from.
#[derive(Debug, Clone, Copy, PartialEq, Eq, Structural)]
pub struct Handle {
    pub id: usize,
}

/// Why a handle could not be used or released.
#[derive(Debug, Clone, Copy, PartialEq, Eq, Structural)]
pub enum HandleError {
    /// The VM that the handle belongs to has been torn down.
    VmDestroyed,
    /// The registry never issued this handle.
    Unknown,
    /// The handle was released before.
    Released,
}

/// What using or releasing handle `id` meets, for a registry with entries
/// `entries` whose VM is alive or not: the native handle while it is live,
/// else the reason it is not.
pub open spec fn handle_outcome<H>(entries: Seq<Option<H>>, vm_alive: bool, id: int) -> Result<
    H,
    HandleError,
> {
    if !vm_alive {
        Err(HandleError::VmDestroyed)
    } else if id < 0 || id >= entries.len() {
        Err(HandleError::Unknown)
    } else {
        match entries[id] {
            Some(h) => Ok(h),
            None => Err(HandleError::Released),
        }
    }
}

/// The handles issued for one VM, each live until it is released once.
///
/// `H` is the native handle; the registry only keeps it, and hands it back
/// for a call or for the single release.
pub struct HandleRegistry<H> {
    entries: Vec<Option<H>>,
    vm_alive: bool,
}

impl<H: Copy> HandleRegistry<H> {
    /// Entry `i` is the native handle behind handle `i`, or `None` once that
    /// handle has been released.
    pub closed spec fn entries(&self) -> Seq<Option<H>> {
        self.entries@
    }

    pub closed spec fn vm_alive(&self) -> bool {
        self.vm_alive
    }

    /// An empty registry for a VM that is alive.
    pub fn new() -> (r: Self)
        ensures
            r.entries() == Seq::<Option<H>>::empty(),
            r.vm_alive(),
    {
        HandleRegistry { entries: Vec::new(), vm_alive: true }
    }

    /// How many handles were issued.
    pub fn len(&self) -> (r: usize)
        ensures
            r == self.entries().len(),
    {
        self.entries.len()
    }

    /// Records the native handle `raw` and issues the token for it. A VM that
    /// was torn down issues nothing.
    pub fn register(&mut self, raw: H) -> (r: Result<Handle, HandleError>)
        requires
            old(self).entries().len() < usize::MAX,
        ensures
            old(self).vm_alive() ==> r == Ok::<Handle, HandleError>(
                Handle { id: old(self).entries().len() as usize },
            ) && final(self).entries() == old(self).entries().push(Some(raw)),
            !old(self).vm_alive() ==> r == Err::<Handle, HandleError>(HandleError::VmDestroyed)
                && final(self).entries() == old(self).entries(),
            final(self).vm_alive() == old(self).vm_alive(),
    {
        if !self.vm_alive {
            return Err(HandleError::VmDestroyed);
        }
        let id = self.entries.len();
        self.entries.push(Some(raw));
        Ok(Handle { id })
    }

    /// The native handle behind `h`, for a call or to write it into a slot.
    pub fn get(&self, h: Handle) -> (r: Result<H, HandleError>)
        ensures
            r == handle_outcome(self.entries(), self.vm_alive(), h.id as int),
    {
        if !self.vm_alive {
            return Err(HandleError::VmDestroyed);
        }
        if h.id >= self.entries.len() {
            return Err(HandleError::Unknown);
        }
        match self.entries[h.id] {
            Some(raw) => Ok(raw),
            None => Err(HandleError::Released),
        }
    }

    /// Releases `h`: hands back the native handle to free, and from then on
    /// refuses `h`. A handle that is not live is refused, and nothing changes.
    pub fn release(&mut self, h: Handle) -> (r: Result<H, HandleError>)
        ensures
            r == handle_outcome(old(self).entries(), old(self).vm_alive(), h.id as int),
            r is Ok ==> final(self).entries() == old(self).entries().update(h.id as int, None),
            r is Err ==> final(self).entries() == old(self).entries(),
            final(self).vm_alive() == old(self).vm_alive(),
    {
        let r = self.get(h);
        if r.is_ok() {
            self.entries.set(h.id, None);
        }
        r
    }

    /// Marks the VM as torn down: every handle is refused from then on.
    pub fn close(&mut self)
        ensures
            !final(self).vm_alive(),
            final(self).entries() == old(self).entries(),
    {
        self.vm_alive = false;
    }
}

/// A handle is released at most once: after a release that succeeds, a
/// second release and any use of it both fail with `Released`, and every
/// other handle is as it was.
pub proof fn lemma_release_once<H>(entries: Seq<Option<H>>, vm_alive: bool, id: int, other: int)
    requires
        handle_outcome(entries, vm_alive, id) is Ok,
        other != id,
    ensures
        handle_outcome(entries.update(id, None), vm_alive, id) == Err::<H, HandleError>(
            HandleError::Released,
        ),
        handle_outcome(entries.update(id, None), vm_alive, other) == handle_outcome(
            entries,
            vm_alive,
            other,
        ),
{
}

/// Once its VM is torn down, no handle can be used or released.
pub proof fn lemma_closed_refuses_all<H>(entries: Seq<Option<H>>, id: int)
    ensures
        handle_outcome(entries, false, id) == Err::<H, HandleError>(HandleError::VmDestroyed),
{
}

} // verus!
