use vstd::prelude::*;

verus! {

/// A hook closure was refused because it carries state: `size` bytes of it.
/// The native interface takes a bare function pointer with no room for
/// captured state, so only closures that capture nothing can be installed.
#[derive(Debug, Clone, Copy, PartialEq, Eq, Structural)]
pub struct CapturingClosure {
    pub size: usize,
}

/// Accepts the hook `f` for installation exactly when it captures nothing,
/// that is, when its type takes no space.
pub fn check_zero_sized<F>(f: &F) -> (r: Result<(), CapturingClosure>)
    ensures
        r is Ok <==> vstd::layout::size_of::<F>() == 0,
        r matches Err(e) ==> e.size as nat == vstd::layout::size_of::<F>(),
{
    let size = core::mem::size_of::<F>();
    if size == 0 {
        Ok(())
    } else {
        Err(CapturingClosure { size })
    }
}

} // verus!
