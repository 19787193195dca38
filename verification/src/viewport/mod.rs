//! Viewports: where in-viewport steps run. The only backend is tmux.
pub mod tmux;

use vstd::prelude::*;

use crate::error::PawlError;
use crate::text::{owned, str_eq};
use crate::viewport::tmux::TmuxViewport;

verus! {

/// The viewport for a backend name, in the given session.
pub fn create_viewport(backend: &str, session: &str) -> (r: Result<TmuxViewport, PawlError>)
    ensures
        backend@ == "tmux"@ ==> (r matches Ok(v) && v@ == session@),
        backend@ != "tmux"@ ==> (r matches Err(PawlError::Validation { message }) && message@
            == "Unsupported viewport backend: "@ + backend@),
{
    if str_eq(backend, "tmux") {
        Ok(TmuxViewport::new(session))
    } else {
        let mut m = owned("Unsupported viewport backend: ");
        m.append(backend);
        Err(PawlError::Validation { message: m })
    }
}

} // verus!
