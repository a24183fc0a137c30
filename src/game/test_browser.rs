use vstd::prelude::*;

verus! {

/// Shows an overlay of the given markup; this build has no overlay, so there
/// is nothing to show and nothing can fail.
pub fn draw_ui(html: &str) -> (r: Result<(), String>)
    ensures
        r is Ok,
{
    Ok(())
}

/// Hides the overlay; this build has none, so nothing can fail.
pub fn hide_ui() -> (r: Result<(), String>)
    ensures
        r is Ok,
{
    Ok(())
}

} // verus!
