use vstd::prelude::*;
use crate::ui::text::{has_prefix, starts_with};

verus! {

/// Whether a status line reports a problem the player must act on, which
/// keeps it on screen instead of letting it fade.
pub open spec fn critical_status(status: Seq<char>) -> bool {
    has_prefix(status, "Load failed:"@) || has_prefix(status, "Settings failed:"@) || has_prefix(
        status,
        "Need "@,
    ) || has_prefix(status, "Not enough"@) || has_prefix(status, "Finish "@) || has_prefix(
        status,
        "Repair "@,
    ) || has_prefix(status, "Resolve "@) || has_prefix(status, "The bank"@) || has_prefix(
        status,
        "This week's"@,
    )
}

/// Whether the status line is critical.
pub fn status_is_critical(status: &str) -> (critical: bool)
    ensures
        critical == critical_status(status@),
{
    starts_with(status, "Load failed:") || starts_with(status, "Settings failed:") || starts_with(
        status,
        "Need ",
    ) || starts_with(status, "Not enough") || starts_with(status, "Finish ") || starts_with(
        status,
        "Repair ",
    ) || starts_with(status, "Resolve ") || starts_with(status, "The bank") || starts_with(
        status,
        "This week's",
    )
}

/// Every load failure the title screen reports stays on screen.
pub proof fn lemma_load_failures_are_critical(error: Seq<char>)
    ensures
        critical_status("Load failed: "@ + error),
{
    reveal_strlit("Load failed: ");
    reveal_strlit("Load failed:");
    assert(("Load failed: "@ + error).subrange(0, 12) =~= "Load failed:"@);
}

} // verus!
