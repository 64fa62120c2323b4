//! Reports of the bundled build-file patches applied to known upstream forks.

use vstd::prelude::*;
use crate::models::{ActionResult, ActionResultView};
use crate::text::{owned, push_char, push_str};

verus! {

pub const PROJECT_MISSING_PREFIX: &'static str = "Project folder does not exist: ";

pub const PATCHED_MAKEFILE_PREFIX: &'static str = "Patched Makefile installed at ";

/// The error for a patch requested on a folder that does not exist.
pub fn project_missing_error(project: &str) -> (e: String)
    ensures
        e@ == PROJECT_MISSING_PREFIX@ + project@,
{
    let mut e = owned(PROJECT_MISSING_PREFIX);
    push_str(&mut e, project);
    e
}

/// The report of an installed Makefile patch.
pub fn makefile_patch_result(destination: &str) -> (r: ActionResult)
    ensures
        r@ == (ActionResultView {
            ok: true,
            message: PATCHED_MAKEFILE_PREFIX@ + destination@ + seq!['.'],
            stdout: Seq::empty(),
            stderr: Seq::empty(),
        }),
{
    let mut message = owned(PATCHED_MAKEFILE_PREFIX);
    push_str(&mut message, destination);
    push_char(&mut message, '.');
    assert(message@ =~= PATCHED_MAKEFILE_PREFIX@ + destination@ + seq!['.']);
    ActionResult { ok: true, message, stdout: String::new(), stderr: String::new() }
}

/// Whether the project's Makefile, if it could be read, is exactly the
/// bundled patched one.
pub fn has_snesrev_makefile_patch(makefile: Option<String>, bundled: &str) -> (b: bool)
    ensures
        b == match makefile {
            Some(content) => content@ == bundled@,
            None => false,
        },
{
    match makefile {
        Some(content) => content == owned(bundled),
        None => false,
    }
}

} // verus!
