//! Process environment adjustments made before the webview starts.

use vstd::prelude::*;
use crate::text::owned;

verus! {

/// A change to one environment variable.
#[derive(Clone, Debug, PartialEq, Eq)]
pub enum EnvChange {
    Assign { name: String, value: String },
    Remove { name: String },
}

pub enum EnvChangeView {
    Assign { name: Seq<char>, value: Seq<char> },
    Remove { name: Seq<char> },
}

impl View for EnvChange {
    type V = EnvChangeView;

    open spec fn view(&self) -> EnvChangeView {
        match self {
            EnvChange::Assign { name, value } => EnvChangeView::Assign { name: name@, value: value@ },
            EnvChange::Remove { name } => EnvChangeView::Remove { name: name@ },
        }
    }
}

pub const LINUX_GIO_MODULE_DIR: &'static str = "/nonexistent";

pub const LINUX_GIO_VFS: &'static str = "local";

pub const LINUX_WEBKIT_DISABLE_DMABUF_RENDERER: &'static str = "1";

/// The environment changes for WebKitGTK on Linux, in the order they are
/// applied: GIO keeps to its local VFS and away from host modules (whose
/// ABI may not match the bundled GLib), and the DMABuf renderer, which can
/// abort on some drivers, is disabled. Other platforms change nothing.
pub open spec fn linux_webview_changes(is_linux: bool) -> Seq<EnvChangeView> {
    if is_linux {
        seq![
            EnvChangeView::Assign { name: "GIO_USE_VFS"@, value: LINUX_GIO_VFS@ },
            EnvChangeView::Assign { name: "GIO_MODULE_DIR"@, value: LINUX_GIO_MODULE_DIR@ },
            EnvChangeView::Remove { name: "GIO_EXTRA_MODULES"@ },
            EnvChangeView::Assign {
                name: "WEBKIT_DISABLE_DMABUF_RENDERER"@,
                value: LINUX_WEBKIT_DISABLE_DMABUF_RENDERER@,
            },
        ]
    } else {
        Seq::empty()
    }
}

fn set_var(name: &str, value: &str) -> (c: EnvChange)
    ensures
        c@ == (EnvChangeView::Assign { name: name@, value: value@ }),
{
    EnvChange::Assign { name: owned(name), value: owned(value) }
}

/// The environment changes to make before GTK and WebKitGTK initialize.
pub fn configure_linux_webview_runtime(is_linux: bool) -> (changes: Vec<EnvChange>)
    ensures
        changes@.map_values(|c: EnvChange| c@) == linux_webview_changes(is_linux),
{
    let mut changes = Vec::new();
    if is_linux {
        changes.push(set_var("GIO_USE_VFS", LINUX_GIO_VFS));
        changes.push(set_var("GIO_MODULE_DIR", LINUX_GIO_MODULE_DIR));
        changes.push(EnvChange::Remove { name: owned("GIO_EXTRA_MODULES") });
        changes.push(set_var("WEBKIT_DISABLE_DMABUF_RENDERER", LINUX_WEBKIT_DISABLE_DMABUF_RENDERER));
    }
    assert(changes@.map_values(|c: EnvChange| c@) =~= linux_webview_changes(is_linux));
    changes
}

} // verus!
