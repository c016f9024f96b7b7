//! Configuration of the single application window.
//!
//! The shell builds exactly one window: label `"main"`, a fixed title, an
//! initial size of 800 by 600, and — only on the one platform that supports
//! it — a transparent title bar. The host framework performs the actual
//! build; this module pins every value it is handed.

use vstd::prelude::*;
use vstd::string::StringExecFns;

verus! {

/// The values the main window is built with. Width and height are logical
/// pixels; `transparent_title_bar` selects the title-bar style.
#[derive(Debug, PartialEq)]
pub struct WindowConfig {
    pub label: String,
    pub title: String,
    pub width: u32,
    pub height: u32,
    pub transparent_title_bar: bool,
}

/// The window's configuration is well formed when it carries exactly the
/// shell's fixed values, with the title-bar style matching what the running
/// platform supports.
pub open spec fn window_config_built(c: WindowConfig, transparent_supported: bool) -> bool {
    &&& c.label@ == "main"@
    &&& c.title@ == "Hamsti's Log Viewer"@
    &&& c.width == 800
    &&& c.height == 600
    &&& c.transparent_title_bar == transparent_supported
}

/// Produce the configuration of the main window.
///
/// `transparent_supported` says whether the running platform offers the
/// transparent title-bar style: the window asks for that style exactly when
/// the platform has it, and is otherwise built with the default style.
pub fn window_config(transparent_supported: bool) -> (c: WindowConfig)
    ensures
        window_config_built(c, transparent_supported),
{
    WindowConfig {
        label: String::from_str("main"),
        title: String::from_str("Hamsti's Log Viewer"),
        width: 800,
        height: 600,
        transparent_title_bar: transparent_supported,
    }
}

/// The title-bar style is decided by platform support alone: a built
/// configuration is transparent exactly on the supporting platform, and the
/// rest of the configuration does not depend on the platform at all.
pub proof fn lemma_title_bar_follows_platform(a: WindowConfig, b: WindowConfig)
    requires
        window_config_built(a, true),
        window_config_built(b, false),
    ensures
        a.transparent_title_bar,
        !b.transparent_title_bar,
        a.label@ == b.label@,
        a.title@ == b.title@,
        a.width == b.width,
        a.height == b.height,
{
}

} // verus!
