//! Verified core of a desktop log-viewer shell.
//!
//! The shell itself (window creation, native menus, event emission, the
//! updater service) is host-framework plumbing; everything the shell
//! *decides* lives here, stated and proved:
//!
//! - the diagnostic echo of the `filter_and_sort` command,
//! - the structure of the application menu,
//! - which event a menu activation emits,
//! - the configuration the main window is built with,
//! - the state machine that drives the update flow.

pub mod command;
pub mod events;
pub mod menu;
pub mod update;
pub mod window;

use vstd::prelude::*;

verus! {

/// Everything application setup decides for one window: the window's
/// configuration, the menu tree with its two constructed items, and a fresh
/// update flow for the background task the host spawns.
pub struct AppSetup {
    pub window: crate::window::WindowConfig,
    pub menu: crate::menu::MenuSetup,
    pub update: crate::update::UpdateFlow,
}

/// Run the setup decisions for one window.
///
/// `transparent_supported` says whether the running platform offers the
/// transparent title-bar style. The host builds the window and the native
/// menu from the returned models, registers the menu-event handler (see
/// [`events::menu_event_emissions`]), and spawns the update task around the
/// returned flow.
pub fn setup_app(transparent_supported: bool) -> (s: AppSetup)
    ensures
        crate::window::window_config_built(s.window, transparent_supported),
        crate::menu::menu_built(s.menu),
        s.update.phase == crate::update::UpdatePhase::Idle,
        s.update.downloaded == 0,
{
    AppSetup {
        window: crate::window::window_config(transparent_supported),
        menu: crate::menu::build_menu(),
        update: crate::update::UpdateFlow::new(),
    }
}

} // verus!
