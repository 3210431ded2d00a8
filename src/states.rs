//! State that user-facing tools keep of the daemon's pages, and the graphics
//! vendor notification.
use std::sync::atomic::AtomicBool;
use std::sync::Arc;
use vstd::prelude::*;

verus! {

/// Firmware switches as last read from the daemon.
#[derive(Clone, Debug)]
pub struct BiosState {
    /// Set by a watcher when the daemon reports a change; the whole state
    /// is then read again.
    pub was_notified: Arc<AtomicBool>,
    pub post_sound: bool,
    pub dedicated_gfx: bool,
    pub panel_overdrive: bool,
    pub dgpu_disable: bool,
    pub egpu_enable: bool,
}

/// AniMe display settings as last read from the daemon.
#[derive(Clone, Debug)]
pub struct AnimeState {
    pub was_notified: Arc<AtomicBool>,
    pub bright: u8,
    pub boot: bool,
    pub awake: bool,
    pub sleep: bool,
}

/// The signal that the graphics vendor changed.
#[derive(Debug)]
pub struct OrgAsuslinuxDaemonNotifyGfx {
    pub vendor: String,
}

} // verus!
