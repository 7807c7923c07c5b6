use vstd::prelude::*;
use crate::tui::blinker::Blinker;
use crate::tui::keys::{KeyCode, KeyEvent, KeyEventKind};

verus! {

/// The state of the running interface: whether it is to stop, and the strip
/// that shows redraws.
pub struct App {
    pub exit: bool,
    pub blinker: Blinker,
}

/// Whether the interface is to stop after `key`: it stays stopped once
/// asked to, and a press or repeat of Esc asks it to.
pub open spec fn exit_after(exit: bool, key: KeyEvent) -> bool {
    exit || (key.kind != KeyEventKind::Release && key.code == KeyCode::Esc)
}

/// Law: once the interface is asked to stop, no key makes it go on.
pub proof fn lemma_exit_is_final(key: KeyEvent)
    ensures
        exit_after(true, key),
{
}

impl App {
    pub fn new() -> (r: App)
        ensures
            !r.exit,
            !r.blinker.last_state,
    {
        App { exit: false, blinker: Blinker::new() }
    }

    /// Decides what a key event does: a press or repeat of Esc ends the
    /// interface, any other press or repeat is handed back to go to the
    /// window, and releases are ignored.
    pub fn handle_key(&mut self, key: KeyEvent) -> (r: Option<KeyEvent>)
        ensures
            final(self).blinker == old(self).blinker,
            final(self).exit == exit_after(old(self).exit, key),
            key.kind == KeyEventKind::Release ==> r is None && final(self).exit == old(self).exit,
            key.kind != KeyEventKind::Release && key.code == KeyCode::Esc ==> r is None && final(self).exit,
            key.kind != KeyEventKind::Release && key.code != KeyCode::Esc ==> r == Some(key)
                && final(self).exit == old(self).exit,
    {
        match key.kind {
            KeyEventKind::Release => None,
            _ => match key.code {
                KeyCode::Esc => {
                    self.exit = true;
                    None
                },
                _ => Some(key),
            },
        }
    }
}

} // verus!
