//! A hotkey-toggled floating launcher panel: exact layout geometry and the
//! show/hide state machine, with every function verified.

pub mod fraction;
pub mod layout;
pub mod monitor;
pub mod panel;
pub mod scale;
pub mod settings;

