//! The panel's show/hide state machine. A global shortcut toggles the panel
//! on its "pressed" transition; showing it lays it out afresh on the
//! monitor at hand, hiding it leaves its geometry alone.

use vstd::prelude::*;
use crate::layout::compute_layout;
use crate::layout::layout_spec;
use crate::layout::Layout;
use crate::layout::LayoutView;
use crate::layout::PanelConfig;
use crate::monitor::Monitor;

verus! {

/// What a global shortcut reports of its keys.
#[derive(Clone, Copy, Debug, PartialEq, Eq, Structural)]
pub enum ShortcutState {
    /// The keys went down.
    Pressed,
    /// The keys came up.
    Released,
}

/// What to do with the panel in answer to a shortcut event.
#[derive(Clone, Copy, Debug, PartialEq, Eq, Structural)]
pub enum PanelAction {
    /// Leave the panel as it is.
    Ignore,
    /// Hide the panel; its geometry stays.
    Hide,
    /// Lay the panel out on the monitor at hand, then show it and give it
    /// keyboard focus.
    Show,
}

/// The answer to a shortcut event, as a function of the event and of what
/// is known of the panel: `None` when it could not be found, else whether
/// it is visible.
pub open spec fn action_spec(state: ShortcutState, visible: Option<bool>) -> PanelAction {
    match (state, visible) {
        (ShortcutState::Pressed, Some(true)) => PanelAction::Hide,
        (ShortcutState::Pressed, Some(false)) => PanelAction::Show,
        _ => PanelAction::Ignore,
    }
}

/// Decides what a shortcut event does to the panel. Only a press acts, and
/// only on a panel that was found: it hides a visible panel and shows a
/// hidden one.
pub fn on_shortcut(state: ShortcutState, visible: Option<bool>) -> (action: PanelAction)
    ensures
        action == action_spec(state, visible),
{
    match state {
        ShortcutState::Released => PanelAction::Ignore,
        ShortcutState::Pressed => match visible {
            None => PanelAction::Ignore,
            Some(true) => PanelAction::Hide,
            Some(false) => PanelAction::Show,
        },
    }
}

/// The state of a panel: its measures, whether it is on screen, and the
/// monitor it was last laid out on, if it ever was.
pub struct PanelState {
    pub config: PanelConfig,
    pub visible: bool,
    pub monitor: Option<Monitor>,
}

/// One shortcut event as the panel meets it: the state of the keys, and the
/// monitor that could be resolved at that moment, if any.
pub struct ShortcutEvent {
    pub state: ShortcutState,
    pub monitor: Option<Monitor>,
}

impl PanelState {
    /// A new panel: hidden, not yet laid out.
    pub open spec fn initial(config: PanelConfig) -> PanelState {
        PanelState { config, visible: false, monitor: None }
    }

    /// The panel's size and position, once it has been laid out.
    pub open spec fn layout(self) -> Option<LayoutView> {
        match self.monitor {
            Some(m) => Some(layout_spec(self.config, m)),
            None => None,
        }
    }

    /// The panel receives keyboard input exactly while it is visible.
    pub open spec fn key_window(self) -> bool {
        self.visible
    }

    /// The state after the layout was applied for `monitor`: with no
    /// monitor nothing changes.
    pub open spec fn laid_out(self, monitor: Option<Monitor>) -> PanelState {
        match monitor {
            Some(m) => PanelState { monitor: Some(m), ..self },
            None => self,
        }
    }

    /// The state after a toggle: a visible panel is hidden as it is, a
    /// hidden one is laid out for `monitor` and shown.
    pub open spec fn toggled(self, monitor: Option<Monitor>) -> PanelState {
        if self.visible {
            PanelState { visible: false, ..self }
        } else {
            PanelState { visible: true, ..self.laid_out(monitor) }
        }
    }

    /// The state after one shortcut event: a press toggles, anything else
    /// changes nothing.
    pub open spec fn after(self, event: ShortcutEvent) -> PanelState {
        match event.state {
            ShortcutState::Pressed => self.toggled(event.monitor),
            ShortcutState::Released => self,
        }
    }

    /// The state after a run of shortcut events, first to last.
    pub open spec fn after_all(self, events: Seq<ShortcutEvent>) -> PanelState
        decreases events.len(),
    {
        if events.len() == 0 {
            self
        } else {
            self.after_all(events.drop_last()).after(events.last())
        }
    }
}

/// How many of the events are presses.
pub open spec fn presses(events: Seq<ShortcutEvent>) -> nat
    decreases events.len(),
{
    if events.len() == 0 {
        0
    } else {
        presses(events.drop_last()) + (if events.last().state is Pressed {
            1nat
        } else {
            0nat
        })
    }
}

/// The launcher panel: one floating window that a shortcut shows and hides.
#[derive(Clone, Copy, Debug, PartialEq, Eq)]
pub struct Panel {
    config: PanelConfig,
    visible: bool,
    monitor: Option<Monitor>,
}

impl View for Panel {
    type V = PanelState;

    closed spec fn view(&self) -> PanelState {
        PanelState { config: self.config, visible: self.visible, monitor: self.monitor }
    }
}

impl Panel {
    /// Creates the panel: hidden, and not laid out yet.
    pub fn new(config: PanelConfig) -> (panel: Panel)
        ensures
            panel@ == PanelState::initial(config),
    {
        Panel { config, visible: false, monitor: None }
    }

    /// The panel's measures.
    pub fn config(&self) -> (config: PanelConfig)
        ensures
            config == self@.config,
    {
        self.config
    }

    /// The monitor that the panel was last laid out on, if it ever was.
    pub fn monitor(&self) -> (monitor: Option<Monitor>)
        ensures
            monitor == self@.monitor,
    {
        self.monitor
    }

    /// Whether the panel is on screen.
    pub fn is_visible(&self) -> (visible: bool)
        ensures
            visible == self@.visible,
    {
        self.visible
    }

    /// Whether the panel receives keyboard input.
    pub fn is_key_window(&self) -> (key: bool)
        ensures
            key == self@.key_window(),
    {
        self.visible
    }

    /// The panel's size and position, or `None` before its first layout.
    /// Its size is always the configured one, and it sits at the configured
    /// distance from the top.
    pub fn layout(&self) -> (layout: Option<Layout>)
        ensures
            layout is Some <==> self@.monitor is Some,
            layout matches Some(l) ==> Some(l@) == self@.layout(),
            layout matches Some(l) ==> l.width == self@.config.width && l.height
                == self@.config.height && l.y == self@.config.top_offset,
    {
        match &self.monitor {
            Some(m) => Some(compute_layout(&self.config, m)),
            None => None,
        }
    }

    /// Lays the panel out on `monitor`. With no monitor the panel keeps
    /// the geometry it had.
    pub fn apply_layout(&mut self, monitor: Option<Monitor>)
        ensures
            final(self)@ == old(self)@.laid_out(monitor),
    {
        match monitor {
            Some(m) => {
                self.monitor = Some(m);
            },
            None => {},
        }
    }

    /// Toggles the panel: hides it if it is visible, else lays it out on
    /// `monitor` and shows it.
    pub fn toggle(&mut self, monitor: Option<Monitor>)
        ensures
            final(self)@ == old(self)@.toggled(monitor),
            final(self)@.visible == !old(self)@.visible,
    {
        if self.visible {
            self.visible = false;
        } else {
            self.apply_layout(monitor);
            self.visible = true;
        }
    }

    /// Takes one shortcut event, with the monitor that could be resolved
    /// when it came, and returns what was done. A press toggles the panel;
    /// a release changes nothing.
    pub fn handle_shortcut(&mut self, state: ShortcutState, monitor: Option<Monitor>) -> (action:
        PanelAction)
        ensures
            final(self)@ == old(self)@.after(ShortcutEvent { state, monitor }),
            action == action_spec(state, Some(old(self)@.visible)),
            state is Pressed ==> final(self)@.visible == !old(self)@.visible,
            !(state is Pressed) ==> final(self)@ == old(self)@,
    {
        let action = on_shortcut(state, Some(self.visible));
        match action {
            PanelAction::Ignore => {},
            PanelAction::Hide => {
                self.visible = false;
            },
            PanelAction::Show => {
                self.apply_layout(monitor);
                self.visible = true;
            },
        }
        action
    }
}

/// Every press flips the panel's visibility exactly once, whatever came
/// before it: after any run of events the panel is visible if and only if
/// the number of presses in the run is odd, for a panel that started
/// hidden, and even, for one that started visible.
pub proof fn lemma_each_press_flips_once(panel: PanelState, events: Seq<ShortcutEvent>)
    ensures
        panel.after_all(events).visible == (panel.visible != (presses(events) % 2 == 1)),
        panel.after_all(events).config == panel.config,
    decreases events.len(),
{
    if events.len() > 0 {
        lemma_each_press_flips_once(panel, events.drop_last());
    }
}

/// Two presses in a row, with no release between them, are two toggles:
/// the first flips the visibility and the second flips it back.
pub proof fn lemma_repeated_press(panel: PanelState, first: Option<Monitor>, second: Option<Monitor>)
    ensures
        panel.toggled(first).visible == !panel.visible,
        panel.toggled(first).toggled(second).visible == panel.visible,
{
}

/// An event that is not a press changes nothing: neither the visibility
/// nor the geometry.
pub proof fn lemma_only_presses_act(panel: PanelState, event: ShortcutEvent)
    requires
        !(event.state is Pressed),
    ensures
        panel.after(event) == panel,
        forall|visible: Option<bool>| action_spec(event.state, visible) == PanelAction::Ignore,
{
}

/// Showing lays out afresh: a press on a hidden panel, with a monitor at
/// hand, makes it visible and focused with the layout of that monitor.
pub proof fn lemma_show_lays_out(panel: PanelState, monitor: Monitor)
    requires
        !panel.visible,
    ensures
        panel.toggled(Some(monitor)).visible,
        panel.toggled(Some(monitor)).key_window(),
        panel.toggled(Some(monitor)).layout() == Some(layout_spec(panel.config, monitor)),
{
}

/// Hiding keeps the geometry: a press on a visible panel hides it and
/// leaves its layout as it was, whatever monitor is at hand.
pub proof fn lemma_hide_keeps_layout(panel: PanelState, monitor: Option<Monitor>)
    requires
        panel.visible,
    ensures
        !panel.toggled(monitor).visible,
        panel.toggled(monitor).layout() == panel.layout(),
{
}

/// Without a monitor the toggle still flips the visibility, and size and
/// position stay what they were.
pub proof fn lemma_toggle_without_monitor(panel: PanelState)
    ensures
        panel.toggled(None).visible == !panel.visible,
        panel.toggled(None).layout() == panel.layout(),
{
}

} // verus!
