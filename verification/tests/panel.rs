use launcher_panel::layout::compute_layout;
use launcher_panel::monitor::Monitor;
use launcher_panel::scale::ScaleFactor;
use launcher_panel::panel::{on_shortcut, Panel, PanelAction, ShortcutState};
use launcher_panel::settings::launcher_config;

fn monitor(width: u32, numer: u64, denom: u64) -> Monitor {
    Monitor { width, height: 1080, scale: ScaleFactor::new(numer, denom).unwrap() }
}

#[test]
fn new_panel_is_hidden_and_has_no_layout() {
    let panel = Panel::new(launcher_config());
    assert!(!panel.is_visible());
    assert!(!panel.is_key_window());
    assert_eq!(panel.layout(), None);
    assert_eq!(panel.monitor(), None);
    assert_eq!(panel.config(), launcher_config());
}

#[test]
fn panel_remembers_the_monitor_it_was_laid_out_on() {
    let mut panel = Panel::new(launcher_config());
    let first = monitor(3840, 2, 1);
    panel.toggle(Some(first));
    assert_eq!(panel.monitor(), Some(first));
    panel.toggle(Some(monitor(1280, 1, 1)));
    assert_eq!(panel.monitor(), Some(first));
    panel.toggle(None);
    assert_eq!(panel.monitor(), Some(first));
}

#[test]
fn press_on_a_hidden_panel_shows_it_with_a_fresh_layout() {
    let mut panel = Panel::new(launcher_config());
    let m = monitor(3840, 2, 1);
    let action = panel.handle_shortcut(ShortcutState::Pressed, Some(m));
    assert_eq!(action, PanelAction::Show);
    assert!(panel.is_visible());
    assert!(panel.is_key_window());
    let layout = panel.layout().unwrap();
    assert_eq!(layout, compute_layout(&launcher_config(), &m));
    assert_eq!(layout.x.numer() as f64 / layout.x.denom() as f64, 772.5);
    assert_eq!((layout.width, layout.height, layout.y), (375, 420, 80));
}

#[test]
fn press_on_a_visible_panel_hides_it_and_keeps_the_layout() {
    let mut panel = Panel::new(launcher_config());
    let first = monitor(3840, 2, 1);
    panel.handle_shortcut(ShortcutState::Pressed, Some(first));
    let before = panel.layout();
    let other = monitor(1280, 1, 1);
    let action = panel.handle_shortcut(ShortcutState::Pressed, Some(other));
    assert_eq!(action, PanelAction::Hide);
    assert!(!panel.is_visible());
    assert!(!panel.is_key_window());
    assert_eq!(panel.layout(), before);
    assert_eq!(panel.layout(), Some(compute_layout(&launcher_config(), &first)));
}

#[test]
fn showing_again_lays_out_on_the_monitor_at_hand() {
    let mut panel = Panel::new(launcher_config());
    panel.handle_shortcut(ShortcutState::Pressed, Some(monitor(3840, 2, 1)));
    panel.handle_shortcut(ShortcutState::Pressed, None);
    let other = monitor(1280, 1, 1);
    panel.handle_shortcut(ShortcutState::Pressed, Some(other));
    assert!(panel.is_visible());
    let layout = panel.layout().unwrap();
    assert_eq!(layout.x.numer() as f64 / layout.x.denom() as f64, 452.5);
}

#[test]
fn toggle_without_a_monitor_flips_visibility_and_keeps_geometry() {
    let mut panel = Panel::new(launcher_config());
    panel.toggle(None);
    assert!(panel.is_visible());
    assert_eq!(panel.layout(), None);
    panel.toggle(None);
    assert!(!panel.is_visible());
    let m = monitor(1920, 1, 1);
    panel.toggle(Some(m));
    let laid_out = panel.layout();
    assert!(laid_out.is_some());
    panel.toggle(None);
    assert!(!panel.is_visible());
    panel.toggle(None);
    assert!(panel.is_visible());
    assert_eq!(panel.layout(), laid_out);
}

#[test]
fn every_press_flips_exactly_once() {
    let mut panel = Panel::new(launcher_config());
    let m = monitor(1920, 1, 1);
    let mut expected = false;
    for _ in 0..9 {
        let action = panel.handle_shortcut(ShortcutState::Pressed, Some(m));
        assert_eq!(action, if expected { PanelAction::Hide } else { PanelAction::Show });
        expected = !expected;
        assert_eq!(panel.is_visible(), expected);
    }
}

#[test]
fn releases_change_nothing() {
    let mut panel = Panel::new(launcher_config());
    let m = monitor(1920, 1, 1);
    assert_eq!(panel.handle_shortcut(ShortcutState::Released, Some(m)), PanelAction::Ignore);
    assert!(!panel.is_visible());
    assert_eq!(panel.layout(), None);
    panel.handle_shortcut(ShortcutState::Pressed, Some(m));
    let shown = panel;
    for _ in 0..3 {
        let other = monitor(800, 3, 2);
        assert_eq!(panel.handle_shortcut(ShortcutState::Released, Some(other)), PanelAction::Ignore);
        assert_eq!(panel, shown);
    }
}

#[test]
fn presses_and_releases_in_turn_toggle_once_per_press() {
    let mut panel = Panel::new(launcher_config());
    let m = monitor(1920, 1, 1);
    panel.handle_shortcut(ShortcutState::Pressed, Some(m));
    panel.handle_shortcut(ShortcutState::Released, Some(m));
    assert!(panel.is_visible());
    panel.handle_shortcut(ShortcutState::Pressed, Some(m));
    panel.handle_shortcut(ShortcutState::Released, Some(m));
    assert!(!panel.is_visible());
}

#[test]
fn apply_layout_without_a_monitor_is_a_no_op() {
    let mut panel = Panel::new(launcher_config());
    panel.apply_layout(None);
    assert_eq!(panel, Panel::new(launcher_config()));
    let m = monitor(1920, 1, 1);
    panel.apply_layout(Some(m));
    assert!(!panel.is_visible());
    assert_eq!(panel.layout(), Some(compute_layout(&launcher_config(), &m)));
    let laid_out = panel;
    panel.apply_layout(None);
    assert_eq!(panel, laid_out);
}

#[test]
fn shortcut_decisions() {
    assert_eq!(on_shortcut(ShortcutState::Pressed, Some(true)), PanelAction::Hide);
    assert_eq!(on_shortcut(ShortcutState::Pressed, Some(false)), PanelAction::Show);
    assert_eq!(on_shortcut(ShortcutState::Pressed, None), PanelAction::Ignore);
    assert_eq!(on_shortcut(ShortcutState::Released, Some(true)), PanelAction::Ignore);
    assert_eq!(on_shortcut(ShortcutState::Released, Some(false)), PanelAction::Ignore);
    assert_eq!(on_shortcut(ShortcutState::Released, None), PanelAction::Ignore);
}
