//! The control panel's decisions: dimension parsing, button state, and
//! the events its messages emit.

use simula::application::CustomEvent;
use simula::channel::event_channel;
use simula::controls::{parse_dimension, Controls, ControlsAction, Message, DEFAULT_LATTICE_SIZE};

#[test]
fn parse_accepts_plain_decimal_numbers() {
    assert_eq!(parse_dimension("200"), Some(200));
    assert_eq!(parse_dimension("0"), Some(0));
    assert_eq!(parse_dimension("007"), Some(7));
    assert_eq!(parse_dimension("18446744073709551615"), Some(usize::MAX));
}

#[test]
fn parse_accepts_one_leading_plus_sign() {
    assert_eq!(parse_dimension("+5"), Some(5));
    assert_eq!(parse_dimension("+200"), "+200".parse::<usize>().ok());
    assert_eq!(parse_dimension("+18446744073709551615"), Some(usize::MAX));
}

#[test]
fn parse_rejects_everything_else() {
    assert_eq!(parse_dimension(""), None);
    assert_eq!(parse_dimension("12a"), None);
    assert_eq!(parse_dimension("-4"), None);
    assert_eq!(parse_dimension("4.5"), None);
    assert_eq!(parse_dimension("18446744073709551616"), None);
    assert_eq!(parse_dimension("+"), None);
    assert_eq!(parse_dimension("++7"), None);
    assert_eq!(parse_dimension("5+"), None);
}

#[test]
fn fresh_panel_offers_the_default_lattice() {
    let (event_tx, _event_rx) = event_channel();
    let panel = Controls::new(event_tx);
    assert!(!panel.button_state);
    assert_eq!(panel.dimentions, Some(DEFAULT_LATTICE_SIZE));
    assert_eq!(panel.dimentions_raw, "200");
    assert_eq!(panel.output_path, "");
    assert_eq!(panel.selected_algorithm.as_deref(), Some("None"));
    assert_eq!(panel.available_algorithms, vec!["None".to_string(), "Simple".to_string()]);
    assert!(panel.valid_dimentions());
    assert!(panel.start_stop_enabled());
}

#[test]
fn dimension_text_drives_the_parsed_value() {
    let (event_tx, _event_rx) = event_channel();
    let mut panel = Controls::new(event_tx);
    assert!(panel.update(Message::DimentionsChanged("64".to_string())).is_none());
    assert_eq!(panel.dimentions, Some(64));
    assert!(panel.valid_dimentions());
    assert!(panel.update(Message::DimentionsChanged("sixty".to_string())).is_none());
    assert_eq!(panel.dimentions, None);
    assert!(!panel.valid_dimentions());
    assert!(!panel.start_stop_enabled());
}

#[test]
fn start_stop_press_emits_the_control_event() {
    let (event_tx, mut event_rx) = event_channel();
    let mut panel = Controls::new(event_tx);
    assert!(panel.update(Message::DimentionsChanged("8".to_string())).is_none());
    assert!(panel.update(Message::StartStop(false)).is_none());
    assert_eq!(event_rx.try_recv(), Some(CustomEvent::StartStop(false, 8)));
    assert_eq!(event_rx.try_recv(), None);
}

#[test]
fn start_stop_press_without_dimensions_emits_nothing() {
    let (event_tx, mut event_rx) = event_channel();
    let mut panel = Controls::new(event_tx);
    assert!(panel.update(Message::DimentionsChanged("oops".to_string())).is_none());
    assert!(panel.update(Message::StartStop(false)).is_none());
    assert_eq!(event_rx.try_recv(), None);
}

#[test]
fn pick_directory_is_delegated_to_the_shell() {
    let (event_tx, _event_rx) = event_channel();
    let mut panel = Controls::new(event_tx);
    let action = panel.update(Message::PickDirectory);
    assert!(matches!(action, Some(ControlsAction::OpenDirectoryPicker)));
    assert!(panel.update(Message::ManualDirectoryEntry("/tmp/frames".to_string())).is_none());
    assert_eq!(panel.output_path, "/tmp/frames");
}

#[test]
fn shared_data_updates_the_button_state() {
    let (event_tx, _event_rx) = event_channel();
    let shared = simula::application::SharedContext::new(event_tx.duplicate(), (4, 4));
    let mut panel = Controls::new(event_tx);
    let mut observer = shared.clone();
    let _ = observer.set_running(true);
    assert!(panel.update(Message::UpdateSharedData(shared.clone())).is_none());
    assert!(panel.button_state);
    let _ = observer.set_running(false);
    assert!(panel.update(Message::UpdateSharedData(shared.clone())).is_none());
    assert!(!panel.button_state);
}
