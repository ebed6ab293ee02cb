use std::str::FromStr;

use tray_runner::message::menu_entries;
use tray_runner::message::TrayMessage;

#[test]
fn labels_are_fixed() {
    assert_eq!(TrayMessage::Kill.label(), "Kill");
    assert_eq!(TrayMessage::ShowLogs.label(), "Show Logs");
}

#[test]
fn known_identifiers_decode() {
    assert_eq!(TrayMessage::from_str("Kill"), Ok(TrayMessage::Kill));
    assert_eq!(TrayMessage::from_str("Show Logs"), Ok(TrayMessage::ShowLogs));
}

#[test]
fn unknown_identifiers_are_errors() {
    let unknown = [
        "",
        "kill",
        "KILL",
        "Kill ",
        " Kill",
        "Kil",
        "Killl",
        "ShowLogs",
        "Show  Logs",
        "Show Logs\n",
        "show logs",
        "Quit",
        "Kill\u{0}",
        "Kıll",
        "Кill",
    ];
    for id in unknown {
        assert_eq!(
            TrayMessage::from_str(id),
            Err(strum::ParseError::VariantNotFound),
            "{id:?}"
        );
    }
}

#[test]
fn decoding_is_repeatable() {
    for id in ["Kill", "Show Logs", "nothing"] {
        assert_eq!(TrayMessage::from_str(id), TrayMessage::from_str(id));
    }
}

#[test]
fn label_round_trips_through_decoder() {
    for msg in TrayMessage::variants() {
        let decoded = TrayMessage::from_str(msg.label()).unwrap();
        assert_eq!(decoded, msg);
        assert_eq!(decoded.label(), msg.label());
    }
}

#[test]
fn variants_are_kill_then_show_logs() {
    assert_eq!(TrayMessage::variants(), vec![TrayMessage::Kill, TrayMessage::ShowLogs]);
}

#[test]
fn menu_has_two_enabled_items_in_fixed_order() {
    let entries = menu_entries();
    assert_eq!(entries.len(), 2);
    assert_eq!(entries[0].message, TrayMessage::Kill);
    assert_eq!(entries[0].text, "Kill");
    assert_eq!(entries[0].id, "Kill");
    assert!(entries[0].enabled);
    assert_eq!(entries[1].message, TrayMessage::ShowLogs);
    assert_eq!(entries[1].text, "Show Logs");
    assert_eq!(entries[1].id, "Show Logs");
    assert!(entries[1].enabled);
}

#[test]
fn menu_identifiers_decode_to_their_items() {
    for entry in menu_entries() {
        assert_eq!(TrayMessage::from_str(entry.id), Ok(entry.message));
    }
}
