use flowcontrol::commands::SideParam;
use flowcontrol::coordinator::Status;
use flowcontrol::network::Peer;
use flowcontrol::screen_layout::NeighborSide;
use flowcontrol::settings::Settings;
use flowcontrol::tray::{decimal, menu_entries, pause_label, peer_views, MenuEntry, PeerView};

#[test]
fn settings_defaults() {
    let s = Settings::default();
    assert_eq!(
        s,
        Settings {
            launch_on_login: false,
            auto_reconnect: true,
            telemetry: false,
            theme: "system".to_string(),
            mdns_port: 5353,
        }
    );
}

#[test]
fn side_param_converts() {
    assert_eq!(NeighborSide::from(SideParam::Left), NeighborSide::Left);
    assert_eq!(NeighborSide::from(SideParam::Right), NeighborSide::Right);
    assert_eq!(NeighborSide::from(SideParam::Top), NeighborSide::Top);
    assert_eq!(NeighborSide::from(SideParam::Bottom), NeighborSide::Bottom);
}

#[test]
fn pause_item_reads_resume_while_paused() {
    assert_eq!(pause_label(Status::Paused), "Resume sharing");
    assert_eq!(pause_label(Status::Connected), "Pause sharing");
}

#[test]
fn decimal_digits() {
    assert_eq!(decimal(0), "0");
    assert_eq!(decimal(7), "7");
    assert_eq!(decimal(1204), "1204");
}

fn items(menu: &[MenuEntry]) -> Vec<(String, String, bool)> {
    menu.iter()
        .map(|e| match e {
            MenuEntry::Item { id, label, enabled } => (id.clone(), label.clone(), *enabled),
            MenuEntry::Separator => ("-".to_string(), String::new(), false),
        })
        .collect()
}

#[test]
fn empty_menu_layout() {
    let menu = items(&menu_entries(&vec![], Status::Stopped));
    assert_eq!(menu.len(), 9);
    assert_eq!(menu[0], ("status".to_string(), "Status: Stopped".to_string(), false));
    assert_eq!(menu[1].0, "-");
    assert_eq!(menu[2], ("open".to_string(), "Open FlowControl".to_string(), true));
    assert_eq!(menu[3], ("pause".to_string(), "Pause sharing".to_string(), true));
    assert_eq!(menu[5], ("peers-empty".to_string(), "No peers discovered".to_string(), false));
    assert_eq!(menu[7], ("about".to_string(), "About FlowControl".to_string(), true));
    assert_eq!(menu[8], ("quit".to_string(), "Quit".to_string(), true));
}

#[test]
fn menu_lists_peers() {
    let views = peer_views(&vec![
        Peer { id: "a".to_string(), name: "Desk".to_string() },
        Peer { id: "b".to_string(), name: "Laptop".to_string() },
    ]);
    assert!(views.iter().all(|v| v.online));
    let mut views = views;
    views.push(PeerView { name: "Old".to_string(), online: false });
    let menu = items(&menu_entries(&views, Status::Paused));
    assert_eq!(menu.len(), 11);
    assert_eq!(menu[3].1, "Resume sharing");
    assert_eq!(menu[5], ("peer-0".to_string(), "\u{1F7E2} Desk".to_string(), false));
    assert_eq!(menu[6], ("peer-1".to_string(), "\u{1F7E2} Laptop".to_string(), false));
    assert_eq!(menu[7], ("peer-2".to_string(), "\u{1F534} Old".to_string(), false));
    assert_eq!(menu[10].0, "quit");
}
