use hyprdock::dock::{decode_event, default_config, record, Action, Event, HyprDock};
use hyprdock::monitors::hypr_monitors::{get_current_monitor_hash, HyprMonitor};
use hyprdock::store::TopologyStore;
use hyprdock::HyprdockCommand;

fn display(name: &str, serial: &str, x: i64) -> HyprMonitor {
    HyprMonitor {
        id: 0,
        name: String::from(name),
        description: String::new(),
        make: String::new(),
        model: String::new(),
        serial: String::from(serial),
        width: 1920,
        height: 1080,
        refresh_rate: String::from("60"),
        x,
        y: 0,
        scale: String::from("1"),
        transform: 0,
        vrr: false,
        disabled: false,
    }
}

fn laptop() -> Vec<HyprMonitor> {
    vec![display("eDP-1", "S1", 0)]
}

fn docked() -> Vec<HyprMonitor> {
    vec![display("eDP-1", "S1", 0), display("DP-1", "S2", 1920)]
}

fn dock() -> HyprDock {
    let mut dock = default_config(String::from("/c/"));
    dock.wallpaper_command = HyprdockCommand::new("swww", &["img", "wall.png"]);
    dock.open_bar_command = HyprdockCommand::new("waybar", &[]);
    dock.close_bar_command = HyprdockCommand::new("killall", &["waybar"]);
    dock.reload_bar_command = HyprdockCommand::new("pkill", &["-SIGUSR2", "waybar"]);
    dock.utility_command = HyprdockCommand::new("playerctl", &["pause"]);
    dock
}

fn run(base: &'static str, args: &[&str]) -> Action {
    Action::Run(HyprdockCommand::new(base, args))
}

fn keyword(setting: &str) -> Action {
    run("hyprctl", &["keyword", "monitor", setting])
}

fn refresh() -> Vec<Action> {
    vec![
        run("swww", &["img", "wall.png"]),
        run("killall", &["waybar"]),
        run("waybar", &[]),
        run("pkill", &["-SIGUSR2", "waybar"]),
    ]
}

fn empty_store() -> TopologyStore {
    TopologyStore::new(String::from("/c/"))
}

#[test]
fn decode_event_knows_the_four_events() {
    assert_eq!(decode_event("button/lid LID close\n"), Some(Event::LidClose));
    assert_eq!(decode_event("button/lid LID open\n"), Some(Event::LidOpen));
    assert_eq!(decode_event("video/switchmode VIDEOOUT plug\n"), Some(Event::Plug));
    assert_eq!(decode_event("video/switchmode VIDEOOUT unplug\n"), Some(Event::Unplug));
    assert_eq!(decode_event("LID close"), Some(Event::LidClose));
}

#[test]
fn decode_event_ignores_everything_else() {
    assert_eq!(decode_event(""), None);
    assert_eq!(decode_event("ac_adapter ACPI0003:00 00000080 00000001\n"), None);
    assert_eq!(decode_event("lid close"), None);
    assert_eq!(decode_event("LID  close"), None);
    assert_eq!(decode_event("VIDEOOUT"), None);
    assert_eq!(decode_event("LID"), None);
}

#[test]
fn decode_event_takes_the_first_in_rank_where_several_are_reported() {
    assert_eq!(decode_event("LID open\nLID close\n"), Some(Event::LidClose));
    assert_eq!(decode_event("VIDEOOUT unplug\nLID open\n"), Some(Event::LidOpen));
    assert_eq!(decode_event("VIDEOOUT unplug\nVIDEOOUT plug\n"), Some(Event::Plug));
}

#[test]
fn lid_close_without_external_pauses_locks_and_suspends() {
    let actions = dock().handle_event("button/lid LID close\n", &laptop(), &empty_store());
    assert_eq!(
        actions,
        vec![run("playerctl", &["pause"]), run("hyprlock", &[]), run("systemctl", &["suspend"])]
    );
}

#[test]
fn lid_close_with_external_goes_external_only() {
    let dock = dock();
    let actions = dock.handle_close(&docked());
    assert_eq!(
        actions,
        vec![
            keyword("eDP-1,disabled"),
            keyword(",preferred,0x0,1"),
            run("killall", &["waybar"]),
            run("waybar", &[]),
            run("swww", &["img", "wall.png"]),
        ]
    );
    assert_eq!(dock.handle_event("LID close", &docked(), &empty_store()), actions);
}

#[test]
fn plug_of_an_unknown_topology_extends_and_saves() {
    let dock = dock();
    let store = empty_store();
    let actions = dock.handle_event("video/switchmode VIDEOOUT plug\n", &docked(), &store);
    let key = get_current_monitor_hash(&docked(), None);
    let mut expected = vec![keyword(",preferred,auto,1"), Action::Save(key)];
    expected.extend(refresh());
    assert_eq!(actions, expected);
}

#[test]
fn plug_of_an_unknown_topology_mirrors_where_configured() {
    let mut dock = dock();
    dock.default_external_mode = String::from("mirror");
    let actions = dock.handle_plug(&docked(), &empty_store());
    let mut expected =
        vec![keyword(",preferred,0x0,1,mirror,eDP-1"), Action::Save(get_current_monitor_hash(&docked(), None))];
    expected.extend(refresh());
    assert_eq!(actions, expected);
}

#[test]
fn unplug_to_an_unknown_topology_goes_internal_only_and_saves() {
    let dock = dock();
    let mut store = empty_store();
    store.save(get_current_monitor_hash(&docked(), None), docked());
    let actions = dock.handle_event("video/switchmode VIDEOOUT unplug\n", &laptop(), &store);
    let key = get_current_monitor_hash(&laptop(), None);
    assert_eq!(actions, vec![keyword("eDP-1,preferred,0x0,1"), keyword(",disabled"), Action::Save(key)]);
}

#[test]
fn plug_of_a_known_topology_replays_it() {
    let dock = dock();
    let mut store = empty_store();
    store.save(get_current_monitor_hash(&docked(), None), docked());
    let mut replugged = vec![display("DP-1", "S2", 0), display("eDP-1", "S1", 2560)];
    replugged[0].width = 2560;
    let actions = dock.handle_event("video/switchmode VIDEOOUT plug\n", &replugged, &store);
    let mut expected = vec![
        keyword("eDP-1,1920x1080@60,0x0,1,transform,0"),
        keyword("DP-1,1920x1080@60,1920x0,1,transform,0"),
    ];
    expected.extend(refresh());
    assert_eq!(actions, expected);
    assert!(!actions.contains(&keyword(",preferred,auto,1")));
    assert!(!actions.iter().any(|a| matches!(a, Action::Save(_))));
}

#[test]
fn plug_unplug_and_plug_again() {
    let dock = dock();
    let mut store = empty_store();
    let plugged = dock.handle_event("VIDEOOUT plug", &docked(), &store);
    for action in &plugged {
        record(&mut store, action, &docked());
    }
    assert!(store.contains(&get_current_monitor_hash(&docked(), None)));
    let unplugged = dock.handle_event("VIDEOOUT unplug", &laptop(), &store);
    for action in &unplugged {
        record(&mut store, action, &laptop());
    }
    assert!(store.contains(&get_current_monitor_hash(&laptop(), None)));
    assert_eq!(store.entries.len(), 2);
    let mut moved = docked();
    moved[1].x = -1920;
    let replugged = dock.handle_event("VIDEOOUT plug", &moved, &store);
    assert_eq!(replugged[1], keyword("DP-1,1920x1080@60,1920x0,1,transform,0"));
    let again = dock.handle_event("VIDEOOUT unplug", &laptop(), &store);
    assert_eq!(again, vec![keyword("eDP-1,1920x1080@60,0x0,1,transform,0")]);
}

#[test]
fn lid_open_does_nothing_where_the_internal_display_is_on() {
    assert!(dock().handle_open(&docked(), &empty_store()).is_empty());
    assert!(dock().handle_event("LID open", &laptop(), &empty_store()).is_empty());
}

#[test]
fn lid_open_with_an_unknown_docked_topology_takes_the_default_layout() {
    let dock = dock();
    let mut closed = docked();
    closed[0].disabled = true;
    let actions = dock.handle_open(&closed, &empty_store());
    let mut expected = vec![keyword("eDP-1,preferred,0x0,1"), keyword("eDP-1,preferred,0x0,1")];
    expected.extend(refresh());
    expected.push(keyword(",preferred,auto,1"));
    expected.extend(refresh());
    assert_eq!(actions, expected);
}

#[test]
fn lid_open_with_a_known_topology_replays_it() {
    let dock = dock();
    let mut closed = docked();
    closed[0].disabled = true;
    let mut store = empty_store();
    store.save(get_current_monitor_hash(&closed, None), docked());
    let actions = dock.handle_event("LID open", &closed, &store);
    let mut expected = vec![
        keyword("eDP-1,preferred,0x0,1"),
        keyword("eDP-1,1920x1080@60,0x0,1,transform,0"),
        keyword("DP-1,1920x1080@60,1920x0,1,transform,0"),
    ];
    expected.extend(refresh());
    assert_eq!(actions, expected);
}

#[test]
fn lid_open_without_external_only_refreshes() {
    let dock = dock();
    let mut closed = laptop();
    closed[0].disabled = true;
    let actions = dock.handle_open(&closed, &empty_store());
    let mut expected = vec![keyword("eDP-1,preferred,0x0,1")];
    expected.extend(refresh());
    assert_eq!(actions, expected);
}

#[test]
fn unplug_to_a_known_topology_replays_it() {
    let dock = dock();
    let mut store = empty_store();
    let mut stored = laptop();
    stored[0].scale = String::from("1.25");
    store.save(get_current_monitor_hash(&laptop(), None), stored);
    let actions = dock.handle_unplug(&laptop(), &store);
    assert_eq!(actions, vec![keyword("eDP-1,1920x1080@60,0x0,1.25,transform,0")]);
}

#[test]
fn an_unknown_event_gets_no_reaction() {
    let dock = dock();
    assert!(dock.handle_event("", &docked(), &empty_store()).is_empty());
    assert!(dock.handle_event("battery PNP0C0A:00 00000080 00000001", &docked(), &empty_store()).is_empty());
}

#[test]
fn handlers_are_what_handle_event_calls() {
    let dock = dock();
    let store = empty_store();
    assert_eq!(dock.handle_event("LID close", &laptop(), &store), dock.handle_close(&laptop()));
    let mut closed = docked();
    closed[0].disabled = true;
    assert_eq!(dock.handle_event("LID open", &closed, &store), dock.handle_open(&closed, &store));
    assert_eq!(dock.handle_event("VIDEOOUT plug", &docked(), &store), dock.handle_plug(&docked(), &store));
    assert_eq!(dock.handle_event("VIDEOOUT unplug", &laptop(), &store), dock.handle_unplug(&laptop(), &store));
}

#[test]
fn record_stores_what_was_listed_for_a_save_and_nothing_for_a_command() {
    let mut store = empty_store();
    record(&mut store, &keyword(",disabled"), &docked());
    assert!(store.entries.is_empty());
    record(&mut store, &Action::Save(String::from("k")), &docked());
    assert_eq!(store.load(&String::from("k")), Ok(&docked()));
    record(&mut store, &Action::Save(String::from("k")), &laptop());
    assert_eq!(store.load(&String::from("k")), Ok(&laptop()));
    assert_eq!(store.entries.len(), 1);
    assert_eq!(store.path, "/c/");
}

#[test]
fn after_a_plug_of_an_unknown_topology_the_store_holds_it_under_its_fingerprint() {
    let dock = dock();
    let mut store = empty_store();
    store.save(String::from("other"), laptop());
    for action in dock.handle_event("video/switchmode VIDEOOUT plug", &docked(), &store.clone()) {
        record(&mut store, &action, &docked());
    }
    assert_eq!(store.load(&get_current_monitor_hash(&docked(), None)), Ok(&docked()));
    assert_eq!(store.load(&String::from("other")), Ok(&laptop()));
    assert_eq!(store.entries.len(), 2);
}

#[test]
fn after_an_unplug_to_an_unknown_topology_the_store_holds_it_under_its_fingerprint() {
    let dock = dock();
    let mut store = empty_store();
    let docked_key = get_current_monitor_hash(&docked(), None);
    store.save(docked_key.clone(), docked());
    for action in dock.handle_event("video/switchmode VIDEOOUT unplug", &laptop(), &store.clone()) {
        record(&mut store, &action, &laptop());
    }
    assert_eq!(store.load(&get_current_monitor_hash(&laptop(), None)), Ok(&laptop()));
    assert_eq!(store.load(&docked_key), Ok(&docked()));
    assert_eq!(store.entries.len(), 2);
}

#[test]
fn a_plug_of_an_unknown_topology_issues_the_extend_command_once() {
    let actions = dock().handle_event("VIDEOOUT plug", &docked(), &empty_store());
    assert_eq!(actions.iter().filter(|a| **a == keyword(",preferred,auto,1")).count(), 1);
    assert!(!actions.contains(&keyword(",preferred,0x0,1,mirror,eDP-1")));
    assert!(!actions.iter().any(|a| matches!(a, Action::Run(c) if c.args.len() == 3 && c.args[2].contains("transform"))));
}

#[test]
fn a_text_with_a_lid_word_and_a_plug_word_is_a_lid_event() {
    let dock = dock();
    let store = empty_store();
    assert_eq!(
        dock.handle_event("VIDEOOUT plug\nLID close\n", &laptop(), &store),
        dock.handle_close(&laptop())
    );
}
