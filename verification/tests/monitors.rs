use hyprdock::monitors::hypr_monitors::{
    copy_topology, import_hypr_data, set_hypr_monitors_from_hyprvec, HyprMonitor,
};
use hyprdock::monitors::{enable_all, Monitor};
use hyprdock::HyprdockCommand;

fn display(name: &str, serial: &str) -> HyprMonitor {
    HyprMonitor {
        id: 0,
        name: String::from(name),
        description: String::from("Some Display"),
        make: String::from("ACME"),
        model: String::from("X1"),
        serial: String::from(serial),
        width: 1920,
        height: 1080,
        refresh_rate: String::from("60"),
        x: 0,
        y: 0,
        scale: String::from("1"),
        transform: 0,
        vrr: false,
        disabled: false,
    }
}

fn rendered() -> Monitor {
    Monitor {
        name: String::from("DP-1"),
        description: String::from("Some Display"),
        make: String::from("ACME"),
        model: String::from("X1"),
        serial: String::from("S2"),
        resolution: String::from("2560x1440"),
        refreshrate: String::from("144"),
        offset: String::from("1920x0"),
        scale: String::from("1.25"),
        transform: String::from("0"),
        vrr: false,
        disabled: false,
    }
}

#[test]
fn setters_change_one_field_each() {
    let mut m = rendered();
    m.set_resolution(String::from("1920x1080"));
    m.set_refreshrate(String::from("60"));
    m.set_offset(String::from("0x0"));
    m.set_scale(String::from("2"));
    m.set_transform(String::from("3"));
    m.set_vrr(true);
    let expected = Monitor {
        resolution: String::from("1920x1080"),
        refreshrate: String::from("60"),
        offset: String::from("0x0"),
        scale: String::from("2"),
        transform: String::from("3"),
        vrr: true,
        ..rendered()
    };
    assert_eq!(m, expected);
}

#[test]
fn monitor_string_joins_the_geometry() {
    assert_eq!(rendered().monitor_string(), "DP-1,2560x1440@144,1920x0,1.25,transform,0");
}

#[test]
fn enable_hypr_monitor_is_a_keyword_command() {
    let c = rendered().enable_hypr_monitor();
    assert_eq!(c.base, "hyprctl");
    assert_eq!(c.args, vec!["keyword", "monitor", "DP-1,2560x1440@144,1920x0,1.25,transform,0"]);
}

#[test]
fn enable_all_keeps_the_order() {
    let mut second = rendered();
    second.name = String::from("HDMI-A-1");
    let commands = enable_all(&vec![rendered(), second]);
    assert_eq!(commands.len(), 2);
    assert_eq!(commands[0].args[2], "DP-1,2560x1440@144,1920x0,1.25,transform,0");
    assert_eq!(commands[1].args[2], "HDMI-A-1,2560x1440@144,1920x0,1.25,transform,0");
    assert!(enable_all(&Vec::new()).is_empty());
}

#[test]
fn convert_data_renders_the_geometry() {
    let mut h = display("DP-1", "S2");
    h.width = 2560;
    h.height = 1440;
    h.refresh_rate = String::from("59.951");
    h.x = -2560;
    h.y = 10;
    h.scale = String::from("1.5");
    h.transform = 1;
    h.vrr = true;
    h.disabled = true;
    let m = h.convert_data();
    let expected = Monitor {
        name: String::from("DP-1"),
        description: String::from("Some Display"),
        make: String::from("ACME"),
        model: String::from("X1"),
        serial: String::from("S2"),
        resolution: String::from("2560x1440"),
        refreshrate: String::from("59.951"),
        offset: String::from("-2560x10"),
        scale: String::from("1.5"),
        transform: String::from("1"),
        vrr: true,
        disabled: true,
    };
    assert_eq!(m, expected);
}

#[test]
fn import_hypr_data_converts_each_display_in_order() {
    let monitors = import_hypr_data(&vec![display("eDP-1", "S1"), display("DP-1", "S2")]);
    assert_eq!(monitors.len(), 2);
    assert_eq!(monitors[0], display("eDP-1", "S1").convert_data());
    assert_eq!(monitors[1], display("DP-1", "S2").convert_data());
    assert!(import_hypr_data(&Vec::new()).is_empty());
}

#[test]
fn replay_gives_each_display_its_recorded_geometry() {
    let mut external = display("DP-1", "S2");
    external.x = 1920;
    let commands = set_hypr_monitors_from_hyprvec(&vec![display("eDP-1", "S1"), external]);
    let expected = vec![
        HyprdockCommand::new("hyprctl", &["keyword", "monitor", "eDP-1,1920x1080@60,0x0,1,transform,0"]),
        HyprdockCommand::new("hyprctl", &["keyword", "monitor", "DP-1,1920x1080@60,1920x0,1,transform,0"]),
    ];
    assert_eq!(commands, expected);
}

#[test]
fn copies_are_equal() {
    let t = vec![display("eDP-1", "S1"), display("DP-1", "S2")];
    assert_eq!(copy_topology(&t), t);
    assert_eq!(t[0].duplicate(), t[0]);
}

#[test]
fn a_fractional_refresh_rate_is_replayed_as_it_was_listed() {
    let h = HyprMonitor {
        id: 0,
        name: String::from("DP-1"),
        description: String::new(),
        make: String::from("M"),
        model: String::from("X"),
        serial: String::from("S2"),
        width: 2560,
        height: 1440,
        refresh_rate: String::from("59.951"),
        x: 1920,
        y: 0,
        scale: String::from("1.25"),
        transform: 1,
        vrr: false,
        disabled: false,
    };
    let records = import_hypr_data(&vec![h.clone()]);
    let expected = Monitor {
        name: String::from("DP-1"),
        description: String::new(),
        make: String::from("M"),
        model: String::from("X"),
        serial: String::from("S2"),
        resolution: String::from("2560x1440"),
        refreshrate: String::from("59.951"),
        offset: String::from("1920x0"),
        scale: String::from("1.25"),
        transform: String::from("1"),
        vrr: false,
        disabled: false,
    };
    assert_eq!(records, vec![expected]);
    assert_eq!(
        set_hypr_monitors_from_hyprvec(&vec![h]),
        vec![HyprdockCommand::new(
            "hyprctl",
            &["keyword", "monitor", "DP-1,2560x1440@59.951,1920x0,1.25,transform,1"]
        )]
    );
}

#[test]
fn convert_data_carries_the_description() {
    let mut h = display("DP-1", "S2");
    h.description = String::from("ACME X1 S2 (DP-1)");
    assert_eq!(h.convert_data().description, "ACME X1 S2 (DP-1)");
}
