use hyprdock::dock::default_config;
use hyprdock::HyprdockCommand;

#[test]
fn empty_has_no_executable_and_no_arguments() {
    let cmd = HyprdockCommand::empty();
    assert_eq!(cmd.base, "");
    assert!(cmd.args.is_empty());
}

#[test]
fn new_trims_the_executable_and_keeps_the_arguments() {
    let cmd = HyprdockCommand::new("  hyprctl\t", &["keyword", " monitor ", "{},disabled"]);
    assert_eq!(cmd.base, "hyprctl");
    assert_eq!(cmd.args, vec!["keyword", " monitor ", "{},disabled"]);
}

#[test]
fn single_has_no_arguments() {
    let cmd = HyprdockCommand::single(" hyprlock ");
    assert_eq!(cmd.base, "hyprlock");
    assert!(cmd.args.is_empty());
}

#[test]
fn format_replaces_every_placeholder() {
    let cmd = HyprdockCommand::new(" hyprctl ", &["keyword", "monitor", "{},preferred,0x0,1,mirror,{}"]);
    let out = cmd.format(&String::from("eDP-1"));
    assert_eq!(out.base, "hyprctl");
    assert_eq!(out.args, vec!["keyword", "monitor", "eDP-1,preferred,0x0,1,mirror,eDP-1"]);
}

#[test]
fn format_leaves_the_executable_alone() {
    let cmd = HyprdockCommand { base: String::from("{}"), args: vec![String::from("{}")] };
    let out = cmd.format(&String::from("DP-1"));
    assert_eq!(out.base, "{}");
    assert_eq!(out.args, vec!["DP-1"]);
}

#[test]
fn format_does_not_change_the_template() {
    let cmd = HyprdockCommand::new("hyprctl", &["{}"]);
    let _ = cmd.format(&String::from("a"));
    assert_eq!(cmd.format(&String::from("b")).args, vec!["b"]);
    assert_eq!(cmd.args, vec!["{}"]);
}

#[test]
fn duplicate_is_equal() {
    let cmd = HyprdockCommand::new("systemctl", &["suspend"]);
    assert_eq!(cmd.duplicate(), cmd);
}

#[test]
fn execute_command_drops_a_blank_command_and_trims_the_executable() {
    let dock = default_config(String::from("/tmp/"));
    assert!(dock.execute_command(HyprdockCommand::empty()).is_empty());
    let blank = HyprdockCommand { base: String::from("  "), args: vec![String::from("x")] };
    assert!(dock.execute_command(blank).is_empty());
    let padded = HyprdockCommand { base: String::from(" swww "), args: vec![String::from("img")] };
    assert_eq!(dock.execute_command(padded), vec![HyprdockCommand::new("swww", &["img"])]);
}

#[test]
fn split_of_a_plain_command_is_the_command() {
    let cmd = HyprdockCommand::new("hyprctl", &["keyword", "monitor", ",disabled"]);
    assert_eq!(cmd.split(), vec![cmd.duplicate()]);
}

#[test]
fn split_parts_at_each_lone_semicolon() {
    let cmd = HyprdockCommand::new("killall", &["waybar", ";", " waybar ", "-c", "bar.json", ";", "notify-send", "a;b"]);
    let expected = vec![
        HyprdockCommand::new("killall", &["waybar"]),
        HyprdockCommand::new("waybar", &["-c", "bar.json"]),
        HyprdockCommand::new("notify-send", &["a;b"]),
    ];
    assert_eq!(cmd.split(), expected);
}

#[test]
fn split_skips_parts_without_executable() {
    let cmd = HyprdockCommand::new("", &[";", ";", "  ", "x", ";", "swww", "img", ";"]);
    assert_eq!(cmd.split(), vec![HyprdockCommand::new("swww", &["img"])]);
    assert!(HyprdockCommand::new(";", &[]).split().is_empty());
    assert!(HyprdockCommand::empty().split().is_empty());
}

#[test]
fn split_does_not_part_at_a_padded_semicolon() {
    let cmd = HyprdockCommand::new("echo", &[" ;", "; ", ";;"]);
    assert_eq!(cmd.split(), vec![cmd.duplicate()]);
}

#[test]
fn execute_command_runs_the_packed_commands_in_order() {
    let dock = default_config(String::from("/tmp/"));
    let packed = HyprdockCommand::new("pkill", &["{}", ";", "start", "{}"]).format(&String::from("bar"));
    let expected = vec![
        HyprdockCommand::new("pkill", &["bar"]),
        HyprdockCommand::new("start", &["bar"]),
    ];
    assert_eq!(dock.execute_command(packed), expected);
}
