use std::collections::hash_map::DefaultHasher;
use std::hash::Hasher;

use hyprdock::monitors::hypr_monitors::{get_current_monitor_hash, HyprMonitor};

fn display(name: &str, serial: &str) -> HyprMonitor {
    HyprMonitor {
        id: 0,
        name: String::from(name),
        description: String::new(),
        make: String::new(),
        model: String::new(),
        serial: String::from(serial),
        width: 1920,
        height: 1080,
        refresh_rate: String::from("60"),
        x: 0,
        y: 0,
        scale: String::from("1"),
        transform: 0,
        vrr: false,
        disabled: false,
    }
}

fn corpus() -> Vec<HyprMonitor> {
    let mut dock = display("DP-2", "S3");
    dock.description = String::from("Dock Display");
    dock.make = String::from("ACME");
    dock.model = String::from("U27");
    vec![display("eDP-1", "S1"), display("DP-1", "S2"), dock]
}

fn feed(state: &mut DefaultHasher, text: &str) {
    state.write(text.as_bytes());
    state.write(&[0xff]);
}

fn expected_identity_hash(m: &HyprMonitor) -> u64 {
    let mut state = DefaultHasher::new();
    feed(&mut state, &m.name);
    feed(&mut state, &m.description);
    feed(&mut state, &m.make);
    feed(&mut state, &m.model);
    feed(&mut state, &m.serial);
    state.finish()
}

fn expected_fingerprint(t: &[HyprMonitor], label: Option<&str>) -> String {
    let sum = t.iter().fold(0u64, |sum, m| sum.wrapping_add(expected_identity_hash(m)));
    let mut state = DefaultHasher::new();
    state.write(&sum.to_le_bytes());
    match label {
        None => state.write(&[0]),
        Some(l) => {
            state.write(&[1]);
            feed(&mut state, l);
        }
    }
    state.finish().to_string()
}

#[test]
fn fingerprint_is_the_hash_of_the_summed_identity_hashes_and_the_label() {
    assert_eq!(get_current_monitor_hash(&Vec::new(), None), expected_fingerprint(&[], None));
    let alone = vec![display("eDP-1", "S1")];
    assert_eq!(get_current_monitor_hash(&alone, None), expected_fingerprint(&alone, None));
    let t = corpus();
    assert_eq!(get_current_monitor_hash(&t, None), expected_fingerprint(&t, None));
    let label = String::from("home");
    assert_eq!(get_current_monitor_hash(&t, Some(&label)), expected_fingerprint(&t, Some("home")));
    let empty = String::new();
    assert_eq!(get_current_monitor_hash(&t, Some(&empty)), expected_fingerprint(&t, Some("")));
}

#[test]
fn identity_hash_is_the_hash_of_the_five_identity_texts() {
    for m in corpus() {
        assert_eq!(m.identity_hash(), expected_identity_hash(&m));
    }
}

#[test]
fn the_sum_of_the_identity_hashes_wraps() {
    let many: Vec<HyprMonitor> = (0..40).map(|i| display("DP-1", &format!("S{}", i))).collect();
    assert_eq!(get_current_monitor_hash(&many, None), expected_fingerprint(&many, None));
}

#[test]
fn fingerprint_ignores_the_order() {
    let t = corpus();
    let expected = get_current_monitor_hash(&t, None);
    let mut reversed = corpus();
    reversed.reverse();
    assert_eq!(get_current_monitor_hash(&reversed, None), expected);
    let orders = [[0, 2, 1], [1, 0, 2], [1, 2, 0], [2, 0, 1], [2, 1, 0]];
    for order in orders {
        let permuted: Vec<HyprMonitor> = order.iter().map(|i| t[*i].clone()).collect();
        assert_eq!(get_current_monitor_hash(&permuted, None), expected);
    }
    let label = String::from("desk");
    let labelled = get_current_monitor_hash(&t, Some(&label));
    assert_eq!(get_current_monitor_hash(&reversed, Some(&label)), labelled);
}

#[test]
fn fingerprint_ignores_the_geometry() {
    let t = corpus();
    let expected = get_current_monitor_hash(&t, None);
    for i in 0..t.len() {
        let mut changed = corpus();
        changed[i].id = 9;
        changed[i].width = 3840;
        changed[i].height = 2160;
        changed[i].refresh_rate = String::from("144");
        changed[i].x = 1920;
        changed[i].y = -100;
        changed[i].scale = String::from("2");
        changed[i].transform = 3;
        changed[i].vrr = true;
        changed[i].disabled = true;
        assert_eq!(get_current_monitor_hash(&changed, None), expected);
    }
}

#[test]
fn fingerprint_changes_with_each_identity_field() {
    let t = corpus();
    let expected = get_current_monitor_hash(&t, None);
    for i in 0..t.len() {
        let mut changed = corpus();
        changed[i].serial.push('x');
        assert_ne!(get_current_monitor_hash(&changed, None), expected);
        let mut changed = corpus();
        changed[i].name.push('x');
        assert_ne!(get_current_monitor_hash(&changed, None), expected);
        let mut changed = corpus();
        changed[i].description.push('x');
        assert_ne!(get_current_monitor_hash(&changed, None), expected);
        let mut changed = corpus();
        changed[i].make.push('x');
        assert_ne!(get_current_monitor_hash(&changed, None), expected);
        let mut changed = corpus();
        changed[i].model.push('x');
        assert_ne!(get_current_monitor_hash(&changed, None), expected);
    }
}

#[test]
fn fingerprint_tells_fields_apart() {
    let mut a = display("eDP-1", "");
    a.make = String::from("AB");
    a.model = String::from("C");
    let mut b = display("eDP-1", "");
    b.make = String::from("A");
    b.model = String::from("BC");
    assert_ne!(get_current_monitor_hash(&vec![a], None), get_current_monitor_hash(&vec![b], None));
}

#[test]
fn fingerprint_counts_equal_displays() {
    let one = vec![display("DP-1", "S")];
    let two = vec![display("DP-1", "S"), display("DP-1", "S")];
    let none: Vec<HyprMonitor> = Vec::new();
    let h0 = get_current_monitor_hash(&none, None);
    let h1 = get_current_monitor_hash(&one, None);
    let h2 = get_current_monitor_hash(&two, None);
    assert_ne!(h0, h1);
    assert_ne!(h1, h2);
    assert_ne!(h0, h2);
}

#[test]
fn fingerprint_changes_with_the_label() {
    let t = corpus();
    let home = String::from("home");
    let work = String::from("work");
    let empty = String::new();
    let plain = get_current_monitor_hash(&t, None);
    assert_ne!(get_current_monitor_hash(&t, Some(&home)), plain);
    assert_ne!(get_current_monitor_hash(&t, Some(&empty)), plain);
    assert_ne!(get_current_monitor_hash(&t, Some(&home)), get_current_monitor_hash(&t, Some(&work)));
}

#[test]
fn fingerprint_is_a_decimal_number() {
    let key = get_current_monitor_hash(&corpus(), None);
    assert!(!key.is_empty());
    assert!(key.chars().all(|c| c.is_ascii_digit()));
    assert_eq!(key.parse::<u64>().unwrap().to_string(), key);
}
