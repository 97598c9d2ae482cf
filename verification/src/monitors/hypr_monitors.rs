//! Display records as the display server reports them, and the fingerprint
//! of a topology.

use crate::command::{command_views, CommandView, HyprdockCommand};
use crate::monitors::{enable_all, enable_commands, monitor_views, Monitor, MonitorView};
use crate::text::{decimal, i64_to_string, signed_decimal, u64_to_string};
use std::collections::hash_map::DefaultHasher;
use std::hash::Hasher;
use vstd::bytes::{spec_u64_to_le_bytes, u64_to_le_bytes};
use vstd::prelude::*;
use vstd::seq_lib::{commutative_foldl, lemma_fold_left_permutation};
use vstd::std_specs::hash::DefaultHasherAdditionalSpecFns;
use vstd::utf8::{encode_utf8, encode_utf8_decode_utf8};

verus! {

/// One display as the display server lists it. The refresh rate and the
/// scale, which the listing gives as reals, are held as their decimal text,
/// so that nothing of them is lost.
#[derive(Clone, Debug, PartialEq, Eq)]
pub struct HyprMonitor {
    pub id: i64,
    pub name: String,
    pub description: String,
    pub make: String,
    pub model: String,
    pub serial: String,
    pub width: i64,
    pub height: i64,
    pub refresh_rate: String,
    pub x: i64,
    pub y: i64,
    pub scale: String,
    pub transform: i64,
    pub vrr: bool,
    pub disabled: bool,
}

/// What a [`HyprMonitor`] holds, with its texts as plain text.
pub struct HyprMonitorView {
    pub id: i64,
    pub name: Seq<char>,
    pub description: Seq<char>,
    pub make: Seq<char>,
    pub model: Seq<char>,
    pub serial: Seq<char>,
    pub width: i64,
    pub height: i64,
    pub refresh_rate: Seq<char>,
    pub x: i64,
    pub y: i64,
    pub scale: Seq<char>,
    pub transform: i64,
    pub vrr: bool,
    pub disabled: bool,
}

impl View for HyprMonitor {
    type V = HyprMonitorView;

    open spec fn view(&self) -> HyprMonitorView {
        HyprMonitorView {
            id: self.id,
            name: self.name@,
            description: self.description@,
            make: self.make@,
            model: self.model@,
            serial: self.serial@,
            width: self.width,
            height: self.height,
            refresh_rate: self.refresh_rate@,
            x: self.x,
            y: self.y,
            scale: self.scale@,
            transform: self.transform,
            vrr: self.vrr,
            disabled: self.disabled,
        }
    }
}

/// The displays that a topology holds, with their texts as plain text.
pub open spec fn topology(s: Seq<HyprMonitor>) -> Seq<HyprMonitorView> {
    s.map_values(|m: HyprMonitor| m@)
}

/// What tells one physical display from another.
pub struct Identity {
    pub name: Seq<char>,
    pub description: Seq<char>,
    pub make: Seq<char>,
    pub model: Seq<char>,
    pub serial: Seq<char>,
}

/// The identity of the display `m`: none of its geometry.
pub open spec fn identity(m: HyprMonitorView) -> Identity {
    Identity {
        name: m.name,
        description: m.description,
        make: m.make,
        model: m.model,
        serial: m.serial,
    }
}

/// The identities of the displays of `t`, in order.
pub open spec fn identities(t: Seq<HyprMonitorView>) -> Seq<Identity> {
    t.map_values(|m: HyprMonitorView| identity(m))
}

/// What hashing the text `s` feeds the hasher: its UTF-8 bytes, then one
/// byte that no UTF-8 text holds.
pub open spec fn text_writes(s: Seq<char>) -> Seq<Seq<u8>> {
    seq![encode_utf8(s), seq![0xffu8]]
}

/// What hashing the identity `id` feeds the hasher.
pub open spec fn identity_writes(id: Identity) -> Seq<Seq<u8>> {
    text_writes(id.name) + text_writes(id.description) + text_writes(id.make) + text_writes(
        id.model,
    ) + text_writes(id.serial)
}

/// The hash of one identity.
pub open spec fn identity_hash(id: Identity) -> u64 {
    DefaultHasher::spec_finish(identity_writes(id))
}

/// Adds the hash of one identity to a running sum.
pub open spec fn add_identity_hash() -> spec_fn(int, Identity) -> int {
    |sum: int, id: Identity| sum + identity_hash(id)
}

/// The sum of the hashes of `ids`.
pub open spec fn identity_hash_sum(ids: Seq<Identity>) -> int {
    ids.fold_left(0int, add_identity_hash())
}

/// The sum of the hashes of `ids`, cut to 64 bits.
pub open spec fn combined_hash(ids: Seq<Identity>) -> u64 {
    (identity_hash_sum(ids) % 0x1_0000_0000_0000_0000) as u64
}

/// What hashing the label feeds the hasher: a byte that tells whether there
/// is one, then the label.
pub open spec fn label_writes(label: Option<Seq<char>>) -> Seq<Seq<u8>> {
    match label {
        None => seq![seq![0u8]],
        Some(l) => seq![seq![1u8]] + text_writes(l),
    }
}

/// The fingerprint of the topology `t` under `label`, as a number: the hash
/// of the combined identity hashes, then the label.
pub open spec fn fingerprint_value(t: Seq<HyprMonitorView>, label: Option<Seq<char>>) -> u64 {
    DefaultHasher::spec_finish(
        seq![spec_u64_to_le_bytes(combined_hash(identities(t)))] + label_writes(label),
    )
}

/// The fingerprint of the topology `t` under `label`: its number in decimal.
pub open spec fn fingerprint(t: Seq<HyprMonitorView>, label: Option<Seq<char>>) -> Seq<char> {
    decimal(fingerprint_value(t, label) as nat)
}

/// The label that an optional string holds, as plain text.
pub open spec fn label_text(name: Option<&String>) -> Option<Seq<char>> {
    match name {
        None => None,
        Some(l) => Some(l@),
    }
}

/// Two topologies with the same identities, counted with multiplicity, have
/// the same fingerprint, in whatever order their displays stand.
pub proof fn lemma_fingerprint_ignores_order(
    a: Seq<HyprMonitorView>,
    b: Seq<HyprMonitorView>,
    label: Option<Seq<char>>,
)
    requires
        identities(a).to_multiset() == identities(b).to_multiset(),
    ensures
        fingerprint(a, label) == fingerprint(b, label),
{
    let f = add_identity_hash();
    assert(commutative_foldl(f));
    lemma_fold_left_permutation(identities(a), identities(b), f, 0int);
}

/// Adds the hash of one display's identity to a running sum.
spec fn add_record_hash() -> spec_fn(int, HyprMonitorView) -> int {
    |sum: int, m: HyprMonitorView| sum + identity_hash(identity(m))
}

proof fn lemma_sum_over_records(t: Seq<HyprMonitorView>)
    ensures
        identity_hash_sum(identities(t)) == t.fold_left(0int, add_record_hash()),
    decreases t.len(),
{
    if t.len() > 0 {
        assert(identities(t).drop_last() =~= identities(t.drop_last()));
        assert(identities(t).last() == identity(t.last()));
        lemma_sum_over_records(t.drop_last());
    }
}

/// A topology and any permutation of it have the same fingerprint.
pub proof fn lemma_fingerprint_of_permutation(
    a: Seq<HyprMonitorView>,
    b: Seq<HyprMonitorView>,
    label: Option<Seq<char>>,
)
    requires
        a.to_multiset() == b.to_multiset(),
    ensures
        fingerprint(a, label) == fingerprint(b, label),
{
    let f = add_record_hash();
    assert(commutative_foldl(f));
    lemma_fold_left_permutation(a, b, f, 0int);
    lemma_sum_over_records(a);
    lemma_sum_over_records(b);
}

/// A topology read backwards has the fingerprint of the topology.
pub proof fn lemma_fingerprint_of_reverse(t: Seq<HyprMonitorView>, label: Option<Seq<char>>)
    ensures
        fingerprint(t.reverse(), label) == fingerprint(t, label),
{
    assert(identities(t.reverse()) =~= identities(t).reverse());
    identities(t).lemma_reverse_to_multiset();
    lemma_fingerprint_ignores_order(t.reverse(), t, label);
}

/// Two topologies whose displays agree, one by one, in identity have the same
/// fingerprint, whatever their geometry.
pub proof fn lemma_fingerprint_ignores_geometry(
    a: Seq<HyprMonitorView>,
    b: Seq<HyprMonitorView>,
    label: Option<Seq<char>>,
)
    requires
        a.len() == b.len(),
        forall|i: int| 0 <= i < a.len() ==> identity(a[i]) == identity(b[i]),
    ensures
        fingerprint(a, label) == fingerprint(b, label),
{
    assert(identities(a) =~= identities(b));
}

/// Two identities that differ in any field feed the hasher different bytes.
/// Whether their hashes then differ is the hasher's part.
pub proof fn lemma_identity_writes_differ(a: Identity, b: Identity)
    requires
        a != b,
    ensures
        identity_writes(a) != identity_writes(b),
{
    let wa = identity_writes(a);
    let wb = identity_writes(b);
    if wa == wb {
        assert(wa[0] == encode_utf8(a.name) && wb[0] == encode_utf8(b.name));
        assert(wa[2] == encode_utf8(a.description) && wb[2] == encode_utf8(b.description));
        assert(wa[4] == encode_utf8(a.make) && wb[4] == encode_utf8(b.make));
        assert(wa[6] == encode_utf8(a.model) && wb[6] == encode_utf8(b.model));
        assert(wa[8] == encode_utf8(a.serial) && wb[8] == encode_utf8(b.serial));
        encode_utf8_decode_utf8(a.name);
        encode_utf8_decode_utf8(b.name);
        encode_utf8_decode_utf8(a.description);
        encode_utf8_decode_utf8(b.description);
        encode_utf8_decode_utf8(a.make);
        encode_utf8_decode_utf8(b.make);
        encode_utf8_decode_utf8(a.model);
        encode_utf8_decode_utf8(b.model);
        encode_utf8_decode_utf8(a.serial);
        encode_utf8_decode_utf8(b.serial);
        assert(a == b);
    }
}

fn write_text(state: &mut DefaultHasher, s: &str)
    ensures
        final(state)@ == old(state)@ + text_writes(s@),
{
    state.write(s.as_bytes());
    let mut mark: Vec<u8> = Vec::new();
    mark.push(0xffu8);
    state.write(mark.as_slice());
    assert(mark@ =~= seq![0xffu8]);
    assert(state@ =~= old(state)@ + text_writes(s@));
}

impl HyprMonitor {
    /// The hash of this display's identity.
    pub fn identity_hash(&self) -> (h: u64)
        ensures
            h == identity_hash(identity(self@)),
    {
        let mut state = DefaultHasher::new();
        write_text(&mut state, self.name.as_str());
        write_text(&mut state, self.description.as_str());
        write_text(&mut state, self.make.as_str());
        write_text(&mut state, self.model.as_str());
        write_text(&mut state, self.serial.as_str());
        assert(state@ =~= identity_writes(identity(self@)));
        state.finish()
    }
}

/// The fingerprint of the topology `monitors` under the label `name`.
pub fn get_current_monitor_hash(monitors: &Vec<HyprMonitor>, name: Option<&String>) -> (key: String)
    ensures
        key@ == fingerprint(topology(monitors@), label_text(name)),
{
    let ghost ids = identities(topology(monitors@));
    let mut sum: u64 = 0;
    for i in 0..monitors.len()
        invariant
            ids == identities(topology(monitors@)),
            sum == combined_hash(ids.take(i as int)),
    {
        let h = monitors[i].identity_hash();
        proof {
            let before = ids.take(i as int);
            let after = ids.take(i + 1);
            assert(after.drop_last() =~= before);
            assert(after.last() == identity(monitors@[i as int]@));
            assert(identity_hash_sum(after) == identity_hash_sum(before) + h);
            vstd::arithmetic::div_mod::lemma_add_mod_noop(
                identity_hash_sum(before),
                h as int,
                0x1_0000_0000_0000_0000,
            );
            vstd::arithmetic::div_mod::lemma_small_mod(h as nat, 0x1_0000_0000_0000_0000);
        }
        sum = sum.wrapping_add(h);
    }
    assert(ids.take(monitors.len() as int) =~= ids);
    let mut state = DefaultHasher::new();
    let sum_bytes = u64_to_le_bytes(sum);
    state.write(sum_bytes.as_slice());
    match name {
        None => {
            let mut tag: Vec<u8> = Vec::new();
            tag.push(0u8);
            state.write(tag.as_slice());
            assert(tag@ =~= seq![0u8]);
        },
        Some(l) => {
            let mut tag: Vec<u8> = Vec::new();
            tag.push(1u8);
            state.write(tag.as_slice());
            assert(tag@ =~= seq![1u8]);
            write_text(&mut state, l.as_str());
        },
    }
    assert(state@ =~= seq![spec_u64_to_le_bytes(combined_hash(ids))] + label_writes(
        label_text(name),
    ));
    u64_to_string(state.finish())
}

/// The display `h` with its geometry rendered as text: width and height
/// joined by `x`, likewise the two offsets, and each whole number in decimal.
/// The identity, the refresh rate and the scale are carried over as they are.
pub open spec fn converted(h: HyprMonitorView) -> MonitorView {
    MonitorView {
        name: h.name,
        description: h.description,
        make: h.make,
        model: h.model,
        serial: h.serial,
        resolution: signed_decimal(h.width as int) + "x"@ + signed_decimal(h.height as int),
        refreshrate: h.refresh_rate,
        offset: signed_decimal(h.x as int) + "x"@ + signed_decimal(h.y as int),
        scale: h.scale,
        transform: signed_decimal(h.transform as int),
        vrr: h.vrr,
        disabled: h.disabled,
    }
}

/// The displays of `t`, each with its geometry rendered as text.
pub open spec fn converted_all(t: Seq<HyprMonitorView>) -> Seq<MonitorView> {
    t.map_values(|h: HyprMonitorView| converted(h))
}

/// The commands that give each display of `t`, in order, the geometry that
/// `t` records for it.
pub open spec fn replay_commands(t: Seq<HyprMonitorView>) -> Seq<CommandView> {
    enable_commands(converted_all(t))
}

impl HyprMonitor {
    /// This display with its geometry rendered as text.
    pub fn convert_data(&self) -> (m: Monitor)
        ensures
            m@ == converted(self@),
    {
        let mut resolution = i64_to_string(self.width);
        resolution.append("x");
        resolution.append(i64_to_string(self.height).as_str());
        let mut offset = i64_to_string(self.x);
        offset.append("x");
        offset.append(i64_to_string(self.y).as_str());
        Monitor {
            name: self.name.clone(),
            description: self.description.clone(),
            make: self.make.clone(),
            model: self.model.clone(),
            serial: self.serial.clone(),
            resolution,
            refreshrate: self.refresh_rate.clone(),
            offset,
            scale: self.scale.clone(),
            transform: i64_to_string(self.transform),
            vrr: self.vrr,
            disabled: self.disabled,
        }
    }

    /// A copy of this display.
    pub fn duplicate(&self) -> (m: Self)
        ensures
            m@ == self@,
    {
        HyprMonitor {
            id: self.id,
            name: self.name.clone(),
            description: self.description.clone(),
            make: self.make.clone(),
            model: self.model.clone(),
            serial: self.serial.clone(),
            width: self.width,
            height: self.height,
            refresh_rate: self.refresh_rate.clone(),
            x: self.x,
            y: self.y,
            scale: self.scale.clone(),
            transform: self.transform,
            vrr: self.vrr,
            disabled: self.disabled,
        }
    }
}

/// A copy of the topology `monitors`.
pub fn copy_topology(monitors: &Vec<HyprMonitor>) -> (r: Vec<HyprMonitor>)
    ensures
        topology(r@) == topology(monitors@),
{
    let mut r: Vec<HyprMonitor> = Vec::new();
    for i in 0..monitors.len()
        invariant
            r.len() == i,
            forall|j: int| 0 <= j < i ==> r@[j]@ == monitors@[j]@,
    {
        r.push(monitors[i].duplicate());
    }
    assert(topology(r@) =~= topology(monitors@));
    r
}

/// The displays of a stored topology, each with its geometry rendered as
/// text, in the order in which they were stored.
pub fn import_hypr_data(hyprmonitors: &Vec<HyprMonitor>) -> (monitors: Vec<Monitor>)
    ensures
        monitor_views(monitors@) == converted_all(topology(hyprmonitors@)),
{
    let mut monitors: Vec<Monitor> = Vec::new();
    for i in 0..hyprmonitors.len()
        invariant
            monitors.len() == i,
            forall|j: int| 0 <= j < i ==> monitors@[j]@ == converted(hyprmonitors@[j]@),
    {
        monitors.push(hyprmonitors[i].convert_data());
    }
    assert(monitor_views(monitors@) =~= converted_all(topology(hyprmonitors@)));
    monitors
}

/// The commands that replay the topology `monitors`: for each display, in
/// order, the one that gives it the geometry recorded for it.
pub fn set_hypr_monitors_from_hyprvec(monitors: &Vec<HyprMonitor>) -> (commands: Vec<
    HyprdockCommand,
>)
    ensures
        command_views(commands@) == replay_commands(topology(monitors@)),
{
    let rendered = import_hypr_data(monitors);
    enable_all(&rendered)
}

} // verus!
