//! The dock configuration and what it decides: which commands a layout
//! comes to, and what to do on a lid or hotplug event.

use crate::command::{command_views, issued, runnable, CommandView, HyprdockCommand};
use crate::monitors::hypr_monitors::{
    copy_topology, fingerprint, get_current_monitor_hash, replay_commands,
    set_hypr_monitors_from_hyprvec, topology, HyprMonitor, HyprMonitorView,
};
use crate::store::TopologyStore;
use crate::text::{contains, contains_text, lemma_trimmed_of_tight};
use vstd::prelude::*;

verus! {

/// The resolved configuration: the internal display's name, the layout for
/// an external display that is not known yet, and a command template for
/// each step.
#[derive(Clone, Debug, PartialEq, Eq)]
pub struct HyprDock {
    pub monitor_name: String,
    pub default_external_mode: String,
    pub css_string: String,
    pub monitor_config_path: String,
    pub open_bar_command: HyprdockCommand,
    pub close_bar_command: HyprdockCommand,
    pub reload_bar_command: HyprdockCommand,
    pub suspend_command: HyprdockCommand,
    pub lock_command: HyprdockCommand,
    pub utility_command: HyprdockCommand,
    pub get_monitors_command: HyprdockCommand,
    pub enable_internal_monitor_command: HyprdockCommand,
    pub disable_internal_monitor_command: HyprdockCommand,
    pub enable_external_monitor_command: HyprdockCommand,
    pub disable_external_monitor_command: HyprdockCommand,
    pub extend_command: HyprdockCommand,
    pub mirror_command: HyprdockCommand,
    pub wallpaper_command: HyprdockCommand,
}

/// What a [`HyprDock`] holds, as plain text.
pub struct HyprDockView {
    pub monitor_name: Seq<char>,
    pub default_external_mode: Seq<char>,
    pub css_string: Seq<char>,
    pub monitor_config_path: Seq<char>,
    pub open_bar_command: CommandView,
    pub close_bar_command: CommandView,
    pub reload_bar_command: CommandView,
    pub suspend_command: CommandView,
    pub lock_command: CommandView,
    pub utility_command: CommandView,
    pub get_monitors_command: CommandView,
    pub enable_internal_monitor_command: CommandView,
    pub disable_internal_monitor_command: CommandView,
    pub enable_external_monitor_command: CommandView,
    pub disable_external_monitor_command: CommandView,
    pub extend_command: CommandView,
    pub mirror_command: CommandView,
    pub wallpaper_command: CommandView,
}

impl View for HyprDock {
    type V = HyprDockView;

    open spec fn view(&self) -> HyprDockView {
        HyprDockView {
            monitor_name: self.monitor_name@,
            default_external_mode: self.default_external_mode@,
            css_string: self.css_string@,
            monitor_config_path: self.monitor_config_path@,
            open_bar_command: self.open_bar_command@,
            close_bar_command: self.close_bar_command@,
            reload_bar_command: self.reload_bar_command@,
            suspend_command: self.suspend_command@,
            lock_command: self.lock_command@,
            utility_command: self.utility_command@,
            get_monitors_command: self.get_monitors_command@,
            enable_internal_monitor_command: self.enable_internal_monitor_command@,
            disable_internal_monitor_command: self.disable_internal_monitor_command@,
            enable_external_monitor_command: self.enable_external_monitor_command@,
            disable_external_monitor_command: self.disable_external_monitor_command@,
            extend_command: self.extend_command@,
            mirror_command: self.mirror_command@,
            wallpaper_command: self.wallpaper_command@,
        }
    }
}

/// A configuration in which every setting may be missing.
#[derive(Clone, Debug, PartialEq, Eq)]
pub struct OptionalHyprDock {
    pub monitor_name: Option<String>,
    pub default_external_mode: Option<String>,
    pub css_string: Option<String>,
    pub monitor_config_path: Option<String>,
    pub open_bar_command: Option<HyprdockCommand>,
    pub close_bar_command: Option<HyprdockCommand>,
    pub reload_bar_command: Option<HyprdockCommand>,
    pub suspend_command: Option<HyprdockCommand>,
    pub lock_command: Option<HyprdockCommand>,
    pub utility_command: Option<HyprdockCommand>,
    pub get_monitors_command: Option<HyprdockCommand>,
    pub enable_internal_monitor_command: Option<HyprdockCommand>,
    pub disable_internal_monitor_command: Option<HyprdockCommand>,
    pub enable_external_monitor_command: Option<HyprdockCommand>,
    pub disable_external_monitor_command: Option<HyprdockCommand>,
    pub extend_command: Option<HyprdockCommand>,
    pub mirror_command: Option<HyprdockCommand>,
    pub wallpaper_command: Option<HyprdockCommand>,
}

/// The text of `setting` where it is there, else `default`.
pub open spec fn text_or(setting: Option<String>, default: Seq<char>) -> Seq<char> {
    match setting {
        Some(s) => s@,
        None => default,
    }
}

/// The command of `setting` where it is there, else `default`.
pub open spec fn command_or(setting: Option<HyprdockCommand>, default: CommandView) -> CommandView {
    match setting {
        Some(c) => c@,
        None => default,
    }
}

fn pick_text(setting: Option<String>, default: String) -> (r: String)
    ensures
        r@ == text_or(setting, default@),
{
    match setting {
        Some(s) => s,
        None => default,
    }
}

fn pick_command(setting: Option<HyprdockCommand>, default: HyprdockCommand) -> (r: HyprdockCommand)
    ensures
        r@ == command_or(setting, default@),
{
    match setting {
        Some(c) => c,
        None => default,
    }
}

impl OptionalHyprDock {
    /// This configuration with each missing setting taken from `defaults`.
    pub open spec fn built(self, defaults: HyprDockView) -> HyprDockView {
        HyprDockView {
            monitor_name: text_or(self.monitor_name, defaults.monitor_name),
            default_external_mode: text_or(self.default_external_mode, defaults.default_external_mode),
            css_string: text_or(self.css_string, defaults.css_string),
            monitor_config_path: text_or(self.monitor_config_path, defaults.monitor_config_path),
            open_bar_command: command_or(self.open_bar_command, defaults.open_bar_command),
            close_bar_command: command_or(self.close_bar_command, defaults.close_bar_command),
            reload_bar_command: command_or(self.reload_bar_command, defaults.reload_bar_command),
            suspend_command: command_or(self.suspend_command, defaults.suspend_command),
            lock_command: command_or(self.lock_command, defaults.lock_command),
            utility_command: command_or(self.utility_command, defaults.utility_command),
            get_monitors_command: command_or(self.get_monitors_command, defaults.get_monitors_command),
            enable_internal_monitor_command: command_or(self.enable_internal_monitor_command, defaults.enable_internal_monitor_command),
            disable_internal_monitor_command: command_or(self.disable_internal_monitor_command, defaults.disable_internal_monitor_command),
            enable_external_monitor_command: command_or(self.enable_external_monitor_command, defaults.enable_external_monitor_command),
            disable_external_monitor_command: command_or(self.disable_external_monitor_command, defaults.disable_external_monitor_command),
            extend_command: command_or(self.extend_command, defaults.extend_command),
            mirror_command: command_or(self.mirror_command, defaults.mirror_command),
            wallpaper_command: command_or(self.wallpaper_command, defaults.wallpaper_command),
        }
    }

    /// A configuration with no setting.
    pub fn unset() -> (r: Self)
        ensures
            forall|defaults: HyprDockView| #[trigger] r.built(defaults) == defaults,
    {
        OptionalHyprDock {
            monitor_name: None,
            default_external_mode: None,
            css_string: None,
            monitor_config_path: None,
            open_bar_command: None,
            close_bar_command: None,
            reload_bar_command: None,
            suspend_command: None,
            lock_command: None,
            utility_command: None,
            get_monitors_command: None,
            enable_internal_monitor_command: None,
            disable_internal_monitor_command: None,
            enable_external_monitor_command: None,
            disable_external_monitor_command: None,
            extend_command: None,
            mirror_command: None,
            wallpaper_command: None,
        }
    }

    /// This configuration with each missing setting taken from `defaults`.
    pub fn build(self, defaults: HyprDock) -> (r: HyprDock)
        ensures
            r@ == self.built(defaults@),
    {
        HyprDock {
            monitor_name: pick_text(self.monitor_name, defaults.monitor_name),
            default_external_mode: pick_text(self.default_external_mode, defaults.default_external_mode),
            css_string: pick_text(self.css_string, defaults.css_string),
            monitor_config_path: pick_text(self.monitor_config_path, defaults.monitor_config_path),
            open_bar_command: pick_command(self.open_bar_command, defaults.open_bar_command),
            close_bar_command: pick_command(self.close_bar_command, defaults.close_bar_command),
            reload_bar_command: pick_command(self.reload_bar_command, defaults.reload_bar_command),
            suspend_command: pick_command(self.suspend_command, defaults.suspend_command),
            lock_command: pick_command(self.lock_command, defaults.lock_command),
            utility_command: pick_command(self.utility_command, defaults.utility_command),
            get_monitors_command: pick_command(self.get_monitors_command, defaults.get_monitors_command),
            enable_internal_monitor_command: pick_command(self.enable_internal_monitor_command, defaults.enable_internal_monitor_command),
            disable_internal_monitor_command: pick_command(self.disable_internal_monitor_command, defaults.disable_internal_monitor_command),
            enable_external_monitor_command: pick_command(self.enable_external_monitor_command, defaults.enable_external_monitor_command),
            disable_external_monitor_command: pick_command(self.disable_external_monitor_command, defaults.disable_external_monitor_command),
            extend_command: pick_command(self.extend_command, defaults.extend_command),
            mirror_command: pick_command(self.mirror_command, defaults.mirror_command),
            wallpaper_command: pick_command(self.wallpaper_command, defaults.wallpaper_command),
        }
    }
}

/// Whether the display called `name` is listed in `t` and not disabled.
pub open spec fn internal_active(name: Seq<char>, t: Seq<HyprMonitorView>) -> bool {
    exists|i: int| 0 <= i < t.len() && t[i].name == name && !t[i].disabled
}

/// Whether `t` lists a display that is not called `name` and not disabled.
pub open spec fn external_present(name: Seq<char>, t: Seq<HyprMonitorView>) -> bool {
    exists|i: int| 0 <= i < t.len() && t[i].name != name && !t[i].disabled
}

/// One of the fixed layouts, or the replay of a stored topology.
#[derive(Clone, Debug, PartialEq, Eq)]
pub enum Layout {
    InternalOnly,
    ExternalOnly,
    Extend,
    Mirror,
    Replay(Vec<HyprMonitor>),
}

/// What a [`Layout`] holds, as plain text.
pub enum LayoutView {
    InternalOnly,
    ExternalOnly,
    Extend,
    Mirror,
    Replay(Seq<HyprMonitorView>),
}

impl View for Layout {
    type V = LayoutView;

    open spec fn view(&self) -> LayoutView {
        match self {
            Layout::InternalOnly => LayoutView::InternalOnly,
            Layout::ExternalOnly => LayoutView::ExternalOnly,
            Layout::Extend => LayoutView::Extend,
            Layout::Mirror => LayoutView::Mirror,
            Layout::Replay(t) => LayoutView::Replay(topology(t@)),
        }
    }
}

/// One step of a reaction to an event.
#[derive(Clone, Debug, PartialEq, Eq)]
pub enum Action {
    /// Start the command and do not wait for it.
    Run(HyprdockCommand),
    /// List the displays as they then are and store them under the key.
    Save(String),
}

/// What an [`Action`] holds, as plain text.
pub enum ActionView {
    Run(CommandView),
    Save(Seq<char>),
}

impl View for Action {
    type V = ActionView;

    open spec fn view(&self) -> ActionView {
        match self {
            Action::Run(c) => ActionView::Run(c@),
            Action::Save(key) => ActionView::Save(key@),
        }
    }
}

/// The actions that a sequence of actions holds, as plain text.
pub open spec fn action_views(s: Seq<Action>) -> Seq<ActionView> {
    s.map_values(|a: Action| a@)
}

/// The actions that run the commands `commands`, in order.
pub open spec fn runs(commands: Seq<CommandView>) -> Seq<ActionView> {
    commands.map_values(|c: CommandView| ActionView::Run(c))
}

/// An event that the dock reacts to.
#[derive(Clone, Copy, Debug, PartialEq, Eq, Structural)]
pub enum Event {
    LidClose,
    LidOpen,
    Plug,
    Unplug,
}

/// The event that the text `event` reports: the first of lid close, lid
/// open, display plug and display unplug whose words stand in it; none
/// where none does.
pub open spec fn decoded(event: Seq<char>) -> Option<Event> {
    if contains_text(event, "LID close"@) {
        Some(Event::LidClose)
    } else if contains_text(event, "LID open"@) {
        Some(Event::LidOpen)
    } else if contains_text(event, "VIDEOOUT plug"@) {
        Some(Event::Plug)
    } else if contains_text(event, "VIDEOOUT unplug"@) {
        Some(Event::Unplug)
    } else {
        None
    }
}

/// The event that the text `event` reports.
pub fn decode_event(event: &str) -> (e: Option<Event>)
    ensures
        e == decoded(event@),
{
    if contains(event, "LID close") {
        Some(Event::LidClose)
    } else if contains(event, "LID open") {
        Some(Event::LidOpen)
    } else if contains(event, "VIDEOOUT plug") {
        Some(Event::Plug)
    } else if contains(event, "VIDEOOUT unplug") {
        Some(Event::Unplug)
    } else {
        None
    }
}

impl HyprDockView {
    /// Turns the internal display on.
    pub open spec fn enable_internal(self) -> Seq<CommandView> {
        issued(self.enable_internal_monitor_command, self.monitor_name)
    }

    /// Turns the internal display off.
    pub open spec fn disable_internal(self) -> Seq<CommandView> {
        issued(self.disable_internal_monitor_command, self.monitor_name)
    }

    /// Turns the external displays on.
    pub open spec fn enable_external(self) -> Seq<CommandView> {
        issued(self.enable_external_monitor_command, self.monitor_name)
    }

    /// Turns the external displays off.
    pub open spec fn disable_external(self) -> Seq<CommandView> {
        issued(self.disable_external_monitor_command, self.monitor_name)
    }

    /// Sets the wallpaper again.
    pub open spec fn wallpaper(self) -> Seq<CommandView> {
        issued(self.wallpaper_command, self.monitor_name)
    }

    /// Closes the bar, then opens it.
    pub open spec fn reload_bar(self) -> Seq<CommandView> {
        issued(self.close_bar_command, self.monitor_name) + issued(
            self.open_bar_command,
            self.monitor_name,
        )
    }

    /// Tells the bar to reload.
    pub open spec fn fix_bar(self) -> Seq<CommandView> {
        issued(self.reload_bar_command, self.monitor_name)
    }

    /// The utility command, which pauses media.
    pub open spec fn utility(self) -> Seq<CommandView> {
        issued(self.utility_command, self.monitor_name)
    }

    /// Locks, then suspends.
    pub open spec fn lock_system(self) -> Seq<CommandView> {
        issued(self.lock_command, self.monitor_name) + issued(
            self.suspend_command,
            self.monitor_name,
        )
    }

    /// The full refresh: wallpaper, bar closed and opened, bar reloaded.
    pub open spec fn refresh(self) -> Seq<CommandView> {
        self.wallpaper() + self.reload_bar() + self.fix_bar()
    }

    /// Turns the internal display on and refreshes in full.
    pub open spec fn restart_internal(self) -> Seq<CommandView> {
        self.enable_internal() + self.refresh()
    }

    /// Whether the internal-only layout refreshes on the displays `t`: only
    /// where the internal display was not active.
    pub open spec fn internal_only_refreshes(self, t: Seq<HyprMonitorView>) -> bool {
        !internal_active(self.monitor_name, t)
    }

    /// The internal-only layout on the displays `t`: internal on, externals
    /// off, and bar and wallpaper again where the internal display was not
    /// active.
    pub open spec fn internal_only(self, t: Seq<HyprMonitorView>) -> Seq<CommandView> {
        self.enable_internal() + self.disable_external() + if self.internal_only_refreshes(t) {
            self.reload_bar() + self.wallpaper()
        } else {
            Seq::empty()
        }
    }

    /// The external-only layout on the displays `t`: nothing where no
    /// external display is there; else internal off, externals on, and bar
    /// and wallpaper again where the internal display was active.
    pub open spec fn external_only(self, t: Seq<HyprMonitorView>) -> Seq<CommandView> {
        if !external_present(self.monitor_name, t) {
            Seq::empty()
        } else {
            self.disable_internal() + self.enable_external() + if internal_active(
                self.monitor_name,
                t,
            ) {
                self.reload_bar() + self.wallpaper()
            } else {
                Seq::empty()
            }
        }
    }

    /// What comes before extending or mirroring on the displays `t`: the
    /// internal display is turned on, with a full refresh, where it was not
    /// active.
    pub open spec fn wake_internal(self, t: Seq<HyprMonitorView>) -> Seq<CommandView> {
        if internal_active(self.monitor_name, t) {
            Seq::empty()
        } else {
            self.restart_internal()
        }
    }

    /// The extend layout on the displays `t`.
    pub open spec fn extend(self, t: Seq<HyprMonitorView>) -> Seq<CommandView> {
        self.wake_internal(t) + issued(self.extend_command, self.monitor_name)
    }

    /// The mirror layout on the displays `t`, with the internal display as
    /// the one that is mirrored.
    pub open spec fn mirror(self, t: Seq<HyprMonitorView>) -> Seq<CommandView> {
        self.wake_internal(t) + issued(self.mirror_command, self.monitor_name)
    }

    /// The layout for an external display that is not known yet: extend or
    /// mirror as configured, nothing under any other setting.
    pub open spec fn default_layout(self, t: Seq<HyprMonitorView>) -> Seq<CommandView> {
        if self.default_external_mode == "extend"@ {
            self.extend(t)
        } else if self.default_external_mode == "mirror"@ {
            self.mirror(t)
        } else {
            Seq::empty()
        }
    }

    /// The commands that `layout` comes to on the displays `t`.
    pub open spec fn layout(self, layout: LayoutView, t: Seq<HyprMonitorView>) -> Seq<
        CommandView,
    > {
        match layout {
            LayoutView::InternalOnly => self.internal_only(t),
            LayoutView::ExternalOnly => self.external_only(t),
            LayoutView::Extend => self.extend(t),
            LayoutView::Mirror => self.mirror(t),
            LayoutView::Replay(stored) => replay_commands(stored),
        }
    }

    /// On lid close: external-only where an external display is there, else
    /// pause media, lock and suspend.
    pub open spec fn on_close(self, t: Seq<HyprMonitorView>) -> Seq<ActionView> {
        if external_present(self.monitor_name, t) {
            runs(self.external_only(t))
        } else {
            runs(self.utility() + self.lock_system())
        }
    }

    /// What follows turning the internal display on at lid open: the stored
    /// topology where one matches, else the default layout where an external
    /// display is there, else nothing.
    pub open spec fn arrange(
        self,
        t: Seq<HyprMonitorView>,
        store: Map<Seq<char>, Seq<HyprMonitorView>>,
    ) -> Seq<CommandView> {
        let key = fingerprint(t, None);
        if store.dom().contains(key) {
            replay_commands(store[key])
        } else if external_present(self.monitor_name, t) {
            self.default_layout(t)
        } else {
            Seq::empty()
        }
    }

    /// On lid open: nothing where the internal display is active; else
    /// internal on, the arrangement, and a full refresh.
    pub open spec fn on_open(
        self,
        t: Seq<HyprMonitorView>,
        store: Map<Seq<char>, Seq<HyprMonitorView>>,
    ) -> Seq<ActionView> {
        if internal_active(self.monitor_name, t) {
            Seq::empty()
        } else {
            runs(self.enable_internal() + self.arrange(t, store) + self.refresh())
        }
    }

    /// On display plug: the stored topology where one matches; else the
    /// default layout, and the new topology is saved under its fingerprint.
    /// A full refresh follows either way.
    pub open spec fn on_plug(
        self,
        t: Seq<HyprMonitorView>,
        store: Map<Seq<char>, Seq<HyprMonitorView>>,
    ) -> Seq<ActionView> {
        let key = fingerprint(t, None);
        if store.dom().contains(key) {
            runs(replay_commands(store[key]) + self.refresh())
        } else {
            runs(self.default_layout(t)) + seq![ActionView::Save(key)] + runs(self.refresh())
        }
    }

    /// On display unplug: the stored topology where one matches; else
    /// internal-only, and the new topology is saved under its fingerprint.
    pub open spec fn on_unplug(
        self,
        t: Seq<HyprMonitorView>,
        store: Map<Seq<char>, Seq<HyprMonitorView>>,
    ) -> Seq<ActionView> {
        let key = fingerprint(t, None);
        if store.dom().contains(key) {
            runs(replay_commands(store[key]))
        } else {
            runs(self.internal_only(t)) + seq![ActionView::Save(key)]
        }
    }

    /// The reaction to the event that the text `event` reports, on the
    /// displays `t` and the stored topologies `store`; nothing where the text
    /// reports no event.
    pub open spec fn on_event(
        self,
        event: Seq<char>,
        t: Seq<HyprMonitorView>,
        store: Map<Seq<char>, Seq<HyprMonitorView>>,
    ) -> Seq<ActionView> {
        match decoded(event) {
            Some(Event::LidClose) => self.on_close(t),
            Some(Event::LidOpen) => self.on_open(t, store),
            Some(Event::Plug) => self.on_plug(t, store),
            Some(Event::Unplug) => self.on_unplug(t, store),
            None => Seq::empty(),
        }
    }
}

/// `first` followed by `second`.
fn joined(first: Vec<HyprdockCommand>, second: Vec<HyprdockCommand>) -> (r: Vec<HyprdockCommand>)
    ensures
        command_views(r@) == command_views(first@) + command_views(second@),
{
    let mut r = first;
    let mut rest = second;
    r.append(&mut rest);
    assert(command_views(r@) =~= command_views(first@) + command_views(second@));
    r
}

/// The actions that run `commands`, in order.
fn run_all(commands: &Vec<HyprdockCommand>) -> (r: Vec<Action>)
    ensures
        action_views(r@) == runs(command_views(commands@)),
{
    let mut r: Vec<Action> = Vec::new();
    for i in 0..commands.len()
        invariant
            r.len() == i,
            forall|j: int| 0 <= j < i ==> r@[j]@ == ActionView::Run(commands@[j]@),
    {
        r.push(Action::Run(commands[i].duplicate()));
    }
    assert(action_views(r@) =~= runs(command_views(commands@)));
    r
}

impl HyprDock {
    /// What running `command` comes to: the commands packed into it, in
    /// order, each with its executable trimmed, and none for a part without
    /// executable. Starting them is the caller's part.
    pub fn execute_command(&self, command: HyprdockCommand) -> (r: Vec<HyprdockCommand>)
        ensures
            command_views(r@) == runnable(command@),
    {
        command.split()
    }

    fn issue(&self, template: &HyprdockCommand) -> (r: Vec<HyprdockCommand>)
        ensures
            command_views(r@) == issued(template@, self.monitor_name@),
    {
        self.execute_command(template.format(&self.monitor_name))
    }

    /// Whether the internal display is listed in `monitors` and not disabled.
    pub fn is_internal_active(&self, monitors: &Vec<HyprMonitor>) -> (b: bool)
        ensures
            b == internal_active(self.monitor_name@, topology(monitors@)),
    {
        for i in 0..monitors.len()
            invariant
                forall|j: int|
                    0 <= j < i ==> !(monitors@[j].name@ == self.monitor_name@
                        && !monitors@[j].disabled),
        {
            if monitors[i].name == self.monitor_name && !monitors[i].disabled {
                assert(topology(monitors@)[i as int].name == self.monitor_name@);
                return true;
            }
        }
        assert forall|j: int| 0 <= j < topology(monitors@).len() implies !(topology(
            monitors@,
        )[j].name == self.monitor_name@ && !topology(monitors@)[j].disabled) by {
            assert(topology(monitors@)[j] == monitors@[j]@);
        }
        false
    }

    /// Whether `monitors` lists a display other than the internal one that
    /// is not disabled.
    pub fn has_external_monitor(&self, monitors: &Vec<HyprMonitor>) -> (b: bool)
        ensures
            b == external_present(self.monitor_name@, topology(monitors@)),
    {
        for i in 0..monitors.len()
            invariant
                forall|j: int|
                    0 <= j < i ==> !(monitors@[j].name@ != self.monitor_name@
                        && !monitors@[j].disabled),
        {
            if monitors[i].name != self.monitor_name && !monitors[i].disabled {
                assert(topology(monitors@)[i as int].name != self.monitor_name@);
                return true;
            }
        }
        assert forall|j: int| 0 <= j < topology(monitors@).len() implies !(topology(
            monitors@,
        )[j].name != self.monitor_name@ && !topology(monitors@)[j].disabled) by {
            assert(topology(monitors@)[j] == monitors@[j]@);
        }
        false
    }

    /// Sets the wallpaper again.
    pub fn wallpaper(&self) -> (r: Vec<HyprdockCommand>)
        ensures
            command_views(r@) == self@.wallpaper(),
    {
        self.issue(&self.wallpaper_command)
    }

    /// Closes the bar, then opens it.
    pub fn reload_bar(&self) -> (r: Vec<HyprdockCommand>)
        ensures
            command_views(r@) == self@.reload_bar(),
    {
        joined(self.issue(&self.close_bar_command), self.issue(&self.open_bar_command))
    }

    /// Tells the bar to reload.
    pub fn fix_bar(&self) -> (r: Vec<HyprdockCommand>)
        ensures
            command_views(r@) == self@.fix_bar(),
    {
        self.issue(&self.reload_bar_command)
    }

    /// The utility command, which pauses media.
    pub fn utility(&self) -> (r: Vec<HyprdockCommand>)
        ensures
            command_views(r@) == self@.utility(),
    {
        self.issue(&self.utility_command)
    }

    /// Locks, then suspends.
    pub fn lock_system(&self) -> (r: Vec<HyprdockCommand>)
        ensures
            command_views(r@) == self@.lock_system(),
    {
        joined(self.issue(&self.lock_command), self.issue(&self.suspend_command))
    }

    /// The full refresh: wallpaper, bar closed and opened, bar reloaded.
    pub fn refresh(&self) -> (r: Vec<HyprdockCommand>)
        ensures
            command_views(r@) == self@.refresh(),
    {
        joined(joined(self.wallpaper(), self.reload_bar()), self.fix_bar())
    }

    /// Turns the internal display on and refreshes in full.
    pub fn restart_internal(&self) -> (r: Vec<HyprdockCommand>)
        ensures
            command_views(r@) == self@.restart_internal(),
    {
        joined(self.issue(&self.enable_internal_monitor_command), self.refresh())
    }

    /// The internal-only layout on the displays `monitors`.
    pub fn internal_monitor(&self, monitors: &Vec<HyprMonitor>) -> (r: Vec<HyprdockCommand>)
        ensures
            command_views(r@) == self@.internal_only(topology(monitors@)),
    {
        let needs_restart = !self.is_internal_active(monitors);
        let switched = joined(
            self.issue(&self.enable_internal_monitor_command),
            self.issue(&self.disable_external_monitor_command),
        );
        if needs_restart {
            joined(switched, joined(self.reload_bar(), self.wallpaper()))
        } else {
            joined(switched, Vec::new())
        }
    }

    /// The external-only layout on the displays `monitors`.
    pub fn external_monitor(&self, monitors: &Vec<HyprMonitor>) -> (r: Vec<HyprdockCommand>)
        ensures
            command_views(r@) == self@.external_only(topology(monitors@)),
    {
        if !self.has_external_monitor(monitors) {
            let r: Vec<HyprdockCommand> = Vec::new();
            assert(command_views(r@) =~= Seq::empty());
            return r;
        }
        let needs_restart = self.is_internal_active(monitors);
        let switched = joined(
            self.issue(&self.disable_internal_monitor_command),
            self.issue(&self.enable_external_monitor_command),
        );
        if needs_restart {
            joined(switched, joined(self.reload_bar(), self.wallpaper()))
        } else {
            joined(switched, Vec::new())
        }
    }

    fn wake_internal(&self, monitors: &Vec<HyprMonitor>) -> (r: Vec<HyprdockCommand>)
        ensures
            command_views(r@) == self@.wake_internal(topology(monitors@)),
    {
        if !self.is_internal_active(monitors) {
            self.restart_internal()
        } else {
            let r: Vec<HyprdockCommand> = Vec::new();
            assert(command_views(r@) =~= Seq::empty());
            r
        }
    }

    /// The extend layout on the displays `monitors`.
    pub fn extend_monitor(&self, monitors: &Vec<HyprMonitor>) -> (r: Vec<HyprdockCommand>)
        ensures
            command_views(r@) == self@.extend(topology(monitors@)),
    {
        joined(self.wake_internal(monitors), self.issue(&self.extend_command))
    }

    /// The mirror layout on the displays `monitors`.
    pub fn mirror_monitor(&self, monitors: &Vec<HyprMonitor>) -> (r: Vec<HyprdockCommand>)
        ensures
            command_views(r@) == self@.mirror(topology(monitors@)),
    {
        joined(self.wake_internal(monitors), self.issue(&self.mirror_command))
    }

    /// The layout for an external display that is not known yet.
    pub fn add_monitor(&self, monitors: &Vec<HyprMonitor>) -> (r: Vec<HyprdockCommand>)
        ensures
            command_views(r@) == self@.default_layout(topology(monitors@)),
    {
        if self.default_external_mode == "extend".to_owned() {
            self.extend_monitor(monitors)
        } else if self.default_external_mode == "mirror".to_owned() {
            self.mirror_monitor(monitors)
        } else {
            let r: Vec<HyprdockCommand> = Vec::new();
            assert(command_views(r@) =~= Seq::empty());
            r
        }
    }

    /// The commands that `layout` comes to on the displays `monitors`.
    pub fn apply_layout(&self, layout: &Layout, monitors: &Vec<HyprMonitor>) -> (r: Vec<
        HyprdockCommand,
    >)
        ensures
            command_views(r@) == self@.layout(layout@, topology(monitors@)),
    {
        match layout {
            Layout::InternalOnly => self.internal_monitor(monitors),
            Layout::ExternalOnly => self.external_monitor(monitors),
            Layout::Extend => self.extend_monitor(monitors),
            Layout::Mirror => self.mirror_monitor(monitors),
            Layout::Replay(stored) => set_hypr_monitors_from_hyprvec(stored),
        }
    }
}

/// `first` followed by `second`.
fn joined_actions(first: Vec<Action>, second: Vec<Action>) -> (r: Vec<Action>)
    ensures
        action_views(r@) == action_views(first@) + action_views(second@),
{
    let mut r = first;
    let mut rest = second;
    r.append(&mut rest);
    assert(action_views(r@) =~= action_views(first@) + action_views(second@));
    r
}

impl HyprDock {
    /// The reaction to a closed lid on the displays `monitors`.
    pub fn handle_close(&self, monitors: &Vec<HyprMonitor>) -> (r: Vec<Action>)
        ensures
            action_views(r@) == self@.on_close(topology(monitors@)),
    {
        if self.has_external_monitor(monitors) {
            run_all(&self.external_monitor(monitors))
        } else {
            run_all(&joined(self.utility(), self.lock_system()))
        }
    }

    fn arrange(&self, monitors: &Vec<HyprMonitor>, store: &TopologyStore) -> (r: Vec<
        HyprdockCommand,
    >)
        ensures
            command_views(r@) == self@.arrange(topology(monitors@), store@),
    {
        let monitor_hash = get_current_monitor_hash(monitors, None);
        match store.load(&monitor_hash) {
            Ok(stored) => set_hypr_monitors_from_hyprvec(stored),
            Err(_) => {
                if self.has_external_monitor(monitors) {
                    self.add_monitor(monitors)
                } else {
                    let r: Vec<HyprdockCommand> = Vec::new();
                    assert(command_views(r@) =~= Seq::empty());
                    r
                }
            },
        }
    }

    /// The reaction to an opened lid on the displays `monitors`, with the
    /// stored topologies `store`.
    pub fn handle_open(&self, monitors: &Vec<HyprMonitor>, store: &TopologyStore) -> (r: Vec<
        Action,
    >)
        ensures
            action_views(r@) == self@.on_open(topology(monitors@), store@),
    {
        if self.is_internal_active(monitors) {
            let r: Vec<Action> = Vec::new();
            assert(action_views(r@) =~= Seq::empty());
            return r;
        }
        let commands = joined(
            joined(
                self.issue(&self.enable_internal_monitor_command),
                self.arrange(monitors, store),
            ),
            self.refresh(),
        );
        run_all(&commands)
    }

    /// The reaction to a plugged display on the displays `monitors`, with
    /// the stored topologies `store`.
    pub fn handle_plug(&self, monitors: &Vec<HyprMonitor>, store: &TopologyStore) -> (r: Vec<
        Action,
    >)
        ensures
            action_views(r@) == self@.on_plug(topology(monitors@), store@),
    {
        let monitor_hash = get_current_monitor_hash(monitors, None);
        match store.load(&monitor_hash) {
            Ok(stored) => run_all(&joined(set_hypr_monitors_from_hyprvec(stored), self.refresh())),
            Err(_) => {
                let mut save: Vec<Action> = Vec::new();
                save.push(Action::Save(monitor_hash));
                assert(action_views(save@) =~= seq![
                    ActionView::Save(fingerprint(topology(monitors@), None)),
                ]);
                joined_actions(
                    joined_actions(run_all(&self.add_monitor(monitors)), save),
                    run_all(&self.refresh()),
                )
            },
        }
    }

    /// The reaction to an unplugged display on the displays `monitors`, with
    /// the stored topologies `store`.
    pub fn handle_unplug(&self, monitors: &Vec<HyprMonitor>, store: &TopologyStore) -> (r: Vec<
        Action,
    >)
        ensures
            action_views(r@) == self@.on_unplug(topology(monitors@), store@),
    {
        let monitor_hash = get_current_monitor_hash(monitors, None);
        match store.load(&monitor_hash) {
            Ok(stored) => run_all(&set_hypr_monitors_from_hyprvec(stored)),
            Err(_) => {
                let mut save: Vec<Action> = Vec::new();
                save.push(Action::Save(monitor_hash));
                assert(action_views(save@) =~= seq![
                    ActionView::Save(fingerprint(topology(monitors@), None)),
                ]);
                joined_actions(run_all(&self.internal_monitor(monitors)), save)
            },
        }
    }

    /// The reaction to the event that the text `event` reports, on the
    /// displays `monitors` and with the stored topologies `store`. A text
    /// that reports no event gets no reaction.
    pub fn handle_event(&self, event: &str, monitors: &Vec<HyprMonitor>, store: &TopologyStore) -> (r:
        Vec<Action>)
        ensures
            action_views(r@) == self@.on_event(event@, topology(monitors@), store@),
    {
        match decode_event(event) {
            Some(Event::LidClose) => self.handle_close(monitors),
            Some(Event::LidOpen) => self.handle_open(monitors, store),
            Some(Event::Plug) => self.handle_plug(monitors, store),
            Some(Event::Unplug) => self.handle_unplug(monitors, store),
            None => {
                let r: Vec<Action> = Vec::new();
                assert(action_views(r@) =~= Seq::empty());
                r
            },
        }
    }
}

/// Whether the text `event` reports a plugged display and no event that
/// ranks before it.
pub open spec fn reports_plug(event: Seq<char>) -> bool {
    &&& contains_text(event, "VIDEOOUT plug"@)
    &&& !contains_text(event, "LID close"@)
    &&& !contains_text(event, "LID open"@)
}

/// Whether the text `event` reports an unplugged display and no event that
/// ranks before it.
pub open spec fn reports_unplug(event: Seq<char>) -> bool {
    &&& contains_text(event, "VIDEOOUT unplug"@)
    &&& !contains_text(event, "LID close"@)
    &&& !contains_text(event, "LID open"@)
    &&& !contains_text(event, "VIDEOOUT plug"@)
}

/// The stored topologies after `action` was performed, where listing the
/// displays for a save gave `captured`.
pub open spec fn store_after_action(
    store: Map<Seq<char>, Seq<HyprMonitorView>>,
    action: ActionView,
    captured: Seq<HyprMonitorView>,
) -> Map<Seq<char>, Seq<HyprMonitorView>> {
    match action {
        ActionView::Save(key) => store.insert(key, captured),
        ActionView::Run(_) => store,
    }
}

/// The stored topologies after `actions` were performed, in order, where
/// listing the displays for a save gave `captured`.
pub open spec fn store_after(
    store: Map<Seq<char>, Seq<HyprMonitorView>>,
    actions: Seq<ActionView>,
    captured: Seq<HyprMonitorView>,
) -> Map<Seq<char>, Seq<HyprMonitorView>>
    decreases actions.len(),
{
    if actions.len() == 0 {
        store
    } else {
        store_after_action(
            store_after(store, actions.drop_last(), captured),
            actions.last(),
            captured,
        )
    }
}

/// Brings `store` up to date with `action`, once it was performed: a save
/// stores `captured`, the displays as they were then listed, under its key.
/// A command that was run changes nothing.
pub fn record(store: &mut TopologyStore, action: &Action, captured: &Vec<HyprMonitor>)
    ensures
        final(store)@ == store_after_action(old(store)@, action@, topology(captured@)),
        final(store).path@ == old(store).path@,
{
    match action {
        Action::Save(key) => store.save(key.clone(), copy_topology(captured)),
        Action::Run(_) => {},
    }
}

/// Running commands stores nothing.
proof fn lemma_store_after_runs(
    store: Map<Seq<char>, Seq<HyprMonitorView>>,
    commands: Seq<CommandView>,
    captured: Seq<HyprMonitorView>,
)
    ensures
        store_after(store, runs(commands), captured) == store,
    decreases commands.len(),
{
    if commands.len() > 0 {
        assert(runs(commands).drop_last() =~= runs(commands.drop_last()));
        lemma_store_after_runs(store, commands.drop_last(), captured);
    }
}

/// Performing one list of actions and then another is performing the two
/// lists joined.
proof fn lemma_store_after_joined(
    store: Map<Seq<char>, Seq<HyprMonitorView>>,
    first: Seq<ActionView>,
    second: Seq<ActionView>,
    captured: Seq<HyprMonitorView>,
)
    ensures
        store_after(store, first + second, captured) == store_after(
            store_after(store, first, captured),
            second,
            captured,
        ),
    decreases second.len(),
{
    if second.len() == 0 {
        assert(first + second =~= first);
    } else {
        assert((first + second).drop_last() =~= first + second.drop_last());
        lemma_store_after_joined(store, first, second.drop_last(), captured);
    }
}

/// A save stores what was then listed under its key.
proof fn lemma_store_after_save(
    store: Map<Seq<char>, Seq<HyprMonitorView>>,
    key: Seq<char>,
    captured: Seq<HyprMonitorView>,
)
    ensures
        store_after(store, seq![ActionView::Save(key)], captured) == store.insert(key, captured),
{
    let save = seq![ActionView::Save(key)];
    assert(save.drop_last().len() == 0);
    assert(store_after(store, save.drop_last(), captured) == store);
    assert(save.last() == ActionView::Save(key));
}

/// A closed lid with no external display pauses media, locks and suspends,
/// in that order, and does nothing else.
pub proof fn lemma_lid_close_without_external(
    dock: HyprDockView,
    event: Seq<char>,
    t: Seq<HyprMonitorView>,
    store: Map<Seq<char>, Seq<HyprMonitorView>>,
)
    requires
        contains_text(event, "LID close"@),
        !external_present(dock.monitor_name, t),
    ensures
        dock.on_event(event, t, store) == runs(
            issued(dock.utility_command, dock.monitor_name) + issued(
                dock.lock_command,
                dock.monitor_name,
            ) + issued(dock.suspend_command, dock.monitor_name),
        ),
        store_after(store, dock.on_event(event, t, store), t) == store,
{
    let commands = dock.utility() + dock.lock_system();
    assert(commands =~= issued(dock.utility_command, dock.monitor_name) + issued(
        dock.lock_command,
        dock.monitor_name,
    ) + issued(dock.suspend_command, dock.monitor_name));
    lemma_store_after_runs(store, commands, t);
}

/// A plugged display whose topology is not stored yet gets the default
/// layout, then the topology is saved under its fingerprint, then the
/// refresh follows; nothing is replayed. Where the default is to extend and
/// the internal display is active, the layout is the extend command alone.
/// Afterwards the store holds the displays under their fingerprint, and
/// under every other key what it held.
pub proof fn lemma_plug_of_unknown_topology(
    dock: HyprDockView,
    event: Seq<char>,
    t: Seq<HyprMonitorView>,
    store: Map<Seq<char>, Seq<HyprMonitorView>>,
)
    requires
        reports_plug(event),
        !store.dom().contains(fingerprint(t, None)),
    ensures
        dock.on_event(event, t, store) == runs(dock.default_layout(t)) + seq![
            ActionView::Save(fingerprint(t, None)),
        ] + runs(dock.refresh()),
        dock.default_external_mode == "extend"@ && internal_active(dock.monitor_name, t)
            ==> dock.default_layout(t) == issued(dock.extend_command, dock.monitor_name),
        store_after(store, dock.on_event(event, t, store), t) == store.insert(
            fingerprint(t, None),
            t,
        ),
{
    let key = fingerprint(t, None);
    let layout = runs(dock.default_layout(t));
    let save = seq![ActionView::Save(key)];
    let refresh = runs(dock.refresh());
    assert(Seq::<CommandView>::empty() + issued(dock.extend_command, dock.monitor_name)
        =~= issued(dock.extend_command, dock.monitor_name));
    lemma_store_after_joined(store, layout + save, refresh, t);
    lemma_store_after_joined(store, layout, save, t);
    lemma_store_after_runs(store, dock.default_layout(t), t);
    lemma_store_after_save(store, key, t);
    lemma_store_after_runs(store.insert(key, t), dock.refresh(), t);
}

/// A plugged display whose topology is stored gets the stored geometry,
/// display by display, then the refresh; no layout is derived and nothing is
/// saved.
pub proof fn lemma_plug_of_known_topology(
    dock: HyprDockView,
    event: Seq<char>,
    t: Seq<HyprMonitorView>,
    store: Map<Seq<char>, Seq<HyprMonitorView>>,
)
    requires
        reports_plug(event),
        store.dom().contains(fingerprint(t, None)),
    ensures
        dock.on_event(event, t, store) == runs(
            replay_commands(store[fingerprint(t, None)]) + dock.refresh(),
        ),
        store_after(store, dock.on_event(event, t, store), t) == store,
{
    lemma_store_after_runs(store, replay_commands(store[fingerprint(t, None)]) + dock.refresh(), t);
}

/// An unplugged display that leaves a topology not stored yet gets the
/// internal-only layout, then the topology is saved under its fingerprint;
/// nothing is replayed. Where the internal display is active, the layout is
/// internal on and externals off alone. Afterwards the store holds the
/// displays under their fingerprint, and under every other key what it held.
pub proof fn lemma_unplug_to_unknown_topology(
    dock: HyprDockView,
    event: Seq<char>,
    t: Seq<HyprMonitorView>,
    store: Map<Seq<char>, Seq<HyprMonitorView>>,
)
    requires
        reports_unplug(event),
        !store.dom().contains(fingerprint(t, None)),
    ensures
        dock.on_event(event, t, store) == runs(dock.internal_only(t)) + seq![
            ActionView::Save(fingerprint(t, None)),
        ],
        internal_active(dock.monitor_name, t) ==> dock.internal_only(t) == issued(
            dock.enable_internal_monitor_command,
            dock.monitor_name,
        ) + issued(dock.disable_external_monitor_command, dock.monitor_name),
        store_after(store, dock.on_event(event, t, store), t) == store.insert(
            fingerprint(t, None),
            t,
        ),
{
    let key = fingerprint(t, None);
    let layout = runs(dock.internal_only(t));
    let save = seq![ActionView::Save(key)];
    assert(dock.enable_internal() + dock.disable_external() + Seq::<CommandView>::empty()
        =~= dock.enable_internal() + dock.disable_external());
    lemma_store_after_joined(store, layout, save, t);
    lemma_store_after_runs(store, dock.internal_only(t), t);
    lemma_store_after_save(store, key, t);
}

/// The displays `t` as the internal-only layout leaves them: the display
/// called `name` enabled, every other one disabled.
pub open spec fn internal_only_state(name: Seq<char>, t: Seq<HyprMonitorView>) -> Seq<
    HyprMonitorView,
> {
    t.map_values(|m: HyprMonitorView| HyprMonitorView { disabled: m.name != name, ..m })
}

/// Where the internal display is connected, the internal-only layout applied
/// a second time, on the displays as the first time left them, refreshes
/// nothing: it only turns the internal display on and the others off again.
pub proof fn lemma_internal_only_refreshes_once(dock: HyprDockView, t: Seq<HyprMonitorView>)
    requires
        exists|i: int| 0 <= i < t.len() && t[i].name == dock.monitor_name,
    ensures
        !dock.internal_only_refreshes(internal_only_state(dock.monitor_name, t)),
        dock.internal_only(internal_only_state(dock.monitor_name, t)) == dock.enable_internal()
            + dock.disable_external(),
        !external_present(dock.monitor_name, internal_only_state(dock.monitor_name, t)),
{
    let after = internal_only_state(dock.monitor_name, t);
    let i = choose|i: int| 0 <= i < t.len() && t[i].name == dock.monitor_name;
    assert(after[i].name == dock.monitor_name && !after[i].disabled);
    assert(dock.enable_internal() + dock.disable_external() + Seq::<CommandView>::empty()
        =~= dock.enable_internal() + dock.disable_external());
}

/// The command without executable and arguments.
pub open spec fn no_command() -> CommandView {
    CommandView { base: Seq::empty(), args: Seq::empty() }
}

/// The configuration that holds where nothing is configured, with the
/// topology files below `path`.
pub open spec fn default_view(path: Seq<char>) -> HyprDockView {
    HyprDockView {
        monitor_name: "eDP-1"@,
        default_external_mode: "extend"@,
        css_string: Seq::empty(),
        monitor_config_path: path,
        open_bar_command: no_command(),
        close_bar_command: no_command(),
        reload_bar_command: no_command(),
        suspend_command: CommandView { base: "systemctl"@, args: seq!["suspend"@] },
        lock_command: CommandView { base: "hyprlock"@, args: Seq::empty() },
        utility_command: no_command(),
        get_monitors_command: CommandView { base: "hyprctl"@, args: seq!["monitors"@, "all"@] },
        enable_internal_monitor_command: CommandView {
            base: "hyprctl"@,
            args: seq!["keyword"@, "monitor"@, "{},preferred,0x0,1"@],
        },
        disable_internal_monitor_command: CommandView {
            base: "hyprctl"@,
            args: seq!["keyword"@, "monitor"@, "{},disabled"@],
        },
        enable_external_monitor_command: CommandView {
            base: "hyprctl"@,
            args: seq!["keyword"@, "monitor"@, ",preferred,0x0,1"@],
        },
        disable_external_monitor_command: CommandView {
            base: "hyprctl"@,
            args: seq!["keyword"@, "monitor"@, ",disabled"@],
        },
        extend_command: CommandView {
            base: "hyprctl"@,
            args: seq!["keyword"@, "monitor"@, ",preferred,auto,1"@],
        },
        mirror_command: CommandView {
            base: "hyprctl"@,
            args: seq!["keyword"@, "monitor"@, ",preferred,0x0,1,mirror,{}"@],
        },
        wallpaper_command: no_command(),
    }
}

fn keyword_monitor(fetcher: &'static str, setting: &'static str) -> (c: HyprdockCommand)
    requires
        fetcher@ == "hyprctl"@,
    ensures
        c@ == (CommandView { base: "hyprctl"@, args: seq!["keyword"@, "monitor"@, setting@] }),
{
    proof {
        reveal_strlit("hyprctl");
        lemma_trimmed_of_tight("hyprctl"@);
    }
    let c = HyprdockCommand::new(fetcher, &["keyword", "monitor", setting]);
    assert(c@.args =~= seq!["keyword"@, "monitor"@, setting@]);
    c
}

/// The configuration that holds where nothing is configured, with the
/// topology files below `monitor_config_path`.
pub fn default_config(monitor_config_path: String) -> (dock: HyprDock)
    ensures
        dock@ == default_view(monitor_config_path@),
{
    let fetcher = "hyprctl";
    proof {
        reveal_strlit("hyprctl");
        reveal_strlit("systemctl");
        reveal_strlit("hyprlock");
        lemma_trimmed_of_tight("hyprctl"@);
        lemma_trimmed_of_tight("systemctl"@);
        lemma_trimmed_of_tight("hyprlock"@);
    }
    let suspend_command = HyprdockCommand::new("systemctl", &["suspend"]);
    assert(suspend_command@.args =~= seq!["suspend"@]);
    let get_monitors_command = HyprdockCommand::new(fetcher, &["monitors", "all"]);
    assert(get_monitors_command@.args =~= seq!["monitors"@, "all"@]);
    HyprDock {
        monitor_name: "eDP-1".to_owned(),
        default_external_mode: "extend".to_owned(),
        css_string: String::new(),
        monitor_config_path,
        open_bar_command: HyprdockCommand::empty(),
        close_bar_command: HyprdockCommand::empty(),
        reload_bar_command: HyprdockCommand::empty(),
        suspend_command,
        lock_command: HyprdockCommand::single("hyprlock"),
        utility_command: HyprdockCommand::empty(),
        get_monitors_command,
        enable_internal_monitor_command: keyword_monitor(fetcher, "{},preferred,0x0,1"),
        disable_internal_monitor_command: keyword_monitor(fetcher, "{},disabled"),
        enable_external_monitor_command: keyword_monitor(fetcher, ",preferred,0x0,1"),
        disable_external_monitor_command: keyword_monitor(fetcher, ",disabled"),
        extend_command: keyword_monitor(fetcher, ",preferred,auto,1"),
        mirror_command: keyword_monitor(fetcher, ",preferred,0x0,1,mirror,{}"),
        wallpaper_command: HyprdockCommand::empty(),
    }
}

} // verus!
