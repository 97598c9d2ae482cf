//! Display records in the form that a layout command takes: every geometry
//! field already rendered as text.

use crate::command::{CommandView, HyprdockCommand};
use vstd::prelude::*;

pub mod hypr_monitors;

verus! {

/// One display with its geometry rendered as text.
#[derive(Clone, Debug, PartialEq, Eq)]
pub struct Monitor {
    pub name: String,
    pub description: String,
    pub make: String,
    pub model: String,
    pub serial: String,
    pub resolution: String,
    pub refreshrate: String,
    pub offset: String,
    pub scale: String,
    pub transform: String,
    pub vrr: bool,
    pub disabled: bool,
}

/// What a [`Monitor`] holds, as plain text.
pub struct MonitorView {
    pub name: Seq<char>,
    pub description: Seq<char>,
    pub make: Seq<char>,
    pub model: Seq<char>,
    pub serial: Seq<char>,
    pub resolution: Seq<char>,
    pub refreshrate: Seq<char>,
    pub offset: Seq<char>,
    pub scale: Seq<char>,
    pub transform: Seq<char>,
    pub vrr: bool,
    pub disabled: bool,
}

impl View for Monitor {
    type V = MonitorView;

    open spec fn view(&self) -> MonitorView {
        MonitorView {
            name: self.name@,
            description: self.description@,
            make: self.make@,
            model: self.model@,
            serial: self.serial@,
            resolution: self.resolution@,
            refreshrate: self.refreshrate@,
            offset: self.offset@,
            scale: self.scale@,
            transform: self.transform@,
            vrr: self.vrr,
            disabled: self.disabled,
        }
    }
}

/// The displays that a sequence of records holds, as plain text.
pub open spec fn monitor_views(s: Seq<Monitor>) -> Seq<MonitorView> {
    s.map_values(|m: Monitor| m@)
}

/// The geometry of `m` as the display server takes it:
/// `name,resolution@refreshrate,offset,scale,transform,transform-number`.
pub open spec fn monitor_text(m: MonitorView) -> Seq<char> {
    m.name + ","@ + m.resolution + "@"@ + m.refreshrate + ","@ + m.offset + ","@ + m.scale
        + ",transform,"@ + m.transform
}

/// The command that gives the display `m` its geometry.
pub open spec fn enable_command(m: MonitorView) -> CommandView {
    CommandView { base: "hyprctl"@, args: seq!["keyword"@, "monitor"@, monitor_text(m)] }
}

/// For each display of `monitors`, in order, the command that gives it its
/// geometry.
pub open spec fn enable_commands(monitors: Seq<MonitorView>) -> Seq<CommandView> {
    monitors.map_values(|m: MonitorView| enable_command(m))
}

impl Monitor {
    /// Gives this display the resolution `new_resolution`.
    pub fn set_resolution(&mut self, new_resolution: String)
        ensures
            final(self)@ == (MonitorView { resolution: new_resolution@, ..old(self)@ }),
    {
        self.resolution = new_resolution;
    }

    /// Gives this display the refresh rate `new_refreshrate`.
    pub fn set_refreshrate(&mut self, new_refreshrate: String)
        ensures
            final(self)@ == (MonitorView { refreshrate: new_refreshrate@, ..old(self)@ }),
    {
        self.refreshrate = new_refreshrate;
    }

    /// Gives this display the offset `new_offset`.
    pub fn set_offset(&mut self, new_offset: String)
        ensures
            final(self)@ == (MonitorView { offset: new_offset@, ..old(self)@ }),
    {
        self.offset = new_offset;
    }

    /// Gives this display the scale `new_scale`.
    pub fn set_scale(&mut self, new_scale: String)
        ensures
            final(self)@ == (MonitorView { scale: new_scale@, ..old(self)@ }),
    {
        self.scale = new_scale;
    }

    /// Gives this display the transform `new_transform`.
    pub fn set_transform(&mut self, new_transform: String)
        ensures
            final(self)@ == (MonitorView { transform: new_transform@, ..old(self)@ }),
    {
        self.transform = new_transform;
    }

    /// Turns this display's variable refresh rate on or off.
    pub fn set_vrr(&mut self, new_vrr: bool)
        ensures
            final(self)@ == (MonitorView { vrr: new_vrr, ..old(self)@ }),
    {
        self.vrr = new_vrr;
    }

    /// The geometry of this display as the display server takes it.
    pub fn monitor_string(&self) -> (s: String)
        ensures
            s@ == monitor_text(self@),
    {
        let mut s = self.name.clone();
        s.append(",");
        s.append(self.resolution.as_str());
        s.append("@");
        s.append(self.refreshrate.as_str());
        s.append(",");
        s.append(self.offset.as_str());
        s.append(",");
        s.append(self.scale.as_str());
        s.append(",transform,");
        s.append(self.transform.as_str());
        assert(s@ =~= monitor_text(self@));
        s
    }

    /// The command that gives this display its geometry. Running it is the
    /// caller's part.
    pub fn enable_hypr_monitor(&self) -> (c: HyprdockCommand)
        ensures
            c@ == enable_command(self@),
    {
        let mut args: Vec<String> = Vec::new();
        args.push("keyword".to_owned());
        args.push("monitor".to_owned());
        args.push(self.monitor_string());
        let c = HyprdockCommand { base: "hyprctl".to_owned(), args };
        assert(c@.args =~= enable_command(self@).args);
        c
    }
}

/// For each display of `monitors`, in order, the command that gives it its
/// geometry.
pub fn enable_all(monitors: &Vec<Monitor>) -> (commands: Vec<HyprdockCommand>)
    ensures
        crate::command::command_views(commands@) == enable_commands(monitor_views(monitors@)),
{
    let mut commands: Vec<HyprdockCommand> = Vec::new();
    for i in 0..monitors.len()
        invariant
            commands.len() == i,
            forall|j: int| 0 <= j < i ==> commands@[j]@ == enable_command(monitors@[j]@),
    {
        commands.push(monitors[i].enable_hypr_monitor());
    }
    assert(crate::command::command_views(commands@) =~= enable_commands(
        monitor_views(monitors@),
    ));
    commands
}

} // verus!
