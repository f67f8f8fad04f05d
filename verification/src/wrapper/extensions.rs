//! What the wrapped plugin and the outer host support, and the state that the
//! wrapper keeps for each extension it forwards.

pub mod audio_ports;
pub mod gui;
pub mod params;
pub mod state;
pub mod timer;

use vstd::prelude::*;

verus! {

/// The extensions that the wrapper can put before the outer host.
#[derive(Clone, Copy, Debug, PartialEq, Eq, Structural)]
pub enum PluginExtension {
    Timer,
    AudioPorts,
    NotePorts,
    Params,
    State,
    Gui,
    Latency,
}

/// The extensions that the wrapper offers to the plugin it wraps.
#[derive(Clone, Copy, Debug, PartialEq, Eq, Structural)]
pub enum HostExtension {
    AudioPorts,
    Gui,
    Latency,
}

/// Which extensions the wrapped plugin has.
#[derive(Clone, Copy, Debug, PartialEq, Eq, Structural)]
pub struct WrappedPluginExtensions {
    pub audio_ports: bool,
    pub gui: bool,
    pub latency: bool,
    pub note_ports: bool,
    pub params: bool,
    pub state: bool,
}

/// Which of the plugin's extensions the wrapper passes on because the plugin
/// has them.
#[derive(Clone, Copy, Debug, PartialEq, Eq, Structural)]
pub struct ReportedExtensions {
    pub audio_ports: bool,
    pub note_ports: bool,
    pub params: bool,
    pub state: bool,
}

/// Which extensions the outer host has.
#[derive(Clone, Copy, Debug, PartialEq, Eq, Structural)]
pub struct OuterHostExtensions {
    pub latency: bool,
    pub params: bool,
    pub gui: bool,
}

/// The extension, if it is present.
pub open spec fn if_present(present: bool, extension: PluginExtension) -> Seq<PluginExtension> {
    if present {
        seq![extension]
    } else {
        Seq::empty()
    }
}

/// The extensions declared for `reported`, in order: those that the plugin
/// has, then the window and the latency extension in any case.
pub open spec fn declared(reported: ReportedExtensions) -> Seq<PluginExtension> {
    if_present(reported.audio_ports, PluginExtension::AudioPorts) + if_present(
        reported.note_ports,
        PluginExtension::NotePorts,
    ) + if_present(reported.params, PluginExtension::Params) + if_present(
        reported.state,
        PluginExtension::State,
    ) + seq![PluginExtension::Gui, PluginExtension::Latency]
}

impl WrappedPluginExtensions {
    /// What is passed on to the outer host of the plugin's extensions.
    pub fn report(&self) -> (reported: ReportedExtensions)
        ensures
            reported == (ReportedExtensions {
                audio_ports: self.audio_ports,
                note_ports: self.note_ports,
                params: self.params,
                state: self.state,
            }),
    {
        ReportedExtensions {
            audio_ports: self.audio_ports,
            note_ports: self.note_ports,
            params: self.params,
            state: self.state,
        }
    }
}

impl ReportedExtensions {
    /// The extensions to register with the outer host, in order.
    pub fn declare_to_host(&self) -> (extensions: Vec<PluginExtension>)
        ensures
            extensions@ == declared(*self),
    {
        let mut extensions: Vec<PluginExtension> = Vec::new();
        if self.audio_ports {
            extensions.push(PluginExtension::AudioPorts);
        }
        if self.note_ports {
            extensions.push(PluginExtension::NotePorts);
        }
        if self.params {
            extensions.push(PluginExtension::Params);
        }
        if self.state {
            extensions.push(PluginExtension::State);
        }
        extensions.push(PluginExtension::Gui);
        extensions.push(PluginExtension::Latency);
        extensions
    }
}

} // verus!
