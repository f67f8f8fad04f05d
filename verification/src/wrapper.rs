//! The instance-side of a hot swap: what the main thread and the audio thread
//! decide when a new bundle arrives.
//!
//! The main thread polls its bundle receiver. When a new bundle has been
//! published it has a new plugin instance made, puts it in the place of the
//! old one, reconciles what it knows of the parameters, moves the window over
//! and decides what becomes of the old instance: dropped, queued until the
//! host restarts the plugin, or handed to the audio thread for a cross-fade.

pub mod audio_processor;
pub mod channel;
pub mod extensions;
pub mod requests;

use crate::watcher::fanout::BundleReceiver;
use crate::wrapper::channel::{
    claimed_all,
    first_owned_by,
    well_paired,
    AudioProcessorChannel,
    MainThreadChannel,
    Retirements,
    Tagged,
};
use crate::wrapper::extensions::audio_ports::{refreshed_layout, PluginAudioPortsInfo};
use crate::wrapper::extensions::gui::{transfer_steps, GuiSnapshot, GuiStep, WrapperGui};
use crate::wrapper::extensions::params::{
    distinct_ids,
    either,
    no_rescan,
    reconciled_cache,
    reconciled_flags,
    told,
    ParamInfo,
    ParamInfoCache,
    ParamInfoView,
    ParamRescanFlags,
};
use crate::wrapper::extensions::timer::WrapperTimerHandler;
use crate::wrapper::extensions::{HostExtension, OuterHostExtensions, PluginExtension, ReportedExtensions};
use vstd::prelude::*;

verus! {

/// The block sizes and the sample rate that the host activated the plugin
/// with. The sample rate is kept as the bit pattern of its floating-point
/// value.
#[derive(Clone, Copy, Debug, PartialEq, Eq, Structural)]
pub struct AudioConfiguration {
    pub sample_rate_bits: u64,
    pub min_frames_count: u32,
    pub max_frames_count: u32,
}

/// Where an instance stands with regard to hot reloading.
#[derive(Clone, Copy, Debug, PartialEq, Eq, Structural)]
pub enum HotReloadState {
    /// No bundle receiver: the bundle is fixed.
    Idle,
    /// A receiver is there and the plugin is not activated.
    WatchingInactive,
    /// A receiver is there and the plugin is activated.
    WatchingActive,
}

/// What becomes of the instance that was replaced.
#[derive(Debug, PartialEq, Eq)]
pub enum OldInstanceFate<I> {
    /// The plugin is not activated: the instance is of no more use.
    Dropped(Tagged<I>),
    /// The rescan calls for a restart: the instance is queued for destruction
    /// and the new one is activated when the host activates the plugin again.
    AwaitingRestart,
    /// The new instance is to be activated with `config`, and its processor
    /// handed to the audio thread together with the old instance.
    HandOff { old_instance: Tagged<I>, config: AudioConfiguration },
}

/// What the swap of the instance asks of the caller.
pub struct InstanceSwap<I, W> {
    /// The instance that was replaced.
    pub old_instance: Tagged<I>,
    /// What the differences between the parameters call for.
    pub required_rescan: ParamRescanFlags,
    /// The rescan to report to the outer host, if it has a parameter
    /// extension.
    pub report_rescan: Option<ParamRescanFlags>,
    /// The calls that move the window over, in order.
    pub gui_steps: Vec<GuiStep<W>>,
}

/// Where a processor that has stopped is to go.
#[derive(Debug, PartialEq, Eq)]
pub enum StoppedRoute<I, P> {
    /// It belongs to the current instance, which is to deactivate with it.
    Current(Tagged<P>),
    /// It belongs to an instance that was awaiting destruction, which is to
    /// deactivate with it.
    Old(Tagged<I>, Tagged<P>),
    /// No instance owns it.
    Unowned(Tagged<P>),
}

/// Identity of the first instance that a main thread holds.
pub const FIRST_INSTANCE: u64 = 0;

/// The identity that follows `instance`: identities run on and start over
/// once the numbers are used up.
pub open spec fn next_identity(instance: u64) -> u64 {
    if instance == u64::MAX {
        0
    } else {
        (instance + 1) as u64
    }
}

impl AudioConfiguration {
    /// Whether a plugin can be activated with this configuration: both block
    /// sizes are positive and the smaller is no larger than the larger.
    pub fn is_valid(&self) -> (valid: bool)
        ensures
            valid == (0 < self.min_frames_count <= self.max_frames_count),
    {
        self.min_frames_count > 0 && self.min_frames_count <= self.max_frames_count
    }
}

/// The rescan that asks for the text of the values only.
pub open spec fn text_rescan() -> ParamRescanFlags {
    ParamRescanFlags { values: false, text: true, info: false, all: false }
}

/// The rescan that is reported to the outer host after a swap: what the
/// parameters call for, and the text of the values in any case. A host
/// without a parameter extension is told nothing.
pub open spec fn reported_rescan(required: ParamRescanFlags, host_has_params: bool) -> Option<
    ParamRescanFlags,
> {
    if host_has_params {
        Some(either(required, text_rescan()))
    } else {
        None
    }
}

/// What is reported after a swap asks for the text of the values on top of
/// what the parameters call for, and for nothing else: in particular it calls
/// for a restart only where the parameters do.
pub proof fn lemma_reported_rescan_adds_text_only(required: ParamRescanFlags)
    ensures
        reported_rescan(required, false) is None,
        reported_rescan(required, true) == Some(ParamRescanFlags { text: true, ..required }),
{
}

/// The state of hot reloading for an instance with or without a receiver and
/// with or without a channel to the audio thread.
pub open spec fn reload_state(has_receiver: bool, active: bool) -> HotReloadState {
    if !has_receiver {
        HotReloadState::Idle
    } else if active {
        HotReloadState::WatchingActive
    } else {
        HotReloadState::WatchingInactive
    }
}

/// The extensions that the wrapper puts before the outer host, in order: its
/// timer, and what the plugin's extensions call for once they are known.
pub fn declare_plugin_extensions(reported: Option<&ReportedExtensions>) -> (extensions: Vec<
    PluginExtension,
>)
    ensures
        extensions@ == seq![PluginExtension::Timer] + match reported {
            Some(known) => crate::wrapper::extensions::declared(*known),
            None => Seq::empty(),
        },
{
    let mut extensions: Vec<PluginExtension> = Vec::new();
    extensions.push(PluginExtension::Timer);
    match reported {
        Some(known) => {
            let mut more = known.declare_to_host();
            extensions.append(&mut more);
        },
        None => {},
    }
    extensions
}

/// The extensions that the wrapper offers to the plugin it wraps, in order.
pub fn declare_host_extensions() -> (extensions: Vec<HostExtension>)
    ensures
        extensions@ == seq![HostExtension::AudioPorts, HostExtension::Gui, HostExtension::Latency],
{
    let mut extensions: Vec<HostExtension> = Vec::new();
    extensions.push(HostExtension::AudioPorts);
    extensions.push(HostExtension::Gui);
    extensions.push(HostExtension::Latency);
    extensions
}

/// What the main thread holds while the plugin is activated: its end of the
/// queues to the audio thread, and the configuration of the activation.
#[verifier::reject_recursive_types(P)]
struct Activation<I, P> {
    channel: MainThreadChannel<I, P>,
    audio_config: AudioConfiguration,
}

/// What the main thread holds for one plugin instance.
#[verifier::reject_recursive_types(P)]
#[verifier::reject_recursive_types(B)]
pub struct WrapperPluginMainThread<I, P, B, W> {
    plugin_instance: Tagged<I>,
    bundle_receiver: Option<BundleReceiver<B>>,
    timers: WrapperTimerHandler,
    activation: Option<Activation<I, P>>,
    plugin_id: String,
    audio_ports_info: PluginAudioPortsInfo,
    param_info_cache: ParamInfoCache,
    gui: WrapperGui<W>,
    host_extensions: OuterHostExtensions,
}

impl<I, P, B, W: Copy> WrapperPluginMainThread<I, P, B, W> {
    /// The instance that is in use.
    pub closed spec fn instance(&self) -> Tagged<I> {
        self.plugin_instance
    }

    /// The bundle that the receiver has caught up to, if there is a receiver.
    pub closed spec fn bundle(&self) -> Option<B> {
        match self.bundle_receiver {
            Some(receiver) => Some(receiver.current()),
            None => None,
        }
    }

    /// Whether the plugin is activated: a channel to the audio thread exists.
    pub closed spec fn active(&self) -> bool {
        self.activation is Some
    }

    /// The instances whose processors are still in the audio thread's hands.
    pub closed spec fn awaiting(&self) -> Seq<Tagged<I>> {
        match self.activation {
            Some(activation) => activation.channel.awaiting(),
            None => Seq::empty(),
        }
    }

    /// The configuration that the plugin is activated with.
    pub closed spec fn audio_config(&self) -> Option<AudioConfiguration> {
        match self.activation {
            Some(activation) => Some(activation.audio_config),
            None => None,
        }
    }

    /// Channel count of each output port of the instance that was there at the
    /// start.
    pub closed spec fn ports(&self) -> Seq<u32> {
        self.audio_ports_info.layout()
    }

    /// What is known of the parameters.
    pub closed spec fn params(&self) -> Seq<ParamInfoView> {
        self.param_info_cache@
    }

    /// What is remembered of the window.
    pub closed spec fn gui_state(&self) -> GuiSnapshot<W> {
        self.gui@
    }

    /// The wrapper's timer.
    pub closed spec fn timer_handler(&self) -> WrapperTimerHandler {
        self.timers
    }

    /// Which extensions the outer host has.
    pub closed spec fn host(&self) -> OuterHostExtensions {
        self.host_extensions
    }

    /// The id of the plugin that this instance is an instance of.
    pub closed spec fn id(&self) -> String {
        self.plugin_id
    }

    /// Where the instance stands with regard to hot reloading.
    pub open spec fn state(&self) -> HotReloadState {
        reload_state(self.bundle() is Some, self.active())
    }

    /// The state for a fresh instance that is not activated. `ports` and
    /// `infos` are what the instance tells of its output ports and of its
    /// parameters, each `None` where it lacks the extension.
    pub fn new(
        plugin_instance: I,
        bundle_receiver: Option<BundleReceiver<B>>,
        plugin_id: String,
        host_extensions: OuterHostExtensions,
        ports: Option<&Vec<Option<u32>>>,
        host_supported_rescan_flags: u32,
        infos: Option<&Vec<ParamInfo>>,
    ) -> (main_thread: Self)
        ensures
            main_thread.instance() == (Tagged { instance: FIRST_INSTANCE, value: plugin_instance }),
            main_thread.id() == plugin_id,
            main_thread.host() == host_extensions,
            !main_thread.active(),
            main_thread.audio_config() is None,
            main_thread.bundle() == match bundle_receiver {
                Some(receiver) => Some(receiver.current()),
                None => None,
            },
            main_thread.params() == match infos {
                Some(list) => reconciled_cache(Seq::empty(), told(list@)),
                None => Seq::empty(),
            },
            distinct_ids(main_thread.params()),
            main_thread.gui_state() == crate::wrapper::extensions::gui::destroyed_gui::<W>(
                host_extensions.gui,
            ),
            main_thread.ports() == refreshed_layout(
                match ports {
                    Some(list) => Some(list@),
                    None => None,
                },
            ),
    {
        WrapperPluginMainThread {
            audio_ports_info: PluginAudioPortsInfo::new(ports, host_supported_rescan_flags),
            param_info_cache: ParamInfoCache::new(infos),
            gui: WrapperGui::new(host_extensions.gui),
            host_extensions,
            plugin_instance: Tagged { instance: FIRST_INSTANCE, value: plugin_instance },
            bundle_receiver,
            plugin_id,
            timers: WrapperTimerHandler::new(),
            activation: None,
        }
    }

    /// Where the instance stands with regard to hot reloading.
    pub fn reload_state(&self) -> (state: HotReloadState)
        ensures
            state == self.state(),
    {
        if self.bundle_receiver.is_none() {
            HotReloadState::Idle
        } else if self.activation.is_some() {
            HotReloadState::WatchingActive
        } else {
            HotReloadState::WatchingInactive
        }
    }

    /// The instance that is in use, to call it.
    pub fn plugin_instance(&mut self) -> (instance: &mut Tagged<I>)
        ensures
            *instance == old(self).instance(),
            final(self).instance() == *final(instance),
            final(self).bundle() == old(self).bundle(),
            final(self).active() == old(self).active(),
            final(self).awaiting() == old(self).awaiting(),
            final(self).audio_config() == old(self).audio_config(),
            final(self).params() == old(self).params(),
            final(self).gui_state() == old(self).gui_state(),
            final(self).host() == old(self).host(),
    {
        &mut self.plugin_instance
    }

    /// What is remembered of the window, to record what the plugin accepted.
    pub fn gui(&mut self) -> (gui: &mut WrapperGui<W>)
        ensures
            gui@ == old(self).gui_state(),
            final(self).gui_state() == final(gui)@,
            final(self).instance() == old(self).instance(),
            final(self).bundle() == old(self).bundle(),
            final(self).active() == old(self).active(),
            final(self).awaiting() == old(self).awaiting(),
            final(self).audio_config() == old(self).audio_config(),
            final(self).params() == old(self).params(),
            final(self).host() == old(self).host(),
    {
        &mut self.gui
    }

    /// The wrapper's timer.
    pub fn timers(&mut self) -> (timers: &mut WrapperTimerHandler)
        ensures
            *timers == old(self).timer_handler(),
            final(self).timer_handler() == *final(timers),
            final(self).instance() == old(self).instance(),
            final(self).bundle() == old(self).bundle(),
            final(self).active() == old(self).active(),
            final(self).awaiting() == old(self).awaiting(),
            final(self).audio_config() == old(self).audio_config(),
            final(self).params() == old(self).params(),
            final(self).gui_state() == old(self).gui_state(),
            final(self).host() == old(self).host(),
    {
        &mut self.timers
    }

    /// What is known of the parameters.
    pub fn param_info_cache(&self) -> (cache: &ParamInfoCache)
        ensures
            cache@ == self.params(),
    {
        &self.param_info_cache
    }

    /// The output ports of the instance that was there at the start.
    pub fn audio_ports_info(&self) -> (info: &PluginAudioPortsInfo)
        ensures
            info.layout() == self.ports(),
    {
        &self.audio_ports_info
    }

    /// Which extensions the outer host has.
    pub fn host_extensions(&self) -> (host: &OuterHostExtensions)
        ensures
            *host == self.host(),
    {
        &self.host_extensions
    }

    /// The id of the plugin that this instance is an instance of.
    pub fn plugin_id(&self) -> (id: &String)
        ensures
            *id == self.id(),
    {
        &self.plugin_id
    }

    /// The configuration that the plugin is activated with.
    pub fn current_audio_config(&self) -> (config: Option<AudioConfiguration>)
        ensures
            config == self.audio_config(),
    {
        match &self.activation {
            Some(activation) => Some(activation.audio_config),
            None => None,
        }
    }

    /// Polls the bundle receiver. Where a new bundle has been published since
    /// the last poll, the newest comes back: the bundle to make the new
    /// instance from. An instance without a receiver never gets one.
    pub fn check_for_new_bundles(&mut self) -> (new_bundle: Option<&B>)
        ensures
            old(self).bundle() is None ==> new_bundle is None,
            match new_bundle {
                Some(bundle) => final(self).bundle() == Some(*bundle),
                None => final(self).bundle() == old(self).bundle(),
            },
            final(self).instance() == old(self).instance(),
            final(self).active() == old(self).active(),
            final(self).awaiting() == old(self).awaiting(),
            final(self).audio_config() == old(self).audio_config(),
            final(self).params() == old(self).params(),
            final(self).gui_state() == old(self).gui_state(),
            final(self).host() == old(self).host(),
    {
        match &mut self.bundle_receiver {
            Some(receiver) => {
                if receiver.receive_new_bundle() {
                    Some(receiver.current_bundle())
                } else {
                    None
                }
            },
            None => None,
        }
    }

    /// Puts `new_instance` in the place of the instance in use, under the
    /// identity that follows, and reconciles what is known of the parameters
    /// with what the new instance tells. `infos` is `None` where the new
    /// instance has no parameter extension; `old_has_gui` and `new_has_gui`
    /// say which of the two instances has a window extension.
    pub fn swap_instance(
        &mut self,
        new_instance: I,
        infos: Option<&Vec<ParamInfo>>,
        old_has_gui: bool,
        new_has_gui: bool,
    ) -> (swap: InstanceSwap<I, W>)
        ensures
            final(self).instance() == (Tagged {
                instance: next_identity(old(self).instance().instance),
                value: new_instance,
            }),
            swap.old_instance == old(self).instance(),
            match infos {
                Some(list) => final(self).params() == reconciled_cache(
                    old(self).params(),
                    told(list@),
                ) && swap.required_rescan == reconciled_flags(old(self).params(), told(list@)),
                None => final(self).params() == old(self).params() && swap.required_rescan
                    == no_rescan(),
            },
            distinct_ids(old(self).params()) ==> distinct_ids(final(self).params()),
            swap.report_rescan == reported_rescan(swap.required_rescan, old(self).host().params),
            swap.gui_steps@ == transfer_steps(old(self).gui_state(), old_has_gui, new_has_gui),
            final(self).gui_state() == old(self).gui_state(),
            final(self).bundle() == old(self).bundle(),
            final(self).active() == old(self).active(),
            final(self).awaiting() == old(self).awaiting(),
            final(self).audio_config() == old(self).audio_config(),
            final(self).host() == old(self).host(),
    {
        let mut incoming = Tagged {
            instance: self.plugin_instance.instance.wrapping_add(1),
            value: new_instance,
        };
        std::mem::swap(&mut self.plugin_instance, &mut incoming);
        let required_rescan = self.param_info_cache.update(infos);
        let report_rescan = if self.host_extensions.params {
            Some(
                required_rescan.union(
                    ParamRescanFlags { values: false, text: true, info: false, all: false },
                ),
            )
        } else {
            None
        };
        let gui_steps = self.gui.transfer_gui(old_has_gui, new_has_gui);
        InstanceSwap { old_instance: incoming, required_rescan, report_rescan, gui_steps }
    }

    /// Decides what becomes of the instance that was replaced, once the window
    /// has been moved over.
    pub fn retire_instance(
        &mut self,
        old_instance: Tagged<I>,
        required_rescan: ParamRescanFlags,
    ) -> (fate: OldInstanceFate<I>)
        ensures
            final(self).instance() == old(self).instance(),
            final(self).active() == old(self).active(),
            final(self).audio_config() == old(self).audio_config(),
            final(self).params() == old(self).params(),
            final(self).gui_state() == old(self).gui_state(),
            final(self).bundle() == old(self).bundle(),
            final(self).host() == old(self).host(),
            !old(self).active() ==> fate == OldInstanceFate::Dropped(old_instance) && final(self).awaiting() == old(self).awaiting(),
            old(self).active() && required_rescan.all ==> fate
                == OldInstanceFate::<I>::AwaitingRestart && final(self).awaiting() == old(self).awaiting().push(old_instance),
            old(self).active() && !required_rescan.all ==> old(self).audio_config() is Some && fate
                == (OldInstanceFate::HandOff {
                old_instance,
                config: old(self).audio_config().unwrap(),
            }) && final(self).awaiting() == old(self).awaiting(),
    {
        match &mut self.activation {
            None => OldInstanceFate::Dropped(old_instance),
            Some(activation) => {
                if required_rescan.requires_restart() {
                    activation.channel.defer_destroy_if_active(old_instance);
                    OldInstanceFate::AwaitingRestart
                } else {
                    OldInstanceFate::HandOff { old_instance, config: activation.audio_config }
                }
            },
        }
    }

    /// Sends the processor of the new instance to the audio thread, marked as
    /// the processor of the instance in use, and queues the old instance for
    /// destruction. Where the plugin is not activated, both come back; where
    /// the audio thread's end is gone, the processor comes back and the old
    /// instance stays queued. The processor comes back with its mark.
    pub fn hand_off(&mut self, processor: P, old_instance: Tagged<I>) -> (sent: Result<
        (),
        (Tagged<P>, Option<Tagged<I>>),
    >)
        ensures
            final(self).instance() == old(self).instance(),
            final(self).active() == old(self).active(),
            final(self).audio_config() == old(self).audio_config(),
            final(self).params() == old(self).params(),
            final(self).gui_state() == old(self).gui_state(),
            final(self).bundle() == old(self).bundle(),
            old(self).active() ==> final(self).awaiting() == old(self).awaiting().push(old_instance),
            final(self).host() == old(self).host(),
            !old(self).active() ==> sent == Err::<(), (Tagged<P>, Option<Tagged<I>>)>(
                (
                    Tagged { instance: old(self).instance().instance, value: processor },
                    Some(old_instance),
                ),
            ),
            sent matches Err(back) ==> back.0 == (Tagged {
                instance: old(self).instance().instance,
                value: processor,
            }),
            sent matches Err(back) ==> (back.1 is Some <==> !old(self).active()),
    {
        let tagged = self.tag_processor(processor);
        match &mut self.activation {
            Some(activation) => match activation.channel.send_new_audio_processor(
                tagged,
                old_instance,
            ) {
                Ok(()) => Ok(()),
                Err(returned) => Err((returned, None)),
            },
            None => Err((tagged, Some(old_instance))),
        }
    }

    /// Marks `processor` as the processor of the instance in use.
    pub fn tag_processor(&self, processor: P) -> (tagged: Tagged<P>)
        ensures
            tagged == (Tagged { instance: self.instance().instance, value: processor }),
    {
        Tagged { instance: self.plugin_instance.instance, value: processor }
    }

    /// The new instance could not be activated for a hand-over. The old
    /// processor keeps running, so the old instance is queued for destruction
    /// until its processor comes back. Where the plugin is not activated the
    /// instance comes back, as nothing holds it any more.
    pub fn activation_failed(&mut self, old_instance: Tagged<I>) -> (unused: Option<Tagged<I>>)
        ensures
            final(self).instance() == old(self).instance(),
            final(self).active() == old(self).active(),
            final(self).audio_config() == old(self).audio_config(),
            final(self).params() == old(self).params(),
            final(self).gui_state() == old(self).gui_state(),
            final(self).bundle() == old(self).bundle(),
            final(self).host() == old(self).host(),
            old(self).active() ==> unused is None && final(self).awaiting() == old(self).awaiting().push(old_instance),
            !old(self).active() ==> unused == Some(old_instance) && final(self).awaiting() == old(self).awaiting(),
    {
        match &mut self.activation {
            Some(activation) => {
                activation.channel.defer_destroy_if_active(old_instance);
                None
            },
            None => Some(old_instance),
        }
    }

    /// The host has activated the plugin with `audio_config` and the instance
    /// in use has been activated. A fresh pair of queues is made; the audio
    /// thread's end comes back, with what was still to be collected from a
    /// channel that was left over.
    pub fn activate(&mut self, audio_config: AudioConfiguration) -> (made: (
        AudioProcessorChannel<P>,
        Option<Retirements<I, P>>,
    ))
        ensures
            final(self).active(),
            final(self).awaiting() == Seq::<Tagged<I>>::empty(),
            final(self).audio_config() == Some(audio_config),
            final(self).instance() == old(self).instance(),
            final(self).params() == old(self).params(),
            final(self).gui_state() == old(self).gui_state(),
            final(self).bundle() == old(self).bundle(),
            final(self).host() == old(self).host(),
            made.1 is Some == old(self).active(),
            made.1 matches Some(found) ==> well_paired(found.deactivate@),
            made.1 matches Some(found) ==> exists|list: Seq<Tagged<P>>|
                (found.deactivate@, found.orphans@) == (
                    (#[trigger] claimed_all(old(self).awaiting(), list)).1,
                    claimed_all(old(self).awaiting(), list).2,
                ),
    {
        let (channel, audio_processor_channel) = MainThreadChannel::new_pair();
        let previous = self.activation.take();
        self.activation = Some(Activation { channel, audio_config });
        let leftover = match previous {
            Some(previous) => {
                let mut previous_channel = previous.channel;
                let ghost queued = previous_channel.awaiting();
                let found = previous_channel.destroy_awaiting();
                proof {
                    let list = choose|list: Seq<Tagged<P>>|
                        (previous_channel.awaiting(), found.deactivate@, found.orphans@)
                            == #[trigger] claimed_all(queued, list);
                    assert((found.deactivate@, found.orphans@) == (
                        claimed_all(old(self).awaiting(), list).1,
                        claimed_all(old(self).awaiting(), list).2,
                    ));
                }
                Some(found)
            },
            None => None,
        };
        (audio_processor_channel, leftover)
    }

    /// Collects every processor that the audio thread has retired, each with
    /// the instance to deactivate with it; instances whose processor has not
    /// come back stay queued, in their order. Nothing where the plugin is not
    /// activated.
    pub fn on_main_thread(&mut self) -> (found: Option<Retirements<I, P>>)
        ensures
            found is Some == old(self).active(),
            final(self).active() == old(self).active(),
            final(self).instance() == old(self).instance(),
            final(self).audio_config() == old(self).audio_config(),
            final(self).params() == old(self).params(),
            final(self).gui_state() == old(self).gui_state(),
            final(self).bundle() == old(self).bundle(),
            found matches Some(retired) ==> well_paired(retired.deactivate@)
                && final(self).awaiting().len() + retired.deactivate@.len() == old(self).awaiting().len(),
            found matches Some(retired) ==> exists|list: Seq<Tagged<P>>|
                (final(self).awaiting(), retired.deactivate@, retired.orphans@)
                    == #[trigger] claimed_all(old(self).awaiting(), list),
    {
        match &mut self.activation {
            Some(activation) => Some(activation.channel.destroy_awaiting()),
            None => None,
        }
    }

    /// Finds where a processor that has stopped belongs: to the instance in
    /// use, to an instance that awaits destruction, or to none.
    pub fn deactivate_wrapped_instance(&mut self, audio_processor: Tagged<P>) -> (route:
        StoppedRoute<I, P>)
        ensures
            final(self).instance() == old(self).instance(),
            final(self).active() == old(self).active(),
            final(self).audio_config() == old(self).audio_config(),
            final(self).params() == old(self).params(),
            final(self).gui_state() == old(self).gui_state(),
            final(self).bundle() == old(self).bundle(),
            audio_processor.instance == old(self).instance().instance ==> route
                == StoppedRoute::<I, P>::Current(audio_processor) && final(self).awaiting() == old(self).awaiting(),
            audio_processor.instance != old(self).instance().instance ==> match first_owned_by(
                old(self).awaiting(),
                audio_processor.instance,
            ) {
                Some(index) => route == StoppedRoute::Old(
                    old(self).awaiting()[index],
                    audio_processor,
                ) && final(self).awaiting() == old(self).awaiting().remove(index),
                None => route == StoppedRoute::<I, P>::Unowned(audio_processor) && final(self).awaiting() == old(self).awaiting(),
            },
    {
        if audio_processor.instance == self.plugin_instance.instance {
            return StoppedRoute::Current(audio_processor);
        }
        match &mut self.activation {
            Some(activation) => match activation.channel.deactivate_old_instance(audio_processor) {
                Ok((instance, processor)) => StoppedRoute::Old(instance, processor),
                Err(processor) => StoppedRoute::Unowned(processor),
            },
            None => StoppedRoute::Unowned(audio_processor),
        }
    }

    /// The host has deactivated the plugin. The channel to the audio thread is
    /// given up, and what is still in the queues is collected.
    pub fn deactivate(&mut self, audio_processor_channel: AudioProcessorChannel<P>) -> (found:
        Option<Retirements<I, P>>)
        ensures
            !final(self).active(),
            found is Some == old(self).active(),
            final(self).instance() == old(self).instance(),
            final(self).audio_config() is None,
            final(self).params() == old(self).params(),
            final(self).gui_state() == old(self).gui_state(),
            final(self).bundle() == old(self).bundle(),
            found matches Some(retired) ==> well_paired(retired.deactivate@)
                && retired.deactivate@.len() <= old(self).awaiting().len(),
            found matches Some(retired) ==> exists|list: Seq<Tagged<P>>|
                (retired.deactivate@, retired.orphans@) == (
                    (#[trigger] claimed_all(old(self).awaiting(), list)).1,
                    claimed_all(old(self).awaiting(), list).2,
                ),
    {
        match self.activation.take() {
            Some(activation) => Some(activation.channel.consume(audio_processor_channel)),
            None => None,
        }
    }
}

} // verus!
