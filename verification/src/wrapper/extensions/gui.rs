//! What the wrapper remembers of the plugin's window, so that the window can
//! be rebuilt on a new instance, and the requests that the plugin makes of the
//! host's window.

use crossbeam_utils::atomic::AtomicCell;
use std::sync::atomic::{AtomicBool, Ordering};
use vstd::prelude::*;

verus! {

/// Size of a window in pixels.
#[derive(Clone, Copy, Debug, PartialEq, Eq, Structural)]
pub struct GuiSize {
    pub width: u32,
    pub height: u32,
}

/// The windowing systems that a plugin window can be made for.
#[derive(Clone, Copy, Debug, PartialEq, Eq, Structural)]
pub enum GuiApiType {
    Win32,
    Cocoa,
    X11,
    Wayland,
}

/// How a plugin window is made: for which windowing system, and floating or
/// embedded into a window of the host.
#[derive(Clone, Copy, Debug, PartialEq, Eq, Structural)]
pub struct GuiConfiguration {
    pub api_type: GuiApiType,
    pub is_floating: bool,
}

/// Whether the plugin window exists, and how it was made.
#[derive(Clone, Copy, Debug, PartialEq, Eq, Structural)]
pub enum Status {
    Destroyed,
    Created(GuiConfiguration),
}

/// One call that rebuilds the window on a new instance. `HideOld` and
/// `DestroyOld` go to the instance that is replaced, all others to the new one.
#[derive(Debug, PartialEq, Eq)]
pub enum GuiStep<W> {
    HideOld,
    DestroyOld,
    Create(GuiConfiguration),
    SetTransient(W),
    SuggestTitle(String),
    /// Set the scale factor whose bit pattern is given.
    SetScale(u64),
    /// Bring the window to its size: see `WrapperGui::fit_size`.
    FitSize,
    SetParent(W),
    Show,
}

/// What is to be done about the size of an embedded window.
#[derive(Clone, Copy, Debug, PartialEq, Eq, Structural)]
pub enum SizeAction {
    /// Give the plugin this size.
    SetSize(GuiSize),
    /// Ask the host to resize its window to this size.
    RequestHostResize(GuiSize),
    /// Leave the size as it is.
    Leave,
}

/// Everything the wrapper remembers of the plugin's window.
pub struct GuiSnapshot<W> {
    pub host_gui: bool,
    pub status: Status,
    pub size: Option<GuiSize>,
    pub scale_bits: Option<u64>,
    pub shown: bool,
    pub title: Option<String>,
    pub parent: Option<W>,
    pub transient: Option<W>,
}

/// The step made for a value that was set, none for one that was not.
pub open spec fn step_if_set<W, T>(value: Option<T>, step: spec_fn(T) -> GuiStep<W>) -> Seq<
    GuiStep<W>,
> {
    match value {
        Some(set) => seq![step(set)],
        None => Seq::empty(),
    }
}

/// The calls that take the window off the instance that is replaced: hide it
/// if it was shown, destroy it if it existed. An instance without a window
/// extension gets none.
pub open spec fn teardown_steps<W>(gui: GuiSnapshot<W>, old_has_gui: bool) -> Seq<GuiStep<W>> {
    if !old_has_gui {
        Seq::empty()
    } else {
        (if gui.shown {
            seq![GuiStep::HideOld]
        } else {
            Seq::empty()
        }) + (if gui.status is Created {
            seq![GuiStep::DestroyOld]
        } else {
            Seq::empty()
        })
    }
}

/// The calls that bring back what belongs to a window of the given kind: the
/// transient window and the title of a floating window; the scale, the size
/// and the parent of an embedded one.
pub open spec fn placement_steps<W>(gui: GuiSnapshot<W>, is_floating: bool) -> Seq<GuiStep<W>> {
    if is_floating {
        step_if_set(gui.transient, |window: W| GuiStep::SetTransient(window)) + step_if_set(
            gui.title,
            |title: String| GuiStep::<W>::SuggestTitle(title),
        )
    } else {
        step_if_set(gui.scale_bits, |bits: u64| GuiStep::<W>::SetScale(bits)) + seq![
            GuiStep::<W>::FitSize,
        ] + step_if_set(gui.parent, |window: W| GuiStep::SetParent(window))
    }
}

/// The calls that rebuild the window on the new instance. There are none
/// unless the window existed and the new instance has a window extension.
pub open spec fn restore_steps<W>(gui: GuiSnapshot<W>, new_has_gui: bool) -> Seq<GuiStep<W>> {
    match gui.status {
        Status::Created(configuration) => if new_has_gui {
            seq![GuiStep::Create(configuration)] + placement_steps(gui, configuration.is_floating)
                + (if gui.shown {
                seq![GuiStep::Show]
            } else {
                Seq::empty()
            })
        } else {
            Seq::empty()
        },
        Status::Destroyed => Seq::empty(),
    }
}

/// All calls of a window transfer, in the order in which they are made.
pub open spec fn transfer_steps<W>(gui: GuiSnapshot<W>, old_has_gui: bool, new_has_gui: bool) -> Seq<
    GuiStep<W>,
> {
    teardown_steps(gui, old_has_gui) + restore_steps(gui, new_has_gui)
}

/// What `FitSize` comes to. A plugin that can be resized gets the size it had,
/// if one was set. For one that cannot, the host is asked to take the size
/// that the plugin reports, if there is a host window extension.
pub open spec fn size_action<W>(
    gui: GuiSnapshot<W>,
    can_resize: bool,
    plugin_size: Option<GuiSize>,
) -> SizeAction {
    if can_resize {
        match gui.size {
            Some(size) => SizeAction::SetSize(size),
            None => SizeAction::Leave,
        }
    } else if gui.host_gui {
        match plugin_size {
            Some(size) => SizeAction::RequestHostResize(size),
            None => SizeAction::Leave,
        }
    } else {
        SizeAction::Leave
    }
}

/// The state of a window that does not exist.
pub open spec fn destroyed_gui<W>(host_gui: bool) -> GuiSnapshot<W> {
    GuiSnapshot {
        host_gui,
        status: Status::Destroyed,
        size: None,
        scale_bits: None,
        shown: false,
        title: None,
        parent: None,
        transient: None,
    }
}

/// Where no window existed nothing is built, and nothing is ever built before
/// the window is created or after it is shown.
pub proof fn lemma_restore_shape<W>(gui: GuiSnapshot<W>, new_has_gui: bool)
    ensures
        gui.status is Destroyed || !new_has_gui ==> restore_steps(gui, new_has_gui).len() == 0,
        gui.status matches Status::Created(configuration) ==> (new_has_gui ==> restore_steps(
            gui,
            new_has_gui,
        ).first() == GuiStep::<W>::Create(configuration)),
        gui.status is Created && new_has_gui && gui.shown ==> restore_steps(
            gui,
            new_has_gui,
        ).last() == GuiStep::<W>::Show,
{
}

/// What the wrapper remembers of the plugin's window.
pub struct WrapperGui<W> {
    host_gui: bool,
    status: Status,
    size: Option<GuiSize>,
    scale_bits: Option<u64>,
    shown: bool,
    title: Option<String>,
    parent: Option<W>,
    transient: Option<W>,
}

impl<W> View for WrapperGui<W> {
    type V = GuiSnapshot<W>;

    closed spec fn view(&self) -> GuiSnapshot<W> {
        GuiSnapshot {
            host_gui: self.host_gui,
            status: self.status,
            size: self.size,
            scale_bits: self.scale_bits,
            shown: self.shown,
            title: self.title,
            parent: self.parent,
            transient: self.transient,
        }
    }
}

impl<W: Copy> WrapperGui<W> {
    /// No window yet. `host_gui` says whether the host has a window extension.
    pub fn new(host_gui: bool) -> (gui: Self)
        ensures
            gui@ == destroyed_gui::<W>(host_gui),
    {
        WrapperGui {
            host_gui,
            status: Status::Destroyed,
            size: None,
            scale_bits: None,
            shown: false,
            title: None,
            parent: None,
            transient: None,
        }
    }

    /// Forgets the window.
    pub fn reset(&mut self)
        ensures
            final(self)@ == destroyed_gui::<W>(old(self)@.host_gui),
    {
        self.status = Status::Destroyed;
        self.scale_bits = None;
        self.size = None;
        self.shown = false;
        self.title = None;
        self.parent = None;
        self.transient = None;
    }

    /// The plugin has created its window.
    pub fn create(&mut self, configuration: GuiConfiguration)
        ensures
            final(self)@ == (GuiSnapshot { status: Status::Created(configuration), ..old(self)@ }),
    {
        self.status = Status::Created(configuration);
    }

    /// The plugin has destroyed its window.
    pub fn destroy(&mut self)
        ensures
            final(self)@ == destroyed_gui::<W>(old(self)@.host_gui),
    {
        self.reset();
    }

    /// The plugin has taken the scale factor with this bit pattern.
    pub fn set_scale(&mut self, scale_bits: u64)
        ensures
            final(self)@ == (GuiSnapshot { scale_bits: Some(scale_bits), ..old(self)@ }),
    {
        self.scale_bits = Some(scale_bits);
    }

    /// The plugin has taken this size.
    pub fn set_size(&mut self, size: GuiSize)
        ensures
            final(self)@ == (GuiSnapshot { size: Some(size), ..old(self)@ }),
    {
        self.size = Some(size);
    }

    /// The plugin has embedded its window into `window`.
    pub fn set_parent(&mut self, window: W)
        ensures
            final(self)@ == (GuiSnapshot { parent: Some(window), ..old(self)@ }),
    {
        self.parent = Some(window);
    }

    /// The plugin keeps its window above `window`.
    pub fn set_transient(&mut self, window: W)
        ensures
            final(self)@ == (GuiSnapshot { transient: Some(window), ..old(self)@ }),
    {
        self.transient = Some(window);
    }

    /// The host has suggested `title` for the window.
    pub fn suggest_title(&mut self, title: String)
        ensures
            final(self)@ == (GuiSnapshot { title: Some(title), ..old(self)@ }),
    {
        self.title = Some(title);
    }

    /// The plugin has shown its window, or hidden it.
    pub fn set_shown(&mut self, shown: bool)
        ensures
            final(self)@ == (GuiSnapshot { shown, ..old(self)@ }),
    {
        self.shown = shown;
    }

    /// What is to be done when the transfer comes to `FitSize`, given whether
    /// the new plugin can be resized and, where it cannot, the size it reports.
    pub fn fit_size(&self, can_resize: bool, plugin_size: Option<GuiSize>) -> (action: SizeAction)
        ensures
            action == size_action(self@, can_resize, plugin_size),
    {
        if can_resize {
            match self.size {
                Some(size) => SizeAction::SetSize(size),
                None => SizeAction::Leave,
            }
        } else if self.host_gui {
            match plugin_size {
                Some(size) => SizeAction::RequestHostResize(size),
                None => SizeAction::Leave,
            }
        } else {
            SizeAction::Leave
        }
    }

    /// The calls that move the window from the instance that is replaced to the
    /// new one, in order. Each is made whether or not the one before failed.
    pub fn transfer_gui(&self, old_has_gui: bool, new_has_gui: bool) -> (steps: Vec<GuiStep<W>>)
        ensures
            steps@ == transfer_steps(self@, old_has_gui, new_has_gui),
    {
        let mut steps: Vec<GuiStep<W>> = Vec::new();
        if old_has_gui {
            if self.shown {
                steps.push(GuiStep::HideOld);
            }
            match self.status {
                Status::Created(_) => {
                    steps.push(GuiStep::DestroyOld);
                },
                Status::Destroyed => {},
            }
        }
        assert(steps@ == teardown_steps(self@, old_has_gui));
        if !new_has_gui {
            return steps;
        }
        let configuration = match self.status {
            Status::Created(configuration) => configuration,
            Status::Destroyed => {
                return steps;
            },
        };
        let ghost torn_down = steps@;
        steps.push(GuiStep::Create(configuration));
        if configuration.is_floating {
            match self.transient {
                Some(window) => {
                    steps.push(GuiStep::SetTransient(window));
                },
                None => {},
            }
            match &self.title {
                Some(title) => {
                    steps.push(GuiStep::SuggestTitle(title.clone()));
                },
                None => {},
            }
        } else {
            match self.scale_bits {
                Some(bits) => {
                    steps.push(GuiStep::SetScale(bits));
                },
                None => {},
            }
            steps.push(GuiStep::FitSize);
            match self.parent {
                Some(window) => {
                    steps.push(GuiStep::SetParent(window));
                },
                None => {},
            }
        }
        assert(steps@ == torn_down + seq![GuiStep::Create(configuration)] + placement_steps(
            self@,
            configuration.is_floating,
        ));
        if self.shown {
            steps.push(GuiStep::Show);
        }
        assert(steps@ == torn_down + restore_steps(self@, new_has_gui));
        steps
    }
}

/// A window size in the form in which it waits in a request cell: the height
/// is never zero, and the largest height stands for zero.
#[derive(Clone, Copy, Debug)]
pub struct AtomicGuiSize {
    width: u32,
    height: u32,
}

/// The height that is stored for `height`.
pub open spec fn stored_height(height: u32) -> u32 {
    if height == 0 {
        u32::MAX
    } else {
        height
    }
}

/// The height that a stored height stands for.
pub open spec fn restored_height(stored: u32) -> u32 {
    if stored == u32::MAX {
        0
    } else {
        stored
    }
}

/// A size comes back from the cell as it went in, but for the largest height,
/// which comes back as zero.
pub proof fn lemma_gui_size_round_trip(height: u32)
    ensures
        stored_height(height) != 0,
        height != u32::MAX ==> restored_height(stored_height(height)) == height,
        height == u32::MAX ==> restored_height(stored_height(height)) == 0,
{
}

impl AtomicGuiSize {
    #[verifier::type_invariant]
    spec fn height_is_set(self) -> bool {
        self.height != 0
    }

    /// The width.
    pub closed spec fn width(&self) -> u32 {
        self.width
    }

    /// The height as stored: never zero.
    pub closed spec fn height(&self) -> u32 {
        self.height
    }

    /// The stored form of `size`.
    pub fn from_gui_size(size: GuiSize) -> (stored: Self)
        ensures
            stored.width() == size.width,
            stored.height() == stored_height(size.height),
    {
        AtomicGuiSize {
            width: size.width,
            height: if size.height == 0 {
                u32::MAX
            } else {
                size.height
            },
        }
    }

    /// The size that this stored form stands for.
    pub fn to_gui_size(self) -> (size: GuiSize)
        ensures
            size.width == self.width(),
            size.height == restored_height(self.height()),
    {
        let height = if self.height == u32::MAX {
            0
        } else {
            self.height
        };
        GuiSize { height, width: self.width }
    }
}

/// One call to the host's window extension.
#[derive(Clone, Copy, Debug, PartialEq, Eq, Structural)]
pub enum HostGuiCall {
    ResizeHintsChanged,
    RequestResize(GuiSize),
    RequestShow,
    RequestHide,
    Closed { was_destroyed: bool },
}

/// The requests that were waiting when they were collected.
#[derive(Clone, Copy, Debug)]
pub struct GuiRequests {
    pub resize_hints_changed: bool,
    pub resize_requested: Option<AtomicGuiSize>,
    pub show_requested: bool,
    pub hide_requested: bool,
    pub closed: bool,
    pub destroyed: bool,
}

/// The call made for a request that was waiting, none for one that was not.
pub open spec fn call_if(requested: bool, call: HostGuiCall) -> Seq<HostGuiCall> {
    if requested {
        seq![call]
    } else {
        Seq::empty()
    }
}

/// The resize call for the size that was waiting, if any.
pub open spec fn resize_call(requested: Option<AtomicGuiSize>) -> Seq<HostGuiCall> {
    match requested {
        Some(size) => seq![
            HostGuiCall::RequestResize(
                GuiSize { width: size.width(), height: restored_height(size.height()) },
            ),
        ],
        None => Seq::empty(),
    }
}

/// The calls to the host that `requests` amount to, in order. A host without
/// a window extension gets none. A window that was destroyed is reported as
/// such and nothing else is passed on.
pub open spec fn host_gui_calls(requests: GuiRequests, host_has_gui: bool) -> Seq<HostGuiCall> {
    if !host_has_gui {
        Seq::empty()
    } else if requests.destroyed {
        seq![HostGuiCall::Closed { was_destroyed: true }]
    } else {
        resize_call(requests.resize_requested) + call_if(
            requests.show_requested,
            HostGuiCall::RequestShow,
        ) + call_if(requests.hide_requested, HostGuiCall::RequestHide) + call_if(
            requests.resize_hints_changed,
            HostGuiCall::ResizeHintsChanged,
        ) + call_if(requests.closed, HostGuiCall::Closed { was_destroyed: false })
    }
}

/// The calls to the host that `requests` amount to, in order.
pub fn plan_host_gui_calls(requests: &GuiRequests, host_has_gui: bool) -> (calls: Vec<HostGuiCall>)
    ensures
        calls@ == host_gui_calls(*requests, host_has_gui),
{
    let mut calls: Vec<HostGuiCall> = Vec::new();
    if !host_has_gui {
        return calls;
    }
    if requests.destroyed {
        calls.push(HostGuiCall::Closed { was_destroyed: true });
        return calls;
    }
    match requests.resize_requested {
        Some(size) => {
            calls.push(HostGuiCall::RequestResize(size.to_gui_size()));
        },
        None => {},
    }
    assert(calls@ == resize_call(requests.resize_requested));
    if requests.show_requested {
        calls.push(HostGuiCall::RequestShow);
    }
    if requests.hide_requested {
        calls.push(HostGuiCall::RequestHide);
    }
    if requests.resize_hints_changed {
        calls.push(HostGuiCall::ResizeHintsChanged);
    }
    if requests.closed {
        calls.push(HostGuiCall::Closed { was_destroyed: false });
    }
    calls
}

/// `crossbeam_utils::atomic::AtomicCell`, a cell that any thread may write
/// to: carried as it is, with nothing known of what it holds.
#[verifier::external_type_specification]
#[verifier::external_body]
#[verifier::reject_recursive_types(T)]
pub struct ExAtomicCell<T>(crossbeam_utils::atomic::AtomicCell<T>);

/// `crossbeam_utils::atomic::AtomicCell::new`: a cell that holds `val`.
/// Nothing is claimed of it.
pub assume_specification<T>[ crossbeam_utils::atomic::AtomicCell::<T>::new ](val: T) -> (cell:
    crossbeam_utils::atomic::AtomicCell<T>);

/// `crossbeam_utils::atomic::AtomicCell::store`: stores `val`. Nothing is
/// claimed, as the cell is opaque.
pub assume_specification<T>[ crossbeam_utils::atomic::AtomicCell::<T>::store ](
    cell: &crossbeam_utils::atomic::AtomicCell<T>,
    val: T,
);

/// `crossbeam_utils::atomic::AtomicCell::swap`: stores `val` and returns what
/// the cell held. What it held depends on the other threads: no claim.
pub assume_specification<T>[ crossbeam_utils::atomic::AtomicCell::<T>::swap ](
    cell: &crossbeam_utils::atomic::AtomicCell<T>,
    val: T,
) -> (previous: T);

/// The requests that the plugin has made of the host's window since they were
/// last passed on. Any thread may make a request; the main thread collects.
pub struct PluginGuiRequests {
    resize_hints_changed: AtomicBool,
    resize_requested: AtomicCell<Option<AtomicGuiSize>>,
    show_requested: AtomicBool,
    hide_requested: AtomicBool,
    closed: AtomicBool,
    destroyed: AtomicBool,
}

impl PluginGuiRequests {
    /// No request waiting.
    pub fn new() -> Self {
        PluginGuiRequests {
            resize_hints_changed: AtomicBool::new(false),
            resize_requested: AtomicCell::new(None),
            show_requested: AtomicBool::new(false),
            hide_requested: AtomicBool::new(false),
            closed: AtomicBool::new(false),
            destroyed: AtomicBool::new(false),
        }
    }

    /// The plugin's resize hints have changed.
    pub fn resize_hints_changed(&self) {
        self.resize_hints_changed.store(true, Ordering::Relaxed);
    }

    /// The plugin asks for its window to take `new_size`.
    pub fn request_resize(&self, new_size: GuiSize) {
        self.resize_requested.store(Some(AtomicGuiSize::from_gui_size(new_size)));
    }

    /// The plugin asks for its window to be shown.
    pub fn request_show(&self) {
        self.show_requested.store(true, Ordering::Relaxed);
    }

    /// The plugin asks for its window to be hidden.
    pub fn request_hide(&self) {
        self.hide_requested.store(true, Ordering::Relaxed);
    }

    /// The plugin's window was closed, or destroyed altogether.
    pub fn closed(&self, was_destroyed: bool) {
        if was_destroyed {
            self.destroyed.store(true, Ordering::Relaxed);
        } else {
            self.closed.store(true, Ordering::Relaxed);
        }
    }

    /// Collects the requests that are waiting and clears them.
    pub fn take(&self) -> GuiRequests {
        let resize_hints_changed = self.resize_hints_changed.swap(false, Ordering::Relaxed);
        let resize_requested = self.resize_requested.swap(None);
        let show_requested = self.show_requested.swap(false, Ordering::Relaxed);
        let hide_requested = self.hide_requested.swap(false, Ordering::Relaxed);
        let closed = self.closed.swap(false, Ordering::Relaxed);
        let destroyed = self.destroyed.swap(false, Ordering::Relaxed);
        GuiRequests {
            resize_hints_changed,
            resize_requested,
            show_requested,
            hide_requested,
            closed,
            destroyed,
        }
    }

    /// Collects the waiting requests and turns them into the calls to make to
    /// the host, in order. The requests are cleared whether or not the host
    /// has a window extension.
    pub fn process_requests(&self, host_has_gui: bool) -> (calls: Vec<HostGuiCall>)
        ensures
            !host_has_gui ==> calls@.len() == 0,
            exists|requests: GuiRequests| calls@ == #[trigger] host_gui_calls(requests, host_has_gui),
    {
        let requests = self.take();
        plan_host_gui_calls(&requests, host_has_gui)
    }
}

} // verus!
