//! Requests that the wrapped plugin makes of its host, kept until the main
//! thread passes them on to the outer host.

use crate::wrapper::extensions::gui::{host_gui_calls, GuiRequests, HostGuiCall, PluginGuiRequests};
use std::sync::atomic::{AtomicBool, Ordering};
use vstd::prelude::*;

verus! {

/// What is to be passed on to the outer host.
pub struct SharedCalls {
    pub request_callback: bool,
    pub request_restart: bool,
    pub request_process: bool,
    /// Calls to the host's window extension, in order.
    pub gui: Vec<HostGuiCall>,
}

/// Requests that any thread of the wrapped plugin may make.
pub struct PluginSharedRequests {
    callback_requested: AtomicBool,
    restart_requested: AtomicBool,
    process_requested: AtomicBool,
    gui: PluginGuiRequests,
}

impl PluginSharedRequests {
    /// The requests that concern the plugin's window.
    pub closed spec fn gui_requests(&self) -> PluginGuiRequests {
        self.gui
    }

    /// No request waiting.
    pub fn new() -> Self {
        PluginSharedRequests {
            callback_requested: AtomicBool::new(false),
            restart_requested: AtomicBool::new(false),
            process_requested: AtomicBool::new(false),
            gui: PluginGuiRequests::new(),
        }
    }

    /// The requests that concern the plugin's window.
    pub fn gui(&self) -> (requests: &PluginGuiRequests)
        ensures
            *requests == self.gui_requests(),
    {
        &self.gui
    }

    /// The plugin asks to be called back on the main thread.
    pub fn request_callback(&self) {
        self.callback_requested.store(true, Ordering::Relaxed);
    }

    /// The plugin asks to be deactivated and activated again.
    pub fn request_restart(&self) {
        self.restart_requested.store(true, Ordering::Relaxed);
    }

    /// The plugin asks for processing to start.
    pub fn request_process(&self) {
        self.process_requested.store(true, Ordering::Relaxed);
    }

    /// Collects the waiting requests, clears them, and says what is to be
    /// passed on to the outer host.
    pub fn process_requests(&self, host_has_gui: bool) -> (calls: SharedCalls)
        ensures
            !host_has_gui ==> calls.gui@.len() == 0,
            exists|requests: GuiRequests| calls.gui@ == #[trigger] host_gui_calls(requests, host_has_gui),
    {
        let request_callback = self.callback_requested.swap(false, Ordering::Relaxed);
        let request_restart = self.restart_requested.swap(false, Ordering::Relaxed);
        let request_process = self.process_requested.swap(false, Ordering::Relaxed);
        let gui = self.gui.process_requests(host_has_gui);
        SharedCalls { request_callback, request_restart, request_process, gui }
    }
}

/// Requests that the wrapped plugin makes on the main thread.
pub struct PluginMainThreadRequests {
    pub latency_changed: bool,
}

impl PluginMainThreadRequests {
    /// No request waiting.
    pub fn new() -> (requests: Self)
        ensures
            !requests.latency_changed,
    {
        PluginMainThreadRequests { latency_changed: false }
    }

    /// The plugin's latency has changed.
    pub fn changed(&mut self)
        ensures
            final(self).latency_changed,
    {
        self.latency_changed = true;
    }

    /// Clears the latency request. Returns whether the outer host is to be
    /// told that the latency changed: a request was waiting and the host has a
    /// latency extension.
    pub fn process_latency_requests(&mut self, host_has_latency: bool) -> (notify: bool)
        ensures
            !final(self).latency_changed,
            notify == (old(self).latency_changed && host_has_latency),
    {
        if !self.latency_changed {
            return false;
        }
        self.latency_changed = false;
        host_has_latency
    }

    /// Clears the waiting requests. Returns whether the outer host is to be
    /// told that the latency changed.
    pub fn process_requests(&mut self, host_has_latency: bool) -> (notify_latency: bool)
        ensures
            !final(self).latency_changed,
            notify_latency == (old(self).latency_changed && host_has_latency),
    {
        self.process_latency_requests(host_has_latency)
    }
}

} // verus!
