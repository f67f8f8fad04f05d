use clap_hot_reloader::wrapper::extensions::gui::{
    plan_host_gui_calls, AtomicGuiSize, GuiApiType, GuiConfiguration, GuiRequests, GuiSize,
    GuiStep, HostGuiCall, PluginGuiRequests, SizeAction, WrapperGui,
};

const EMBEDDED: GuiConfiguration =
    GuiConfiguration { api_type: GuiApiType::X11, is_floating: false };
const FLOATING: GuiConfiguration =
    GuiConfiguration { api_type: GuiApiType::Cocoa, is_floating: true };

fn none_waiting() -> GuiRequests {
    GuiRequests {
        resize_hints_changed: false,
        resize_requested: None,
        show_requested: false,
        hide_requested: false,
        closed: false,
        destroyed: false,
    }
}

#[test]
fn window_that_never_existed_is_not_transferred() {
    let gui = WrapperGui::<u32>::new(true);
    assert_eq!(gui.transfer_gui(true, true), vec![]);
    assert_eq!(gui.transfer_gui(false, false), vec![]);
}

#[test]
fn embedded_window_is_rebuilt_with_scale_size_and_parent() {
    let mut gui = WrapperGui::<u32>::new(true);
    gui.create(EMBEDDED);
    gui.set_scale(2.0f64.to_bits());
    gui.set_size(GuiSize { width: 640, height: 480 });
    gui.set_parent(77);
    gui.set_shown(true);
    assert_eq!(
        gui.transfer_gui(true, true),
        vec![
            GuiStep::HideOld,
            GuiStep::DestroyOld,
            GuiStep::Create(EMBEDDED),
            GuiStep::SetScale(2.0f64.to_bits()),
            GuiStep::FitSize,
            GuiStep::SetParent(77),
            GuiStep::Show,
        ]
    );
}

#[test]
fn floating_window_is_rebuilt_with_transient_and_title() {
    let mut gui = WrapperGui::<u32>::new(false);
    gui.create(FLOATING);
    gui.set_transient(5);
    gui.suggest_title(String::from("Synth"));
    // What belongs to an embedded window is left aside.
    gui.set_scale(1.5f64.to_bits());
    gui.set_parent(9);
    assert_eq!(
        gui.transfer_gui(true, true),
        vec![
            GuiStep::DestroyOld,
            GuiStep::Create(FLOATING),
            GuiStep::SetTransient(5),
            GuiStep::SuggestTitle(String::from("Synth")),
        ]
    );
}

#[test]
fn only_what_was_set_is_applied_again() {
    let mut gui = WrapperGui::<u32>::new(true);
    gui.create(EMBEDDED);
    assert_eq!(
        gui.transfer_gui(true, true),
        vec![GuiStep::DestroyOld, GuiStep::Create(EMBEDDED), GuiStep::FitSize]
    );
    let mut floating = WrapperGui::<u32>::new(true);
    floating.create(FLOATING);
    floating.set_shown(true);
    assert_eq!(
        floating.transfer_gui(true, true),
        vec![GuiStep::HideOld, GuiStep::DestroyOld, GuiStep::Create(FLOATING), GuiStep::Show]
    );
}

#[test]
fn instance_without_window_extension_gets_no_call() {
    let mut gui = WrapperGui::<u32>::new(true);
    gui.create(EMBEDDED);
    gui.set_shown(true);
    assert_eq!(gui.transfer_gui(true, false), vec![GuiStep::HideOld, GuiStep::DestroyOld]);
    assert_eq!(
        gui.transfer_gui(false, true),
        vec![GuiStep::Create(EMBEDDED), GuiStep::FitSize, GuiStep::Show]
    );
    assert_eq!(gui.transfer_gui(false, false), vec![]);
}

#[test]
fn destroyed_window_is_forgotten() {
    let mut gui = WrapperGui::<u32>::new(true);
    gui.create(EMBEDDED);
    gui.set_size(GuiSize { width: 1, height: 1 });
    gui.set_parent(3);
    gui.set_shown(true);
    gui.destroy();
    assert_eq!(gui.transfer_gui(true, true), vec![]);
    gui.create(EMBEDDED);
    assert_eq!(
        gui.transfer_gui(true, true),
        vec![GuiStep::DestroyOld, GuiStep::Create(EMBEDDED), GuiStep::FitSize]
    );
    assert_eq!(gui.fit_size(true, None), SizeAction::Leave);
    gui.set_shown(true);
    gui.set_shown(false);
    gui.reset();
    assert_eq!(gui.transfer_gui(true, true), vec![]);
}

#[test]
fn size_is_set_where_the_plugin_can_resize() {
    let mut gui = WrapperGui::<u32>::new(true);
    let size = GuiSize { width: 800, height: 600 };
    let reported = GuiSize { width: 320, height: 200 };
    assert_eq!(gui.fit_size(true, Some(reported)), SizeAction::Leave);
    gui.set_size(size);
    assert_eq!(gui.fit_size(true, Some(reported)), SizeAction::SetSize(size));
    assert_eq!(gui.fit_size(true, None), SizeAction::SetSize(size));
}

#[test]
fn host_is_asked_to_resize_where_the_plugin_cannot() {
    let mut gui = WrapperGui::<u32>::new(true);
    gui.set_size(GuiSize { width: 800, height: 600 });
    let reported = GuiSize { width: 320, height: 200 };
    assert_eq!(gui.fit_size(false, Some(reported)), SizeAction::RequestHostResize(reported));
    assert_eq!(gui.fit_size(false, None), SizeAction::Leave);
    let mut hostless = WrapperGui::<u32>::new(false);
    hostless.set_size(GuiSize { width: 800, height: 600 });
    assert_eq!(hostless.fit_size(false, Some(reported)), SizeAction::Leave);
}

#[test]
fn stored_size_comes_back_as_it_went_in() {
    for (width, height) in [(0u32, 1u32), (640, 480), (u32::MAX, 7), (1, u32::MAX - 1)] {
        let size = GuiSize { width, height };
        assert_eq!(AtomicGuiSize::from_gui_size(size).to_gui_size(), size);
    }
}

#[test]
fn stored_size_keeps_a_height_of_zero() {
    let flat = GuiSize { width: 10, height: 0 };
    assert_eq!(AtomicGuiSize::from_gui_size(flat).to_gui_size(), flat);
}

#[test]
fn largest_height_comes_back_as_zero() {
    let tall = GuiSize { width: 10, height: u32::MAX };
    assert_eq!(
        AtomicGuiSize::from_gui_size(tall).to_gui_size(),
        GuiSize { width: 10, height: 0 }
    );
}

#[test]
fn requests_are_passed_on_in_order() {
    let requests = GuiRequests {
        resize_hints_changed: true,
        resize_requested: Some(AtomicGuiSize::from_gui_size(GuiSize { width: 3, height: 4 })),
        show_requested: true,
        hide_requested: true,
        closed: true,
        destroyed: false,
    };
    assert_eq!(
        plan_host_gui_calls(&requests, true),
        vec![
            HostGuiCall::RequestResize(GuiSize { width: 3, height: 4 }),
            HostGuiCall::RequestShow,
            HostGuiCall::RequestHide,
            HostGuiCall::ResizeHintsChanged,
            HostGuiCall::Closed { was_destroyed: false },
        ]
    );
    assert_eq!(plan_host_gui_calls(&requests, false), vec![]);
}

#[test]
fn destroyed_window_is_reported_alone() {
    let requests = GuiRequests {
        resize_hints_changed: true,
        resize_requested: Some(AtomicGuiSize::from_gui_size(GuiSize { width: 3, height: 4 })),
        show_requested: true,
        hide_requested: true,
        closed: true,
        destroyed: true,
    };
    assert_eq!(
        plan_host_gui_calls(&requests, true),
        vec![HostGuiCall::Closed { was_destroyed: true }]
    );
    assert_eq!(plan_host_gui_calls(&requests, false), vec![]);
}

#[test]
fn single_requests_give_single_calls() {
    assert_eq!(plan_host_gui_calls(&none_waiting(), true), vec![]);
    let show = GuiRequests { show_requested: true, ..none_waiting() };
    assert_eq!(plan_host_gui_calls(&show, true), vec![HostGuiCall::RequestShow]);
    let hints = GuiRequests { resize_hints_changed: true, ..none_waiting() };
    assert_eq!(plan_host_gui_calls(&hints, true), vec![HostGuiCall::ResizeHintsChanged]);
    let closed = GuiRequests { closed: true, ..none_waiting() };
    assert_eq!(
        plan_host_gui_calls(&closed, true),
        vec![HostGuiCall::Closed { was_destroyed: false }]
    );
}

#[test]
fn waiting_requests_are_collected_once() {
    let requests = PluginGuiRequests::new();
    assert_eq!(requests.process_requests(true), vec![]);
    requests.request_resize(GuiSize { width: 100, height: 0 });
    requests.request_show();
    requests.resize_hints_changed();
    assert_eq!(
        requests.process_requests(true),
        vec![
            HostGuiCall::RequestResize(GuiSize { width: 100, height: 0 }),
            HostGuiCall::RequestShow,
            HostGuiCall::ResizeHintsChanged,
        ]
    );
    assert_eq!(requests.process_requests(true), vec![]);
}

#[test]
fn later_resize_request_replaces_the_earlier() {
    let requests = PluginGuiRequests::new();
    requests.request_resize(GuiSize { width: 1, height: 1 });
    requests.request_resize(GuiSize { width: 2, height: 2 });
    assert_eq!(
        requests.process_requests(true),
        vec![HostGuiCall::RequestResize(GuiSize { width: 2, height: 2 })]
    );
}

#[test]
fn requests_are_cleared_even_without_a_host_window_extension() {
    let requests = PluginGuiRequests::new();
    requests.request_hide();
    requests.closed(false);
    assert_eq!(requests.process_requests(false), vec![]);
    assert_eq!(requests.process_requests(true), vec![]);
}

#[test]
fn closed_and_destroyed_are_told_apart() {
    let requests = PluginGuiRequests::new();
    requests.closed(false);
    assert_eq!(requests.process_requests(true), vec![HostGuiCall::Closed { was_destroyed: false }]);
    requests.request_show();
    requests.closed(true);
    assert_eq!(requests.process_requests(true), vec![HostGuiCall::Closed { was_destroyed: true }]);
    let taken = requests.take();
    assert!(!taken.destroyed && !taken.show_requested && !taken.closed);
}
