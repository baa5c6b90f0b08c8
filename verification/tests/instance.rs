use clack_core::extension::ExtensionDescriptor;
use clack_core::instance::GuiError;
use clack_core::instance::GuiPhase;
use clack_core::instance::InstanceState;
use clack_core::instance::LifecycleError;
use clack_core::instance::PluginInstance;
use clack_core::instance::RunMode;
use clack_core::instance::drain_floating;
use clack_core::instance::drain_headless;
use clack_core::instance::select_run_mode;
use clack_core::msg::MainThreadMessage;
use clack_core::msg::MessageQueue;
use clack_core::timer::TimerError;

const GUI_ID: &[u8] = b"clap.gui";
const AUDIO_PORTS_ID: &[u8] = b"clap.audio-ports";
const TIMER_ID: &[u8] = b"clap.timer-support";

fn plugin_with_gui() -> Vec<ExtensionDescriptor> {
    vec![
        ExtensionDescriptor { identifier: GUI_ID.to_vec(), interface: 11 },
        ExtensionDescriptor { identifier: AUDIO_PORTS_ID.to_vec(), interface: 22 },
        ExtensionDescriptor { identifier: TIMER_ID.to_vec(), interface: 33 },
    ]
}

fn instantiate_with_gui() -> PluginInstance {
    PluginInstance::instantiate(&plugin_with_gui(), GUI_ID, AUDIO_PORTS_ID, TIMER_ID, false)
}

fn instantiate_headless() -> PluginInstance {
    PluginInstance::instantiate(&Vec::new(), GUI_ID, AUDIO_PORTS_ID, TIMER_ID, false)
}

#[test]
fn discovery_caches_the_plugin_capabilities() {
    let instance = instantiate_with_gui();
    assert_eq!(instance.state(), InstanceState::Instantiated);
    assert_eq!(instance.shared().gui, Some(11));
    assert_eq!(instance.shared().audio_ports, Some(22));
    assert_eq!(instance.needs_floating(), Some(false));
}

#[test]
fn discovery_of_an_absent_capability_is_not_an_error() {
    let instance = instantiate_headless();
    assert_eq!(instance.shared().gui, None);
    assert_eq!(instance.shared().audio_ports, None);
    assert_eq!(instance.needs_floating(), None);
}

#[test]
fn lifecycle_happy_path() {
    let mut instance = instantiate_with_gui();
    assert_eq!(instance.activate(), Ok(()));
    assert_eq!(instance.state(), InstanceState::Activated);
    assert_eq!(instance.deactivate(), Ok(()));
    assert_eq!(instance.state(), InstanceState::Instantiated);
    assert_eq!(instance.activate(), Ok(()));
    assert_eq!(instance.deactivate(), Ok(()));
    assert_eq!(instance.destroy(), Ok(()));
    assert_eq!(instance.state(), InstanceState::Destroyed);
}

#[test]
fn misordered_transitions_are_typed_failures() {
    let mut instance = instantiate_with_gui();
    assert_eq!(instance.deactivate(), Err(LifecycleError::NotActivated));
    assert_eq!(instance.activate(), Ok(()));
    assert_eq!(instance.activate(), Err(LifecycleError::AlreadyActivated));
    assert_eq!(instance.destroy(), Err(LifecycleError::StillActive));
    assert_eq!(instance.deactivate(), Ok(()));
    assert_eq!(instance.destroy(), Ok(()));
    assert_eq!(instance.destroy(), Err(LifecycleError::Destroyed));
    assert_eq!(instance.activate(), Err(LifecycleError::Destroyed));
    assert_eq!(instance.deactivate(), Err(LifecycleError::Destroyed));
}

#[test]
fn gui_teardown_is_guarded_against_double_destroy() {
    let mut instance = instantiate_with_gui();
    let main = instance.main_thread_mut();
    assert_eq!(main.open_gui(), Ok(()));
    assert_eq!(main.gui().unwrap().phase, GuiPhase::Open);
    assert_eq!(main.open_gui(), Err(GuiError::AlreadyOpen));
    assert!(main.destroy_gui());
    assert!(!main.destroy_gui());
    assert_eq!(main.gui().unwrap().phase, GuiPhase::Destroyed);
    assert_eq!(main.open_gui(), Err(GuiError::NotOpen));
}

#[test]
fn gui_operations_without_a_gui_fail_cleanly() {
    let mut instance = instantiate_headless();
    let main = instance.main_thread_mut();
    assert_eq!(main.open_gui(), Err(GuiError::NotSupported));
    assert!(!main.destroy_gui());
}

#[test]
fn timers_live_on_the_main_thread_view() {
    let mut instance = instantiate_with_gui();
    let main = instance.main_thread_mut();
    assert_eq!(main.timer_support(), Some(33));
    let id = main.register_timer(100).unwrap();
    assert_eq!(main.register_timer(0), Err(TimerError::InvalidPeriod));
    assert!(main.tick_timers(50).is_empty());
    assert_eq!(main.tick_timers(60), vec![id]);
    assert_eq!(main.unregister_timer(id), Ok(()));
    assert_eq!(main.unregister_timer(id), Err(TimerError::UnknownTimer));
    assert!(main.tick_timers(1000).is_empty());
    assert_eq!(main.timers().smallest_duration(), None);
}

#[test]
fn teardown_removes_all_timers() {
    let mut instance = instantiate_with_gui();
    instance.main_thread_mut().register_timer(100).unwrap();
    assert_eq!(instance.destroy(), Ok(()));
    assert_eq!(instance.state(), InstanceState::Destroyed);
}

#[test]
fn run_mode_follows_the_window_preference() {
    assert_eq!(select_run_mode(Some(true)), RunMode::Floating);
    assert_eq!(select_run_mode(Some(false)), RunMode::Embedded);
    assert_eq!(select_run_mode(None), RunMode::Headless);

    let floating = PluginInstance::instantiate(
        &plugin_with_gui(),
        GUI_ID,
        AUDIO_PORTS_ID,
        TIMER_ID,
        true,
    );
    assert_eq!(select_run_mode(floating.needs_floating()), RunMode::Floating);
}

#[test]
fn headless_end_to_end_dispatches_once_then_exits() {
    // A plugin without GUI support selects the headless path.
    let instance = instantiate_headless();
    assert_eq!(select_run_mode(instance.needs_floating()), RunMode::Headless);

    // One callback request arrives before the window-closing notification;
    // draining the disconnected channel dispatches exactly one callback.
    let mut queue = MessageQueue::new();
    queue.send(MainThreadMessage::RunOnMainThread);
    queue.send(MainThreadMessage::WindowClosing);
    assert_eq!(drain_headless(&mut queue), 1);
    assert_eq!(queue.len(), 0);
}

#[test]
fn headless_disconnect_alone_ends_with_no_dispatch() {
    let mut queue = MessageQueue::new();
    assert_eq!(drain_headless(&mut queue), 0);
}

#[test]
fn floating_loop_exits_on_gui_closed_then_tears_down() {
    let mut instance = PluginInstance::instantiate(
        &plugin_with_gui(),
        GUI_ID,
        AUDIO_PORTS_ID,
        TIMER_ID,
        true,
    );
    assert_eq!(select_run_mode(instance.needs_floating()), RunMode::Floating);
    let main = instance.main_thread_mut();
    assert_eq!(main.open_gui(), Ok(()));

    let mut queue = MessageQueue::new();
    queue.send(MainThreadMessage::RunOnMainThread);
    queue.send(MainThreadMessage::Tick);
    queue.send(MainThreadMessage::GuiClosed { was_destroyed: false });
    queue.send(MainThreadMessage::RunOnMainThread);

    // One callback request precedes the close notification; the request
    // enqueued after it is left unconsumed.
    assert_eq!(drain_floating(&mut queue), 1);
    assert_eq!(queue.len(), 1);

    assert!(main.destroy_gui());
    assert!(!main.destroy_gui());
}

#[test]
fn floating_loop_on_disconnect_consumes_everything() {
    let mut queue = MessageQueue::new();
    queue.send(MainThreadMessage::RunOnMainThread);
    queue.send(MainThreadMessage::RunOnMainThread);
    assert_eq!(drain_floating(&mut queue), 2);
    assert_eq!(queue.len(), 0);
}
