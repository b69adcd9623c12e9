use pixelhost::app::{render_frame, run_iteration, App, DispatchAction, Event, PollPolicy};
use pixelhost::buffer::CreationError;
use pixelhost::input::{
    load_xinput, load_xinput_get_state, load_xinput_set_state, xinput_backend_candidates,
    xinput_get_state, xinput_set_state, ControllerBinding, ControllerError, PollPlan,
};
use pixelhost::window::{dispatch, rect_dimensions, WindowBinding};

#[test]
fn app_construction_enters_running_state() {
    let a = App::new(1, 2, 2).unwrap();
    assert!(a.is_running());
    assert_eq!(a.offsets(), (0, 0));
    assert_eq!(a.instance_id(), 1);
}

#[test]
fn app_construction_rejects_bad_dimensions() {
    assert_eq!(App::new(1, 0, 2).unwrap_err(), CreationError::NonPositiveWidth);
    assert_eq!(App::new(1, 2, -3).unwrap_err(), CreationError::NonPositiveHeight);
}

#[test]
fn close_request_stops_the_loop() {
    let mut a = App::new(1, 2, 2).unwrap();
    let action = a.handle_event(&Event::CloseRequested);
    assert_eq!(action, DispatchAction::NoAction);
    assert!(!a.is_running());
}

#[test]
fn destroy_notification_stops_the_loop() {
    let mut a = App::new(1, 2, 2).unwrap();
    a.handle_event(&Event::Destroyed);
    assert!(!a.is_running());
}

#[test]
fn paint_request_presents_without_rerendering() {
    let mut a = App::new(1, 2, 2).unwrap();
    run_iteration(&mut a, &vec![]);
    let before = a.buffer.bytes().clone();
    let action = a.handle_event(&Event::PaintRequested);
    assert_eq!(action, DispatchAction::Present);
    assert!(a.is_running());
    assert_eq!(a.buffer.bytes(), &before);
}

#[test]
fn activation_change_is_informational() {
    let mut a = App::new(1, 2, 2).unwrap();
    let action = a.handle_event(&Event::ActivationChanged);
    assert_eq!(action, DispatchAction::NoAction);
    assert!(a.is_running());
}

#[test]
fn stop_event_ends_iteration_and_later_iterations_do_nothing() {
    let mut a = App::new(1, 2, 2).unwrap();
    let keep = run_iteration(&mut a, &vec![Event::CloseRequested]);
    assert!(!keep);
    assert!(!a.is_running());
    // the stopping iteration still rendered its frame
    let after_stop = a.buffer.bytes().clone();
    let offsets_after_stop = a.offsets();
    // no further render happens once the loop observed the stop
    let keep2 = run_iteration(&mut a, &vec![]);
    assert!(!keep2);
    assert_eq!(a.buffer.bytes(), &after_stop);
    assert_eq!(a.offsets(), offsets_after_stop);
}

#[test]
fn iteration_advances_offsets_and_renders() {
    let mut a = App::new(1, 2, 2).unwrap();
    let keep = run_iteration(&mut a, &vec![Event::ActivationChanged]);
    assert!(keep);
    assert_eq!(a.offsets(), (1, 1));
    // frame was rendered with the pre-advance offsets (0, 0)
    assert_eq!(a.buffer.byte_at(0), 0);
    assert_eq!(a.buffer.byte_at(4), 1);
}

#[test]
fn payload_returns_to_original_after_256_frames() {
    let mut a = App::new(1, 2, 2).unwrap();
    run_iteration(&mut a, &vec![]);
    let first_frame = a.buffer.bytes().clone();
    let first_offsets = a.offsets();
    for _ in 0..256 {
        run_iteration(&mut a, &vec![]);
    }
    assert_eq!(a.offsets(), first_offsets);
    assert_eq!(a.buffer.bytes(), &first_frame);
}

#[test]
fn blocking_policy_renders_only_on_paint() {
    let mut a = App::with_policy(1, 2, 2, PollPolicy::Blocking).unwrap();
    let before = a.buffer.bytes().clone();
    let keep = run_iteration(&mut a, &vec![Event::ActivationChanged]);
    assert!(keep);
    // no continuous render under the blocking policy
    assert_eq!(a.buffer.bytes(), &before);
    assert_eq!(a.offsets(), (0, 0));
    // the host takes the payload step when a paint is requested
    render_frame(&mut a);
    assert_eq!(a.offsets(), (1, 1));
    assert_eq!(a.buffer.byte_at(4), 1);
}

#[test]
fn blocking_policy_still_observes_stop_events() {
    let mut a = App::with_policy(1, 2, 2, PollPolicy::Blocking).unwrap();
    let keep = run_iteration(&mut a, &vec![Event::Destroyed]);
    assert!(!keep);
    assert!(!a.is_running());
}

#[test]
fn back_reference_resolves_to_same_instance_across_dispatches() {
    let mut a = App::new(42, 2, 2).unwrap();
    let w = WindowBinding::create(a.instance_id());
    assert_eq!(w.resolve_owner(), 42);
    dispatch(&w, &mut a, &Event::ActivationChanged);
    assert_eq!(w.resolve_owner(), a.instance_id());
    dispatch(&w, &mut a, &Event::PaintRequested);
    assert_eq!(w.resolve_owner(), a.instance_id());
    dispatch(&w, &mut a, &Event::CloseRequested);
    assert_eq!(w.resolve_owner(), a.instance_id());
    assert_eq!(w.resolve_owner(), 42);
}

#[test]
fn rect_dimensions_subtracts_edges() {
    assert_eq!(rect_dimensions(10, 20, 110, 220), (100, 200));
    assert_eq!(rect_dimensions(-5, -5, 5, 5), (10, 10));
}

#[test]
fn backend_candidates_are_probed_newest_first() {
    let names = xinput_backend_candidates();
    assert_eq!(
        names,
        vec![
            "xinput1_4.dll",
            "xinput1_3.dll",
            "xinput1_2.dll",
            "xinput1_1.dll",
            "xinput9_1_0.dll",
        ]
    );
}

#[test]
fn poll_without_backend_is_unavailable_on_every_call() {
    let mut b = ControllerBinding::new();
    assert_eq!(
        load_xinput(&mut b, false).unwrap_err(),
        ControllerError::BackendUnavailable
    );
    assert_eq!(xinput_get_state(&b), PollPlan::Unavailable);
    assert_eq!(xinput_get_state(&b), PollPlan::Unavailable);
    assert_eq!(xinput_set_state(&b), PollPlan::Unavailable);
    assert_eq!(xinput_set_state(&b), PollPlan::Unavailable);
}

#[test]
fn backend_probe_is_not_retried() {
    let mut b = ControllerBinding::new();
    assert!(load_xinput(&mut b, false).is_err());
    // a later, would-be-successful probe outcome is ignored: no retry
    assert!(load_xinput(&mut b, true).is_err());
    assert_eq!(xinput_get_state(&b), PollPlan::Unavailable);
}

#[test]
fn fresh_binding_needs_probe_then_resolution() {
    let mut b = ControllerBinding::new();
    assert_eq!(xinput_get_state(&b), PollPlan::NeedsProbe);
    load_xinput(&mut b, true).unwrap();
    assert_eq!(xinput_get_state(&b), PollPlan::NeedsResolution);
    assert_eq!(xinput_set_state(&b), PollPlan::NeedsResolution);
}

#[test]
fn entry_points_resolve_independently_and_once() {
    let mut b = ControllerBinding::new();
    load_xinput(&mut b, true).unwrap();
    load_xinput_get_state(&mut b, true).unwrap();
    assert_eq!(
        load_xinput_set_state(&mut b, false).unwrap_err(),
        ControllerError::EntryPointUnavailable
    );
    assert_eq!(xinput_get_state(&b), PollPlan::Invoke);
    assert_eq!(xinput_set_state(&b), PollPlan::Unavailable);
    // resolution is cached: a second, different outcome changes nothing
    load_xinput_get_state(&mut b, false).unwrap();
    assert!(load_xinput_set_state(&mut b, true).is_err());
    assert_eq!(xinput_get_state(&b), PollPlan::Invoke);
    assert_eq!(xinput_set_state(&b), PollPlan::Unavailable);
}

#[test]
fn resolution_without_backend_is_unavailable() {
    let mut b = ControllerBinding::new();
    assert!(load_xinput(&mut b, false).is_err());
    assert!(load_xinput_get_state(&mut b, true).is_err());
    assert_eq!(xinput_get_state(&b), PollPlan::Unavailable);
}

#[test]
fn controller_error_messages() {
    assert_eq!(
        ControllerError::BackendUnavailable.message(),
        "Failed to load XInput dll"
    );
    assert_eq!(
        ControllerError::EntryPointUnavailable.message(),
        "Failed to load XInput entry point"
    );
}
