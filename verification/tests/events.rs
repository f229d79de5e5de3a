use hello_vulkan::events::ControlFlow;
use hello_vulkan::events::Event;
use hello_vulkan::events::WindowEvent;
use hello_vulkan::events::control_flow_for;
use hello_vulkan::events::run_loop;

#[test]
fn close_event_breaks() {
    let cf = control_flow_for(&Event::Window(WindowEvent::Closed));
    assert_eq!(cf, ControlFlow::Break);
}

#[test]
fn other_events_continue() {
    assert_eq!(
        control_flow_for(&Event::Window(WindowEvent::Resized(800, 600))),
        ControlFlow::Continue
    );
    assert_eq!(
        control_flow_for(&Event::Window(WindowEvent::Moved(10, -5))),
        ControlFlow::Continue
    );
    assert_eq!(
        control_flow_for(&Event::Window(WindowEvent::Focused(true))),
        ControlFlow::Continue
    );
    assert_eq!(
        control_flow_for(&Event::Window(WindowEvent::Other)),
        ControlFlow::Continue
    );
    assert_eq!(control_flow_for(&Event::Other), ControlFlow::Continue);
}

#[test]
fn loop_stops_at_first_close() {
    let events = vec![
        Event::Other,
        Event::Window(WindowEvent::Resized(640, 480)),
        Event::Window(WindowEvent::Closed),
        Event::Window(WindowEvent::Closed),
        Event::Other,
    ];
    assert_eq!(run_loop(&events), Some(2));
}

#[test]
fn loop_keeps_running_without_close() {
    let events = vec![
        Event::Window(WindowEvent::Focused(false)),
        Event::Window(WindowEvent::Moved(0, 0)),
        Event::Other,
    ];
    assert_eq!(run_loop(&events), None);
}

#[test]
fn loop_on_empty_stream_keeps_running() {
    assert_eq!(run_loop(&Vec::new()), None);
}
