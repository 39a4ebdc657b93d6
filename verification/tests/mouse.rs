use sdl_layer::event::mouse::{
    MouseButton, MouseButtonEvent, MouseEvent, MouseMotionEvent, MouseWheelEvent, RawMouseButton,
    RawMouseMotion, RawMouseWheel,
};
use sdl_layer::geo::Point;

#[test]
fn codes_one_to_five_are_the_five_buttons() {
    assert_eq!(MouseButton::from_bits(1), Some(MouseButton::Left));
    assert_eq!(MouseButton::from_bits(2), Some(MouseButton::Middle));
    assert_eq!(MouseButton::from_bits(3), Some(MouseButton::Right));
    assert_eq!(MouseButton::from_bits(4), Some(MouseButton::X1));
    assert_eq!(MouseButton::from_bits(5), Some(MouseButton::X2));
}

#[test]
fn zero_and_six_upwards_are_no_button() {
    assert_eq!(MouseButton::from_bits(0), None);
    for bits in 6..=255u8 {
        assert_eq!(MouseButton::from_bits(bits), None);
    }
}

#[test]
fn motion_event_takes_over_the_record() {
    let raw = RawMouseMotion {
        timestamp: 1200,
        window_id: 3,
        which: 7,
        state: 1,
        x: 40,
        y: -2,
        xrel: -5,
        yrel: 6,
    };
    assert_eq!(
        MouseMotionEvent::from(raw),
        MouseMotionEvent {
            timestamp: 1200,
            window_id: 3,
            mouse_id: 7,
            button: Some(MouseButton::Left),
            pos: Point { x: 40, y: -2 },
            move_amount: Point { x: -5, y: 6 },
        }
    );
}

#[test]
fn motion_event_without_button() {
    let raw = RawMouseMotion {
        timestamp: 0,
        window_id: 0,
        which: 0,
        state: 0,
        x: 0,
        y: 0,
        xrel: 0,
        yrel: 0,
    };
    assert_eq!(MouseMotionEvent::from(raw).button, None);
}

#[test]
fn motion_event_reads_the_lowest_byte_of_the_state() {
    let mut raw = RawMouseMotion {
        timestamp: 9,
        window_id: 1,
        which: 0,
        state: 0x0000_0103,
        x: 1,
        y: 2,
        xrel: 3,
        yrel: 4,
    };
    assert_eq!(MouseMotionEvent::from(raw).button, Some(MouseButton::Right));
    raw.state = 0xffff_ff05;
    assert_eq!(MouseMotionEvent::from(raw).button, Some(MouseButton::X2));
    raw.state = 0x0000_0100;
    assert_eq!(MouseMotionEvent::from(raw).button, None);
    raw.state = 16;
    assert_eq!(MouseMotionEvent::from(raw).button, None);
}

#[test]
fn button_event_takes_over_the_record() {
    let raw = RawMouseButton {
        timestamp: 77,
        window_id: 2,
        which: 1,
        button: 3,
        state: 1,
        clicks: 2,
        x: 10,
        y: 20,
    };
    assert_eq!(
        MouseButtonEvent::from(raw),
        MouseButtonEvent {
            timestamp: 77,
            window_id: 2,
            mouse_id: 1,
            button: Some(MouseButton::Right),
            is_pressed: true,
            clicks: 2,
            pos: Point { x: 10, y: 20 },
        }
    );
}

#[test]
fn button_event_released_and_unknown_button() {
    let raw = RawMouseButton {
        timestamp: 78,
        window_id: 2,
        which: 1,
        button: 9,
        state: 0,
        clicks: 1,
        x: -1,
        y: -1,
    };
    let event = MouseButtonEvent::from(raw);
    assert_eq!(event.button, None);
    assert!(!event.is_pressed);
    assert_eq!(event.clicks, 1);
    assert_eq!(event.pos, Point { x: -1, y: -1 });
}

#[test]
fn button_event_is_pressed_only_for_the_pressed_code() {
    let mut raw = RawMouseButton {
        timestamp: 0,
        window_id: 0,
        which: 0,
        button: 1,
        state: 2,
        clicks: 0,
        x: 0,
        y: 0,
    };
    assert!(!MouseButtonEvent::from(raw).is_pressed);
    raw.state = 1;
    assert!(MouseButtonEvent::from(raw).is_pressed);
}

#[test]
fn wheel_event_takes_over_the_record() {
    let raw = RawMouseWheel { timestamp: 5, window_id: 6, which: 7, x: -1, y: 3, direction: 0 };
    assert_eq!(
        MouseWheelEvent::from(raw),
        MouseWheelEvent {
            timestamp: 5,
            window_id: 6,
            mouse_id: 7,
            scroll_amount: Point { x: -1, y: 3 },
            is_flipped: false,
        }
    );
}

#[test]
fn wheel_event_flipped() {
    let raw = RawMouseWheel { timestamp: 5, window_id: 6, which: 7, x: 0, y: -3, direction: 1 };
    assert!(MouseWheelEvent::from(raw).is_flipped);
    let other = RawMouseWheel { timestamp: 5, window_id: 6, which: 7, x: 0, y: -3, direction: 2 };
    assert!(!MouseWheelEvent::from(other).is_flipped);
}

#[test]
fn mouse_event_wraps_each_kind() {
    let wheel = MouseWheelEvent::from(RawMouseWheel {
        timestamp: 1,
        window_id: 1,
        which: 1,
        x: 0,
        y: 1,
        direction: 0,
    });
    let event = MouseEvent::Wheel(wheel);
    assert!(matches!(event, MouseEvent::Wheel(inner) if inner == wheel));
    assert_ne!(
        event,
        MouseEvent::Button(MouseButtonEvent::from(RawMouseButton {
            timestamp: 1,
            window_id: 1,
            which: 1,
            button: 1,
            state: 1,
            clicks: 1,
            x: 0,
            y: 0,
        }))
    );
}
