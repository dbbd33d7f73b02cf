use input::MouseButton;
use input_state::{ButtonDownPosition, ButtonMap, Point, NUM_MOUSE_BUTTONS};

fn point(x: f64, y: f64) -> Point {
    Point::from_bits(x.to_bits(), y.to_bits())
}

fn all_buttons() -> [MouseButton; 9] {
    [
        MouseButton::Unknown,
        MouseButton::Left,
        MouseButton::Right,
        MouseButton::Middle,
        MouseButton::X1,
        MouseButton::X2,
        MouseButton::Button6,
        MouseButton::Button7,
        MouseButton::Button8,
    ]
}

#[test]
fn pressed_button_returns_none_if_no_buttons_are_pressed() {
    let map = ButtonMap::new();
    let pressed = map.pressed_button();
    assert!(pressed.is_none());
}

#[test]
fn pressed_button_should_return_first_pressed_button() {
    let mut map = ButtonMap::new();

    map.set(MouseButton::Right, Some(point(3.0, 3.0)));
    map.set(MouseButton::X1, Some(point(5.4, 4.5)));

    let pressed = map.pressed_button();
    assert_eq!(Some((MouseButton::Right, point(3.0, 3.0))), pressed);
}

#[test]
fn button_down_should_store_the_point() {
    let mut map = ButtonMap::new();
    let point: ButtonDownPosition = Some(point(2.0, 5.0));
    map.set(MouseButton::Left, point);

    assert_eq!(point, map.get(MouseButton::Left));
}

#[test]
fn take_resets_and_returns_current_state() {
    let mut map = ButtonMap::new();
    let point: ButtonDownPosition = Some(point(2.0, 5.0));
    map.set(MouseButton::Left, point);

    let taken = map.take(MouseButton::Left);
    assert_eq!(point, taken);
    assert!(map.get(MouseButton::Left).is_none());
}

#[test]
fn there_is_one_slot_for_each_button() {
    assert_eq!(NUM_MOUSE_BUTTONS, 9);
    assert_eq!(all_buttons().len(), NUM_MOUSE_BUTTONS);
}

#[test]
fn point_keeps_the_bit_patterns_it_was_made_of() {
    let p = Point::from_bits(5.4f64.to_bits(), (-4.5f64).to_bits());
    assert_eq!(p.x, 0x4015_9999_9999_999A);
    assert_eq!(p.y, 0xC012_0000_0000_0000);
    assert_eq!(f64::from_bits(p.x), 5.4);
    assert_eq!(f64::from_bits(p.y), -4.5);
}

#[test]
fn origin_has_both_coordinates_zero() {
    let origin = Point::origin();
    assert_eq!(origin, Point::from_bits(0, 0));
    assert_eq!(f64::from_bits(origin.x), 0.0);
    assert_eq!(f64::from_bits(origin.y), 0.0);
    assert!(f64::from_bits(origin.x).is_sign_positive());
}

#[test]
fn fresh_map_has_no_button_down() {
    let map = ButtonMap::new();
    for button in all_buttons() {
        assert_eq!(map.get(button), None);
    }
    assert_eq!(map.pressed_button(), None);
}

#[test]
fn set_then_get_returns_what_was_set() {
    for button in all_buttons() {
        let mut map = ButtonMap::new();
        map.set(button, Some(point(1.5, -2.5)));
        assert_eq!(map.get(button), Some(point(1.5, -2.5)));
        map.set(button, None);
        assert_eq!(map.get(button), None);
    }
}

#[test]
fn set_overwrites_an_earlier_press() {
    let mut map = ButtonMap::new();
    map.set(MouseButton::Middle, Some(point(1.0, 1.0)));
    map.set(MouseButton::Middle, Some(point(7.0, 8.0)));
    assert_eq!(map.get(MouseButton::Middle), Some(point(7.0, 8.0)));
}

#[test]
fn set_leaves_the_other_buttons_alone() {
    let buttons = all_buttons();
    for (i, &button) in buttons.iter().enumerate() {
        let mut map = ButtonMap::new();
        map.set(button, Some(point(i as f64, 0.0)));
        for (j, &other) in buttons.iter().enumerate() {
            if i != j {
                assert_eq!(map.get(other), None);
            }
        }
    }
}

#[test]
fn each_button_has_a_slot_of_its_own() {
    let buttons = all_buttons();
    let mut map = ButtonMap::new();
    for (i, &button) in buttons.iter().enumerate() {
        map.set(button, Some(point(i as f64, -(i as f64))));
    }
    for (i, &button) in buttons.iter().enumerate() {
        assert_eq!(map.get(button), Some(point(i as f64, -(i as f64))));
    }
}

#[test]
fn take_returns_the_state_before_the_call() {
    let mut map = ButtonMap::new();
    assert_eq!(map.take(MouseButton::X2), None);
    assert_eq!(map.get(MouseButton::X2), None);

    map.set(MouseButton::X2, Some(point(9.0, 9.5)));
    map.set(MouseButton::Left, Some(point(1.0, 2.0)));
    assert_eq!(map.take(MouseButton::X2), Some(point(9.0, 9.5)));
    assert_eq!(map.get(MouseButton::X2), None);
    assert_eq!(map.take(MouseButton::X2), None);
    assert_eq!(map.get(MouseButton::Left), Some(point(1.0, 2.0)));
}

#[test]
fn pressed_button_follows_the_order_of_the_identities() {
    let buttons = all_buttons();
    for (i, &button) in buttons.iter().enumerate() {
        assert_eq!(u32::from(button) as usize, i);
        let mut map = ButtonMap::new();
        for &later in buttons[i..].iter().rev() {
            map.set(later, Some(point(u32::from(later) as f64, 0.5)));
        }
        assert_eq!(map.pressed_button(), Some((button, point(i as f64, 0.5))));
    }
}

#[test]
fn pressed_button_moves_on_when_the_first_is_released() {
    let mut map = ButtonMap::new();
    map.set(MouseButton::Button8, Some(point(8.0, 8.0)));
    map.set(MouseButton::Unknown, Some(point(0.25, 0.75)));
    assert_eq!(map.pressed_button(), Some((MouseButton::Unknown, point(0.25, 0.75))));
    map.set(MouseButton::Unknown, None);
    assert_eq!(map.pressed_button(), Some((MouseButton::Button8, point(8.0, 8.0))));
    assert_eq!(map.take(MouseButton::Button8), Some(point(8.0, 8.0)));
    assert_eq!(map.pressed_button(), None);
}

#[test]
fn a_copy_of_a_map_is_independent() {
    let mut map = ButtonMap::new();
    map.set(MouseButton::Left, Some(point(1.0, 1.0)));
    let copy = map;
    map.set(MouseButton::Left, None);
    assert_eq!(copy.get(MouseButton::Left), Some(point(1.0, 1.0)));
    assert_eq!(map.get(MouseButton::Left), None);
    assert_ne!(copy, map);
}
