use std::time::Duration;

use ainput::touch::{execution_steps, plan_execution, ControllerStep};
use ainput::{DisplaySize, Point, TouchAction, TouchContext};

#[test]
fn touch_action_down_eq() {
    let a = TouchAction::Down(Point::new(100, 200));
    let b = TouchAction::Down(Point::new(100, 200));
    assert_eq!(a, b);
}

#[test]
fn touch_action_down_neq_different_point() {
    let a = TouchAction::Down(Point::new(100, 200));
    let b = TouchAction::Down(Point::new(300, 400));
    assert_ne!(a, b);
}

#[test]
fn touch_action_move_eq() {
    let a = TouchAction::Move(Point::new(10, 20));
    let b = TouchAction::Move(Point::new(10, 20));
    assert_eq!(a, b);
}

#[test]
fn touch_action_up_eq() {
    assert_eq!(TouchAction::Up, TouchAction::Up);
}

#[test]
fn touch_action_different_variants_neq() {
    let down = TouchAction::Down(Point::new(0, 0));
    let mov = TouchAction::Move(Point::new(0, 0));
    let up = TouchAction::Up;
    assert_ne!(down, mov);
    assert_ne!(down, up);
    assert_ne!(mov, up);
}

#[test]
fn touch_action_clone() {
    let a = TouchAction::Down(Point::new(50, 60));
    let b = a;
    assert_eq!(a, b);
}

#[test]
fn touch_action_copy() {
    let a = TouchAction::Move(Point::new(1, 2));
    let b = a;
    assert_eq!(a, b);
}

#[test]
fn touch_action_debug() {
    let action = TouchAction::Down(Point::new(1, 2));
    let debug = format!("{action:?}");
    assert!(debug.contains("Down"));
    assert!(debug.contains("1"));
    assert!(debug.contains("2"));
}

#[test]
fn touch_context_new() {
    let ctx = TouchContext {
        display_width: 1080,
        display_height: 2400,
    };
    assert_eq!(ctx.display_width, 1080);
    assert_eq!(ctx.display_height, 2400);
}

#[test]
fn touch_context_eq() {
    let a = TouchContext { display_width: 720, display_height: 1600 };
    let b = TouchContext { display_width: 720, display_height: 1600 };
    assert_eq!(a, b);
}

#[test]
fn touch_context_neq() {
    let a = TouchContext { display_width: 720, display_height: 1600 };
    let b = TouchContext { display_width: 1080, display_height: 2400 };
    assert_ne!(a, b);
}

#[test]
fn touch_context_clone() {
    let a = TouchContext { display_width: 100, display_height: 200 };
    let b = a;
    assert_eq!(a, b);
}

#[test]
fn touch_context_copy() {
    let a = TouchContext { display_width: 50, display_height: 60 };
    let b = a;
    assert_eq!(a, b);
}

#[test]
fn touch_context_debug() {
    let ctx = TouchContext { display_width: 720, display_height: 1600 };
    let debug = format!("{ctx:?}");
    assert!(debug.contains("720"));
    assert!(debug.contains("1600"));
}

#[test]
fn touch_context_for_display() {
    let ctx = TouchContext::for_display(DisplaySize::new(1080, 2400));
    assert_eq!(ctx, TouchContext { display_width: 1080, display_height: 2400 });
}

#[test]
fn execution_steps_order_and_sleeps() {
    let steps = execution_steps(vec![
        (TouchAction::Down(Point::new(1, 2)), Duration::from_millis(5)),
        (TouchAction::Move(Point::new(3, 4)), Duration::ZERO),
        (TouchAction::Up, Duration::from_millis(7)),
    ]);
    assert_eq!(
        steps,
        vec![
            ControllerStep::Apply(TouchAction::Down(Point::new(1, 2))),
            ControllerStep::Sleep(Duration::from_millis(5)),
            ControllerStep::Apply(TouchAction::Move(Point::new(3, 4))),
            ControllerStep::Apply(TouchAction::Up),
            ControllerStep::Sleep(Duration::from_millis(7)),
        ]
    );
    let mut profile = ainput::HumanProfile::new().with_up_delay(Duration::from_millis(9));
    let steps = plan_execution(&mut profile, TouchAction::Up, DisplaySize::new(720, 1600));
    assert_eq!(steps, vec![ControllerStep::Apply(TouchAction::Up), ControllerStep::Sleep(Duration::from_millis(9))]);
}
