use bevy_math::{Affine3A, Vec3};
use processing_render::render::style::StyleStack;
use processing_render::render::transform::{StackOp, TransformStack};

const EPSILON: f32 = 1e-5;

fn approx_eq(a: f32, b: f32) -> bool {
    (a - b).abs() < EPSILON
}

fn apply(stack: &mut TransformStack<Affine3A>, t: Affine3A) {
    let m = stack.current() * t;
    stack.set_current(m);
}

fn transform_point_2d(stack: &TransformStack<Affine3A>, x: f32, y: f32) -> (f32, f32) {
    let p = stack.current().transform_point3(Vec3::new(x, y, 0.0));
    (p.x, p.y)
}

#[test]
fn test_identity() {
    let stack = TransformStack::new(Affine3A::IDENTITY);
    let (x, y) = transform_point_2d(&stack, 10.0, 20.0);
    assert!(approx_eq(x, 10.0));
    assert!(approx_eq(y, 20.0));
}

#[test]
fn test_translate() {
    let mut stack = TransformStack::new(Affine3A::IDENTITY);
    apply(&mut stack, Affine3A::from_translation(Vec3::new(100.0, 50.0, 0.0)));
    let (x, y) = transform_point_2d(&stack, 10.0, 20.0);
    assert!(approx_eq(x, 110.0));
    assert!(approx_eq(y, 70.0));
}

#[test]
fn test_scale() {
    let mut stack = TransformStack::new(Affine3A::IDENTITY);
    apply(&mut stack, Affine3A::from_scale(Vec3::new(2.0, 3.0, 1.0)));
    let (x, y) = transform_point_2d(&stack, 10.0, 10.0);
    assert!(approx_eq(x, 20.0));
    assert!(approx_eq(y, 30.0));
}

#[test]
fn test_rotate_90() {
    let mut stack = TransformStack::new(Affine3A::IDENTITY);
    apply(&mut stack, Affine3A::from_rotation_z(std::f32::consts::PI / 2.0));
    let (x, y) = transform_point_2d(&stack, 10.0, 0.0);
    assert!(approx_eq(x, 0.0));
    assert!(approx_eq(y, 10.0));
}

#[test]
fn test_push_pop() {
    let mut stack = TransformStack::new(Affine3A::IDENTITY);
    apply(&mut stack, Affine3A::from_translation(Vec3::new(100.0, 100.0, 0.0)));
    stack.push();
    apply(&mut stack, Affine3A::from_translation(Vec3::new(50.0, 50.0, 0.0)));

    let (x, y) = transform_point_2d(&stack, 0.0, 0.0);
    assert!(approx_eq(x, 150.0));
    assert!(approx_eq(y, 150.0));

    stack.pop();

    let (x, y) = transform_point_2d(&stack, 0.0, 0.0);
    assert!(approx_eq(x, 100.0));
    assert!(approx_eq(y, 100.0));
}

#[test]
fn test_pop_empty_is_noop() {
    let mut stack = TransformStack::new(Affine3A::IDENTITY);
    apply(&mut stack, Affine3A::from_translation(Vec3::new(50.0, 50.0, 0.0)));
    stack.pop();
    let (x, y) = transform_point_2d(&stack, 0.0, 0.0);
    assert!(approx_eq(x, 50.0));
    assert!(approx_eq(y, 50.0));
}

#[test]
fn integer_stack_push_set_pop_restores() {
    let mut stack: TransformStack<u32> = TransformStack::new(0);
    stack.set_current(7);
    stack.push();
    stack.set_current(9);
    stack.push();
    stack.set_current(11);
    stack.pop();
    assert_eq!(stack.current(), 9);
    stack.pop();
    assert_eq!(stack.current(), 7);
    stack.pop();
    assert_eq!(stack.current(), 7);
}

#[test]
fn reset_keeps_saved_and_clear_drops_them() {
    let mut stack: TransformStack<u32> = TransformStack::new(0);
    stack.set_current(5);
    stack.push();
    stack.reset(0);
    assert_eq!(stack.current(), 0);
    stack.pop();
    assert_eq!(stack.current(), 5);

    stack.push();
    stack.set_current(6);
    stack.clear(0);
    assert_eq!(stack.current(), 0);
    stack.pop();
    assert_eq!(stack.current(), 0);
}

#[test]
fn style_push_pop_restores_a_copy() {
    let mut styles = StyleStack::new(String::from("base"));
    styles.push();
    styles.set_style(String::from("changed"));
    assert_eq!(styles.style(), "changed");
    styles.pop();
    assert_eq!(styles.style(), "base");
    styles.pop();
    assert_eq!(styles.style(), "base");
}

#[test]
fn style_clear_saved_keeps_the_current_style() {
    let mut styles = StyleStack::new(1u8);
    styles.push();
    styles.set_style(2);
    styles.clear_saved();
    assert_eq!(*styles.style(), 2);
    styles.pop();
    assert_eq!(*styles.style(), 2);
}

#[test]
fn push_balanced_calls_pop_restores_the_stack() {
    let mut stack: TransformStack<u32> = TransformStack::new(0);
    stack.set_current(3);
    stack.push();
    stack.set_current(8);
    stack.push();
    stack.apply_op(StackOp::Push);
    stack.apply_op(StackOp::SetCurrent(5));
    stack.apply_op(StackOp::Push);
    stack.apply_op(StackOp::Reset(0));
    stack.apply_op(StackOp::Pop);
    stack.apply_op(StackOp::Pop);
    assert_eq!(stack.current(), 8);
    stack.pop();
    assert_eq!(stack.current(), 8);
    stack.pop();
    assert_eq!(stack.current(), 3);
}
