use processing_render::render::batch::{BatchStart, Batcher, SoloDraw};
use processing_render::render::material_key::MaterialKey;

fn flat(transparent: bool) -> MaterialKey {
    MaterialKey::Color { transparent, blend_state: None }
}

#[test]
fn same_key_draws_share_one_batch() {
    let mut b = Batcher::new();
    assert_eq!(b.add_tessellated(flat(false), false, false), BatchStart { flushed: None, started: true });
    assert_eq!(b.add_tessellated(flat(false), false, false), BatchStart { flushed: None, started: false });
    assert_eq!(b.add_tessellated(flat(false), false, false), BatchStart { flushed: None, started: false });
    assert_eq!(b.flush(), Some(0));
    assert_eq!(b.draw_index, 1);
    assert_eq!(b.key, None);
}

#[test]
fn a_new_key_or_transform_flushes_the_batch() {
    let mut b = Batcher::new();
    b.add_tessellated(flat(false), false, false);
    assert_eq!(b.add_tessellated(flat(true), false, false), BatchStart { flushed: Some(0), started: true });
    assert_eq!(b.add_tessellated(flat(true), true, false), BatchStart { flushed: Some(1), started: true });
    assert_eq!(b.key, Some(flat(true)));
    assert!(b.open);
    assert_eq!(b.draw_index, 2);
}

#[test]
fn a_blend_state_keeps_draws_apart() {
    let mut b = Batcher::new();
    b.add_tessellated(flat(false), false, true);
    assert_eq!(b.add_tessellated(flat(false), false, true), BatchStart { flushed: Some(0), started: true });
}

#[test]
fn solo_draws_flush_and_take_the_next_index() {
    let mut b = Batcher::new();
    assert_eq!(b.add_solo(), SoloDraw { flushed: None, index: 0 });
    b.add_tessellated(flat(false), false, false);
    assert_eq!(b.add_solo(), SoloDraw { flushed: Some(1), index: 2 });
    assert_eq!(b.draw_index, 3);
    assert!(!b.open);
    assert_eq!(b.flush(), None);
    assert_eq!(b.draw_index, 3);
}

#[test]
fn flushing_an_empty_planner_hands_out_nothing() {
    let mut b = Batcher::new();
    assert_eq!(b.flush(), None);
    assert_eq!(b.flush(), None);
    assert_eq!(b.draw_index, 0);
}
