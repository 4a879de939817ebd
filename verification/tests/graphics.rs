use bevy_camera::visibility::RenderLayers;
use processing_render::graphics::RenderLayersManager;

#[test]
fn test_layer_reservation() {
    let mut manager = RenderLayersManager::default();
    let layer1 = manager.allocate();
    let layer1_clone = layer1.clone();
    let layer2 = manager.allocate();
    assert_ne!(layer1, layer2);
    manager.free(layer1);
    let layer3 = manager.allocate();
    assert_eq!(layer1_clone, layer3);
}

#[test]
fn allocation_starts_at_layer_one_and_counts_up() {
    let mut manager = RenderLayersManager::default();
    assert_eq!(manager.allocate(), RenderLayers::layer(1));
    assert_eq!(manager.allocate(), RenderLayers::layer(2));
    assert_eq!(manager.allocate(), RenderLayers::layer(3));
    assert!(manager.is_used(2));
    assert!(!manager.is_used(0));
    assert!(!manager.is_used(4));
}

#[test]
fn freeing_a_middle_layer_reuses_it_first() {
    let mut manager = RenderLayersManager::default();
    let _a = manager.allocate();
    let b = manager.allocate();
    let _c = manager.allocate();
    manager.free(b);
    assert!(!manager.is_used(2));
    assert_eq!(manager.allocate(), RenderLayers::layer(2));
    assert_eq!(manager.allocate(), RenderLayers::layer(4));
}

#[test]
fn freeing_the_shared_layer_zero_changes_nothing() {
    let mut manager = RenderLayersManager::default();
    let _a = manager.allocate();
    manager.free(RenderLayers::layer(0));
    assert!(manager.is_used(1));
    assert_eq!(manager.allocate(), RenderLayers::layer(2));
}

#[test]
fn layers_far_out_of_range_are_never_used() {
    let manager = RenderLayersManager::default();
    assert!(!manager.is_used(5000));
}
