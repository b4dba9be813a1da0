use punter::scene::Scene;
use punter::shot::Shot;

#[test]
fn shot_new_stores_dimensions() {
    let shot = Shot::new(1024, 768, Scene {});
    assert_eq!(shot.width_px, 1024);
    assert_eq!(shot.height_px, 768);
}

#[test]
fn shot_new_keeps_scene() {
    let scene = Scene {};
    let shot = Shot::new(1, 1, scene);
    assert!(shot.scene == scene);
}
