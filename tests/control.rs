use entities::control::{handle_event, reset_scene, Command, InputEvent, Key};
use entities::geometry::{Color, Point};
use entities::scene::{plan_frame, remove_marked, FramePlan, SUBSTEPS};
use entities::sprite::{Sprite, DEFAULT_SIZE};
use entities::vector::Vector;

fn spawn(at: Point) -> Sprite {
    let v = Vector::with_tips(at.x, at.y, at.x, at.y, at, at, Color::blue());
    Sprite::new(at, v, v, DEFAULT_SIZE, true, 1920, 980)
}

#[test]
fn space_toggles_pause() {
    let mut pause = false;
    assert_eq!(handle_event(&mut pause, InputEvent::KeyDown(Key::Space)), Command::Keep);
    assert!(pause);
    assert_eq!(handle_event(&mut pause, InputEvent::KeyDown(Key::Space)), Command::Keep);
    assert!(!pause);
}

#[test]
fn quit_and_other_events() {
    let mut pause = true;
    assert_eq!(handle_event(&mut pause, InputEvent::Quit), Command::Quit);
    assert_eq!(handle_event(&mut pause, InputEvent::KeyDown(Key::Other)), Command::Keep);
    assert_eq!(handle_event(&mut pause, InputEvent::Other), Command::Keep);
    assert!(pause);
}

#[test]
fn click_spawns_at_the_click() {
    let mut pause = false;
    let c = handle_event(&mut pause, InputEvent::MouseButtonDown { x: 100, y: 100 });
    assert_eq!(c, Command::Spawn(Point::new(100, 100)));
    assert!(!pause);
}

#[test]
fn reset_empties_scene_and_unpauses() {
    for start_paused in [false, true] {
        let mut pause = start_paused;
        let mut scene: Vec<Sprite> = reset_scene();
        for (x, y) in [(100, 100), (200, 300), (640, 20)] {
            if let Command::Spawn(at) = handle_event(&mut pause, InputEvent::MouseButtonDown { x, y }) {
                scene.push(spawn(at));
            }
        }
        assert_eq!(scene.len(), 3);
        assert_eq!(scene[1].pos, Point::new(200, 300));
        if handle_event(&mut pause, InputEvent::KeyDown(Key::R)) == Command::Clear {
            scene = reset_scene();
        }
        assert!(scene.is_empty());
        assert!(!pause);
    }
}

#[test]
fn paused_frame_runs_nothing() {
    assert_eq!(plan_frame(true), FramePlan { substeps: 0, record_trail: false });
    let mut scene = vec![spawn(Point::new(3, 4)), spawn(Point::new(5, 6))];
    let plan = plan_frame(true);
    for _ in 0..plan.substeps {
        scene.clear();
    }
    if plan.record_trail {
        scene[0].add_to_trail();
    }
    assert_eq!(scene.len(), 2);
    assert_eq!(scene[0].pos, Point::new(3, 4));
    assert_eq!(scene[0].trail.len(), 0);
}

#[test]
fn running_frame_has_sixteen_substeps() {
    assert_eq!(SUBSTEPS, 16);
    assert_eq!(plan_frame(false), FramePlan { substeps: 16, record_trail: true });
}

#[test]
fn marked_items_are_removed_in_order() {
    let mut scene = vec![10, 11, 12, 13, 14, 15];
    remove_marked(&mut scene, &vec![true, false, true, true, false, false]);
    assert_eq!(scene, vec![11, 14, 15]);
}

#[test]
fn remove_none_or_all() {
    let mut scene = vec!['a', 'b', 'c'];
    remove_marked(&mut scene, &vec![false, false, false]);
    assert_eq!(scene, vec!['a', 'b', 'c']);
    remove_marked(&mut scene, &vec![true, true, true]);
    assert!(scene.is_empty());
    let mut empty: Vec<u8> = Vec::new();
    remove_marked(&mut empty, &Vec::new());
    assert!(empty.is_empty());
}

#[test]
fn absorbed_sprite_leaves_scene() {
    let mut scene = vec![spawn(Point::new(960, 440)), spawn(Point::new(100, 100))];
    let distances: Vec<u32> = vec![3, 1039];
    let marks: Vec<bool> = scene.iter().zip(distances.iter()).map(|(s, d)| s.absorbs(*d)).collect();
    remove_marked(&mut scene, &marks);
    assert_eq!(scene.len(), 1);
    assert_eq!(scene[0].pos, Point::new(100, 100));
}
