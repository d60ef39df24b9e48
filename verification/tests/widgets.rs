use sandbox3d::gui::{Button, ControllEvent, Interface, Rect, TrackBar};
use sandbox3d::input::{ElementState, Event, MouseButton};
use sandbox3d::pool::Pool;
use sandbox3d::render::{accumulate, composite};
use sandbox3d::vec3::Vector3D;
use sandbox3d::world::CWorld;

#[test]
fn pool_insert_get_remove() {
    let mut pool: Pool<u32> = Pool::new();
    pool.insert("wall", 11);
    pool.insert("block", 22);
    assert_eq!(*pool.get_element("wall"), 11);
    assert_eq!(*pool.get_element("block"), 22);
    // inserting under a present name replaces the element
    pool.insert("wall", 33);
    assert_eq!(*pool.get_element("wall"), 33);
    assert_eq!(*pool.get_element("block"), 22);
    pool.remove("wall");
    assert_eq!(*pool.get_element("block"), 22);
}

#[test]
fn button_taps_only_inside() {
    let mut b = Button::new(20_000, 450_000, 60_000, 20_000);
    // outside: nothing happens
    b.tap(10_000, 10_000);
    assert!(!b.is_taped);
    assert_eq!(b.get_events(), vec![]);
    // inside: latched, one click queued
    b.tap(25_000, 455_000);
    assert!(b.is_taped);
    assert_eq!(b.get_events(), vec![ControllEvent::Click]);
    // the queue was drained
    assert_eq!(b.get_events(), vec![]);
    b.untap();
    assert!(!b.is_taped);
}

#[test]
fn rect_contains_its_borders() {
    let r = Rect::new(0, 0, 10_000, 5_000);
    assert!(r.is_inside(0, 0));
    assert!(r.is_inside(10_000, 5_000));
    assert!(!r.is_inside(10_001, 0));
    assert!(!r.is_inside(0, -1));
}

#[test]
fn trackbar_drag_rescales_value() {
    let mut t = TrackBar::new(10_000, 500_000, 60_000, 20_000);
    // the slider is a tenth of the span wide
    assert_eq!(t.slider.width, 6_000);
    // latch it with a tap on the slider, then drag to the middle
    t.tap(10_000, 500_000);
    assert!(t.is_taped);
    t.moveTo(37_000, 500_000);
    // (37 - 10) / (60 - 6) of the 0..100 range
    assert_eq!(t.value, 50_000);
    assert_eq!(
        t.get_events(),
        vec![ControllEvent::Click, ControllEvent::Changed]
    );
    // dragging past the end clamps to the top of the range
    t.moveTo(1_000_000, 500_000);
    assert_eq!(t.slider.x, 64_000);
    assert_eq!(t.value, 100_000);
    // releasing stops the drag
    t.untap();
    t.moveTo(10_000, 500_000);
    assert_eq!(t.value, 100_000);
    t.setValue(5_000);
    assert_eq!(t.getValue(), 5_000);
}

#[test]
fn light_accumulation_is_order_independent() {
    let ambient = Vector3D::new(1, 1, 1);
    let red = Vector3D::new(900, 100, 0);
    let blue = Vector3D::new(0, 200, 700);
    let one_way = accumulate(ambient, &vec![red, blue]);
    let other_way = accumulate(ambient, &vec![blue, red]);
    assert_eq!(one_way, other_way);
    assert_eq!(one_way, Vector3D::new(901, 301, 701));
}

#[test]
fn composition_modulates_decal_by_lighting() {
    let decal = Vector3D::new(1000, 500, 250);
    let lighting = Vector3D::new(500, 500, 2000);
    assert_eq!(composite(decal, lighting), Vector3D::new(500, 250, 500));
}

#[test]
fn draw_plan_covers_every_object_and_light() {
    let w = CWorld::new(800_000, 600_000);
    let plan = w.draw();
    assert_eq!(plan.clear_color, Vector3D::new(0, 700, 933));
    assert_eq!(plan.ambient, w.changedProp.backgroundLightColor);
    assert_eq!(plan.model_matrices.len(), w.objs.len());
    assert_eq!(plan.point_lights, w.lights.len());
    assert_eq!(plan.dir_lights, w.dirlights.len());
    // the floor's matrix carries its translation row
    let floor_m = &plan.model_matrices[2];
    assert_eq!(floor_m.matrix[3][1], -1000);
}

#[test]
fn overlay_commits_bar_values_on_save() {
    let mut ui = Interface::new();
    // move over the save button and click it
    ui.checkEvents(&Event::MouseMoved(140_000, 600_000 - 455_000));
    assert_eq!(ui.cursor.x, 140_000);
    assert_eq!(ui.cursor.y, 455_000);
    ui.checkEvents(&Event::MouseInput(ElementState::Pressed, MouseButton::Left));
    ui.checkEvents(&Event::MouseInput(ElementState::Released, MouseButton::Left));
    ui.update();
    // the stored bar values, divided by 100, become the pending colors
    assert_eq!(
        ui.changedProp.lightColor,
        sandbox3d::vec3::Vector3D::new(1000, 0, 0)
    );
    assert_eq!(
        ui.changedProp.backgroundLightColor,
        sandbox3d::vec3::Vector3D::new(0, 0, 0)
    );
}
