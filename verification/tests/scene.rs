use sandbox3d::codec::{fmt_fx_e, fmt_int_e, parse_fx_e, parse_int_e};
use sandbox3d::game::GameState;
use sandbox3d::game_object::CGameObject;
use sandbox3d::camera::CameraOwner;
use sandbox3d::input::{ElementState, Event, MouseButton, VirtualKeyCode};
use sandbox3d::light::{CDirectionLight, CLight};
use sandbox3d::models::CModel;
use sandbox3d::texture::CTexture;
use sandbox3d::vec3::Vector3D;
use sandbox3d::viewer::CViewer;
use sandbox3d::world::{CWorld, WorldAction};

#[test]
fn number_format_round_trips() {
    assert_eq!(fmt_fx_e(1500), b"1.500".to_vec());
    assert_eq!(fmt_fx_e(-250), b"-0.250".to_vec());
    assert_eq!(fmt_fx_e(0), b"0.000".to_vec());
    assert_eq!(fmt_int_e(42), b"42".to_vec());
    assert_eq!(fmt_int_e(-7), b"-7".to_vec());

    assert_eq!(parse_fx_e(&b"1.500".to_vec()), Some(1500));
    assert_eq!(parse_fx_e(&b"12.5".to_vec()), Some(12500));
    assert_eq!(parse_fx_e(&b"-3".to_vec()), Some(-3000));
    assert_eq!(parse_int_e(&b"42".to_vec()), Some(42));
    assert_eq!(parse_fx_e(&fmt_fx_e(i64::MAX)), Some(i64::MAX));
    assert_eq!(parse_fx_e(&fmt_fx_e(i64::MIN)), Some(i64::MIN));
}

#[test]
fn malformed_numbers_are_rejected() {
    assert_eq!(parse_fx_e(&b"abc".to_vec()), None);
    assert_eq!(parse_fx_e(&b"".to_vec()), None);
    assert_eq!(parse_fx_e(&b"1..2".to_vec()), None);
    assert_eq!(parse_fx_e(&b"1.".to_vec()), None);
    assert_eq!(parse_fx_e(&b".5".to_vec()), None);
    assert_eq!(parse_fx_e(&b"1.5000".to_vec()), None);
    assert_eq!(parse_int_e(&b"1.5".to_vec()), None);
    assert_eq!(parse_int_e(&b"99999999999999999999999".to_vec()), None);
}

#[test]
fn light_line_round_trip() {
    let mut l = CLight::new();
    l.set_pos(Vector3D::new(1500, -2250, 0));
    l.set_color(Vector3D::new(1000, 500, 250));
    l.set_vector(Vector3D::new(0, -1000, 0));
    l.set_range(524);
    let line = l.save();
    assert_eq!(
        line,
        b"1.500 -2.250 0.000 1.000 0.500 0.250 0.000 -1.000 0.000 0.524".to_vec()
    );
    let back = CLight::load(&line).expect("the saved line must parse");
    assert_eq!(back, l);
}

#[test]
fn dirlight_line_round_trip() {
    let mut l = CDirectionLight::new();
    l.set_color(Vector3D::new(300, 300, 300));
    l.set_vector(Vector3D::new(1000, 500, 0));
    let line = l.save();
    assert_eq!(line, b"0.300 0.300 0.300 1.000 0.500 0.000".to_vec());
    let back = CDirectionLight::load(&line).expect("the saved line must parse");
    assert_eq!(back, l);
}

#[test]
fn malformed_light_line_is_rejected() {
    assert_eq!(CLight::load(&b"1.0 2.0".to_vec()), None);
    assert_eq!(
        CLight::load(&b"a 0 0 0 0 0 0 0 0 0".to_vec()),
        None
    );
    assert_eq!(CDirectionLight::load(&b"1 2 3 4 5".to_vec()), None);
}

#[test]
fn viewer_line_round_trip_and_rejection() {
    let mut v = CViewer::new(Vector3D::new(0, -300, 3000));
    let line = v.save();
    assert_eq!(line, b"0.000 -0.300 3.000".to_vec());
    let mut v2 = CViewer::new(Vector3D::new(9, 9, 9));
    assert!(v2.load(&line));
    assert_eq!(v2.pos, Vector3D::new(0, -300, 3000));
    // a malformed line installs nothing
    assert!(!v2.load(&b"1.0 2.0".to_vec()));
    assert_eq!(v2.pos, Vector3D::new(0, -300, 3000));
    v.update(500);
    assert_eq!(v.pos, Vector3D::new(0, -300, 3000));
}

#[test]
fn texture_line_round_trip() {
    let t = CTexture::new(7, b"images/Wall.jpg".to_vec());
    let line = t.save();
    assert_eq!(line, b"images/Wall.jpg 7".to_vec());
    let back = CTexture::load(&line).expect("the saved line must parse");
    assert_eq!(back.path, b"images/Wall.jpg".to_vec());
    assert_eq!(back.id, 7);
}

#[test]
fn object_line_round_trip_binds_texture() {
    let mdl = CModel::cube(Vector3D::new(1000, 1000, 1000));
    let mut o = CGameObject::new(&mdl, 2);
    o.set_pos(Vector3D::new(-4000, 1000, 0));
    o.set_scale(Vector3D::new(3000, 3000, 3000));
    o.physical_object.speed = Vector3D::new(0, -500, 0);
    let line = o.save();
    assert_eq!(
        line,
        b"c 2 -4.000 1.000 0.000 3.000 3.000 3.000 0.000 -0.500 0.000".to_vec()
    );
    let textures = vec![
        CTexture::new(1, b"images/Wall.jpg".to_vec()),
        CTexture::new(2, b"images/Block.jpg".to_vec()),
    ];
    let back = CGameObject::load(&line, &textures).expect("the saved line must parse");
    assert_eq!(back.texture_id, 2);
    assert_eq!(back.physical_object.position, Vector3D::new(-4000, 1000, 0));
    assert_eq!(back.physical_object.scale, Vector3D::new(3000, 3000, 3000));
    assert_eq!(back.physical_object.speed, Vector3D::new(0, -500, 0));
}

#[test]
fn object_load_falls_back_to_first_texture() {
    let line = b"c 9 0.000 0.000 0.000 1.000 1.000 1.000 0.000 0.000 0.000".to_vec();
    let textures = vec![
        CTexture::new(1, b"images/Wall.jpg".to_vec()),
        CTexture::new(2, b"images/Block.jpg".to_vec()),
    ];
    let back = CGameObject::load(&line, &textures).expect("line parses");
    // identifier 9 is unknown, so the first texture wins
    assert_eq!(back.texture_id, 1);
    // and with no textures at all the load fails
    assert!(CGameObject::load(&line, &Vec::new()).is_none());
}

#[test]
fn scene_save_load_save_is_identity() {
    let w = CWorld::new(800_000, 600_000);
    let bytes = w.save();
    let mut w2 = CWorld::new(800_000, 600_000);
    // disturb the second world so the load really has to restore things
    w2.objs[0].set_pos(Vector3D::new(9000, 9000, 9000));
    w2.lights[0].set_range(9);
    assert!(w2.load(&bytes));
    assert_eq!(w2.Viewer.pos, w.Viewer.pos);
    assert_eq!(w2.objs.len(), w.objs.len());
    for i in 0..w.objs.len() {
        assert_eq!(
            w2.objs[i].physical_object.position,
            w.objs[i].physical_object.position
        );
        assert_eq!(
            w2.objs[i].physical_object.scale,
            w.objs[i].physical_object.scale
        );
        assert_eq!(
            w2.objs[i].physical_object.speed,
            w.objs[i].physical_object.speed
        );
        assert_eq!(w2.objs[i].texture_id, w.objs[i].texture_id);
    }
    assert_eq!(w2.lights.len(), w.lights.len());
    for i in 0..w.lights.len() {
        assert_eq!(w2.lights[i], w.lights[i]);
    }
    assert_eq!(w2.dirlights.len(), w.dirlights.len());
    assert_eq!(w2.textures.len(), w.textures.len());
    for i in 0..w.textures.len() {
        assert_eq!(w2.textures[i].path, w.textures[i].path);
        assert_eq!(w2.textures[i].id, w.textures[i].id);
    }
    // the textual form survives the round trip byte for byte
    let bytes2 = w2.save();
    assert_eq!(bytes, bytes2);
}

#[test]
fn malformed_scene_installs_nothing() {
    let mut w = CWorld::new(800_000, 600_000);
    let before_pos = w.objs[0].physical_object.position;
    assert!(!w.load(&b"0.000 0.000 0.000\n2 1 0 0\nonly one line follows".to_vec()));
    assert_eq!(w.objs.len(), 3);
    assert_eq!(w.objs[0].physical_object.position, before_pos);
    assert_eq!(w.textures.len(), 2);
}

#[test]
fn falling_cube_rolls_back_onto_floor() {
    // a floor at the origin scaled (500, 1, 500) and a cube dropping into it
    let mut w = CWorld::new(800_000, 600_000);
    w.objs.pop();
    let floor = &mut w.objs[0];
    floor.set_pos(Vector3D::new(0, -1000, 0));
    floor.set_scale(Vector3D::new(500_000, 1000, 500_000));
    let cube = &mut w.objs[1];
    cube.set_pos(Vector3D::new(0, 100, 0));
    cube.set_scale(Vector3D::new(300, 300, 300));
    cube.physical_object.speed = Vector3D::new(0, -1000, 0);

    w.update(1000);

    // the tick would have carried the cube to y = -0.9, inside the floor,
    // so its position is rolled back across the frame boundary
    assert_eq!(
        w.objs[1].physical_object.position,
        Vector3D::new(0, 100, 0)
    );
    // the floor did not move
    assert_eq!(
        w.objs[0].physical_object.position,
        Vector3D::new(0, -1000, 0)
    );
    // rollback does not reset speed
    assert_eq!(
        w.objs[1].physical_object.speed,
        Vector3D::new(0, -1000, 0)
    );
}

#[test]
fn free_objects_keep_moving_through_a_tick() {
    let mut w = CWorld::new(800_000, 600_000);
    w.objs.pop();
    w.objs[0].set_pos(Vector3D::new(0, 0, 0));
    w.objs[1].set_pos(Vector3D::new(50_000, 0, 0));
    w.objs[1].physical_object.speed = Vector3D::new(1000, 0, 0);
    w.update(500);
    assert_eq!(
        w.objs[1].physical_object.position,
        Vector3D::new(50_500, 0, 0)
    );
}

#[test]
fn events_spawn_and_request_saves() {
    let mut w = CWorld::new(800_000, 600_000);
    let n = w.objs.len();
    let a = w.checkEvents(&Event::KeyboardInput(
        ElementState::Pressed,
        VirtualKeyCode::C,
    ));
    assert_eq!(a, WorldAction::Nothing);
    assert_eq!(w.objs.len(), n + 1);
    assert_eq!(
        w.objs[n].physical_object.scale,
        Vector3D::new(300, 300, 300)
    );
    assert_eq!(w.objs[n].physical_object.position.y, -350);

    let nl = w.lights.len();
    let a = w.checkEvents(&Event::MouseInput(ElementState::Pressed, MouseButton::Right));
    assert_eq!(a, WorldAction::Nothing);
    assert_eq!(w.lights.len(), nl + 1);
    assert_eq!(w.lights[nl].color, w.changedProp.lightColor);

    let a = w.checkEvents(&Event::KeyboardInput(
        ElementState::Pressed,
        VirtualKeyCode::F5,
    ));
    assert_eq!(a, WorldAction::SaveRequested);
    let a = w.checkEvents(&Event::KeyboardInput(
        ElementState::Pressed,
        VirtualKeyCode::F6,
    ));
    assert_eq!(a, WorldAction::LoadRequested);
}

#[test]
fn movement_keys_steer_the_viewer() {
    let mut w = CWorld::new(800_000, 600_000);
    // the camera starts bound to the viewer, looking down +z
    w.checkEvents(&Event::KeyboardInput(
        ElementState::Pressed,
        VirtualKeyCode::S,
    ));
    // dir.x = 3 along the target (0,0,1): the viewer backs up along +z
    assert_eq!(w.Viewer.speed, Vector3D::new(0, 0, 3000));
    w.checkEvents(&Event::KeyboardInput(
        ElementState::Released,
        VirtualKeyCode::S,
    ));
    assert_eq!(w.Viewer.speed, Vector3D::new(0, 0, 0));
}

#[test]
fn mouse_dead_zone_and_angle_accumulation() {
    let mut w = CWorld::new(800_000, 600_000);
    // the pointer rests at the window center, (400, 300)
    assert_eq!(w.Camera.mousePos.x, 400_000);
    assert_eq!(w.Camera.mousePos.y, 300_000);
    // a jitter below 1.2 pixels is suppressed
    w.checkEvents(&Event::MouseMoved(400_500, 300_000));
    assert_eq!(w.Camera.angle.x, 0);
    assert_eq!(w.Camera.angle.y, 0);
    // a real motion accumulates a twentieth of the delta
    w.checkEvents(&Event::MouseMoved(402_000, 300_000));
    assert_eq!(w.Camera.angle.x, -100);
    assert_eq!(w.Camera.angle.y, 0);
    // the vertical angle clamps at a quarter turn
    for _ in 0..50 {
        w.checkEvents(&Event::MouseMoved(400_000, 250_000));
    }
    assert_eq!(w.Camera.angle.y, 90_000);
}

#[test]
fn camera_owner_swaps_freely() {
    let mut w = CWorld::new(800_000, 600_000);
    assert!(matches!(w.Camera.player, CameraOwner::Viewer));
    w.checkEvents(&Event::KeyboardInput(
        ElementState::Pressed,
        VirtualKeyCode::M,
    ));
    assert!(matches!(w.Camera.player, CameraOwner::Object(1)));
    w.checkEvents(&Event::KeyboardInput(
        ElementState::Pressed,
        VirtualKeyCode::V,
    ));
    assert!(matches!(w.Camera.player, CameraOwner::Viewer));
}

#[test]
fn wheel_steps_the_distance_factor() {
    let mut w = CWorld::new(800_000, 600_000);
    let d0 = w.Camera.dist;
    w.checkEvents(&Event::MouseWheel(1_000));
    assert_eq!(w.Camera.dist, d0 + 100);
}

#[test]
fn control_key_toggles_the_input_mode() {
    let s = GameState::World;
    let press = Event::KeyboardInput(ElementState::Pressed, VirtualKeyCode::LControl);
    let release = Event::KeyboardInput(ElementState::Released, VirtualKeyCode::LControl);
    let other = Event::KeyboardInput(ElementState::Pressed, VirtualKeyCode::W);

    let s = s.next(&press);
    assert_eq!(s, GameState::Interface);
    // other events do not change the mode and are forwarded
    let s2 = s.next(&other);
    assert_eq!(s2, GameState::Interface);
    assert!(s2.should_forward(&other));
    // the toggle key itself is consumed by the switch
    assert!(!s2.should_forward(&press));
    assert!(!s2.should_forward(&release));
    let s3 = s2.next(&release);
    assert_eq!(s3, GameState::World);
}
