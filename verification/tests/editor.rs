use scene2d::editor::{Editor, EditorAction, EditorState, InputState};
use scene2d::physics::{BodyType, MICROS_PER_UNIT};
use scene2d::scene::Rgb;

fn click_at(x: i32, y: i32) -> InputState {
    let mut input = InputState::idle();
    input.mouse_x = x;
    input.mouse_y = y;
    input.buttons.left = true;
    input
}

#[test]
fn fresh_editor_defaults() {
    let e = Editor::new();
    assert!(e.current_scene.gameobjects.is_empty());
    assert_eq!(e.state, EditorState::ADD_RECT);
    assert_eq!(e.selection, None);
    assert_eq!(e.buttons.len(), 3);
    assert_eq!(e.buttons[0].label, "A");
    assert_eq!(e.buttons[1].label, "S");
    assert_eq!(e.buttons[2].label, "F");
}

#[test]
fn quit_and_run_supersede_everything() {
    let mut e = Editor::new();
    let mut input = click_at(200, 200);
    input.quit = true;
    input.run = true;
    assert_eq!(e.update(&input), Some(EditorAction::QUIT));
    // the superseded click placed nothing
    assert!(e.current_scene.gameobjects.is_empty());

    input.quit = false;
    assert_eq!(e.update(&input), Some(EditorAction::RUN));
    assert!(e.current_scene.gameobjects.is_empty());
}

#[test]
fn scene_click_adds_dynamic_rect() {
    let mut e = Editor::new();
    let r = e.update(&click_at(200, 150));
    assert_eq!(r, None);
    assert_eq!(e.current_scene.gameobjects.len(), 1);
    let o = &e.current_scene.gameobjects[0];
    assert_eq!(o.body.position.x, 200 * MICROS_PER_UNIT);
    assert_eq!(o.body.position.y, 150 * MICROS_PER_UNIT);
    assert_eq!(o.body.body_type, BodyType::Dynamic);
    assert_eq!((o.body.shape.w, o.body.shape.h), (20, 20));
    assert_eq!(o.color, Rgb::new(230, 230, 250));
}

#[test]
fn held_button_adds_only_once() {
    let mut e = Editor::new();
    let input = click_at(200, 150);
    e.update(&input);
    // still held down: no new press edge, nothing more is placed
    e.update(&input);
    assert_eq!(e.current_scene.gameobjects.len(), 1);

    // released, then pressed again: a new edge places a second entity
    let mut released = input;
    released.buttons.left = false;
    e.update(&released);
    e.update(&input);
    assert_eq!(e.current_scene.gameobjects.len(), 2);
}

#[test]
fn ui_buttons_switch_tool_and_consume_click() {
    let mut e = Editor::new();

    // "S" button at (40, 0, 20, 20) switches to the select tool
    e.update(&click_at(45, 10));
    assert_eq!(e.state, EditorState::SELECT);
    assert!(e.current_scene.gameobjects.is_empty());

    let mut released = InputState::idle();
    released.mouse_x = 75;
    released.mouse_y = 10;
    e.update(&released);

    // "F" button at (70, 0, 20, 20) switches to the add-static tool
    e.update(&click_at(75, 10));
    assert_eq!(e.state, EditorState::ADD_STATIC);

    e.update(&InputState::idle());

    // a scene click now places a 50 by 50 static box
    e.update(&click_at(300, 300));
    assert_eq!(e.current_scene.gameobjects.len(), 1);
    let o = &e.current_scene.gameobjects[0];
    assert_eq!(o.body.body_type, BodyType::Static);
    assert_eq!((o.body.shape.w, o.body.shape.h), (50, 50));
    assert_eq!(o.color, Rgb::new(130, 60, 255));

    e.update(&InputState::idle());

    // "A" button at (10, 0, 20, 20) switches back to add-dynamic
    e.update(&click_at(15, 10));
    assert_eq!(e.state, EditorState::ADD_RECT);
}

#[test]
fn select_tool_sets_and_clears_selection() {
    let mut e = Editor::new();
    e.update(&click_at(200, 150));
    e.update(&InputState::idle());
    e.update(&click_at(400, 150));
    e.update(&InputState::idle());

    // switch to select
    e.update(&click_at(45, 10));
    e.update(&InputState::idle());

    // click inside the first placed rect
    e.update(&click_at(205, 155));
    assert_eq!(e.selection, Some(0));

    e.update(&InputState::idle());

    // click inside the second placed rect
    e.update(&click_at(405, 155));
    assert_eq!(e.selection, Some(1));

    e.update(&InputState::idle());

    // click empty space clears the selection
    e.update(&click_at(600, 400));
    assert_eq!(e.selection, None);
}

#[test]
fn pan_moves_camera_by_one_per_tick() {
    let mut e = Editor::new();
    let mut input = InputState::idle();
    input.pan_right = true;
    input.pan_down = true;
    e.update(&input);
    e.update(&input);
    assert_eq!(e.current_scene.camera.position.x, 2);
    assert_eq!(e.current_scene.camera.position.y, 2);

    let mut back = InputState::idle();
    back.pan_left = true;
    back.pan_up = true;
    e.update(&back);
    assert_eq!(e.current_scene.camera.position.x, 1);
    assert_eq!(e.current_scene.camera.position.y, 1);

    // opposite directions in one tick cancel out
    let mut both = InputState::idle();
    both.pan_left = true;
    both.pan_right = true;
    e.update(&both);
    assert_eq!(e.current_scene.camera.position.x, 1);
}
