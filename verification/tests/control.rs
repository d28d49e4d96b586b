use scene2d::control::{ControlLoop, LoopMode, StepResult, FIXED_TICK_NS};
use scene2d::editor::InputState;

fn run_input() -> InputState {
    let mut input = InputState::idle();
    input.run = true;
    input
}

fn place_click(x: i32, y: i32) -> InputState {
    let mut input = InputState::idle();
    input.mouse_x = x;
    input.mouse_y = y;
    input.buttons.left = true;
    input
}

#[test]
fn starts_in_editor_mode() {
    let c = ControlLoop::new();
    assert_eq!(c.mode, LoopMode::EDITOR);
    assert_eq!(c.accumulator_ns, 0);
}

#[test]
fn editor_quit_exits() {
    let mut c = ControlLoop::new();
    let mut input = InputState::idle();
    input.quit = true;
    assert_eq!(c.step(&input, 0), StepResult::EXIT);
    assert_eq!(c.mode, LoopMode::EDITOR);
}

#[test]
fn run_adopts_scene_and_switches() {
    let mut c = ControlLoop::new();
    assert_eq!(c.step(&place_click(200, 150), 0), StepResult::EDITOR_FRAME);
    assert_eq!(c.step(&run_input(), 0), StepResult::ENTER_GAME);
    assert_eq!(c.mode, LoopMode::GAME);
    assert_eq!(c.accumulator_ns, 0);
    assert_eq!(c.game.current_scene.gameobjects.len(), 1);
    // the game got a copy of the authored scene, entity by entity
    assert_eq!(
        c.game.current_scene.gameobjects[0],
        c.editor.current_scene.gameobjects[0]
    );
}

#[test]
fn accumulator_drains_in_fixed_ticks() {
    let mut c = ControlLoop::new();
    c.step(&place_click(200, 150), 0);
    c.step(&run_input(), 0);

    // 40 ms with a 16.666667 ms tick: exactly 2 ticks, ~6.67 ms left over
    let r = c.step(&InputState::idle(), 40_000_000);
    assert_eq!(r, StepResult::GAME_FRAME { ticks: 2, to_editor: false });
    assert_eq!(c.accumulator_ns, 40_000_000 - 2 * FIXED_TICK_NS);
    assert_eq!(c.accumulator_ns, 6_666_666);

    // two 16 ms ticks of gravity on the adopted body, mass 2
    assert_eq!(c.game.current_scene.gameobjects[0].body.velocity.y, 2 * 78_480);
    // the editor's own scene is untouched by the simulation
    assert_eq!(c.editor.current_scene.gameobjects[0].body.velocity.y, 0);
}

#[test]
fn short_elapsed_time_fires_no_tick() {
    let mut c = ControlLoop::new();
    c.step(&run_input(), 0);

    // 10 ms is less than one tick: nothing fires, the time is kept
    let r = c.step(&InputState::idle(), 10_000_000);
    assert_eq!(r, StepResult::GAME_FRAME { ticks: 0, to_editor: false });
    assert_eq!(c.accumulator_ns, 10_000_000);

    // the next 10 ms pushes the accumulator over one tick
    let r2 = c.step(&InputState::idle(), 10_000_000);
    assert_eq!(r2, StepResult::GAME_FRAME { ticks: 1, to_editor: false });
    assert_eq!(c.accumulator_ns, 20_000_000 - FIXED_TICK_NS);
}

#[test]
fn quit_mid_drain_discards_leftover() {
    let mut c = ControlLoop::new();
    c.step(&run_input(), 0);

    let mut quit = InputState::idle();
    quit.quit = true;
    // plenty of accumulated time, but the quit ends the drain at once
    let r = c.step(&quit, 40_000_000);
    assert_eq!(r, StepResult::GAME_FRAME { ticks: 0, to_editor: true });
    assert_eq!(c.mode, LoopMode::EDITOR);
    assert_eq!(c.accumulator_ns, 0);

    // re-entering the game starts the accumulator at zero, not at the
    // stale leftover
    assert_eq!(c.step(&run_input(), 123), StepResult::ENTER_GAME);
    assert_eq!(c.accumulator_ns, 0);
    assert_eq!(c.mode, LoopMode::GAME);
}

#[test]
fn rerun_starts_from_the_authored_scene() {
    let mut c = ControlLoop::new();
    c.step(&place_click(200, 150), 0);
    c.step(&run_input(), 0);
    c.step(&InputState::idle(), 40_000_000);
    assert_ne!(c.game.current_scene.gameobjects[0].body.velocity.y, 0);

    let mut quit = InputState::idle();
    quit.quit = true;
    c.step(&quit, FIXED_TICK_NS);

    // a fresh run adopts the editor's un-simulated scene again
    c.step(&run_input(), 0);
    assert_eq!(c.game.current_scene.gameobjects[0].body.velocity.y, 0);
    assert_eq!(
        c.game.current_scene.gameobjects[0].body.position.y,
        150 * scene2d::physics::MICROS_PER_UNIT
    );
}
