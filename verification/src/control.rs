use vstd::prelude::*;

use crate::editor::{editor_step, valid_editor, Editor, EditorAction, InputState};
use crate::game::{scene_advanced, Game, GameAction};
use crate::physics::{step_body, step_body_n};
use crate::scene::{valid_scene, GameObject, Scene};

verus! {

use vstd::arithmetic::div_mod::lemma_fundamental_div_mod_converse;

/// One fixed simulation tick, 16.666667 ms (60 Hz), in nanoseconds: the
/// accumulator is drained in increments of this size.
pub const FIXED_TICK_NS: u64 = 16_666_667;

/// The whole milliseconds of one fixed tick, the delta handed to every
/// physics step.
pub const FIXED_TICK_MS: u32 = 16;

/// Which of the two controllers is active.
#[allow(non_camel_case_types)]
#[derive(Debug, Copy, Clone, PartialEq)]
pub enum LoopMode {
    EDITOR,
    GAME,
}

/// What one control-loop step asks of its caller.
#[allow(non_camel_case_types)]
#[derive(Debug, Copy, Clone, PartialEq)]
pub enum StepResult {
    /// The editor raised a quit: terminate.
    EXIT,
    /// Render one editor frame.
    EDITOR_FRAME,
    /// Just switched into simulation; render nothing this iteration and
    /// restart the wall-clock reference.
    ENTER_GAME,
    /// Render one game frame.  `ticks` fixed steps were simulated; if
    /// `to_editor`, a quit ended the drain and control is back at the
    /// editor, with the leftover accumulator discarded.
    GAME_FRAME { ticks: u64, to_editor: bool },
}

/// `post` is `pre` advanced by `n` integration steps of `dt` milliseconds.
pub open spec fn scene_advanced_n(pre: Scene, post: Scene, dt: int, n: nat) -> bool {
    &&& post.gameobjects@.len() == pre.gameobjects@.len()
    &&& forall|i: int|
        0 <= i < pre.gameobjects@.len() ==> post.gameobjects@[i] == (GameObject {
            body: step_body_n((#[trigger] pre.gameobjects@[i]).body, dt, n),
            color: pre.gameobjects@[i].color,
        })
    &&& post.camera == pre.camera
}

/// Advancing zero steps leaves a scene as it is.
pub proof fn lemma_scene_advanced_zero(s: Scene, dt: int)
    ensures
        scene_advanced_n(s, s, dt, 0),
{
    assert forall|i: int| 0 <= i < s.gameobjects@.len() implies s.gameobjects@[i] == (GameObject {
        body: step_body_n((#[trigger] s.gameobjects@[i]).body, dt, 0),
        color: s.gameobjects@[i].color,
    }) by {
        assert(step_body_n(s.gameobjects@[i].body, dt, 0) == s.gameobjects@[i].body);
    }
}

/// One more step after `n` steps is `n + 1` steps.
pub proof fn lemma_scene_advanced_compose(s0: Scene, s1: Scene, s2: Scene, dt: int, n: nat)
    requires
        scene_advanced_n(s0, s1, dt, n),
        scene_advanced(s1, s2, dt),
    ensures
        scene_advanced_n(s0, s2, dt, n + 1),
{
    assert forall|i: int| 0 <= i < s0.gameobjects@.len() implies s2.gameobjects@[i] == (GameObject {
        body: step_body_n((#[trigger] s0.gameobjects@[i]).body, dt, n + 1),
        color: s0.gameobjects@[i].color,
    }) by {
        assert(s1.gameobjects@[i] == (GameObject {
            body: step_body_n(s0.gameobjects@[i].body, dt, n),
            color: s0.gameobjects@[i].color,
        }));
        assert(s2.gameobjects@[i] == (GameObject {
            body: step_body(s1.gameobjects@[i].body, dt),
            color: s1.gameobjects@[i].color,
        }));
        assert(step_body_n(s0.gameobjects@[i].body, dt, n + 1) == step_body(
            step_body_n(s0.gameobjects@[i].body, dt, n),
            dt,
        ));
    }
}

/// The two-state control loop: it owns the editor, the game, the
/// fixed-timestep accumulator and the mode switch between authoring and
/// simulation.  The caller polls input, measures elapsed wall-clock time,
/// calls `step`, and renders what the result asks for.
pub struct ControlLoop {
    pub mode: LoopMode,
    pub accumulator_ns: u64,
    pub editor: Editor,
    pub game: Game,
}

/// The control loop's invariant: both controllers well formed and the
/// accumulator always below one full tick between steps.
pub open spec fn valid_control(c: ControlLoop) -> bool {
    &&& valid_editor(c.editor)
    &&& valid_scene(c.game.current_scene)
    &&& c.accumulator_ns < FIXED_TICK_NS
}

impl ControlLoop {
    /// Starts in editor mode with an empty accumulator, a fresh editor and
    /// a fresh game.
    pub fn new() -> (c: ControlLoop)
        ensures
            c.mode is EDITOR,
            c.accumulator_ns == 0,
            c.editor.current_scene.gameobjects@.len() == 0,
            c.editor.current_scene.camera.position.x == 0,
            c.editor.current_scene.camera.position.y == 0,
            c.editor.state is ADD_RECT,
            c.editor.selection is None,
            c.game.current_scene.gameobjects@.len() == 0,
            valid_control(c),
    {
        ControlLoop {
            mode: LoopMode::EDITOR,
            accumulator_ns: 0,
            editor: Editor::new(),
            game: Game::new(),
        }
    }

    /// One control-loop iteration.
    ///
    /// In editor mode the editor ticks once: a quit terminates, a run hands
    /// a deep copy of the authored scene to the game, resets the
    /// accumulator and switches mode (the caller must also restart its
    /// wall-clock reference), anything else asks for an editor frame.
    ///
    /// In game mode the elapsed wall time joins the accumulator, which is
    /// drained in fixed ticks: each tick advances the game scene once, so
    /// a stalling caller gets several ticks per frame and a fast one gets
    /// none.  A quit signal ends the drain at once, discards the leftover
    /// accumulator and hands control back to the editor.
    pub fn step(&mut self, input: &InputState, elapsed_ns: u64) -> (r: StepResult)
        requires
            valid_control(*old(self)),
            old(self).editor.current_scene.gameobjects@.len() < usize::MAX,
            elapsed_ns <= u64::MAX - FIXED_TICK_NS,
        ensures
            valid_control(*final(self)),
            old(self).mode is EDITOR ==> {
                if input.quit {
                    &&& r == StepResult::EXIT
                    &&& *final(self) == *old(self)
                } else if input.run {
                    &&& r == StepResult::ENTER_GAME
                    &&& final(self).mode is GAME
                    &&& final(self).accumulator_ns == 0
                    &&& final(self).game.current_scene.gameobjects@ == old(
                        self,
                    ).editor.current_scene.gameobjects@
                    &&& final(self).game.current_scene.camera == old(
                        self,
                    ).editor.current_scene.camera
                    &&& final(self).editor == old(self).editor
                } else {
                    &&& r == StepResult::EDITOR_FRAME
                    &&& final(self).mode is EDITOR
                    &&& final(self).accumulator_ns == old(self).accumulator_ns
                    &&& final(self).game == old(self).game
                    &&& editor_step(old(self).editor, *input, final(self).editor, None)
                }
            },
            old(self).mode is GAME ==> {
                let total = old(self).accumulator_ns + elapsed_ns;
                &&& final(self).editor == old(self).editor
                &&& if total < FIXED_TICK_NS {
                    &&& r == (StepResult::GAME_FRAME { ticks: 0u64, to_editor: false })
                    &&& final(self).mode is GAME
                    &&& final(self).accumulator_ns == total
                    &&& final(self).game == old(self).game
                } else if input.quit {
                    &&& r == (StepResult::GAME_FRAME { ticks: 0u64, to_editor: true })
                    &&& final(self).mode is EDITOR
                    &&& final(self).accumulator_ns == 0
                    &&& final(self).game.current_scene == old(self).game.current_scene
                } else {
                    &&& r == (StepResult::GAME_FRAME {
                        ticks: (total / FIXED_TICK_NS as int) as u64,
                        to_editor: false,
                    })
                    &&& final(self).mode is GAME
                    &&& final(self).accumulator_ns == total % (FIXED_TICK_NS as int)
                    &&& scene_advanced_n(
                        old(self).game.current_scene,
                        final(self).game.current_scene,
                        FIXED_TICK_MS as int,
                        (total / FIXED_TICK_NS as int) as nat,
                    )
                }
            },
    {
        match self.mode {
            LoopMode::EDITOR => {
                let action = self.editor.update(input);
                match action {
                    Some(EditorAction::QUIT) => StepResult::EXIT,
                    Some(EditorAction::RUN) => {
                        self.game.set_scene(&self.editor.current_scene);
                        self.accumulator_ns = 0;
                        self.mode = LoopMode::GAME;
                        StepResult::ENTER_GAME
                    },
                    _ => StepResult::EDITOR_FRAME,
                }
            },
            LoopMode::GAME => {
                let total: u64 = self.accumulator_ns + elapsed_ns;
                self.accumulator_ns = total;
                let mut ticks: u64 = 0;
                let mut quit_to_editor = false;
                let ghost entry_scene = self.game.current_scene;

                proof {
                    lemma_scene_advanced_zero(entry_scene, FIXED_TICK_MS as int);
                }

                while self.accumulator_ns >= FIXED_TICK_NS && !quit_to_editor
                    invariant
                        valid_scene(self.game.current_scene),
                        self.editor == old(self).editor,
                        self.mode == old(self).mode,
                        valid_editor(self.editor),
                        scene_advanced_n(
                            entry_scene,
                            self.game.current_scene,
                            FIXED_TICK_MS as int,
                            ticks as nat,
                        ),
                        !quit_to_editor ==> self.accumulator_ns + ticks * FIXED_TICK_NS == total,
                        quit_to_editor ==> input.quit && ticks == 0
                            && self.game.current_scene == entry_scene && total >= FIXED_TICK_NS,
                        !quit_to_editor && input.quit ==> ticks == 0
                            && self.game.current_scene == entry_scene,
                        !quit_to_editor && ticks == 0 ==> self.game == old(self).game,
                    decreases self.accumulator_ns,
                {
                    self.accumulator_ns = self.accumulator_ns - FIXED_TICK_NS;
                    let ghost before = self.game.current_scene;
                    match self.game.update(input.quit, FIXED_TICK_MS) {
                        Some(GameAction::QUIT) => {
                            quit_to_editor = true;
                        },
                        None => {
                            proof {
                                lemma_scene_advanced_compose(
                                    entry_scene,
                                    before,
                                    self.game.current_scene,
                                    FIXED_TICK_MS as int,
                                    ticks as nat,
                                );
                            }
                            ticks = ticks + 1;
                        },
                    }
                }

                if quit_to_editor {
                    self.mode = LoopMode::EDITOR;
                    self.accumulator_ns = 0;
                    StepResult::GAME_FRAME { ticks: 0, to_editor: true }
                } else {
                    proof {
                        if total >= FIXED_TICK_NS {
                            lemma_fundamental_div_mod_converse(
                                total as int,
                                FIXED_TICK_NS as int,
                                ticks as int,
                                self.accumulator_ns as int,
                            );
                        }
                    }
                    StepResult::GAME_FRAME { ticks, to_editor: false }
                }
            },
        }
    }
}

} // verus!
