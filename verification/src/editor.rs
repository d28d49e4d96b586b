use vstd::prelude::*;

use crate::math::Vector2d;
use crate::physics::{BodyType, BoxShape, RigidBody, MICROS_PER_UNIT};
use crate::scene::{is_first_hit, valid_scene, Camera, GameObject, Rgb, Scene};

verus! {

use vstd::string::StringExecFns;

/// The outcomes an editor tick can hand to the control loop, and the
/// actions a tool button can be bound to.
#[allow(non_camel_case_types)]
#[derive(Debug, Copy, Clone, PartialEq)]
pub enum EditorAction {
    QUIT,
    RUN,
    SWITCH_TO_ADD,
    SWITCH_TO_SELECT,
    SWITCH_TO_STATIC,
}

/// Which pointer buttons are held down in one input poll.
#[derive(Debug, Copy, Clone, PartialEq)]
pub struct MouseButtons {
    pub left: bool,
    pub middle: bool,
    pub right: bool,
}

impl MouseButtons {
    pub fn none() -> (r: MouseButtons)
        ensures
            r == (MouseButtons { left: false, middle: false, right: false }),
    {
        MouseButtons { left: false, middle: false, right: false }
    }
}

/// Some button is down now that was not down at the previous tick: a press
/// edge, as opposed to a held-down state.
pub open spec fn new_press(cur: MouseButtons, prev: MouseButtons) -> bool {
    ||| (cur.left && !prev.left)
    ||| (cur.middle && !prev.middle)
    ||| (cur.right && !prev.right)
}

/// Everything the outside input source reports for one tick: external
/// signals, pan directions, the pointer position (in world units) and the
/// pointer buttons held down.
#[derive(Debug, Copy, Clone, PartialEq)]
pub struct InputState {
    pub quit: bool,
    pub run: bool,
    pub pan_left: bool,
    pub pan_right: bool,
    pub pan_up: bool,
    pub pan_down: bool,
    pub mouse_x: i32,
    pub mouse_y: i32,
    pub buttons: MouseButtons,
}

impl InputState {
    /// A tick with no signals, no pan, no buttons, pointer at the origin.
    pub fn idle() -> (r: InputState)
        ensures
            r == (InputState {
                quit: false,
                run: false,
                pan_left: false,
                pan_right: false,
                pan_up: false,
                pan_down: false,
                mouse_x: 0i32,
                mouse_y: 0i32,
                buttons: MouseButtons { left: false, middle: false, right: false },
            }),
    {
        InputState {
            quit: false,
            run: false,
            pan_left: false,
            pan_right: false,
            pan_up: false,
            pan_down: false,
            mouse_x: 0,
            mouse_y: 0,
            buttons: MouseButtons::none(),
        }
    }
}

/// A clickable UI control: a labeled screen-space rectangle bound to one
/// editor action.
#[derive(Debug, Clone, PartialEq)]
pub struct Button {
    // content
    pub label: String,
    pub shape_x: i32,
    pub shape_y: i32,
    pub shape_w: u32,
    pub shape_h: u32,
    pub shape_color: Rgb,
    pub text_color: Rgb,

    // action
    pub action: EditorAction,
}

/// The button's rectangle stays inside the `i32` range, so that the press
/// test cannot overflow.
pub open spec fn valid_button(b: Button) -> bool {
    &&& b.shape_w <= i32::MAX
    &&& b.shape_h <= i32::MAX
    &&& b.shape_x + b.shape_w <= i32::MAX
    &&& b.shape_y + b.shape_h <= i32::MAX
}

/// Whether the pointer at `(x, y)` is over the button's rectangle
/// (half-open, like every box in this crate).
pub open spec fn button_pressed(b: Button, x: int, y: int) -> bool {
    &&& b.shape_x <= x < b.shape_x + b.shape_w
    &&& b.shape_y <= y < b.shape_y + b.shape_h
}

impl Button {
    pub fn new(
        content: String,
        x: i32,
        y: i32,
        w: u32,
        h: u32,
        shape_color: Rgb,
        text_color: Rgb,
        action: EditorAction,
    ) -> (r: Button)
        requires
            w <= i32::MAX,
            h <= i32::MAX,
            x + w <= i32::MAX,
            y + h <= i32::MAX,
        ensures
            r.label == content,
            r.shape_x == x,
            r.shape_y == y,
            r.shape_w == w,
            r.shape_h == h,
            r.shape_color == shape_color,
            r.text_color == text_color,
            r.action == action,
            valid_button(r),
    {
        Button { label: content, shape_x: x, shape_y: y, shape_w: w, shape_h: h, shape_color,
            text_color, action }
    }

    pub fn is_pressed(&self, x: i32, y: i32) -> (r: bool)
        requires
            valid_button(*self),
        ensures
            r == button_pressed(*self, x as int, y as int),
    {
        x >= self.shape_x && x < self.shape_x + (self.shape_w as i32) && y >= self.shape_y && y
            < self.shape_y + (self.shape_h as i32)
    }
}

/// The editor's current interpretation of a click into the scene.
#[allow(non_camel_case_types)]
#[derive(Debug, PartialEq, Copy, Clone)]
pub enum EditorState {
    ADD_RECT,
    ADD_STATIC,
    SELECT,
}

/// The tool state a button action switches to; quit and run outcomes leave
/// the tool unchanged.
pub open spec fn state_for_action(a: EditorAction, st: EditorState) -> EditorState {
    match a {
        EditorAction::SWITCH_TO_ADD => EditorState::ADD_RECT,
        EditorAction::SWITCH_TO_SELECT => EditorState::SELECT,
        EditorAction::SWITCH_TO_STATIC => EditorState::ADD_STATIC,
        _ => st,
    }
}

/// The tool state after a click at `(x, y)` has fired every button it lies
/// over, in button order.
pub open spec fn state_after_buttons(
    buttons: Seq<Button>,
    x: int,
    y: int,
    st: EditorState,
) -> EditorState
    decreases buttons.len(),
{
    if buttons.len() == 0 {
        st
    } else {
        let prev = state_after_buttons(buttons.drop_last(), x, y, st);
        if button_pressed(buttons.last(), x, y) {
            state_for_action(buttons.last().action, prev)
        } else {
            prev
        }
    }
}

/// Whether the click at `(x, y)` lands on any UI button, in which case the
/// click is consumed and never reaches the scene.
pub open spec fn any_button_pressed(buttons: Seq<Button>, x: int, y: int) -> bool {
    exists|i: int| 0 <= i < buttons.len() && button_pressed(#[trigger] buttons[i], x, y)
}

/// A pan moves a camera component by one unit, saturating at the `i32`
/// bounds; opposite directions in the same tick cancel out.
pub open spec fn pan_component(v: int, inc: bool, dec: bool) -> int {
    let moved = v + (if inc { 1int } else { 0int }) - (if dec { 1int } else { 0int });
    if moved < i32::MIN {
        i32::MIN as int
    } else if moved > i32::MAX {
        i32::MAX as int
    } else {
        moved
    }
}

/// The entity a scene click places in add-dynamic mode: a 20 by 20 dynamic
/// box at the pointer's world position, in the dynamic fill color.
pub open spec fn placed_dynamic(x: int, y: int) -> GameObject {
    GameObject {
        body: RigidBody {
            position: Vector2d {
                x: (x * MICROS_PER_UNIT) as i64,
                y: (y * MICROS_PER_UNIT) as i64,
            },
            velocity: Vector2d { x: 0i64, y: 0i64 },
            shape: BoxShape { w: 20u32, h: 20u32, m: 2u32 },
            body_type: BodyType::Dynamic,
            force: Vector2d { x: 0i64, y: 0i64 },
        },
        color: Rgb { r: 230u8, g: 230u8, b: 250u8 },
    }
}

/// The entity a scene click places in add-static mode: a 50 by 50 static
/// box at the pointer's world position, in the static fill color.
pub open spec fn placed_static(x: int, y: int) -> GameObject {
    GameObject {
        body: RigidBody {
            position: Vector2d {
                x: (x * MICROS_PER_UNIT) as i64,
                y: (y * MICROS_PER_UNIT) as i64,
            },
            velocity: Vector2d { x: 0i64, y: 0i64 },
            shape: BoxShape { w: 50u32, h: 50u32, m: 2u32 },
            body_type: BodyType::Static,
            force: Vector2d { x: 0i64, y: 0i64 },
        },
        color: Rgb { r: 130u8, g: 60u8, b: 255u8 },
    }
}

/// The interactive authoring controller: the authored scene, the UI
/// buttons, the previous tick's pointer buttons (for edge detection), the
/// active tool and the current selection.
pub struct Editor {
    pub buttons: Vec<Button>,
    pub current_scene: Scene,
    pub prev_buttons: MouseButtons,
    pub state: EditorState,

    pub selection: Option<usize>,
}

/// The editor's invariant: a well-formed scene, well-formed buttons bound
/// only to tool switches, and a selection that stays in range.
pub open spec fn valid_editor(e: Editor) -> bool {
    &&& valid_scene(e.current_scene)
    &&& forall|i: int| 0 <= i < e.buttons@.len() ==> valid_button(#[trigger] e.buttons@[i])
    &&& forall|i: int|
        0 <= i < e.buttons@.len() ==> ((#[trigger] e.buttons@[i].action) is SWITCH_TO_ADD
            || e.buttons@[i].action is SWITCH_TO_SELECT
            || e.buttons@[i].action is SWITCH_TO_STATIC)
    &&& match e.selection {
        Some(i) => i < e.current_scene.gameobjects@.len(),
        None => true,
    }
}

/// How one editor tick transforms the editor.  A quit signal supersedes
/// everything, then a run signal; otherwise the tick pans the camera,
/// detects a press edge, lets a UI button consume the click, and otherwise
/// dispatches the click on the active tool.
pub open spec fn editor_step(
    pre: Editor,
    input: InputState,
    post: Editor,
    r: Option<EditorAction>,
) -> bool {
    if input.quit {
        &&& r == Some(EditorAction::QUIT)
        &&& post == pre
    } else if input.run {
        &&& r == Some(EditorAction::RUN)
        &&& post == pre
    } else {
        let mx = input.mouse_x as int;
        let my = input.mouse_y as int;
        let edge = new_press(input.buttons, pre.prev_buttons);
        let ui = any_button_pressed(pre.buttons@, mx, my);
        &&& r is None
        &&& post.buttons@ == pre.buttons@
        &&& post.prev_buttons == input.buttons
        &&& post.current_scene.camera == (Camera {
            position: Vector2d {
                x: pan_component(
                    pre.current_scene.camera.position.x as int,
                    input.pan_right,
                    input.pan_left,
                ) as i32,
                y: pan_component(
                    pre.current_scene.camera.position.y as int,
                    input.pan_down,
                    input.pan_up,
                ) as i32,
            },
        })
        &&& if !edge {
            &&& post.current_scene.gameobjects@ == pre.current_scene.gameobjects@
            &&& post.state == pre.state
            &&& post.selection == pre.selection
        } else if ui {
            &&& post.current_scene.gameobjects@ == pre.current_scene.gameobjects@
            &&& post.state == state_after_buttons(pre.buttons@, mx, my, pre.state)
            &&& post.selection == pre.selection
        } else {
            match pre.state {
                EditorState::ADD_RECT => {
                    &&& post.current_scene.gameobjects@ == pre.current_scene.gameobjects@.push(
                        placed_dynamic(mx, my),
                    )
                    &&& post.state == pre.state
                    &&& post.selection == pre.selection
                },
                EditorState::ADD_STATIC => {
                    &&& post.current_scene.gameobjects@ == pre.current_scene.gameobjects@.push(
                        placed_static(mx, my),
                    )
                    &&& post.state == pre.state
                    &&& post.selection == pre.selection
                },
                EditorState::SELECT => {
                    &&& post.current_scene.gameobjects@ == pre.current_scene.gameobjects@
                    &&& post.state == pre.state
                    &&& is_first_hit(pre.current_scene.gameobjects@, mx, my, post.selection)
                },
            }
        }
    }
}

fn pan_exec(v: i32, inc: bool, dec: bool) -> (r: i32)
    ensures
        r == pan_component(v as int, inc, dec),
{
    let d: i32 = (if inc { 1 } else { 0 }) - (if dec { 1 } else { 0 });
    if d == 1 {
        if v < i32::MAX {
            v + 1
        } else {
            v
        }
    } else if d == -1 {
        if v > i32::MIN {
            v - 1
        } else {
            v
        }
    } else {
        v
    }
}

impl Editor {
    /// A fresh editor: empty scene, the three tool buttons, the add-dynamic
    /// tool active and nothing selected.
    pub fn new() -> (e: Editor)
        ensures
            e.current_scene.gameobjects@.len() == 0,
            e.current_scene.camera.position.x == 0,
            e.current_scene.camera.position.y == 0,
            e.prev_buttons == (MouseButtons { left: false, middle: false, right: false }),
            e.state is ADD_RECT,
            e.selection is None,
            e.buttons@.len() == 3,
            e.buttons@[0].action is SWITCH_TO_ADD,
            e.buttons@[0].label@ == "A"@,
            e.buttons@[0].shape_x == 10 && e.buttons@[0].shape_y == 0 && e.buttons@[0].shape_w
                == 20 && e.buttons@[0].shape_h == 20,
            e.buttons@[1].action is SWITCH_TO_SELECT,
            e.buttons@[1].label@ == "S"@,
            e.buttons@[1].shape_x == 40 && e.buttons@[1].shape_y == 0 && e.buttons@[1].shape_w
                == 20 && e.buttons@[1].shape_h == 20,
            e.buttons@[2].action is SWITCH_TO_STATIC,
            e.buttons@[2].label@ == "F"@,
            e.buttons@[2].shape_x == 70 && e.buttons@[2].shape_y == 0 && e.buttons@[2].shape_w
                == 20 && e.buttons@[2].shape_h == 20,
            forall|i: int|
                0 <= i < 3 ==> (#[trigger] e.buttons@[i]).shape_color == (Rgb {
                    r: 255u8,
                    g: 255u8,
                    b: 255u8,
                }) && e.buttons@[i].text_color == (Rgb { r: 255u8, g: 255u8, b: 255u8 }),
            valid_editor(e),
    {
        let white = Rgb::new(255, 255, 255);
        let mut buttons: Vec<Button> = Vec::new();
        buttons.push(Button::new(String::from_str("A"), 10, 0, 20, 20, white, white,
            EditorAction::SWITCH_TO_ADD));
        buttons.push(Button::new(String::from_str("S"), 40, 0, 20, 20, white, white,
            EditorAction::SWITCH_TO_SELECT));
        buttons.push(Button::new(String::from_str("F"), 70, 0, 20, 20, white, white,
            EditorAction::SWITCH_TO_STATIC));
        Editor {
            current_scene: Scene::new(),
            prev_buttons: MouseButtons::none(),
            buttons,
            state: EditorState::ADD_RECT,
            selection: None,
        }
    }

    /// One editor tick over a polled input snapshot; see `editor_step` for
    /// the exact transformation.  The outcome is `QUIT`, `RUN` or `None`:
    /// tool switches, pans, adds and selection changes are side effects.
    pub fn update(&mut self, input: &InputState) -> (r: Option<EditorAction>)
        requires
            valid_editor(*old(self)),
            old(self).current_scene.gameobjects@.len() < usize::MAX,
        ensures
            editor_step(*old(self), *input, *final(self), r),
            valid_editor(*final(self)),
    {
        if input.quit {
            return Some(EditorAction::QUIT);
        }
        if input.run {
            return Some(EditorAction::RUN);
        }

        let ncx = pan_exec(self.current_scene.camera.position.x, input.pan_right, input.pan_left);
        let ncy = pan_exec(self.current_scene.camera.position.y, input.pan_down, input.pan_up);

        // A press edge: some button down this tick that was not down before.
        let edge = (input.buttons.left && !self.prev_buttons.left) || (input.buttons.middle
            && !self.prev_buttons.middle) || (input.buttons.right && !self.prev_buttons.right);

        if edge {
            let mut button_clicked = false;
            let mut st = self.state;
            let n = self.buttons.len();
            let mut i: usize = 0;
            // detect if click on editor button.
            while i < n
                invariant
                    n == self.buttons@.len(),
                    i <= n,
                    forall|k: int| 0 <= k < n ==> valid_button(#[trigger] self.buttons@[k]),
                    st == state_after_buttons(
                        self.buttons@.subrange(0, i as int),
                        input.mouse_x as int,
                        input.mouse_y as int,
                        self.state,
                    ),
                    button_clicked == any_button_pressed(
                        self.buttons@.subrange(0, i as int),
                        input.mouse_x as int,
                        input.mouse_y as int,
                    ),
                decreases n - i,
            {
                let ghost prefix = self.buttons@.subrange(0, i as int);
                if self.buttons[i].is_pressed(input.mouse_x, input.mouse_y) {
                    button_clicked = true;
                    st = match self.buttons[i].action {
                        EditorAction::SWITCH_TO_SELECT => EditorState::SELECT,
                        EditorAction::SWITCH_TO_ADD => EditorState::ADD_RECT,
                        EditorAction::SWITCH_TO_STATIC => EditorState::ADD_STATIC,
                        _ => st,
                    };
                }
                i = i + 1;
                proof {
                    let full = self.buttons@.subrange(0, i as int);
                    assert(full.drop_last() =~= prefix);
                    assert(full.last() == self.buttons@[i - 1]);
                    if button_clicked {
                        assert(any_button_pressed(
                            full,
                            input.mouse_x as int,
                            input.mouse_y as int,
                        ));
                    } else {
                        assert forall|k: int|
                            0 <= k < full.len() implies !button_pressed(
                            #[trigger] full[k],
                            input.mouse_x as int,
                            input.mouse_y as int,
                        ) by {
                            if k < full.len() - 1 {
                                assert(full[k] == prefix[k]);
                            }
                        }
                    }
                }
            }
            proof {
                assert(self.buttons@.subrange(0, n as int) =~= self.buttons@);
            }

            if button_clicked {
                self.state = st;
            } else {
                match self.state {
                    EditorState::ADD_RECT => {
                        // If not click on a button, execute whatever the
                        // active tool does at the pointer.
                        self.current_scene.add_rect(
                            (input.mouse_x as i64) * MICROS_PER_UNIT,
                            (input.mouse_y as i64) * MICROS_PER_UNIT,
                            20,
                            20,
                            Rgb::new(230, 230, 250),
                        );
                    },
                    EditorState::SELECT => {
                        let sel = self.current_scene.hit_test(input.mouse_x, input.mouse_y);
                        self.selection = sel;
                    },
                    EditorState::ADD_STATIC => {
                        self.current_scene.add_static(
                            (input.mouse_x as i64) * MICROS_PER_UNIT,
                            (input.mouse_y as i64) * MICROS_PER_UNIT,
                            50,
                            50,
                            Rgb::new(130, 60, 255),
                        );
                    },
                }
            }
        }

        self.current_scene.camera.position.x = ncx;
        self.current_scene.camera.position.y = ncy;
        self.prev_buttons = input.buttons;

        None
    }
}

} // verus!
