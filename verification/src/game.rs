use vstd::prelude::*;

use crate::physics::{step_body, valid_body, PhysicSystem, RigidBody, MAX_TICK_MS};
use crate::scene::{valid_scene, GameObject, Scene};

verus! {

/// The only outcome a simulation tick can raise: hand control back to the
/// editor.
#[allow(non_camel_case_types)]
#[derive(Debug, Copy, Clone, PartialEq)]
pub enum GameAction {
    QUIT,
}

/// `post` is `pre` advanced by one integration step of `dt` milliseconds:
/// same entities in the same order, each body stepped, colors and camera
/// untouched.
pub open spec fn scene_advanced(pre: Scene, post: Scene, dt: int) -> bool {
    &&& post.gameobjects@.len() == pre.gameobjects@.len()
    &&& forall|i: int|
        0 <= i < pre.gameobjects@.len() ==> post.gameobjects@[i] == (GameObject {
            body: step_body((#[trigger] pre.gameobjects@[i]).body, dt),
            color: pre.gameobjects@[i].color,
        })
    &&& post.camera == pre.camera
}

/// The simulation controller: a private copy of a scene (adopted through
/// `set_scene`) driven by the physics system.
pub struct Game {
    pub current_scene: Scene,

    pub physic_system: PhysicSystem,
}

impl Game {
    pub fn new() -> (g: Game)
        ensures
            g.current_scene.gameobjects@.len() == 0,
            g.current_scene.camera.position.x == 0,
            g.current_scene.camera.position.y == 0,
            valid_scene(g.current_scene),
    {
        Game { current_scene: Scene::new(), physic_system: PhysicSystem {} }
    }

    /// Adopts a deep, independent copy of the supplied scene: after this
    /// call the two scenes share no mutable state, so simulation can never
    /// corrupt the authored original.
    pub fn set_scene(&mut self, scene: &Scene)
        ensures
            final(self).current_scene.gameobjects@ == scene.gameobjects@,
            final(self).current_scene.camera == scene.camera,
    {
        self.current_scene = scene.snapshot();
    }

    /// One simulation tick of `dt` milliseconds.  A quit signal supersedes
    /// the tick and leaves the scene untouched; otherwise every body is
    /// advanced one integration step and the outcome is `None`.
    pub fn update(&mut self, quit_requested: bool, dt: u32) -> (r: Option<GameAction>)
        requires
            valid_scene(old(self).current_scene),
            dt <= MAX_TICK_MS,
        ensures
            quit_requested ==> r == Some(GameAction::QUIT) && final(self).current_scene
                == old(self).current_scene,
            !quit_requested ==> r is None && scene_advanced(
                old(self).current_scene,
                final(self).current_scene,
                dt as int,
            ),
            valid_scene(final(self).current_scene),
    {
        if quit_requested {
            return Some(GameAction::QUIT);
        }

        // Update scene elements: collect the rigid bodies, advance them,
        // and write them back to their entities.
        let n = self.current_scene.gameobjects.len();
        let mut bodies: Vec<RigidBody> = Vec::new();
        let mut i: usize = 0;
        while i < n
            invariant
                n == self.current_scene.gameobjects@.len(),
                i <= n,
                bodies@.len() == i,
                valid_scene(self.current_scene),
                forall|k: int|
                    0 <= k < i ==> bodies@[k] == (#[trigger] self.current_scene.gameobjects@[k]).body,
            decreases n - i,
        {
            bodies.push(self.current_scene.gameobjects[i].body);
            i = i + 1;
        }

        proof {
            assert forall|k: int| 0 <= k < bodies@.len() implies valid_body(
                #[trigger] bodies@[k],
            ) by {
                assert(bodies@[k] == self.current_scene.gameobjects@[k].body);
            }
        }

        // Overlapping pairs are detected but not resolved: resolution is a
        // deliberate extension point of the physics system.
        let _overlaps = self.physic_system.update(&mut bodies, dt);

        let mut updated: Vec<GameObject> = Vec::new();
        let mut j: usize = 0;
        while j < n
            invariant
                n == self.current_scene.gameobjects@.len(),
                j <= n,
                bodies@.len() == n,
                updated@.len() == j,
                valid_scene(self.current_scene),
                dt <= MAX_TICK_MS,
                forall|k: int|
                    0 <= k < n ==> bodies@[k] == step_body(
                        (#[trigger] self.current_scene.gameobjects@[k]).body,
                        dt as int,
                    ),
                forall|k: int| 0 <= k < n ==> valid_body(#[trigger] bodies@[k]),
                forall|k: int|
                    0 <= k < j ==> updated@[k] == (GameObject {
                        body: bodies@[k],
                        color: (#[trigger] self.current_scene.gameobjects@[k]).color,
                    }),
            decreases n - j,
        {
            updated.push(GameObject {
                body: bodies[j],
                color: self.current_scene.gameobjects[j].color,
            });
            j = j + 1;
        }

        proof {
            assert forall|i: int| 0 <= i < updated@.len() implies valid_body(
                (#[trigger] updated@[i]).body,
            ) by {
                assert(updated@[i] == (GameObject {
                    body: bodies@[i],
                    color: self.current_scene.gameobjects@[i].color,
                }));
            }
        }

        self.current_scene.gameobjects = updated;

        None
    }
}

} // verus!
