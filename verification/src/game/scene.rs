//! Scenes: what the game loop updates and the renderer draws.
use crate::game::input::Input;
use crate::game::object::GameObject;
use crate::game::{GameAction, GameError};
use crate::math::scalar::Scalar;
use crate::renderer::camera::Camera;
use crate::renderer::mesh::{call_views, DrawCall, DrawCallView};
use vstd::prelude::*;

verus! {

/// The items that are present, in order.
pub open spec fn present_calls<A>(found: Seq<Option<A>>) -> Seq<A>
    decreases found.len(),
{
    if found.len() == 0 {
        Seq::empty()
    } else {
        let before = present_calls(found.drop_last());
        match found.last() {
            Some(item) => before.push(item),
            None => before,
        }
    }
}

/// Whether every object of the sequence is modeled.
pub open spec fn all_modeled<T: Scalar>(objects: Seq<Box<&dyn GameObject<T>>>) -> bool {
    forall|i: int| 0 <= i < objects.len() ==> (#[trigger] objects[i]).modeled()
}

/// For each object its draw call, or none for an object without a mesh.
pub open spec fn object_draws<T: Scalar>(objects: Seq<Box<&dyn GameObject<T>>>) -> Seq<
    Option<DrawCallView<T>>,
> {
    Seq::new(objects.len(), |i: int| objects[i].draw_spec())
}

/// The draw calls that were found, each as plain values.
pub open spec fn found_views<T>(found: Seq<Option<DrawCall<T>>>) -> Seq<Option<DrawCallView<T>>> {
    Seq::new(
        found.len(),
        |i: int|
            match found[i] {
                Some(call) => Some(call@),
                None => None,
            },
    )
}

/// Keeping the present items and then taking their plain values gives the
/// same as taking the plain values first.
pub proof fn lemma_present_views<T>(found: Seq<Option<DrawCall<T>>>)
    ensures
        call_views(present_calls(found)) == present_calls(found_views(found)),
    decreases found.len(),
{
    let views = found_views(found);
    if found.len() == 0 {
        assert(call_views(present_calls(found)) =~= present_calls(views));
    } else {
        lemma_present_views(found.drop_last());
        assert(views.drop_last() =~= found_views(found.drop_last()));
        assert(call_views(present_calls(found)) =~= present_calls(views));
    }
}

/// There are at most as many present items as items.
pub proof fn lemma_present_len<A>(found: Seq<Option<A>>)
    ensures
        present_calls(found).len() <= found.len(),
    decreases found.len(),
{
    if found.len() > 0 {
        lemma_present_len(found.drop_last());
    }
}

/// A scene: a camera, game objects, and the hooks that the game loop calls.
/// The hooks answer with the actions that the loop is to apply.
///
/// An implementation may declare that the specification functions model it.
/// The contracts below speak of modeled scenes only; of others they claim
/// nothing.
pub trait Scene<T: Scalar> {
    /// Whether `camera_spec` and `draw_calls_spec` describe this scene.
    open spec fn modeled(&self) -> bool {
        false
    }

    /// The camera through which the scene is seen.
    open spec fn camera_spec(&self) -> Camera<T> {
        arbitrary()
    }

    /// The draw calls of the scene: one for the mesh of each object that
    /// has one, in the order of the objects.
    open spec fn draw_calls_spec(&self) -> Seq<DrawCallView<T>> {
        arbitrary()
    }

    /// The objects of the scene.
    fn get_game_objects(&self) -> (r: Vec<Box<&dyn GameObject<T>>>)
        ensures
            self.modeled() ==> all_modeled(r@) && present_calls(object_draws(r@))
                == self.draw_calls_spec(),
    ;

    /// A draw call for the mesh of each object that has one, in the order
    /// of the objects.
    fn draw_calls(&self) -> (r: Vec<DrawCall<T>>)
        ensures
            self.modeled() ==> call_views(r@) == self.draw_calls_spec(),
    {
        collect_draw_calls(&self.get_game_objects())
    }

    /// The camera through which the scene is seen.
    fn get_current_camera(&self) -> (r: &Camera<T>)
        ensures
            self.modeled() ==> *r == self.camera_spec(),
    ;

    /// The camera through which the scene is seen, to change it.
    fn get_mut_camera(&mut self) -> (r: &mut Camera<T>)
        ensures
            old(self).modeled() ==> {
                &&& *r == old(self).camera_spec()
                &&& final(self).modeled()
                &&& final(self).camera_spec() == *final(r)
                &&& final(self).draw_calls_spec() == old(self).draw_calls_spec()
            },
    ;

    /// Called once when the scene becomes the active one.
    fn start(&mut self) -> Result<Vec<GameAction<T>>, GameError>;

    /// Called once per frame with the current input.
    fn update(&mut self, input: &Input<T>) -> Result<Vec<GameAction<T>>, GameError>;
}

/// A scene that serves as a menu.
pub trait MenuScene<T: Scalar>: Scene<T> {

}

/// A scene in which the game is played.
pub trait GameScene<T: Scalar>: Scene<T> {

}

/// A scene shown while another one loads.
pub trait LoadingScene<T: Scalar>: Scene<T> {

}

/// The draw calls that are present among those found, in order.
pub fn keep_present<T: Scalar>(found: Vec<Option<DrawCall<T>>>) -> (r: Vec<DrawCall<T>>)
    ensures
        r@ == present_calls(found@),
{
    let ghost all = found@;
    let mut calls: Vec<DrawCall<T>> = Vec::new();
    assert(all.take(0) =~= Seq::<Option<DrawCall<T>>>::empty());
    for item in it: found
        invariant
            it.seq() == all,
            calls@ == present_calls(all.take(it.index() as int)),
    {
        proof {
            let next = all.take(it.index() as int + 1);
            assert(next.drop_last() =~= all.take(it.index() as int));
            assert(next.last() == item);
        }
        match item {
            Some(call) => {
                calls.push(call);
            },
            None => {},
        }
    }
    assert(all.take(all.len() as int) =~= all);
    calls
}

/// A draw call for the mesh of each object that has one, in the order of
/// the objects. Each object is asked for its mesh and each mesh for its
/// draw call; `keep_present` keeps what was found.
pub fn collect_draw_calls<T: Scalar>(objects: &Vec<Box<&dyn GameObject<T>>>) -> (r: Vec<
    DrawCall<T>,
>)
    ensures
        r@.len() <= objects@.len(),
        objects@.len() == 0 ==> r@.len() == 0,
        all_modeled(objects@) ==> call_views(r@) == present_calls(object_draws(objects@)),
{
    let mut found: Vec<Option<DrawCall<T>>> = Vec::new();
    let mut i: usize = 0;
    while i < objects.len()
        invariant
            0 <= i <= objects@.len(),
            found@.len() == i,
            all_modeled(objects@) ==> forall|k: int|
                0 <= k < i ==> #[trigger] found_views(found@)[k] == object_draws(objects@)[k],
        decreases objects@.len() - i,
    {
        let item = match objects[i].get_mesh() {
            Some(mesh) => Some(mesh.draw()),
            None => None,
        };
        proof {
            if all_modeled(objects@) {
                assert(objects@[i as int].modeled());
            }
        }
        let ghost before = found@;
        found.push(item);
        proof {
            assert forall|k: int| 0 <= k < i implies found@[k] == before[k] by {}
            if all_modeled(objects@) {
                assert forall|k: int| 0 <= k < i + 1 implies #[trigger] found_views(found@)[k]
                    == object_draws(objects@)[k] by {
                    if k < i {
                        assert(found_views(before)[k] == object_draws(objects@)[k]);
                    }
                }
            }
        }
        i += 1;
    }
    proof {
        lemma_present_len(found@);
        lemma_present_views(found@);
        if all_modeled(objects@) {
            assert(found_views(found@) =~= object_draws(objects@));
        }
    }
    keep_present(found)
}

/// A scene with a camera and nothing else.
#[derive(Debug)]
pub struct EmptyScene<T: Scalar>(pub Camera<T>);

impl<T: Scalar> EmptyScene<T> {
    /// The empty scene around `camera`.
    pub fn new(camera: Camera<T>) -> (r: Self)
        ensures
            r.0 == camera,
    {
        Self(camera)
    }
}

impl<T: Scalar> Scene<T> for EmptyScene<T> {
    open spec fn modeled(&self) -> bool {
        true
    }

    open spec fn camera_spec(&self) -> Camera<T> {
        self.0
    }

    open spec fn draw_calls_spec(&self) -> Seq<DrawCallView<T>> {
        Seq::empty()
    }

    /// An empty scene has no objects.
    fn get_game_objects(&self) -> (r: Vec<Box<&dyn GameObject<T>>>)
        ensures
            r@.len() == 0,
    {
        let r: Vec<Box<&dyn GameObject<T>>> = Vec::new();
        assert(object_draws(r@) =~= Seq::empty());
        r
    }

    fn get_current_camera(&self) -> (r: &Camera<T>)
        ensures
            *r == self.0,
    {
        &self.0
    }

    fn get_mut_camera(&mut self) -> (r: &mut Camera<T>)
        ensures
            *r == old(self).0,
            final(self).0 == *final(r),
    {
        &mut self.0
    }

    /// An empty scene asks for nothing when it starts.
    fn start(&mut self) -> (r: Result<Vec<GameAction<T>>, GameError>)
        ensures
            r is Ok,
            r->Ok_0@.len() == 0,
            *final(self) == *old(self),
    {
        Ok(Vec::new())
    }

    /// An empty scene asks for nothing when it is updated.
    fn update(&mut self, input: &Input<T>) -> (r: Result<Vec<GameAction<T>>, GameError>)
        ensures
            r is Ok,
            r->Ok_0@.len() == 0,
            *final(self) == *old(self),
    {
        Ok(Vec::new())
    }
}

impl<T: Scalar> LoadingScene<T> for EmptyScene<T> {

}

} // verus!
