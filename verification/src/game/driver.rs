//! The game loop's state, and how actions change it.
use crate::game::input::Input;
use crate::game::scene::EmptyScene;
use crate::game::settings::Settings;
use crate::game::{Effect, GameAction, GameError, GameState, StateKind};
use crate::math::scalar::Scalar;
use crate::renderer::camera::Camera;
use vstd::prelude::*;
use vstd::string::StringExecFns;

verus! {

/// How many scenes may become active, one from the start of the other,
/// while one list of actions is applied.
pub const MAX_TRANSITIONS: usize = 1024;

/// Whether none of the actions replaces the scene.
pub open spec fn is_plain<T: Scalar>(actions: Seq<GameAction<T>>) -> bool {
    forall|i: int| 0 <= i < actions.len() ==> !(#[trigger] actions[i] is ChangeGameState)
}

/// Whether one of the actions is `Exit`.
pub open spec fn has_exit<T: Scalar>(actions: Seq<GameAction<T>>) -> bool {
    exists|i: int| 0 <= i < actions.len() && #[trigger] actions[i] is Exit
}

/// The size that the last `Resize` among the actions asks for; `size` if there is none.
pub open spec fn last_size<T: Scalar>(actions: Seq<GameAction<T>>, size: (u32, u32)) -> (u32, u32)
    decreases actions.len(),
{
    if actions.len() == 0 {
        size
    } else {
        match actions.last() {
            GameAction::Resize(w, h) => (w, h),
            _ => last_size(actions.drop_last(), size),
        }
    }
}

/// The effects of actions that do not replace the scene, in order: one
/// `Close` for each `Exit`, one `Resize` for each `Resize`.
pub open spec fn plain_effects<T: Scalar>(actions: Seq<GameAction<T>>) -> Seq<Effect>
    decreases actions.len(),
{
    if actions.len() == 0 {
        Seq::empty()
    } else {
        let before = plain_effects(actions.drop_last());
        match actions.last() {
            GameAction::Exit => before.push(Effect::Close),
            GameAction::Resize(w, h) => before.push(Effect::Resize(w, h)),
            _ => before,
        }
    }
}

/// The error for scenes that start one another without end.
pub open spec fn too_many_text() -> Seq<char> {
    "too many scenes started one another"@
}

/// Whether the error carries the message `text`.
pub open spec fn is_game_error(e: GameError, text: Seq<char>) -> bool {
    e matches GameError::Other(message) && message@ == text
}

/// What holds where a scene change is met and no further scene may be
/// entered: the actions before the first scene change were applied as they
/// ask, the state is as it was, and the result is the error for scenes that
/// start one another without end.
pub open spec fn stopped_at_limit<T: Scalar>(
    before: Game<T>,
    earlier: Seq<Effect>,
    actions: Seq<GameAction<T>>,
    after: Game<T>,
    later: Seq<Effect>,
    r: Result<(), GameError>,
) -> bool {
    forall|p: int| #[trigger]
        first_change(actions, p) ==> {
            let plain = actions.take(p);
            &&& r is Err
            &&& is_game_error(r->Err_0, too_many_text())
            &&& after.state == before.state
            &&& after.should_close == (before.should_close || has_exit(plain))
            &&& after.window_size == last_size(plain, before.window_size)
            &&& later == earlier + plain_effects(plain)
        }
}

/// How many of the effects are `SceneChanged`.
pub open spec fn count_changes(effects: Seq<Effect>) -> nat
    decreases effects.len(),
{
    if effects.len() == 0 {
        0
    } else if effects.last() == Effect::SceneChanged {
        count_changes(effects.drop_last()) + 1
    } else {
        count_changes(effects.drop_last())
    }
}

/// Whether the action at position `p` is the first that replaces the scene.
pub open spec fn first_change<T: Scalar>(actions: Seq<GameAction<T>>, p: int) -> bool {
    0 <= p < actions.len() && is_plain(actions.take(p)) && actions[p] is ChangeGameState
}

/// The state of the game loop: the active scene, whether the loop is to
/// stop at its next check, and the size of the window.
#[verifier::reject_recursive_types(T)]
pub struct Game<T: Scalar> {
    pub state: GameState<T>,
    pub should_close: bool,
    pub window_size: (u32, u32),
}

/// Whether one of the effects from position `from` on is `Close`.
pub open spec fn closes_since(effects: Seq<Effect>, from: int) -> bool {
    exists|k: int| from <= k < effects.len() && #[trigger] effects[k] == Effect::Close
}

/// The size of the window after the effects from position `from` on: the
/// size of the last `Resize` among them, and `size` if there is none.
pub open spec fn size_since(effects: Seq<Effect>, from: int, size: (u32, u32)) -> (u32, u32)
    decreases effects.len(),
{
    if effects.len() == 0 || effects.len() <= from {
        size
    } else {
        match effects.last() {
            Effect::Resize(w, h) => (w, h),
            _ => size_since(effects.drop_last(), from, size),
        }
    }
}

/// What the added effects record of the game: the request to stop is set
/// exactly if it was set before or `Close` was added, the window has the
/// size of the last `Resize` that was added, effects are only added, and
/// scene changes are only added.
pub open spec fn recorded<T: Scalar>(
    before: Game<T>,
    earlier: Seq<Effect>,
    after: Game<T>,
    later: Seq<Effect>,
) -> bool {
    &&& after.should_close == (before.should_close || closes_since(later, earlier.len() as int))
    &&& after.window_size == size_since(later, earlier.len() as int, before.window_size)
    &&& earlier.len() <= later.len()
    &&& later.take(earlier.len() as int) == earlier
    &&& count_changes(later) >= count_changes(earlier)
}

/// What holds of the game `after` and the effects `later` whenever actions
/// were applied to the game `before` with the effects `earlier`: the added
/// effects record what became of the request to stop and of the window's
/// size, and the state is the same unless a scene change was added.
pub open spec fn kept<T: Scalar>(
    before: Game<T>,
    earlier: Seq<Effect>,
    after: Game<T>,
    later: Seq<Effect>,
) -> bool {
    &&& recorded(before, earlier, after, later)
    &&& count_changes(later) == count_changes(earlier) ==> after.state == before.state
}

/// Whether the effects hold, from position `from` on and in the order of
/// the actions, what each action added: `marks[i]` is where the effects of
/// action `i` begin. A plain action added exactly its own effect; an action
/// that replaces the scene added `SceneChanged`, followed by whatever the
/// new scene's start asked for.
#[verifier::opaque]
pub open spec fn in_order<T: Scalar>(
    actions: Seq<GameAction<T>>,
    effects: Seq<Effect>,
    marks: Seq<int>,
    from: int,
) -> bool {
    &&& marks.len() == actions.len() + 1
    &&& marks[0] == from
    &&& marks[actions.len() as int] == effects.len()
    &&& forall|i: int|
        0 <= i < actions.len() ==> {
            &&& 0 <= #[trigger] marks[i] <= marks[i + 1] <= effects.len()
            &&& match actions[i] {
                GameAction::ChangeGameState(_) => marks[i] < marks[i + 1] && effects[marks[i]]
                    == Effect::SceneChanged,
                _ => effects.subrange(marks[i], marks[i + 1]) == plain_effects(seq![actions[i]]),
            }
        }
}

/// What holds once the actions `done` were applied without an error.
///
/// An `Exit` among them has set the request to stop. If none of them
/// replaces the scene, the state, the request to stop, the window's size
/// and the added effects are exactly those that the actions ask for. If
/// one does, the added effects begin with the effects of the actions before
/// the first such action, followed by `SceneChanged`; and if no further
/// scene change was reported, the active state has the kind of the state
/// that this action handed in.
#[verifier::opaque]
pub open spec fn applied<T: Scalar>(
    before: Game<T>,
    earlier: Seq<Effect>,
    done: Seq<GameAction<T>>,
    after: Game<T>,
    later: Seq<Effect>,
) -> bool {
    &&& has_exit(done) ==> after.should_close
    &&& is_plain(done) ==> {
        &&& after.state == before.state
        &&& after.should_close == (before.should_close || has_exit(done))
        &&& after.window_size == last_size(done, before.window_size)
        &&& later == earlier + plain_effects(done)
    }
    &&& forall|p: int| #[trigger]
        first_change(done, p) ==> {
            let plain = plain_effects(done.take(p));
            &&& later.len() > earlier.len() + plain.len()
            &&& later.subrange(earlier.len() as int, (earlier.len() + plain.len()) as int) == plain
            &&& later[(earlier.len() + plain.len()) as int] == Effect::SceneChanged
            &&& count_changes(later) >= count_changes(earlier) + 1
            &&& count_changes(later) == count_changes(earlier) + 1 ==> after.state.kind_spec()
                == done[p]->ChangeGameState_0.kind_spec()
        }
}

/// Whether applying the actions failed while the scene change at position
/// `k` was carried out: the actions up to and including it were applied.
pub open spec fn failed_at<T: Scalar>(
    before: Game<T>,
    earlier: Seq<Effect>,
    actions: Seq<GameAction<T>>,
    k: int,
    after: Game<T>,
    later: Seq<Effect>,
) -> bool {
    &&& 0 <= k < actions.len()
    &&& actions[k] is ChangeGameState
    &&& applied(before, earlier, actions.take(k + 1), after, later)
}

/// What applying `actions` within `limit` scene changes that start one
/// another comes to, with the result `r`.
///
/// Whatever happens, `kept` holds. Plain actions cannot fail. On success
/// the actions were all applied, their effects in order. At the limit zero
/// the first scene change is the error for scenes that start one another
/// without end, and nothing of it is carried out. At a limit above zero an
/// error comes only after a scene change was recorded, while that scene
/// change was carried out.
pub open spec fn within<T: Scalar>(
    before: Game<T>,
    earlier: Seq<Effect>,
    actions: Seq<GameAction<T>>,
    limit: usize,
    after: Game<T>,
    later: Seq<Effect>,
    r: Result<(), GameError>,
) -> bool {
    &&& kept(before, earlier, after, later)
    &&& is_plain(actions) ==> r is Ok
    &&& r is Ok ==> applied(before, earlier, actions, after, later)
    &&& r is Ok ==> exists|marks: Seq<int>| in_order(actions, later, marks, earlier.len() as int)
    &&& limit == 0 ==> stopped_at_limit(before, earlier, actions, after, later, r)
    &&& limit > 0 && r is Err ==> {
        &&& count_changes(later) > count_changes(earlier)
        &&& exists|k: int| failed_at(before, earlier, actions, k, after, later)
    }
}

/// What the owner of the window makes of a run of effects: whether to close
/// the window, the size to give the viewport, and the size from which to
/// give the active camera its aspect ratio.
#[derive(Debug, Clone, Copy, PartialEq, Eq)]
pub struct Outcome {
    pub close: bool,
    pub viewport: Option<(u32, u32)>,
    pub camera: Option<(u32, u32)>,
}

/// The outcome of a run of effects. The window closes if any effect asks
/// for it. The viewport takes the size of the last resize. The active camera
/// takes the size of the last resize that came after the last scene change:
/// a resize never reaches the camera of a scene that became active later.
pub open spec fn outcome_of(effects: Seq<Effect>) -> Outcome
    decreases effects.len(),
{
    if effects.len() == 0 {
        Outcome { close: false, viewport: None, camera: None }
    } else {
        let o = outcome_of(effects.drop_last());
        match effects.last() {
            Effect::Close => Outcome { close: true, ..o },
            Effect::Resize(w, h) => Outcome { viewport: Some((w, h)), camera: Some((w, h)), ..o },
            Effect::SceneChanged => Outcome { camera: None, ..o },
        }
    }
}

/// The outcome of a run of effects.
pub fn outcome(effects: &Vec<Effect>) -> (r: Outcome)
    ensures
        r == outcome_of(effects@),
{
    let mut r = Outcome { close: false, viewport: None, camera: None };
    let mut i: usize = 0;
    assert(effects@.take(0) =~= Seq::<Effect>::empty());
    while i < effects.len()
        invariant
            0 <= i <= effects@.len(),
            r == outcome_of(effects@.take(i as int)),
        decreases effects@.len() - i,
    {
        proof {
            let next = effects@.take(i + 1);
            assert(next.drop_last() =~= effects@.take(i as int));
            assert(next.last() == effects@[i as int]);
        }
        match effects[i] {
            Effect::Close => {
                r.close = true;
            },
            Effect::Resize(w, h) => {
                r.viewport = Some((w, h));
                r.camera = Some((w, h));
            },
            Effect::SceneChanged => {
                r.camera = None;
            },
        }
        i += 1;
    }
    assert(effects@.take(effects@.len() as int) =~= effects@);
    r
}

/// Adding an effect adds one to the count of scene changes if the effect is
/// `SceneChanged`, and nothing otherwise.
pub proof fn lemma_count_push(effects: Seq<Effect>, effect: Effect)
    ensures
        count_changes(effects.push(effect)) == count_changes(effects) + (if effect
            == Effect::SceneChanged {
            1nat
        } else {
            0nat
        }),
{
    assert(effects.push(effect).drop_last() =~= effects);
    assert(effects.push(effect).last() == effect);
}

/// The effects of one plain action: none, or one that is no scene change.
pub proof fn lemma_plain_effects_of_one<T: Scalar>(action: GameAction<T>, size: (u32, u32))
    ensures
        plain_effects(seq![action]) == match action {
            GameAction::Exit => seq![Effect::Close],
            GameAction::Resize(w, h) => seq![Effect::Resize(w, h)],
            _ => Seq::<Effect>::empty(),
        },
        last_size(seq![action], size) == match action {
            GameAction::Resize(w, h) => (w, h),
            _ => size,
        },
{
    let one = seq![action];
    assert(one.drop_last() =~= Seq::<GameAction<T>>::empty());
    assert(one.last() == action);
    assert(plain_effects(one.drop_last()) =~= Seq::<Effect>::empty());
    assert(last_size(one.drop_last(), size) == size);
    match action {
        GameAction::Exit => {
            assert(plain_effects(one) =~= seq![Effect::Close]);
        },
        GameAction::Resize(w, h) => {
            assert(plain_effects(one) =~= seq![Effect::Resize(w, h)]);
        },
        _ => {},
    }
}

/// What one more action adds to the facts about a list of actions.
pub proof fn lemma_one_more_action<T: Scalar>(
    done: Seq<GameAction<T>>,
    action: GameAction<T>,
    size: (u32, u32),
)
    ensures
        has_exit(done.push(action)) == (has_exit(done) || action is Exit),
        is_plain(done.push(action)) == (is_plain(done) && !(action is ChangeGameState)),
        plain_effects(done.push(action)) == plain_effects(done) + plain_effects(seq![action]),
        last_size(done.push(action), size) == last_size(seq![action], last_size(done, size)),
        forall|p: int|
            first_change(done.push(action), p) <==> (first_change(done, p) || (p == done.len()
                && is_plain(done) && action is ChangeGameState)),
        forall|p: int| 0 <= p <= done.len() ==> done.push(action).take(p) == done.take(p),
{
    let more = done.push(action);
    assert(more.drop_last() =~= done);
    assert(more.last() == action);
    lemma_plain_effects_of_one(action, last_size(done, size));
    assert(plain_effects(more) =~= plain_effects(done) + plain_effects(seq![action]));
    assert(has_exit(more) == (has_exit(done) || action is Exit)) by {
        if has_exit(done) {
            let i = choose|i: int| 0 <= i < done.len() && #[trigger] done[i] is Exit;
            assert(more[i] is Exit);
        }
        if action is Exit {
            assert(more[more.len() - 1] is Exit);
        }
        if has_exit(more) {
            let i = choose|i: int| 0 <= i < more.len() && #[trigger] more[i] is Exit;
            if i < done.len() {
                assert(done[i] is Exit);
            }
        }
    }
    assert(is_plain(more) == (is_plain(done) && !(action is ChangeGameState))) by {
        if is_plain(more) {
            assert(more[more.len() - 1] == action);
            assert forall|i: int| 0 <= i < done.len() implies !(#[trigger] done[i]
                is ChangeGameState) by {
                assert(more[i] == done[i]);
            }
        }
        if is_plain(done) && !(action is ChangeGameState) {
            assert forall|i: int| 0 <= i < more.len() implies !(#[trigger] more[i]
                is ChangeGameState) by {
                if i < done.len() {
                    assert(more[i] == done[i]);
                }
            }
        }
    }
    assert forall|p: int| 0 <= p <= done.len() implies more.take(p) == done.take(p) by {
        assert(more.take(p) =~= done.take(p));
    }
    assert(done.take(done.len() as int) =~= done);
    assert forall|p: int|
        first_change(more, p) <==> (first_change(done, p) || (p == done.len() && is_plain(done)
            && action is ChangeGameState)) by {
        if 0 <= p < done.len() {
            assert(more.take(p) == done.take(p));
            assert(more[p] == done[p]);
        }
        if p == done.len() {
            assert(more.take(p) == done.take(p));
            assert(more[p] == action);
        }
    }
}

/// The effects of plain actions hold no scene change.
pub proof fn lemma_plain_effects_hold_no_change<T: Scalar>(
    earlier: Seq<Effect>,
    actions: Seq<GameAction<T>>,
)
    ensures
        count_changes(earlier + plain_effects(actions)) == count_changes(earlier),
    decreases actions.len(),
{
    if actions.len() == 0 {
        assert(earlier + plain_effects(actions) =~= earlier);
    } else {
        let before = plain_effects(actions.drop_last());
        lemma_plain_effects_hold_no_change(earlier, actions.drop_last());
        match actions.last() {
            GameAction::Exit => {
                assert(earlier + plain_effects(actions) =~= (earlier + before).push(
                    Effect::Close,
                ));
                lemma_count_push(earlier + before, Effect::Close);
            },
            GameAction::Resize(w, h) => {
                assert(earlier + plain_effects(actions) =~= (earlier + before).push(
                    Effect::Resize(w, h),
                ));
                lemma_count_push(earlier + before, Effect::Resize(w, h));
            },
            _ => {},
        }
    }
}

/// Where the actions before position `here` are plain and the action at
/// `here` replaces the scene, `here` is the only first scene change.
pub proof fn lemma_first_change_is_here<T: Scalar>(actions: Seq<GameAction<T>>, here: int)
    requires
        0 <= here < actions.len(),
        is_plain(actions.take(here)),
        actions[here] is ChangeGameState,
    ensures
        forall|p: int| #[trigger] first_change(actions, p) ==> p == here,
        !is_plain(actions),
{
    assert forall|p: int| #[trigger] first_change(actions, p) implies p == here by {
        if p < here {
            assert(actions.take(here)[p] == actions[p]);
        }
        if p > here {
            assert(actions.take(p)[here] == actions[here]);
        }
    }
}

/// What one more effect makes of the window's size.
pub proof fn lemma_size_since_push(effects: Seq<Effect>, from: int, size: (u32, u32), effect: Effect)
    requires
        0 <= from <= effects.len(),
    ensures
        size_since(effects.push(effect), from, size) == match effect {
            Effect::Resize(w, h) => (w, h),
            _ => size_since(effects, from, size),
        },
        closes_since(effects.push(effect), from) == (closes_since(effects, from) || effect
            == Effect::Close),
{
    let more = effects.push(effect);
    assert(more.drop_last() =~= effects);
    assert(more.last() == effect);
    if closes_since(effects, from) {
        let k = choose|k: int| from <= k < effects.len() && #[trigger] effects[k] == Effect::Close;
        assert(more[k] == Effect::Close);
    }
    if effect == Effect::Close {
        assert(more[more.len() - 1] == Effect::Close);
    }
    if closes_since(more, from) {
        let k = choose|k: int| from <= k < more.len() && #[trigger] more[k] == Effect::Close;
        if k < effects.len() {
            assert(effects[k] == Effect::Close);
        }
    }
}

/// The window's size after effects may be told in two steps: up to a
/// position in between, and from there on. The same holds of `Close`.
pub proof fn lemma_since_split(effects: Seq<Effect>, from: int, between: int, size: (u32, u32))
    requires
        0 <= from <= between <= effects.len(),
    ensures
        size_since(effects, from, size) == size_since(
            effects,
            between,
            size_since(effects.take(between), from, size),
        ),
        closes_since(effects, from) == (closes_since(effects.take(between), from) || closes_since(
            effects,
            between,
        )),
    decreases effects.len(),
{
    let head = effects.take(between);
    if effects.len() == between {
        assert(head =~= effects);
    } else {
        assert(effects.drop_last().take(between) =~= head);
        lemma_since_split(effects.drop_last(), from, between, size);
    }
    if closes_since(effects, from) {
        let k = choose|k: int| from <= k < effects.len() && #[trigger] effects[k] == Effect::Close;
        if k < between {
            assert(head[k] == Effect::Close);
        }
    }
    if closes_since(head, from) {
        let k = choose|k: int| from <= k < head.len() && #[trigger] head[k] == Effect::Close;
        assert(effects[k] == Effect::Close);
    }
    if closes_since(effects, between) {
        let k = choose|k: int|
            between <= k < effects.len() && #[trigger] effects[k] == Effect::Close;
        assert(effects[k] == Effect::Close);
    }
}

/// One more action, with what it added, keeps the effects in order.
pub proof fn lemma_in_order_more<T: Scalar>(
    done: Seq<GameAction<T>>,
    so_far: Seq<Effect>,
    marks: Seq<int>,
    from: int,
    action: GameAction<T>,
    later: Seq<Effect>,
)
    requires
        in_order(done, so_far, marks, from),
        so_far.len() <= later.len(),
        later.take(so_far.len() as int) == so_far,
        match action {
            GameAction::ChangeGameState(_) => later.len() > so_far.len() && later[so_far.len() as int]
                == Effect::SceneChanged,
            _ => later == so_far + plain_effects(seq![action]),
        },
    ensures
        in_order(done.push(action), later, marks.push(later.len() as int), from),
{
    reveal(in_order);
    let more = done.push(action);
    let marked = marks.push(later.len() as int);
    assert forall|k: int| 0 <= k < so_far.len() implies later[k] == so_far[k] by {
        assert(later.take(so_far.len() as int)[k] == later[k]);
    }
    assert forall|i: int| 0 <= i < more.len() implies {
        &&& 0 <= #[trigger] marked[i] <= marked[i + 1] <= later.len()
        &&& match more[i] {
            GameAction::ChangeGameState(_) => marked[i] < marked[i + 1] && later[marked[i]]
                == Effect::SceneChanged,
            _ => later.subrange(marked[i], marked[i + 1]) == plain_effects(seq![more[i]]),
        }
    } by {
        if i < done.len() {
            assert(marked[i] == marks[i]);
            assert(marked[i + 1] == marks[i + 1]);
            assert(more[i] == done[i]);
            assert(later.subrange(marks[i], marks[i + 1]) =~= so_far.subrange(
                marks[i],
                marks[i + 1],
            ));
        } else {
            assert(marked[i] == so_far.len());
            assert(more[i] == action);
            if !(action is ChangeGameState) {
                assert(later.subrange(so_far.len() as int, later.len() as int) =~= plain_effects(
                    seq![action],
                ));
            }
        }
    }
}

/// Before any action is applied, everything is as it was.
pub proof fn lemma_nothing_applied<T: Scalar>(before: Game<T>, earlier: Seq<Effect>)
    ensures
        kept(before, earlier, before, earlier),
        applied(before, earlier, Seq::<GameAction<T>>::empty(), before, earlier),
        in_order(
            Seq::<GameAction<T>>::empty(),
            earlier,
            seq![earlier.len() as int],
            earlier.len() as int,
        ),
{
    reveal(applied);
    reveal(in_order);
    assert(earlier.take(earlier.len() as int) =~= earlier);
    assert(earlier + plain_effects(Seq::<GameAction<T>>::empty()) =~= earlier);
    assert(in_order(
        Seq::<GameAction<T>>::empty(),
        earlier,
        seq![earlier.len() as int],
        earlier.len() as int,
    ));
}

/// Effects that are only added to keep the prefix that was there before.
pub proof fn lemma_prefix_of_prefix(earlier: Seq<Effect>, middle: Seq<Effect>, later: Seq<Effect>)
    requires
        earlier.len() <= middle.len() <= later.len(),
        middle.take(earlier.len() as int) == earlier,
        later.take(middle.len() as int) == middle,
    ensures
        later.take(earlier.len() as int) == earlier,
        forall|k: int| 0 <= k < middle.len() ==> later[k] == middle[k],
{
    assert forall|k: int| 0 <= k < middle.len() implies later[k] == middle[k] by {
        assert(later.take(middle.len() as int)[k] == later[k]);
    }
    assert forall|k: int| 0 <= k < earlier.len() implies later[k] == earlier[k] by {
        assert(middle.take(earlier.len() as int)[k] == middle[k]);
    }
    assert(later.take(earlier.len() as int) =~= earlier);
}

/// One more plain action, applied as it asks, keeps what was kept and
/// extends what was applied.
pub proof fn lemma_plain_applied<T: Scalar>(
    before: Game<T>,
    earlier: Seq<Effect>,
    done: Seq<GameAction<T>>,
    middle: Game<T>,
    so_far: Seq<Effect>,
    action: GameAction<T>,
    after: Game<T>,
    later: Seq<Effect>,
)
    requires
        kept(before, earlier, middle, so_far),
        applied(before, earlier, done, middle, so_far),
        !(action is ChangeGameState),
        after.state == middle.state,
        after.should_close == (middle.should_close || action is Exit),
        after.window_size == last_size(seq![action], middle.window_size),
        later == so_far + plain_effects(seq![action]),
    ensures
        kept(before, earlier, after, later),
        applied(before, earlier, done.push(action), after, later),
{
    reveal(applied);
    let more = done.push(action);
    lemma_one_more_action(done, action, before.window_size);
    lemma_plain_effects_hold_no_change(so_far, seq![action]);
    assert(later.take(so_far.len() as int) =~= so_far);
    lemma_prefix_of_prefix(earlier, so_far, later);
    lemma_plain_effects_of_one(action, middle.window_size);
    match action {
        GameAction::Exit => {
            assert(later =~= so_far.push(Effect::Close));
            lemma_size_since_push(so_far, earlier.len() as int, before.window_size, Effect::Close);
        },
        GameAction::Resize(w, h) => {
            assert(later =~= so_far.push(Effect::Resize(w, h)));
            lemma_size_since_push(
                so_far,
                earlier.len() as int,
                before.window_size,
                Effect::Resize(w, h),
            );
        },
        _ => {
            assert(later =~= so_far);
        },
    }
    if is_plain(more) {
        assert(later =~= earlier + plain_effects(more));
    }
    assert forall|p: int| #[trigger] first_change(more, p) implies {
        let plain = plain_effects(more.take(p));
        &&& later.len() > earlier.len() + plain.len()
        &&& later.subrange(earlier.len() as int, (earlier.len() + plain.len()) as int) == plain
        &&& later[(earlier.len() + plain.len()) as int] == Effect::SceneChanged
        &&& count_changes(later) >= count_changes(earlier) + 1
        &&& count_changes(later) == count_changes(earlier) + 1 ==> after.state.kind_spec()
            == more[p]->ChangeGameState_0.kind_spec()
    } by {
        assert(first_change(done, p));
        assert(more.take(p) == done.take(p));
        assert(more[p] == done[p]);
        let plain = plain_effects(done.take(p));
        assert(later.subrange(earlier.len() as int, (earlier.len() + plain.len()) as int)
            =~= so_far.subrange(earlier.len() as int, (earlier.len() + plain.len()) as int));
    }
}

/// Reporting a scene change keeps what was kept.
pub proof fn lemma_marked_kept<T: Scalar>(
    before: Game<T>,
    earlier: Seq<Effect>,
    middle: Game<T>,
    so_far: Seq<Effect>,
    entered: Game<T>,
)
    requires
        kept(before, earlier, middle, so_far),
        entered.should_close == middle.should_close,
        entered.window_size == middle.window_size,
    ensures
        kept(before, earlier, entered, so_far.push(Effect::SceneChanged)),
        count_changes(so_far.push(Effect::SceneChanged)) > count_changes(earlier),
{
    let marked = so_far.push(Effect::SceneChanged);
    lemma_count_push(so_far, Effect::SceneChanged);
    assert(marked.take(so_far.len() as int) =~= so_far);
    lemma_prefix_of_prefix(earlier, so_far, marked);
    lemma_size_since_push(
        so_far,
        earlier.len() as int,
        before.window_size,
        Effect::SceneChanged,
    );
}

/// What was kept while a scene was entered and its answer applied is kept
/// over the whole.
pub proof fn lemma_change_kept<T: Scalar>(
    before: Game<T>,
    earlier: Seq<Effect>,
    middle: Game<T>,
    so_far: Seq<Effect>,
    entered: Game<T>,
    after: Game<T>,
    later: Seq<Effect>,
)
    requires
        kept(before, earlier, middle, so_far),
        entered.should_close == middle.should_close,
        entered.window_size == middle.window_size,
        kept(entered, so_far.push(Effect::SceneChanged), after, later),
    ensures
        kept(before, earlier, after, later),
        count_changes(later) > count_changes(earlier),
{
    let marked = so_far.push(Effect::SceneChanged);
    lemma_marked_kept(before, earlier, middle, so_far, entered);
    lemma_prefix_of_prefix(earlier, marked, later);
    lemma_since_split(later, earlier.len() as int, marked.len() as int, before.window_size);
}

/// An action that replaces the scene, applied by entering the new state
/// and applying its answer, extends what was applied.
pub proof fn lemma_change_applied<T: Scalar>(
    before: Game<T>,
    earlier: Seq<Effect>,
    done: Seq<GameAction<T>>,
    middle: Game<T>,
    so_far: Seq<Effect>,
    state: GameState<T>,
    entered: Game<T>,
    after: Game<T>,
    later: Seq<Effect>,
)
    requires
        kept(before, earlier, middle, so_far),
        applied(before, earlier, done, middle, so_far),
        entered.state.kind_spec() == state.kind_spec(),
        entered.should_close == middle.should_close,
        entered.window_size == middle.window_size,
        kept(entered, so_far.push(Effect::SceneChanged), after, later),
    ensures
        applied(before, earlier, done.push(GameAction::ChangeGameState(state)), after, later),
{
    reveal(applied);
    let action = GameAction::ChangeGameState(state);
    let more = done.push(action);
    let marked = so_far.push(Effect::SceneChanged);
    lemma_one_more_action(done, action, before.window_size);
    lemma_count_push(so_far, Effect::SceneChanged);
    assert(marked.take(so_far.len() as int) =~= so_far);
    lemma_prefix_of_prefix(so_far, marked, later);
    lemma_prefix_of_prefix(earlier, so_far, later);
    assert forall|p: int| #[trigger] first_change(more, p) implies {
        let plain = plain_effects(more.take(p));
        &&& later.len() > earlier.len() + plain.len()
        &&& later.subrange(earlier.len() as int, (earlier.len() + plain.len()) as int) == plain
        &&& later[(earlier.len() + plain.len()) as int] == Effect::SceneChanged
        &&& count_changes(later) >= count_changes(earlier) + 1
        &&& count_changes(later) == count_changes(earlier) + 1 ==> after.state.kind_spec()
            == more[p]->ChangeGameState_0.kind_spec()
    } by {
        assert(more.take(p) == done.take(p));
        let plain = plain_effects(done.take(p));
        if first_change(done, p) {
            assert(more[p] == done[p]);
            assert(later.subrange(earlier.len() as int, (earlier.len() + plain.len()) as int)
                =~= so_far.subrange(earlier.len() as int, (earlier.len() + plain.len()) as int));
        } else {
            assert(p == done.len() && is_plain(done));
            assert(done.take(p) =~= done);
            assert(so_far == earlier + plain);
            lemma_plain_effects_hold_no_change(earlier, done);
            assert(marked[(earlier.len() + plain.len()) as int] == Effect::SceneChanged);
            assert(later.subrange(earlier.len() as int, (earlier.len() + plain.len()) as int) =~= plain);
            assert(more[p] == action);
        }
    }
}

/// A scene change that is met at the limit zero stops the run as
/// `stopped_at_limit` says.
pub proof fn lemma_stopped<T: Scalar>(
    before: Game<T>,
    earlier: Seq<Effect>,
    actions: Seq<GameAction<T>>,
    here: int,
    after: Game<T>,
    later: Seq<Effect>,
    r: Result<(), GameError>,
)
    requires
        kept(before, earlier, after, later),
        applied(before, earlier, actions.take(here), after, later),
        0 <= here < actions.len(),
        is_plain(actions.take(here)),
        actions[here] is ChangeGameState,
        r is Err,
        is_game_error(r->Err_0, too_many_text()),
    ensures
        within(before, earlier, actions, 0, after, later, r),
{
    reveal(applied);
    lemma_first_change_is_here(actions, here);
}

/// An error that comes while the scene change at position `here` is
/// carried out ends the run as `within` says.
pub proof fn lemma_failed<T: Scalar>(
    before: Game<T>,
    earlier: Seq<Effect>,
    actions: Seq<GameAction<T>>,
    here: int,
    limit: usize,
    after: Game<T>,
    later: Seq<Effect>,
    r: Result<(), GameError>,
)
    requires
        kept(before, earlier, after, later),
        applied(before, earlier, actions.take(here + 1), after, later),
        count_changes(later) > count_changes(earlier),
        0 <= here < actions.len(),
        actions[here] is ChangeGameState,
        limit > 0,
        r is Err,
    ensures
        within(before, earlier, actions, limit, after, later, r),
{
    assert(failed_at(before, earlier, actions, here, after, later));
}

/// Actions that were all applied end the run as `within` says.
pub proof fn lemma_succeeded<T: Scalar>(
    before: Game<T>,
    earlier: Seq<Effect>,
    actions: Seq<GameAction<T>>,
    limit: usize,
    after: Game<T>,
    later: Seq<Effect>,
    marks: Seq<int>,
)
    requires
        kept(before, earlier, after, later),
        applied(before, earlier, actions, after, later),
        in_order(actions, later, marks, earlier.len() as int),
        limit == 0 ==> is_plain(actions),
    ensures
        within(before, earlier, actions, limit, after, later, Ok::<(), GameError>(())),
{
}

/// What the answer of a new scene's start adds to a run: the scene change
/// was recorded and the scene entered; an error of the hook left all else
/// as it was, and actions were applied within a limit lower by one.
pub proof fn lemma_scene_changed<T: Scalar>(
    before: Game<T>,
    earlier: Seq<Effect>,
    done: Seq<GameAction<T>>,
    marks: Seq<int>,
    middle: Game<T>,
    so_far: Seq<Effect>,
    state: GameState<T>,
    entered: Game<T>,
    answer: Result<Vec<GameAction<T>>, GameError>,
    lower: usize,
    after: Game<T>,
    later: Seq<Effect>,
    r: Result<(), GameError>,
)
    requires
        kept(before, earlier, middle, so_far),
        applied(before, earlier, done, middle, so_far),
        in_order(done, so_far, marks, earlier.len() as int),
        entered.state.kind_spec() == state.kind_spec(),
        entered.should_close == middle.should_close,
        entered.window_size == middle.window_size,
        match answer {
            Err(e) => r == Err::<(), GameError>(e) && after == entered && later == so_far.push(
                Effect::SceneChanged,
            ),
            Ok(asked) => within(
                entered,
                so_far.push(Effect::SceneChanged),
                asked@,
                lower,
                after,
                later,
                r,
            ),
        },
    ensures
        kept(before, earlier, after, later),
        count_changes(later) > count_changes(earlier),
        applied(before, earlier, done.push(GameAction::ChangeGameState(state)), after, later),
        in_order(
            done.push(GameAction::ChangeGameState(state)),
            later,
            marks.push(later.len() as int),
            earlier.len() as int,
        ),
{
    let marked = so_far.push(Effect::SceneChanged);
    if answer is Err {
        lemma_nothing_applied(entered, marked);
    }
    lemma_change_kept(before, earlier, middle, so_far, entered, after, later);
    lemma_change_applied(before, earlier, done, middle, so_far, state, entered, after, later);
    assert(kept(entered, marked, after, later));
    assert(marked.len() <= later.len() && later.take(marked.len() as int) == marked) by {
        }
    assert(marked.take(so_far.len() as int) =~= so_far);
    lemma_prefix_of_prefix(so_far, marked, later);
    lemma_in_order_more(
        done,
        so_far,
        marks,
        earlier.len() as int,
        GameAction::ChangeGameState(state),
        later,
    );
}

/// Plain actions are applied exactly: the run succeeds, the state is as
/// it was, and the request to stop, the window's size and the added effects
/// are those that the actions ask for.
pub proof fn lemma_plain_run<T: Scalar>(
    before: Game<T>,
    earlier: Seq<Effect>,
    actions: Seq<GameAction<T>>,
    limit: usize,
    after: Game<T>,
    later: Seq<Effect>,
    r: Result<(), GameError>,
)
    requires
        within(before, earlier, actions, limit, after, later, r),
        is_plain(actions),
    ensures
        r is Ok,
        after.state == before.state,
        after.should_close == (before.should_close || has_exit(actions)),
        after.window_size == last_size(actions, before.window_size),
        later == earlier + plain_effects(actions),
{
    reveal(applied);
}

/// An `Exit` among actions that were applied has set the request to stop,
/// whether or not the scene was replaced meanwhile.
pub proof fn lemma_exit_stops<T: Scalar>(
    before: Game<T>,
    earlier: Seq<Effect>,
    actions: Seq<GameAction<T>>,
    limit: usize,
    after: Game<T>,
    later: Seq<Effect>,
    r: Result<(), GameError>,
)
    requires
        within(before, earlier, actions, limit, after, later, r),
        r is Ok,
        has_exit(actions),
    ensures
        after.should_close,
{
    reveal(applied);
}

/// Where the first scene change among the actions was recorded and no
/// other, the active state has the kind of the state that it handed in,
/// whether the run succeeded or the start of that state failed.
pub proof fn lemma_one_scene_change<T: Scalar>(
    before: Game<T>,
    earlier: Seq<Effect>,
    actions: Seq<GameAction<T>>,
    limit: usize,
    after: Game<T>,
    later: Seq<Effect>,
    r: Result<(), GameError>,
    p: int,
)
    requires
        within(before, earlier, actions, limit, after, later, r),
        first_change(actions, p),
        count_changes(later) == count_changes(earlier) + 1,
    ensures
        after.state.kind_spec() == actions[p]->ChangeGameState_0.kind_spec(),
{
    reveal(applied);
    if r is Err {
        if limit == 0 {
            lemma_plain_effects_hold_no_change(earlier, actions.take(p));
        } else {
            let k = choose|k: int| failed_at(before, earlier, actions, k, after, later);
            let part = actions.take(k + 1);
            if k < p {
                assert(actions.take(p)[k] == actions[k]);
            }
            assert(part.take(p) =~= actions.take(p));
            assert(part[p] == actions[p]);
            assert(first_change(part, p));
        }
    }
}

impl<T: Scalar> Game<T> {
    /// A game in the given state that is not about to stop.
    pub fn new(state: GameState<T>, window_size: (u32, u32)) -> (r: Self)
        ensures
            r.state == state,
            !r.should_close,
            r.window_size == window_size,
    {
        Self { state, should_close: false, window_size }
    }

    /// A game that shows an empty loading scene around `camera`, in a
    /// window of the size that `settings` ask for.
    pub fn init(settings: &Settings, camera: Camera<T>) -> (r: Self) where T: 'static
        ensures
            r.state.kind_spec() == StateKind::Loading,
            !r.should_close,
            r.window_size == settings.window_size,
    {
        Self {
            state: GameState::Loading(Box::new(EmptyScene::new(camera))),
            should_close: false,
            window_size: settings.window_size,
        }
    }

    /// Whether the loop is to stop at its next check.
    pub fn should_close(&self) -> (r: bool)
        ensures
            r == self.should_close,
    {
        self.should_close
    }

    /// Applies one action that does not replace the scene, and records its
    /// effect. An action that replaces the scene is handed back untouched.
    pub fn step(&mut self, action: GameAction<T>, effects: &mut Vec<Effect>) -> (r: Option<
        GameState<T>,
    >)
        ensures
            final(self).state == old(self).state,
            final(self).should_close == (old(self).should_close || action is Exit),
            final(self).window_size == last_size(seq![action], old(self).window_size),
            final(effects)@ == old(effects)@ + plain_effects(seq![action]),
            match action {
                GameAction::ChangeGameState(state) => r == Some(state),
                _ => r is None,
            },
    {
        proof {
            lemma_plain_effects_of_one(action, self.window_size);
        }
        match action {
            GameAction::NoAction => {
                assert(effects@ =~= old(effects)@ + plain_effects(seq![action]));
                None
            },
            GameAction::Exit => {
                self.should_close = true;
                effects.push(Effect::Close);
                assert(effects@ =~= old(effects)@ + plain_effects(seq![action]));
                None
            },
            GameAction::Resize(w, h) => {
                self.window_size = (w, h);
                effects.push(Effect::Resize(w, h));
                assert(effects@ =~= old(effects)@ + plain_effects(seq![action]));
                None
            },
            GameAction::ChangeGameState(state) => {
                assert(effects@ =~= old(effects)@ + plain_effects(seq![action]));
                Some(state)
            },
        }
    }

    /// Makes `state` the active state and runs the start hook of its scene once.
    /// The answer of the hook is handed back, to be applied next.
    pub fn enter(&mut self, state: GameState<T>) -> (r: Result<Vec<GameAction<T>>, GameError>)
        ensures
            final(self).state.kind_spec() == state.kind_spec(),
            final(self).should_close == old(self).should_close,
            final(self).window_size == old(self).window_size,
    {
        self.state = state;
        self.state.start()
    }

    /// Applies the actions in order and adds their effects to `effects`.
    /// Where an action replaces the scene, `SceneChanged` is added, the new
    /// scene is started once, and what it answers is applied at once, before
    /// the actions that follow, with a limit that is lower by one. `limit`
    /// is how many scenes may start one another in this way: a scene change
    /// that is met at the limit zero is the error for scenes that start one
    /// another without end.
    pub fn apply_within(
        &mut self,
        actions: Vec<GameAction<T>>,
        effects: &mut Vec<Effect>,
        limit: usize,
    ) -> (r: Result<(), GameError>)
        ensures
            within(
                *old(self),
                old(effects)@,
                actions@,
                limit,
                *final(self),
                final(effects)@,
                r,
            ),
        decreases limit, 0int,
    {
        let ghost all = actions@;
        let ghost before = *self;
        let ghost earlier = effects@;
        let ghost mut marks: Seq<int> = seq![effects@.len() as int];
        proof {
            assert(all.take(0) =~= Seq::<GameAction<T>>::empty());
            lemma_nothing_applied(before, earlier);
        }
        for action in it: actions
            invariant
                it.seq() == all,
                before == *old(self),
                earlier == old(effects)@,
                kept(before, earlier, *self, effects@),
                applied(before, earlier, all.take(it.index() as int), *self, effects@),
                in_order(all.take(it.index() as int), effects@, marks, earlier.len() as int),
                is_plain(all) ==> is_plain(all.take(it.index() as int)),
                limit == 0 ==> is_plain(all.take(it.index() as int)),
        {
            let ghost index = it.index() as int;
            let ghost done = all.take(index);
            let ghost middle = *self;
            let ghost so_far = effects@;
            proof {
                assert(all.take(index + 1) =~= done.push(action));
                assert(all[index] == action);
            }
            match self.step(action, effects) {
                Some(state) => {
                    proof {
                        lemma_plain_effects_of_one(action, middle.window_size);
                        assert(effects@ =~= so_far);
                    }
                    if limit == 0 {
                        let r = Err(
                            GameError::Other(
                                String::from_str("too many scenes started one another"),
                            ),
                        );
                        proof {
                            lemma_stopped(before, earlier, all, index, *self, effects@, r);
                        }
                        return r;
                    }
                    effects.push(Effect::SceneChanged);
                    let answer = self.enter(state);
                    let ghost entered = *self;
                    let r = self.apply_answer(answer, effects, (limit - 1) as usize);
                    proof {
                        lemma_scene_changed(
                            before,
                            earlier,
                            done,
                            marks,
                            middle,
                            so_far,
                            state,
                            entered,
                            answer,
                            (limit - 1) as usize,
                            *self,
                            effects@,
                            r,
                        );
                        marks = marks.push(effects@.len() as int);
                    }
                    if r.is_err() {
                        proof {
                            lemma_failed(before, earlier, all, index, limit, *self, effects@, r);
                        }
                        return r;
                    }
                },
                None => {
                    proof {
                        lemma_plain_applied(
                            before,
                            earlier,
                            done,
                            middle,
                            so_far,
                            action,
                            *self,
                            effects@,
                        );
                        lemma_one_more_action(done, action, before.window_size);
                        assert(effects@.take(so_far.len() as int) =~= so_far);
                        lemma_in_order_more(
                            done,
                            so_far,
                            marks,
                            earlier.len() as int,
                            action,
                            effects@,
                        );
                        marks = marks.push(effects@.len() as int);
                    }
                },
            }
        }
        proof {
            assert(all.take(all.len() as int) =~= all);
            lemma_succeeded(before, earlier, all, limit, *self, effects@, marks);
        }
        Ok(())
    }

    /// Takes the answer of a scene's hook: an error is handed on and nothing
    /// is changed; actions are applied as `apply_within` applies them.
    pub fn apply_answer(
        &mut self,
        answer: Result<Vec<GameAction<T>>, GameError>,
        effects: &mut Vec<Effect>,
        limit: usize,
    ) -> (r: Result<(), GameError>)
        ensures
            match answer {
                Err(e) => {
                    &&& r == Err::<(), GameError>(e)
                    &&& *final(self) == *old(self)
                    &&& final(effects)@ == old(effects)@
                },
                Ok(asked) => within(
                    *old(self),
                    old(effects)@,
                    asked@,
                    limit,
                    *final(self),
                    final(effects)@,
                    r,
                ),
            },
        decreases limit, 1int,
    {
        match answer {
            Ok(asked) => self.apply_within(asked, effects, limit),
            Err(e) => Err(e),
        }
    }

    /// Applies the actions in order and adds to `effects` what the owner of
    /// the window has to do. At most `MAX_TRANSITIONS` scenes may start one
    /// another.
    pub fn apply_actions(&mut self, actions: Vec<GameAction<T>>, effects: &mut Vec<Effect>) -> (r:
        Result<(), GameError>)
        ensures
            within(
                *old(self),
                old(effects)@,
                actions@,
                MAX_TRANSITIONS,
                *final(self),
                final(effects)@,
                r,
            ),
    {
        self.apply_within(actions, effects, MAX_TRANSITIONS)
    }

    /// Applies one action, as `apply_actions` does for a list of one.
    pub fn apply_action(&mut self, action: GameAction<T>, effects: &mut Vec<Effect>) -> (r: Result<
        (),
        GameError,
    >)
        ensures
            within(
                *old(self),
                old(effects)@,
                seq![action],
                MAX_TRANSITIONS,
                *final(self),
                final(effects)@,
                r,
            ),
    {
        let mut actions: Vec<GameAction<T>> = Vec::new();
        actions.push(action);
        assert(actions@ =~= seq![action]);
        self.apply_within(actions, effects, MAX_TRANSITIONS)
    }

    /// Makes `state` the active state, as the action that replaces the
    /// scene does: `SceneChanged` is added, the scene of `state` is started
    /// once, and what it answers is applied.
    pub fn start(&mut self, state: GameState<T>, effects: &mut Vec<Effect>) -> (r: Result<
        (),
        GameError,
    >)
        ensures
            within(
                *old(self),
                old(effects)@,
                seq![GameAction::ChangeGameState(state)],
                MAX_TRANSITIONS,
                *final(self),
                final(effects)@,
                r,
            ),
    {
        self.apply_action(GameAction::ChangeGameState(state), effects)
    }

    /// One frame's update: runs the update hook of the active scene with the
    /// current input and hands its answer to `apply_answer`. Whatever the
    /// hook answers, the added effects record what became of the request to
    /// stop and of the window's size; the state keeps its kind unless a
    /// scene change was added; and an error without a scene change added
    /// left the effects as they were.
    pub fn update(&mut self, input: &Input<T>, effects: &mut Vec<Effect>) -> (r: Result<
        (),
        GameError,
    >)
        ensures
            recorded(*old(self), old(effects)@, *final(self), final(effects)@),
            count_changes(final(effects)@) == count_changes(old(effects)@) ==> (*final(
                self
            )).state.kind_spec() == old(self).state.kind_spec(),
            r is Err && count_changes(final(effects)@) == count_changes(old(effects)@)
                ==> final(effects)@ == old(effects)@,
    {
        let answer = self.state.update(input);
        proof {
                    lemma_nothing_applied(*self, effects@);
        }
        self.apply_answer(answer, effects, MAX_TRANSITIONS)
    }
}

} // verus!
