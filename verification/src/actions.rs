//! The action mapper: raw device input becomes the three abstract actions
//! `Left`, `Right` and `Fire`, each with a level (`held`) and an edge
//! (`just_activated`) reading.
//!
//! The source-to-action map is static and many-to-one: the left and right
//! arrow keys, the `A`/`D` keys and the gamepad d-pad drive the two movement
//! actions, the space bar and the gamepad south button drive `Fire`.
//! `just_activated` is edge-triggered on the action, not on any single
//! source: it is true exactly on a frame where the action is held and was
//! not held on the previous frame.

use vstd::prelude::*;

verus! {

/// A per-frame snapshot of the raw input sources the static map listens to.
/// Unmapped input never reaches this type and is thereby ignored.
#[derive(Clone, Copy, PartialEq, Eq, Structural, Debug)]
pub struct RawInput {
    pub arrow_left: bool,
    pub key_a: bool,
    pub dpad_left: bool,
    pub arrow_right: bool,
    pub key_d: bool,
    pub dpad_right: bool,
    pub space: bool,
    pub gamepad_south: bool,
}

impl RawInput {
    /// A snapshot with nothing pressed.
    pub fn released() -> (r: RawInput)
        ensures
            r == (RawInput {
                arrow_left: false,
                key_a: false,
                dpad_left: false,
                arrow_right: false,
                key_d: false,
                dpad_right: false,
                space: false,
                gamepad_south: false,
            }),
    {
        RawInput {
            arrow_left: false,
            key_a: false,
            dpad_left: false,
            arrow_right: false,
            key_d: false,
            dpad_right: false,
            space: false,
            gamepad_south: false,
        }
    }
}

/// Some source mapped to `Left` is down.
pub open spec fn left_source_held(raw: RawInput) -> bool {
    raw.arrow_left || raw.key_a || raw.dpad_left
}

/// Some source mapped to `Right` is down.
pub open spec fn right_source_held(raw: RawInput) -> bool {
    raw.arrow_right || raw.key_d || raw.dpad_right
}

/// Some source mapped to `Fire` is down.
pub open spec fn fire_source_held(raw: RawInput) -> bool {
    raw.space || raw.gamepad_south
}

/// The mapper's output for one frame: for each abstract action, whether it
/// is held and whether it just transitioned from released to held.
/// Replaced wholesale each frame, never partially mutated.
#[derive(Clone, Copy, PartialEq, Eq, Structural, Debug)]
pub struct ActionState {
    pub left_held: bool,
    pub left_just_activated: bool,
    pub right_held: bool,
    pub right_just_activated: bool,
    pub fire_held: bool,
    pub fire_just_activated: bool,
}

/// The state before the first frame: nothing held, nothing activated.
pub open spec fn initial_actions_spec() -> ActionState {
    ActionState {
        left_held: false,
        left_just_activated: false,
        right_held: false,
        right_just_activated: false,
        fire_held: false,
        fire_just_activated: false,
    }
}

/// What the mapper produces from one raw snapshot and the previous frame's
/// output: `held` follows the sources alone, `just_activated` is the
/// released-to-held edge.
pub open spec fn map_actions_spec(raw: RawInput, prev: ActionState) -> ActionState {
    ActionState {
        left_held: left_source_held(raw),
        left_just_activated: left_source_held(raw) && !prev.left_held,
        right_held: right_source_held(raw),
        right_just_activated: right_source_held(raw) && !prev.right_held,
        fire_held: fire_source_held(raw),
        fire_just_activated: fire_source_held(raw) && !prev.fire_held,
    }
}

/// The mapper's state before any input has been seen.
pub fn initial_actions() -> (s: ActionState)
    ensures
        s == initial_actions_spec(),
{
    ActionState {
        left_held: false,
        left_just_activated: false,
        right_held: false,
        right_just_activated: false,
        fire_held: false,
        fire_just_activated: false,
    }
}

/// Maps one frame's raw snapshot, debouncing each action against the
/// previous frame's output.
pub fn map_actions(raw: &RawInput, prev: &ActionState) -> (s: ActionState)
    ensures
        s == map_actions_spec(*raw, *prev),
{
    let left: bool = raw.arrow_left || raw.key_a || raw.dpad_left;
    let right: bool = raw.arrow_right || raw.key_d || raw.dpad_right;
    let fire: bool = raw.space || raw.gamepad_south;
    ActionState {
        left_held: left,
        left_just_activated: left && !prev.left_held,
        right_held: right,
        right_just_activated: right && !prev.right_held,
        fire_held: fire,
        fire_just_activated: fire && !prev.fire_held,
    }
}

/// The mapper's output on frame `k` of a run that starts from the initial
/// state and folds one raw snapshot per frame.
pub open spec fn state_at(raws: Seq<RawInput>, k: int) -> ActionState
    recommends
        0 <= k < raws.len(),
    decreases k,
{
    if k <= 0 {
        map_actions_spec(raws[0], initial_actions_spec())
    } else {
        map_actions_spec(raws[k], state_at(raws, k - 1))
    }
}

/// On every frame of a run, each action's `held` reading agrees with that
/// frame's raw sources.
pub proof fn lemma_held_matches_sources(raws: Seq<RawInput>, k: int)
    requires
        0 <= k < raws.len(),
    ensures
        state_at(raws, k).left_held == left_source_held(raws[k]),
        state_at(raws, k).right_held == right_source_held(raws[k]),
        state_at(raws, k).fire_held == fire_source_held(raws[k]),
{
}

/// `Fire.just_activated` on frame `k` is exactly the released-to-held edge
/// of the fire sources: held on frame `k`, and either `k` is the first frame
/// or no fire source was held on frame `k - 1`.
pub proof fn lemma_fire_edge(raws: Seq<RawInput>, k: int)
    requires
        0 <= k < raws.len(),
    ensures
        state_at(raws, k).fire_just_activated == (fire_source_held(raws[k]) && (k == 0
            || !fire_source_held(raws[k - 1]))),
{
    if k > 0 {
        lemma_held_matches_sources(raws, k - 1);
    }
}

/// One activation per press-and-release cycle: if the fire sources are held
/// from frame `i` up to (excluding) frame `j` and were not held just before
/// `i`, then `just_activated` is reported on frame `i` and on no later frame
/// of the cycle.
pub proof fn lemma_fire_once_per_cycle(raws: Seq<RawInput>, i: int, j: int)
    requires
        0 <= i < j <= raws.len(),
        forall|k: int| i <= k < j ==> fire_source_held(#[trigger] raws[k]),
        i > 0 ==> !fire_source_held(raws[i - 1]),
    ensures
        state_at(raws, i).fire_just_activated,
        forall|k: int| i < k < j ==> !(#[trigger] state_at(raws, k)).fire_just_activated,
{
    lemma_fire_edge(raws, i);
    assert forall|k: int| i < k < j implies !(#[trigger] state_at(raws, k)).fire_just_activated by {
        lemma_fire_edge(raws, k);
        assert(fire_source_held(raws[k - 1]));
    }
}

/// While the fire sources stay held, `just_activated` is never reported on
/// two consecutive frames: the frame after a held frame reports false.
pub proof fn lemma_no_consecutive_fire_activation(raws: Seq<RawInput>, k: int)
    requires
        0 <= k,
        k + 1 < raws.len(),
        fire_source_held(raws[k]),
    ensures
        !state_at(raws, k + 1).fire_just_activated,
{
    lemma_fire_edge(raws, k + 1);
}

} // verus!
