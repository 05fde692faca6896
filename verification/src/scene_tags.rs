//! Roles that scene entities take from their names once they load, and the
//! sound an object makes when the player bumps into it.

use vstd::prelude::*;

use crate::audio::AudioStart;
use crate::text::{same_text, starts_with, starts_with_spec};

verus! {

/// Role of an entity whose whole name is one of the special names (each of
/// them appears at most once in a scene).
#[derive(Clone, Copy, PartialEq, Eq, Structural, Debug)]
pub enum NamedRole {
    /// "point_bone": the bone that points at the player.
    KillerPoint,
    /// "ik_target": the head of a killer arm, which carries the laser timers.
    KillerHead,
    /// "fakebush": the bush that hides the secret and can be mined.
    FakeBush,
    /// "crop_ground_special": the hidden ground that is dug to win.
    FakeGround,
    /// Any other name.
    Plain,
}

/// Role of an entity by the start of its name.
#[derive(Clone, Copy, PartialEq, Eq, Structural, Debug)]
pub enum PrefixRole {
    /// "main…": a bone that wiggles when the player bumps into it.
    MainBone,
    /// "one_sized…": gets a unit collider.
    OneSized,
    /// "crop_ground…": can be dug, and gets a unit collider.
    CropGround,
    /// "dodgy…": hides while looked at, and shows on alarm.
    Dodgy,
    /// Any other name.
    Plain,
}

pub open spec fn named_role_spec(name: Seq<char>) -> NamedRole {
    if name == "point_bone"@ {
        NamedRole::KillerPoint
    } else if name == "ik_target"@ {
        NamedRole::KillerHead
    } else if name == "fakebush"@ {
        NamedRole::FakeBush
    } else if name == "crop_ground_special"@ {
        NamedRole::FakeGround
    } else {
        NamedRole::Plain
    }
}

/// The first prefix that matches wins, in the order main, one_sized,
/// crop_ground, dodgy.
pub open spec fn prefix_role_spec(name: Seq<char>) -> PrefixRole {
    if starts_with_spec(name, "main"@) {
        PrefixRole::MainBone
    } else if starts_with_spec(name, "one_sized"@) {
        PrefixRole::OneSized
    } else if starts_with_spec(name, "crop_ground"@) {
        PrefixRole::CropGround
    } else if starts_with_spec(name, "dodgy"@) {
        PrefixRole::Dodgy
    } else {
        PrefixRole::Plain
    }
}

/// The role that an entity takes from its exact name.
pub fn named_role(name: &str) -> (r: NamedRole)
    ensures
        r == named_role_spec(name@),
{
    if same_text(name, "point_bone") {
        NamedRole::KillerPoint
    } else if same_text(name, "ik_target") {
        NamedRole::KillerHead
    } else if same_text(name, "fakebush") {
        NamedRole::FakeBush
    } else if same_text(name, "crop_ground_special") {
        NamedRole::FakeGround
    } else {
        NamedRole::Plain
    }
}

/// The role that an entity takes from the start of its name. An entity can
/// take both a named role and a prefix role ("crop_ground_special" is also
/// crop ground).
pub fn prefix_role(name: &str) -> (r: PrefixRole)
    ensures
        r == prefix_role_spec(name@),
{
    if starts_with(name, "main") {
        PrefixRole::MainBone
    } else if starts_with(name, "one_sized") {
        PrefixRole::OneSized
    } else if starts_with(name, "crop_ground") {
        PrefixRole::CropGround
    } else if starts_with(name, "dodgy") {
        PrefixRole::Dodgy
    } else {
        PrefixRole::Plain
    }
}

/// Names of the ancestors of an entity, nearest first; `None` for an ancestor
/// without a name.
pub open spec fn ancestor_names(ancestors: Seq<Option<String>>) -> Seq<Option<Seq<char>>> {
    ancestors.map_values(|a: Option<String>| match a {
        Some(s) => Some(s@),
        None => None,
    })
}

/// Index of the first name in `look` at or after `j` that `name` starts with.
pub open spec fn first_prefix_from(name: Seq<char>, look: Seq<Seq<char>>, j: int) -> Option<int>
    decreases look.len() - j,
{
    if j < 0 || j >= look.len() {
        None
    } else if starts_with_spec(name, look[j]) {
        Some(j)
    } else {
        first_prefix_from(name, look, j + 1)
    }
}

/// The ancestor search, from the ancestor at `k` upwards. An ancestor
/// without a name ends the search. Against the ancestor's name, the first
/// name in `look` is tried; if it does not match, the search goes on upwards
/// before the other names of `look` are tried against this ancestor.
pub open spec fn parent_match(anc: Seq<Option<Seq<char>>>, look: Seq<Seq<char>>, k: int) -> Option<int>
    decreases anc.len() - k,
{
    if k < 0 || k >= anc.len() {
        None
    } else {
        match anc[k] {
            None => None,
            Some(n) => if look.len() == 0 {
                None
            } else if starts_with_spec(n, look[0]) {
                Some(0)
            } else {
                match parent_match(anc, look, k + 1) {
                    Some(f) => Some(f),
                    None => first_prefix_from(n, look, 1),
                }
            },
        }
    }
}

/// The views of a list of names.
pub open spec fn names_view(look: Seq<&str>) -> Seq<Seq<char>> {
    look.map_values(|s: &str| s@)
}

fn first_prefix_index(name: &str, look: &Vec<&str>, start: usize) -> (r: Option<usize>)
    requires
        start >= 1,
    ensures
        r matches Some(i) ==> (i as int) < look@.len(),
        match r {
            Some(i) => first_prefix_from(name@, names_view(look@), start as int) == Some(i as int),
            None => first_prefix_from(name@, names_view(look@), start as int) is None,
        },
    decreases look@.len() - start,
{
    if start >= look.len() {
        return None;
    }
    if starts_with(name, look[start]) {
        return Some(start);
    }
    first_prefix_index(name, look, start + 1)
}

fn parent_match_from(ancestors: &Vec<Option<String>>, look: &Vec<&str>, k: usize) -> (r: Option<usize>)
    ensures
        r matches Some(i) ==> (i as int) < look@.len(),
        match r {
            Some(i) => parent_match(ancestor_names(ancestors@), names_view(look@), k as int) == Some(i as int),
            None => parent_match(ancestor_names(ancestors@), names_view(look@), k as int) is None,
        },
    decreases ancestors@.len() - k,
{
    if k >= ancestors.len() {
        return None;
    }
    match &ancestors[k] {
        None => None,
        Some(n) => {
            if look.len() == 0 {
                return None;
            }
            if starts_with(n.as_str(), look[0]) {
                return Some(0);
            }
            match parent_match_from(ancestors, look, k + 1) {
                Some(f) => Some(f),
                None => first_prefix_index(n.as_str(), look, 1),
            }
        },
    }
}

/// Search the ancestors of an entity (nearest first) for one whose name
/// starts with a name of `look_for`; gives the index in `look_for` of the name
/// found (see `parent_match` for the order in which they are tried).
pub fn find_recursive_parent(ancestors: &Vec<Option<String>>, look_for: &Vec<&str>) -> (r: Option<usize>)
    ensures
        r matches Some(i) ==> (i as int) < look_for@.len(),
        match r {
            Some(i) => parent_match(ancestor_names(ancestors@), names_view(look_for@), 0) == Some(i as int),
            None => parent_match(ancestor_names(ancestors@), names_view(look_for@), 0) is None,
        },
{
    parent_match_from(ancestors, look_for, 0)
}

/// Sound of an object that the player bumps into.
#[derive(Clone, Copy, PartialEq, Eq, Structural, Debug)]
pub enum BoneAudio {
    Bush,
    Rock,
    Fence,
}

pub open spec fn bone_audio_spec(found: Option<Seq<char>>) -> BoneAudio {
    match found {
        Some(name) => if starts_with_spec(name, "bush"@) {
            BoneAudio::Bush
        } else if starts_with_spec(name, "rig_fence"@) {
            BoneAudio::Fence
        } else {
            BoneAudio::Rock
        },
        None => BoneAudio::Rock,
    }
}

impl BoneAudio {
    /// The sound of an object by the name of the ancestor found for it:
    /// bushes and fences have their own, anything else sounds like a rock.
    pub fn new(found: Option<&str>) -> (b: Self)
        ensures
            b == bone_audio_spec(
                match found {
                    Some(s) => Some(s@),
                    None => None,
                },
            ),
    {
        match found {
            Some(name) => {
                if starts_with(name, "bush") {
                    BoneAudio::Bush
                } else if starts_with(name, "rig_fence") {
                    BoneAudio::Fence
                } else {
                    BoneAudio::Rock
                }
            },
            None => BoneAudio::Rock,
        }
    }

    pub open spec fn audio_spec(self) -> AudioStart {
        match self {
            BoneAudio::Bush => AudioStart::Bush,
            BoneAudio::Rock => AudioStart::Rock,
            BoneAudio::Fence => AudioStart::Fence,
        }
    }

    /// The cue to play on a bump.
    pub fn to_audio(&self) -> (a: AudioStart)
        ensures
            a == self.audio_spec(),
    {
        match self {
            BoneAudio::Bush => AudioStart::Bush,
            BoneAudio::Rock => AudioStart::Rock,
            BoneAudio::Fence => AudioStart::Fence,
        }
    }
}

/// The ancestor names that decide the sound of a bumped object, in the order
/// they are tried.
pub fn bone_parent_names() -> (v: Vec<&'static str>)
    ensures
        v@.len() == 3,
        v@[0]@ == "bush"@,
        v@[1]@ == "rig_fence"@,
        v@[2]@ == "rock"@,
{
    vec!["bush", "rig_fence", "rock"]
}

/// The sound of a "main" bone, from the names of its ancestors (nearest
/// first): the ancestor search over `bone_parent_names`, then `BoneAudio::new`
/// on the name found.
pub fn bone_audio_for(ancestors: &Vec<Option<String>>) -> (b: BoneAudio)
    ensures
        b == bone_audio_spec(
            match parent_match(
                ancestor_names(ancestors@),
                seq!["bush"@, "rig_fence"@, "rock"@],
                0,
            ) {
                Some(i) => Some(seq!["bush"@, "rig_fence"@, "rock"@][i]),
                None => None,
            },
        ),
{
    let look = bone_parent_names();
    let found = find_recursive_parent(ancestors, &look);
    proof {
        assert(names_view(look@) =~= seq!["bush"@, "rig_fence"@, "rock"@]);
    }
    match found {
        Some(i) => BoneAudio::new(Some(look[i])),
        None => BoneAudio::new(None),
    }
}

/// Whether a bump of the player against an object may start its wiggle: set
/// again once the player has moved away.
#[derive(Clone, Copy, PartialEq, Eq, Structural, Debug)]
pub struct BumpLatch {
    pub active: bool,
}

impl BumpLatch {
    /// Ready to wiggle.
    pub fn new() -> (l: Self)
        ensures
            l.active,
    {
        BumpLatch { active: true }
    }

    /// A frame with the player `near` the object or not: a bump starts the
    /// wiggle (and its sound) if the previous wiggle is over and the latch is
    /// set, and then clears the latch; moving away sets it again. Returns
    /// whether the wiggle starts.
    pub fn on_frame(&mut self, near: bool, wiggle_finished: bool) -> (start: bool)
        ensures
            start == (near && wiggle_finished && old(self).active),
            final(self).active == if near {
                old(self).active && !start
            } else {
                true
            },
    {
        if near {
            if wiggle_finished && self.active {
                self.active = false;
                true
            } else {
                false
            }
        } else {
            self.active = true;
            false
        }
    }
}

/// While the player stays near an object, its wiggle starts at most once.
pub proof fn lemma_one_wiggle_per_approach(active: bool, finished: Seq<bool>)
    ensures
        count_starts(active, finished) <= 1,
    decreases finished.len(),
{
    if finished.len() > 0 {
        lemma_one_wiggle_per_approach(active && !(finished[0] && active), finished.drop_first());
        if finished[0] && active {
            lemma_no_start_when_clear(finished.drop_first());
        }
    }
}

/// With the latch clear, no wiggle starts while the player stays near.
pub proof fn lemma_no_start_when_clear(finished: Seq<bool>)
    ensures
        count_starts(false, finished) == 0,
    decreases finished.len(),
{
    if finished.len() > 0 {
        lemma_no_start_when_clear(finished.drop_first());
    }
}

/// How many wiggles start over frames spent near the object, from a latch
/// `active`, where `finished[i]` says whether the previous wiggle is over on
/// frame `i` (`BumpLatch::on_frame` with `near` set).
pub open spec fn count_starts(active: bool, finished: Seq<bool>) -> nat
    decreases finished.len(),
{
    if finished.len() == 0 {
        0
    } else {
        let start = finished[0] && active;
        (if start { 1nat } else { 0nat }) + count_starts(active && !start, finished.drop_first())
    }
}

/// The name at `i` of `look` is a prefix of the name of some ancestor at or
/// above `k`.
pub open spec fn names_an_ancestor(anc: Seq<Option<Seq<char>>>, look: Seq<Seq<char>>, k: int, i: int) -> bool {
    &&& 0 <= i < look.len()
    &&& exists|a: int| #![trigger anc[a]] k <= a < anc.len() && (anc[a] matches Some(n) && starts_with_spec(n, look[i]))
}

/// A name found by `first_prefix_from` lies in the list and is a prefix.
pub proof fn lemma_first_prefix_sound(name: Seq<char>, look: Seq<Seq<char>>, j: int)
    ensures
        first_prefix_from(name, look, j) matches Some(i) ==> j <= i < look.len()
            && starts_with_spec(name, look[i]),
    decreases look.len() - j,
{
    if 0 <= j < look.len() && !starts_with_spec(name, look[j]) {
        lemma_first_prefix_sound(name, look, j + 1);
    }
}

/// What the ancestor search finds is a name of the list that some ancestor's
/// name starts with.
pub proof fn lemma_parent_match_sound(anc: Seq<Option<Seq<char>>>, look: Seq<Seq<char>>, k: int)
    ensures
        parent_match(anc, look, k) matches Some(i) ==> names_an_ancestor(anc, look, k, i),
    decreases anc.len() - k,
{
    if 0 <= k < anc.len() {
        match anc[k] {
            None => {},
            Some(n) => {
                if look.len() > 0 && !starts_with_spec(n, look[0]) {
                    lemma_parent_match_sound(anc, look, k + 1);
                    lemma_first_prefix_sound(n, look, 1);
                    match parent_match(anc, look, k + 1) {
                        Some(i) => {
                            let a: int = choose|a: int| #![trigger anc[a]] k + 1 <= a < anc.len() && (anc[a] matches Some(n) && starts_with_spec(n, look[i]));
                            assert(k <= a < anc.len());
                        },
                        None => {
                            match first_prefix_from(n, look, 1) {
                                Some(i) => {
                                    assert(anc[k] matches Some(n) && starts_with_spec(n, look[i]));
                                },
                                None => {},
                            }
                        },
                    }
                } else if look.len() > 0 {
                    assert(anc[k] matches Some(n) && starts_with_spec(n, look[0]));
                }
            },
        }
    }
}

} // verus!
