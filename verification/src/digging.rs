//! Things that can be dug, mined or picked up, and how their life runs out.

use vstd::prelude::*;

use crate::audio::AudioStart;
use crate::text::same_text;

verus! {

/// Something the player can take, or press.
#[derive(Clone, Copy, Debug)]
pub enum Collectible {
    /// A shovel with the uses left on it.
    Shovel(usize),
    MiningPick,
    Seeds,
    Food,
    /// Not taken, but interacted with in the same way as the others.
    Button,
}

impl Collectible {
    /// Two collectibles are equal when they are the same kind of thing; a
    /// shovel equals a shovel whatever uses are left on either.
    pub open spec fn same_kind(&self, other: &Collectible) -> bool {
        match (*self, *other) {
            (Collectible::Shovel(_), Collectible::Shovel(_)) => true,
            (Collectible::MiningPick, Collectible::MiningPick) => true,
            (Collectible::Seeds, Collectible::Seeds) => true,
            (Collectible::Food, Collectible::Food) => true,
            (Collectible::Button, Collectible::Button) => true,
            _ => false,
        }
    }

    /// The pose a collectible rests in while held.
    pub open spec fn pose_spec(&self) -> OnHandPose {
        match *self {
            Collectible::MiningPick => OnHandPose::MiningPick,
            Collectible::Seeds => OnHandPose::Seeds,
            Collectible::Button => OnHandPose::Button,
            _ => OnHandPose::Tool,
        }
    }

    /// Which of the resting poses this collectible takes while held (the
    /// offsets and rotations of each pose are scene data).
    pub fn on_hand_poses(&self) -> (p: OnHandPose)
        ensures
            p == self.pose_spec(),
    {
        match self {
            Collectible::MiningPick => OnHandPose::MiningPick,
            Collectible::Seeds => OnHandPose::Seeds,
            Collectible::Button => OnHandPose::Button,
            _ => OnHandPose::Tool,
        }
    }
}

impl Collectible {
    /// The sound that ends a use of the held collectible: the shovel digs,
    /// the pick strikes, food and seeds pop; the button is silent.
    pub open spec fn use_sound_spec(&self) -> Option<AudioStart> {
        match *self {
            Collectible::Shovel(_) => Some(AudioStart::Shovel),
            Collectible::MiningPick => Some(AudioStart::Pick),
            Collectible::Food | Collectible::Seeds => Some(AudioStart::Pop),
            Collectible::Button => None,
        }
    }

    /// The sound played when the use animation of this collectible ends.
    pub fn use_sound(&self) -> (a: Option<AudioStart>)
        ensures
            a == self.use_sound_spec(),
    {
        match self {
            Collectible::Shovel(_) => Some(AudioStart::Shovel),
            Collectible::MiningPick => Some(AudioStart::Pick),
            Collectible::Food | Collectible::Seeds => Some(AudioStart::Pop),
            Collectible::Button => None,
        }
    }
}

impl PartialEq for Collectible {
    fn eq(&self, other: &Collectible) -> (r: bool) {
        match (self, other) {
            (Collectible::Shovel(_), Collectible::Shovel(_)) => true,
            (Collectible::MiningPick, Collectible::MiningPick) => true,
            (Collectible::Seeds, Collectible::Seeds) => true,
            (Collectible::Food, Collectible::Food) => true,
            (Collectible::Button, Collectible::Button) => true,
            _ => false,
        }
    }
}

impl vstd::std_specs::cmp::PartialEqSpecImpl for Collectible {
    open spec fn obeys_eq_spec() -> bool {
        true
    }

    open spec fn eq_spec(&self, other: &Collectible) -> bool {
        self.same_kind(other)
    }
}

/// Resting pose of a held collectible.
#[derive(Clone, Copy, PartialEq, Eq, Structural, Debug)]
pub enum OnHandPose {
    MiningPick,
    Seeds,
    Button,
    /// Shovel and food.
    Tool,
}

/// Marks a collectible that can be held; `active` while it is in the hand.
#[derive(Clone, Copy, PartialEq, Eq, Structural, Debug)]
pub struct OnHand {
    pub active: bool,
}

impl OnHand {
    /// Not in the hand yet.
    pub fn new() -> (h: Self)
        ensures
            !h.active,
    {
        OnHand { active: false }
    }
}

/// What the use animation of a collectible does on a frame.
#[derive(Clone, Copy, PartialEq, Eq, Structural, Debug)]
pub enum HandAnimation {
    /// Not in the hand: nothing moves.
    Skip,
    /// The animation is over: the collectible rests in its pose.
    Rest,
    /// The collectible follows its animation; on the frame the animation ends
    /// its use sound plays.
    Animate { play_sound: bool },
}

pub open spec fn hand_animation_spec(active: bool, just_finished: bool, finished: bool) -> HandAnimation {
    if !active {
        HandAnimation::Skip
    } else if just_finished {
        HandAnimation::Animate { play_sound: true }
    } else if finished {
        HandAnimation::Rest
    } else {
        HandAnimation::Animate { play_sound: false }
    }
}

/// The step of the use animation of a collectible, from whether it is in the
/// hand and whether its animation timer has just finished or is finished.
pub fn hand_animation(active: bool, just_finished: bool, finished: bool) -> (a: HandAnimation)
    ensures
        a == hand_animation_spec(active, just_finished, finished),
{
    if !active {
        HandAnimation::Skip
    } else if just_finished {
        HandAnimation::Animate { play_sound: true }
    } else if finished {
        HandAnimation::Rest
    } else {
        HandAnimation::Animate { play_sound: false }
    }
}

/// Hits left on something that can be mined.
#[derive(Clone, Copy, PartialEq, Eq, Structural, Debug)]
pub enum Life {
    Left(u8),
    /// Not hit yet since it appeared.
    JustSpawned,
}

/// What follows a change of life.
#[derive(Clone, Copy, PartialEq, Eq, Structural, Debug)]
pub struct LifeResponse {
    /// A gnome was knocked out: its state machine advances.
    pub advance_gnome: bool,
    /// The secret is revealed (a gnome was hit to the end).
    pub reveal_secret: bool,
    /// The thing is removed, with an emoji burst.
    pub remove: bool,
    /// The thing shrinks a little.
    pub shrink: bool,
}

/// Life after one hit of the mining pick.
pub open spec fn hit_spec(l: Life) -> Life {
    match l {
        Life::Left(c) => Life::Left(if c > 0 { (c - 1) as u8 } else { 0 }),
        Life::JustSpawned => Life::Left(1),
    }
}

/// Response to a changed life, and the life after it.
pub open spec fn life_change_spec(l: Life, is_gnome: bool) -> (Life, LifeResponse) {
    match l {
        Life::Left(c) => (
            l,
            LifeResponse {
                advance_gnome: c == 0 && is_gnome,
                reveal_secret: c == 0 && is_gnome,
                remove: c == 0 && !is_gnome,
                shrink: c < 3 && !is_gnome,
            },
        ),
        Life::JustSpawned => (
            Life::Left(1),
            LifeResponse { advance_gnome: false, reveal_secret: false, remove: false, shrink: false },
        ),
    }
}

impl Life {
    /// One hit of the mining pick: a life left goes down by one, never below
    /// zero; a thing that was never hit is left with one.
    pub fn hit(&mut self)
        ensures
            *final(self) == hit_spec(*old(self)),
    {
        match self {
            Life::Left(c) => {
                if *c > 0 {
                    *c = *c - 1;
                }
            },
            Life::JustSpawned => {
                *self = Life::Left(1);
            },
        }
    }

    /// React to a change of life. A depleted gnome advances (and reveals the
    /// secret); anything else that is depleted is removed; things that are not
    /// gnomes shrink while fewer than three hits are left. A life that was
    /// never hit is set to one hit left.
    pub fn on_change(&mut self, is_gnome: bool) -> (r: LifeResponse)
        ensures
            (*final(self), r) == life_change_spec(*old(self), is_gnome),
    {
        match *self {
            Life::Left(count) => {
                let depleted = count == 0;
                LifeResponse {
                    advance_gnome: depleted && is_gnome,
                    reveal_secret: depleted && is_gnome,
                    remove: depleted && !is_gnome,
                    shrink: count < 3 && !is_gnome,
                }
            },
            Life::JustSpawned => {
                *self = Life::Left(1);
                LifeResponse { advance_gnome: false, reveal_secret: false, remove: false, shrink: false }
            },
        }
    }
}

/// The collectible that a scene entity with this exact name becomes.
pub open spec fn collectible_for_name_spec(name: Seq<char>, shovel_durability: usize) -> Option<Collectible> {
    if name == "Shovel"@ {
        Some(Collectible::Shovel(shovel_durability))
    } else if name == "MiningPick"@ {
        Some(Collectible::MiningPick)
    } else if name == "Food"@ {
        Some(Collectible::Food)
    } else if name == "Seeds"@ {
        Some(Collectible::Seeds)
    } else {
        None
    }
}

/// Which collectible a newly loaded scene entity is, by its name: a shovel
/// starts with `shovel_durability` uses.
pub fn collectible_for_name(name: &str, shovel_durability: usize) -> (c: Option<Collectible>)
    ensures
        c == collectible_for_name_spec(name@, shovel_durability),
{
    if same_text(name, "Shovel") {
        Some(Collectible::Shovel(shovel_durability))
    } else if same_text(name, "MiningPick") {
        Some(Collectible::MiningPick)
    } else if same_text(name, "Food") {
        Some(Collectible::Food)
    } else if same_text(name, "Seeds") {
        Some(Collectible::Seeds)
    } else {
        None
    }
}

/// Collectibles are compared by kind: every shovel equals every other shovel
/// whatever uses are left on them, and the comparison is an equivalence.
pub proof fn lemma_collectible_eq_by_kind(a: Collectible, b: Collectible, c: Collectible, m: usize, n: usize)
    ensures
        Collectible::Shovel(m).same_kind(&Collectible::Shovel(n)),
        a.same_kind(&a),
        a.same_kind(&b) == b.same_kind(&a),
        a.same_kind(&b) && b.same_kind(&c) ==> a.same_kind(&c),
{
}

/// Life after `k` hits of the mining pick.
pub open spec fn hits(l: Life, k: nat) -> Life
    decreases k,
{
    if k == 0 {
        l
    } else {
        hit_spec(hits(l, (k - 1) as nat))
    }
}

/// A thing with `c` hits left is depleted after `c` hits and stays so; a
/// thing never hit is depleted after two.
pub proof fn lemma_hits_deplete(c: u8, extra: nat)
    ensures
        hits(Life::Left(c), c as nat + extra) == Life::Left(0),
        hits(Life::JustSpawned, 2 + extra) == Life::Left(0),
    decreases c as nat + extra,
{
    if extra > 0 {
        lemma_hits_deplete(c, (extra - 1) as nat);
    } else if c > 0 {
        lemma_hits_left(c, c as nat);
        lemma_hits_deplete(0, 0);
        assert(hits(Life::JustSpawned, 2) == Life::Left(0));
    } else {
        assert(hits(Life::JustSpawned, 0) == Life::JustSpawned);
        assert(hits(Life::JustSpawned, 1) == Life::Left(1));
        assert(hits(Life::JustSpawned, 2) == Life::Left(0));
        assert(hits(Life::Left(0), 0) == Life::Left(0));
    }
}

/// Each hit takes exactly one off a positive life.
pub proof fn lemma_hits_left(c: u8, k: nat)
    requires
        k <= c,
    ensures
        hits(Life::Left(c), k) == Life::Left((c - k) as u8),
    decreases k,
{
    if k > 0 {
        lemma_hits_left(c, (k - 1) as nat);
    }
}

} // verus!
