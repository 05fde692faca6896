//! The gnomes' state machine: which state follows which, and what a gnome
//! does on each frame given what it observes.

use vstd::prelude::*;

use crate::audio::AudioStart;

verus! {

/// State of a gnome. The timers and the walking path that some states carry
/// in the game are owned by the caller; this type holds what the decisions
/// read.
#[derive(Clone, Copy, PartialEq, Eq, Structural, Debug)]
pub enum GnomeState {
    Inactive,
    Active,
    Deactivated,
    LoadingBanana,
    DroppingBanana,
    Moving,
    Attacking,
    WaitingForAttack { already_looking: bool },
    Dying,
    WaitingToDie,
}

/// The state that `GnomeMachine::next_state` moves to, or `None` where it
/// leaves the state as it is.
pub open spec fn successor(s: GnomeState) -> Option<GnomeState> {
    match s {
        GnomeState::Dying | GnomeState::Attacking => None,
        GnomeState::Inactive => Some(GnomeState::WaitingToDie),
        GnomeState::LoadingBanana => Some(GnomeState::DroppingBanana),
        GnomeState::DroppingBanana => Some(GnomeState::Moving),
        GnomeState::Active => Some(GnomeState::Attacking),
        GnomeState::Deactivated => Some(GnomeState::WaitingForAttack { already_looking: false }),
        GnomeState::WaitingForAttack { .. } => Some(GnomeState::Attacking),
        GnomeState::WaitingToDie => Some(GnomeState::Dying),
        GnomeState::Moving => Some(GnomeState::Active),
    }
}

/// The state that `GnomeMachine::waiting_for_attack` moves to, or `None`.
/// Tame gnomes (not yet hit, or hit and waiting to die) are not alerted; nor
/// are dying or attacking ones.
pub open spec fn alerted(s: GnomeState) -> Option<GnomeState> {
    match s {
        GnomeState::Dying | GnomeState::Attacking | GnomeState::Inactive
        | GnomeState::WaitingToDie => None,
        _ => Some(GnomeState::WaitingForAttack { already_looking: false }),
    }
}

/// The state that `GnomeMachine::deactivate` moves to, or `None`.
pub open spec fn deactivated(s: GnomeState) -> Option<GnomeState> {
    match s {
        GnomeState::Active => Some(GnomeState::Deactivated),
        _ => None,
    }
}

/// Index of the animation clip that plays in a state: 0 is dying, 1 idle,
/// 2 running and 3 the surprised "wow".
pub open spec fn animation_spec(s: GnomeState) -> usize {
    match s {
        GnomeState::Dying => 0,
        GnomeState::Attacking => 2,
        GnomeState::DroppingBanana => 3,
        GnomeState::Moving => 2,
        _ => 1,
    }
}

/// Index of the running clip, the only one that loops and whose speed follows
/// the gnome's velocity.
pub const RUN_ANIMATION: usize = 2;

/// State machine of one gnome.
pub struct GnomeMachine {
    state: GnomeState,
    is_changed: bool,
}

/// What a gnome observes on a frame.
#[derive(Clone, Copy, PartialEq, Eq, Debug)]
pub struct GnomeObservation {
    /// The timer of the current state has finished. For `WaitingToDie` the
    /// frame's tick is applied before this is read (see
    /// `GnomeMachine::ticks_before_deciding`).
    pub timer_finished: bool,
    /// There is a player to look at.
    pub player_present: bool,
    /// The player is close enough to be caught.
    pub player_within_reach: bool,
    /// The player is within the gnome's view distance and view cone.
    pub player_spotted: bool,
    /// The player looks towards the gnomes or tries to flee.
    pub player_looking_or_fleeing: bool,
    /// Some gnome has already caught the player.
    pub player_already_caught: bool,
}

/// How a gnome moves on a frame.
#[derive(Clone, Copy, PartialEq, Eq, Structural, Debug)]
pub enum GnomeMotion {
    /// Stays where it is.
    Still,
    /// Walks along its path.
    FollowPath,
    /// Runs towards the player.
    ChasePlayer,
    /// Turns to face the player.
    FacePlayer,
}

/// What a gnome does on a frame.
#[derive(Clone, Copy, PartialEq, Eq, Debug)]
pub struct GnomeAction {
    pub motion: GnomeMotion,
    /// Advance the timer of the current state by the frame's time.
    pub tick_timer: bool,
    pub audio: Option<AudioStart>,
    /// Turn the lights off.
    pub lights_off: bool,
    /// The player is caught: the game is over.
    pub catch_player: bool,
}

/// An action that does nothing but move as given.
pub open spec fn plain(motion: GnomeMotion) -> GnomeAction {
    GnomeAction { motion, tick_timer: false, audio: None, lights_off: false, catch_player: false }
}

/// One frame of a gnome: the state after it, whether the state advanced
/// (see `successor`), and the action.
pub open spec fn frame_spec(s: GnomeState, obs: GnomeObservation) -> (GnomeState, bool, GnomeAction) {
    let idle = plain(GnomeMotion::Still);
    let next = match successor(s) {
        Some(n) => n,
        None => s,
    };
    match s {
        GnomeState::Moving => if !obs.timer_finished {
            (s, false, GnomeAction { tick_timer: true, ..plain(GnomeMotion::FollowPath) })
        } else {
            (next, true, idle)
        },
        GnomeState::Attacking => if !obs.player_present {
            (s, false, idle)
        } else if !obs.player_within_reach {
            (s, false, plain(GnomeMotion::ChasePlayer))
        } else if !obs.player_already_caught {
            (s, false, GnomeAction { catch_player: true, ..idle })
        } else {
            (s, false, idle)
        },
        GnomeState::Active | GnomeState::LoadingBanana => if obs.player_present
            && obs.player_spotted {
            (next, true, GnomeAction { audio: Some(AudioStart::UhOh), ..idle })
        } else {
            (s, false, idle)
        },
        GnomeState::DroppingBanana => if !obs.timer_finished {
            (
                s,
                false,
                GnomeAction {
                    tick_timer: true,
                    ..plain(
                        if obs.player_present {
                            GnomeMotion::FacePlayer
                        } else {
                            GnomeMotion::Still
                        },
                    )
                },
            )
        } else {
            (next, true, GnomeAction { lights_off: true, ..idle })
        },
        GnomeState::WaitingForAttack { already_looking } => if !obs.player_present {
            (s, false, idle)
        } else if !already_looking {
            (
                GnomeState::WaitingForAttack { already_looking: obs.player_looking_or_fleeing },
                false,
                plain(GnomeMotion::FacePlayer),
            )
        } else if !obs.timer_finished {
            (s, false, GnomeAction { tick_timer: true, ..plain(GnomeMotion::FacePlayer) })
        } else {
            (next, true, GnomeAction { audio: Some(AudioStart::Goat), ..plain(GnomeMotion::FacePlayer) })
        },
        GnomeState::WaitingToDie => if obs.timer_finished {
            (next, true, GnomeAction { audio: Some(AudioStart::GnomeDying), ..idle })
        } else {
            (s, false, idle)
        },
        _ => (s, false, idle),
    }
}

impl GnomeMachine {
    /// The current state.
    pub closed spec fn phase(&self) -> GnomeState {
        self.state
    }

    /// Whether the state changed since the animation last followed it.
    pub closed spec fn changed(&self) -> bool {
        self.is_changed
    }

    /// A gnome that has not been disturbed yet.
    pub fn new() -> (g: Self)
        ensures
            g.phase() == GnomeState::Inactive,
            !g.changed(),
    {
        GnomeMachine { state: GnomeState::Inactive, is_changed: false }
    }

    /// A gnome spawned directly in `state`.
    pub fn in_state(state: GnomeState) -> (g: Self)
        ensures
            g.phase() == state,
            !g.changed(),
    {
        GnomeMachine { state, is_changed: false }
    }

    /// The current state.
    pub fn state(&self) -> (s: GnomeState)
        ensures
            s == self.phase(),
    {
        self.state
    }

    /// Whether the state changed since the animation last followed it.
    pub fn is_changed(&self) -> (b: bool)
        ensures
            b == self.changed(),
    {
        self.is_changed
    }

    /// The animation now follows the state.
    pub fn acknowledge_change(&mut self)
        ensures
            final(self).phase() == old(self).phase(),
            !final(self).changed(),
    {
        self.is_changed = false;
    }

    /// Advance to the next state. A dying or attacking gnome stays as it is.
    pub fn next_state(&mut self)
        ensures
            successor(old(self).phase()) matches Some(n) ==> final(self).phase() == n
                && final(self).changed(),
            successor(old(self).phase()) is None ==> *final(self) == *old(self),
    {
        let next = match self.state {
            GnomeState::Dying | GnomeState::Attacking => return,
            GnomeState::Inactive => GnomeState::WaitingToDie,
            GnomeState::LoadingBanana => GnomeState::DroppingBanana,
            GnomeState::DroppingBanana => GnomeState::Moving,
            GnomeState::Active => GnomeState::Attacking,
            GnomeState::Deactivated => GnomeState::WaitingForAttack { already_looking: false },
            GnomeState::WaitingForAttack { .. } => GnomeState::Attacking,
            GnomeState::WaitingToDie => GnomeState::Dying,
            GnomeState::Moving => GnomeState::Active,
        };
        self.state = next;
        self.is_changed = true;
    }

    /// Whether `waiting_for_attack` acts on this gnome (and restarts its wait).
    pub fn alertable(&self) -> (b: bool)
        ensures
            b == (alerted(self.phase()) is Some),
    {
        match self.state {
            GnomeState::Dying | GnomeState::Attacking | GnomeState::Inactive
            | GnomeState::WaitingToDie => false,
            _ => true,
        }
    }

    /// The button was pressed: every gnome that can still attack waits to.
    pub fn waiting_for_attack(&mut self)
        ensures
            alerted(old(self).phase()) matches Some(n) ==> final(self).phase() == n
                && final(self).changed(),
            alerted(old(self).phase()) is None ==> *final(self) == *old(self),
    {
        let next = match self.state {
            GnomeState::Dying | GnomeState::Attacking | GnomeState::Inactive
            | GnomeState::WaitingToDie => return,
            _ => GnomeState::WaitingForAttack { already_looking: false },
        };
        self.state = next;
        self.is_changed = true;
    }

    /// The lights went off: an active gnome stops looking for the player.
    pub fn deactivate(&mut self)
        ensures
            deactivated(old(self).phase()) matches Some(n) ==> final(self).phase() == n
                && final(self).changed(),
            deactivated(old(self).phase()) is None ==> *final(self) == *old(self),
    {
        let next = match self.state {
            GnomeState::Active => GnomeState::Deactivated,
            _ => return,
        };
        self.state = next;
        self.is_changed = true;
    }

    /// Whether the gnome is dying (and can no longer be mined).
    pub fn is_dying(&self) -> (b: bool)
        ensures
            b == (self.phase() == GnomeState::Dying),
    {
        match self.state {
            GnomeState::Dying => true,
            _ => false,
        }
    }

    /// Index of the animation clip for the current state.
    pub fn animation(&self) -> (i: usize)
        ensures
            i == animation_spec(self.phase()),
    {
        match self.state {
            GnomeState::Dying => 0,
            GnomeState::Attacking => 2,
            GnomeState::DroppingBanana => 3,
            GnomeState::Moving => 2,
            _ => 1,
        }
    }

    /// Whether the state's timer is advanced before the frame's decision is
    /// taken (only while waiting to die); in the other states the decision
    /// asks for the tick in `GnomeAction::tick_timer`.
    pub fn ticks_before_deciding(&self) -> (b: bool)
        ensures
            b == (self.phase() == GnomeState::WaitingToDie),
    {
        match self.state {
            GnomeState::WaitingToDie => true,
            _ => false,
        }
    }

    /// One frame of the gnome's behaviour.
    pub fn update(&mut self, obs: GnomeObservation) -> (a: GnomeAction)
        ensures
            final(self).phase() == frame_spec(old(self).phase(), obs).0,
            final(self).changed() == (old(self).changed() || frame_spec(old(self).phase(), obs).1),
            a == frame_spec(old(self).phase(), obs).2,
    {
        let idle = GnomeAction {
            motion: GnomeMotion::Still,
            tick_timer: false,
            audio: None,
            lights_off: false,
            catch_player: false,
        };
        match self.state {
            GnomeState::Moving => {
                if !obs.timer_finished {
                    GnomeAction { motion: GnomeMotion::FollowPath, tick_timer: true, ..idle }
                } else {
                    self.next_state();
                    idle
                }
            },
            GnomeState::Attacking => {
                if !obs.player_present {
                    idle
                } else if !obs.player_within_reach {
                    GnomeAction { motion: GnomeMotion::ChasePlayer, ..idle }
                } else if !obs.player_already_caught {
                    GnomeAction { catch_player: true, ..idle }
                } else {
                    idle
                }
            },
            GnomeState::Active | GnomeState::LoadingBanana => {
                if obs.player_present && obs.player_spotted {
                    self.next_state();
                    GnomeAction { audio: Some(AudioStart::UhOh), ..idle }
                } else {
                    idle
                }
            },
            GnomeState::DroppingBanana => {
                if !obs.timer_finished {
                    let motion = if obs.player_present {
                        GnomeMotion::FacePlayer
                    } else {
                        GnomeMotion::Still
                    };
                    GnomeAction { motion, tick_timer: true, ..idle }
                } else {
                    self.next_state();
                    GnomeAction { lights_off: true, ..idle }
                }
            },
            GnomeState::WaitingForAttack { already_looking } => {
                if !obs.player_present {
                    idle
                } else if !already_looking {
                    self.state = GnomeState::WaitingForAttack {
                        already_looking: obs.player_looking_or_fleeing,
                    };
                    GnomeAction { motion: GnomeMotion::FacePlayer, ..idle }
                } else if !obs.timer_finished {
                    GnomeAction { motion: GnomeMotion::FacePlayer, tick_timer: true, ..idle }
                } else {
                    self.next_state();
                    GnomeAction {
                        motion: GnomeMotion::FacePlayer,
                        audio: Some(AudioStart::Goat),
                        ..idle
                    }
                }
            },
            GnomeState::WaitingToDie => {
                if obs.timer_finished {
                    self.next_state();
                    GnomeAction { audio: Some(AudioStart::GnomeDying), ..idle }
                } else {
                    idle
                }
            },
            _ => idle,
        }
    }
}

/// Whether a state is final: a dying or attacking gnome stays so.
pub open spec fn is_final(s: GnomeState) -> bool {
    s == GnomeState::Dying || s == GnomeState::Attacking
}

/// The state after `k` calls of `next_state`.
pub open spec fn advanced(s: GnomeState, k: nat) -> GnomeState
    decreases k,
{
    if k == 0 {
        s
    } else {
        match successor(advanced(s, (k - 1) as nat)) {
            Some(n) => n,
            None => advanced(s, (k - 1) as nat),
        }
    }
}

/// Dying and attacking are final: no transition, whatever the gnome observes
/// or is told, leaves them.
pub proof fn lemma_final_states_stay(s: GnomeState, obs: GnomeObservation)
    requires
        is_final(s),
    ensures
        successor(s) is None,
        alerted(s) is None,
        deactivated(s) is None,
        frame_spec(s, obs).0 == s,
        !frame_spec(s, obs).1,
{
}

/// Every gnome reaches a final state after at most four advances: the
/// banana carrier needs four (drop, walk, stand, attack), the others fewer.
pub proof fn lemma_reaches_final(s: GnomeState)
    ensures
        is_final(advanced(s, 4)),
        s == GnomeState::LoadingBanana ==> advanced(s, 4) == GnomeState::Attacking
            && !is_final(advanced(s, 3)),
{
    reveal_with_fuel(advanced, 5);
}

/// Only a gnome hit while inactive dies: dying is entered only from waiting
/// to die, which is entered only from inactive, and no transition leads back
/// to inactive.
pub proof fn lemma_only_inactive_gnomes_die(s: GnomeState, obs: GnomeObservation)
    ensures
        successor(s) == Some(GnomeState::Dying) ==> s == GnomeState::WaitingToDie,
        successor(s) == Some(GnomeState::WaitingToDie) ==> s == GnomeState::Inactive,
        alerted(s) != Some(GnomeState::Dying) && alerted(s) != Some(GnomeState::WaitingToDie),
        deactivated(s) != Some(GnomeState::Dying) && deactivated(s) != Some(GnomeState::WaitingToDie),
        successor(s) != Some(GnomeState::Inactive),
        alerted(s) != Some(GnomeState::Inactive),
        deactivated(s) != Some(GnomeState::Inactive),
        frame_spec(s, obs).0 == GnomeState::Inactive ==> s == GnomeState::Inactive,
{
}

/// A frame either leaves the state as it is, advances it as `next_state`
/// does, or (while waiting to attack) records whether the player looked.
pub proof fn lemma_frame_moves(s: GnomeState, obs: GnomeObservation)
    ensures
        frame_spec(s, obs).1 ==> successor(s) == Some(frame_spec(s, obs).0),
        !frame_spec(s, obs).1 ==> (frame_spec(s, obs).0 == s || (s matches GnomeState::WaitingForAttack { .. }
            && frame_spec(s, obs).0 matches GnomeState::WaitingForAttack { .. })),
{
}

/// The player is caught only by an attacking gnome that reaches them, and
/// only if no gnome has caught them yet.
pub proof fn lemma_catch_only_when_attacking(s: GnomeState, obs: GnomeObservation)
    ensures
        frame_spec(s, obs).2.catch_player ==> s == GnomeState::Attacking && obs.player_present
            && obs.player_within_reach && !obs.player_already_caught,
{
}

/// Whether a gnome is one of the tame ones above ground: not yet hit,
/// waiting to die, or dying.
pub open spec fn is_tame(s: GnomeState) -> bool {
    s == GnomeState::Inactive || s == GnomeState::WaitingToDie || s == GnomeState::Dying
}

/// The tame gnomes above ground can only die: every transition and every
/// frame keeps a tame gnome tame, and none of them makes it attack or catch
/// the player.
pub proof fn lemma_tame_gnomes_only_die(s: GnomeState, obs: GnomeObservation)
    requires
        is_tame(s),
    ensures
        successor(s) matches Some(n) ==> is_tame(n),
        alerted(s) is None,
        deactivated(s) is None,
        is_tame(frame_spec(s, obs).0),
        !frame_spec(s, obs).2.catch_player,
{
}

/// A call on a gnome's state machine.
#[derive(Clone, Copy, Debug)]
pub enum GnomeCall {
    /// `GnomeMachine::next_state`.
    Next,
    /// `GnomeMachine::waiting_for_attack`.
    Alert,
    /// `GnomeMachine::deactivate`.
    Deactivate,
    /// `GnomeMachine::update` with the observation.
    Frame(GnomeObservation),
}

/// State and change flag after one call, as the calls' contracts give them.
pub open spec fn after_call(s: GnomeState, changed: bool, call: GnomeCall) -> (GnomeState, bool) {
    let moved = |o: Option<GnomeState>|
        match o {
            Some(n) => (n, true),
            None => (s, changed),
        };
    match call {
        GnomeCall::Next => moved(successor(s)),
        GnomeCall::Alert => moved(alerted(s)),
        GnomeCall::Deactivate => moved(deactivated(s)),
        GnomeCall::Frame(obs) => (frame_spec(s, obs).0, changed || frame_spec(s, obs).1),
    }
}

/// State and change flag after a sequence of calls.
pub open spec fn after_calls(s: GnomeState, changed: bool, calls: Seq<GnomeCall>) -> (GnomeState, bool)
    decreases calls.len(),
{
    if calls.len() == 0 {
        (s, changed)
    } else {
        let (s1, c1) = after_call(s, changed, calls[0]);
        after_calls(s1, c1, calls.drop_first())
    }
}

/// Dying and attacking are absorbing: any sequence of calls leaves such a
/// gnome, and its change flag, as they were.
pub proof fn lemma_final_states_absorb(s: GnomeState, changed: bool, calls: Seq<GnomeCall>)
    requires
        is_final(s),
    ensures
        after_calls(s, changed, calls) == (s, changed),
    decreases calls.len(),
{
    if calls.len() > 0 {
        assert(after_call(s, changed, calls[0]) == (s, changed));
        lemma_final_states_absorb(s, changed, calls.drop_first());
    }
}

/// Tame gnomes stay tame over any sequence of calls.
pub proof fn lemma_tame_over_calls(s: GnomeState, changed: bool, calls: Seq<GnomeCall>)
    requires
        is_tame(s),
    ensures
        is_tame(after_calls(s, changed, calls).0),
    decreases calls.len(),
{
    if calls.len() > 0 {
        let (s1, c1) = after_call(s, changed, calls[0]);
        match calls[0] {
            GnomeCall::Frame(obs) => {
                lemma_tame_gnomes_only_die(s, obs);
            },
            _ => {},
        }
        assert(is_tame(s1));
        lemma_tame_over_calls(s1, c1, calls.drop_first());
    }
}

/// The observation with the caught flag replaced by `caught`.
pub open spec fn with_caught(obs: GnomeObservation, caught: bool) -> GnomeObservation {
    GnomeObservation { player_already_caught: caught, ..obs }
}

/// Whether a gnome has caught the player since the gnomes were last spawned;
/// every gnome's frame reads it, so the player is caught once.
#[derive(Clone, Copy, PartialEq, Eq, Structural, Debug, Default)]
pub struct KilledPlayer {
    pub caught: bool,
}

impl KilledPlayer {
    /// Nobody caught yet (the gnomes below were just spawned).
    pub fn reset(&mut self)
        ensures
            !final(self).caught,
    {
        self.caught = false;
    }

    /// One gnome's frame: `GnomeMachine::update` with the caught flag taken
    /// from here, which is set once the gnome catches the player (the game is
    /// then over and no other gnome is handled on this frame).
    pub fn frame(&mut self, gnome: &mut GnomeMachine, obs: GnomeObservation) -> (a: GnomeAction)
        ensures
            final(gnome).phase() == frame_spec(old(gnome).phase(), with_caught(obs, old(self).caught)).0,
            final(gnome).changed() == (old(gnome).changed() || frame_spec(
                old(gnome).phase(),
                with_caught(obs, old(self).caught),
            ).1),
            a == frame_spec(old(gnome).phase(), with_caught(obs, old(self).caught)).2,
            final(self).caught == (old(self).caught || a.catch_player),
    {
        let a = gnome.update(GnomeObservation { player_already_caught: self.caught, ..obs });
        if a.catch_player {
            self.caught = true;
        }
        a
    }
}

/// How many of a run of gnome frames (each a gnome's state and observation)
/// catch the player, starting from the caught flag `caught`.
pub open spec fn catches(caught: bool, frames: Seq<(GnomeState, GnomeObservation)>) -> nat
    decreases frames.len(),
{
    if frames.len() == 0 {
        0
    } else {
        let a = frame_spec(frames[0].0, with_caught(frames[0].1, caught)).2;
        (if a.catch_player { 1nat } else { 0nat }) + catches(caught || a.catch_player, frames.drop_first())
    }
}

/// Between two spawns of the gnomes, the player is caught (and the game over
/// asked for) at most once, and not at all once they have been caught.
pub proof fn lemma_caught_once(caught: bool, frames: Seq<(GnomeState, GnomeObservation)>)
    ensures
        catches(caught, frames) <= 1,
        caught ==> catches(caught, frames) == 0,
    decreases frames.len(),
{
    if frames.len() > 0 {
        let a = frame_spec(frames[0].0, with_caught(frames[0].1, caught)).2;
        lemma_catch_only_when_attacking(frames[0].0, with_caught(frames[0].1, caught));
        lemma_caught_once(caught || a.catch_player, frames.drop_first());
    }
}

/// What `next_state`, `waiting_for_attack` and `deactivate` do, state by
/// state: the banana carrier drops the banana, walks and then stands active;
/// an active gnome attacks; a deactivated one waits to attack; a hit tame
/// gnome waits to die and then dies; the button alerts every gnome that is
/// not tame, dying or attacking; the lights going off deactivate active
/// gnomes only.
pub proof fn lemma_transition_table(s: GnomeState)
    ensures
        s == GnomeState::Inactive ==> successor(s) == Some(GnomeState::WaitingToDie),
        s == GnomeState::WaitingToDie ==> successor(s) == Some(GnomeState::Dying),
        s == GnomeState::LoadingBanana ==> successor(s) == Some(GnomeState::DroppingBanana),
        s == GnomeState::DroppingBanana ==> successor(s) == Some(GnomeState::Moving),
        s == GnomeState::Moving ==> successor(s) == Some(GnomeState::Active),
        s == GnomeState::Active ==> successor(s) == Some(GnomeState::Attacking),
        s == GnomeState::Deactivated ==> successor(s) == Some(
            GnomeState::WaitingForAttack { already_looking: false },
        ),
        (s matches GnomeState::WaitingForAttack { .. }) ==> successor(s) == Some(GnomeState::Attacking),
        s == GnomeState::Dying || s == GnomeState::Attacking ==> successor(s) is None,
        (s == GnomeState::Active || s == GnomeState::Deactivated || s == GnomeState::LoadingBanana
            || s == GnomeState::DroppingBanana || s == GnomeState::Moving || (
        s matches GnomeState::WaitingForAttack { .. })) ==> alerted(s) == Some(
            GnomeState::WaitingForAttack { already_looking: false },
        ),
        (s == GnomeState::Inactive || s == GnomeState::WaitingToDie || s == GnomeState::Dying || s
            == GnomeState::Attacking) ==> alerted(s) is None,
        s == GnomeState::Active ==> deactivated(s) == Some(GnomeState::Deactivated),
        s != GnomeState::Active ==> deactivated(s) is None,
{
}

/// An active gnome, or the banana carrier, that spots the player cries out
/// and moves on: the active gnome attacks, the carrier starts dropping the
/// banana. One that does not spot the player (or has no player to look at)
/// stays as it is and does nothing.
pub proof fn lemma_spotting_the_player(s: GnomeState, obs: GnomeObservation)
    requires
        s == GnomeState::Active || s == GnomeState::LoadingBanana,
    ensures
        obs.player_present && obs.player_spotted ==> {
            &&& frame_spec(s, obs).0 == (if s == GnomeState::Active {
                GnomeState::Attacking
            } else {
                GnomeState::DroppingBanana
            })
            &&& frame_spec(s, obs).1
            &&& frame_spec(s, obs).2.audio == Some(AudioStart::UhOh)
            &&& frame_spec(s, obs).2.motion == GnomeMotion::Still
            &&& !frame_spec(s, obs).2.lights_off
            &&& !frame_spec(s, obs).2.catch_player
            &&& !frame_spec(s, obs).2.tick_timer
        },
        !(obs.player_present && obs.player_spotted) ==> {
            &&& frame_spec(s, obs).0 == s
            &&& !frame_spec(s, obs).1
            &&& frame_spec(s, obs).2.audio is None
            &&& frame_spec(s, obs).2.motion == GnomeMotion::Still
            &&& !frame_spec(s, obs).2.lights_off
            &&& !frame_spec(s, obs).2.catch_player
            &&& !frame_spec(s, obs).2.tick_timer
        },
{
}

/// While dropping the banana the gnome faces the player (if there is one)
/// and its timer runs; when the timer is over the lights go off and it starts
/// walking.
pub proof fn lemma_dropping_the_banana(obs: GnomeObservation)
    ensures
        ({
            let (n, adv, a) = frame_spec(GnomeState::DroppingBanana, obs);
            if obs.timer_finished {
                n == GnomeState::Moving && adv && a.lights_off && a.audio is None
                    && a.motion == GnomeMotion::Still && !a.tick_timer && !a.catch_player
            } else {
                n == GnomeState::DroppingBanana && !adv && !a.lights_off && a.audio is None
                    && a.tick_timer && !a.catch_player && a.motion == (if obs.player_present {
                    GnomeMotion::FacePlayer
                } else {
                    GnomeMotion::Still
                })
            }
        }),
{
}

/// A walking gnome follows its path while its timer runs, and stands active
/// when it is over.
pub proof fn lemma_walking(obs: GnomeObservation)
    ensures
        ({
            let (n, adv, a) = frame_spec(GnomeState::Moving, obs);
            if obs.timer_finished {
                n == GnomeState::Active && adv && a.motion == GnomeMotion::Still && !a.tick_timer
                    && a.audio is None && !a.lights_off && !a.catch_player
            } else {
                n == GnomeState::Moving && !adv && a.motion == GnomeMotion::FollowPath
                    && a.tick_timer && a.audio is None && !a.lights_off && !a.catch_player
            }
        }),
{
}

/// A gnome waiting to attack faces the player; it first records whether the
/// player looks (or flees), then lets its timer run, and when the timer is
/// over it bleats and attacks. Without a player it does nothing.
pub proof fn lemma_waiting_to_attack(looking: bool, obs: GnomeObservation)
    ensures
        ({
            let s = GnomeState::WaitingForAttack { already_looking: looking };
            let (n, adv, a) = frame_spec(s, obs);
            if !obs.player_present {
                n == s && !adv && a.motion == GnomeMotion::Still && !a.tick_timer && a.audio is None
            } else if !looking {
                n == GnomeState::WaitingForAttack { already_looking: obs.player_looking_or_fleeing }
                    && !adv && a.motion == GnomeMotion::FacePlayer && !a.tick_timer
                    && a.audio is None
            } else if !obs.timer_finished {
                n == s && !adv && a.motion == GnomeMotion::FacePlayer && a.tick_timer
                    && a.audio is None
            } else {
                n == GnomeState::Attacking && adv && a.motion == GnomeMotion::FacePlayer
                    && !a.tick_timer && a.audio == Some(AudioStart::Goat)
            }
        }),
        !frame_spec(GnomeState::WaitingForAttack { already_looking: looking }, obs).2.catch_player,
        !frame_spec(GnomeState::WaitingForAttack { already_looking: looking }, obs).2.lights_off,
{
}

/// An attacking gnome runs to the player and catches them once within
/// reach, unless they were already caught; it stays attacking.
pub proof fn lemma_attacking(obs: GnomeObservation)
    ensures
        ({
            let (n, adv, a) = frame_spec(GnomeState::Attacking, obs);
            &&& n == GnomeState::Attacking && !adv && a.audio is None && !a.lights_off
                && !a.tick_timer
            &&& a.catch_player == (obs.player_present && obs.player_within_reach
                && !obs.player_already_caught)
            &&& a.motion == (if obs.player_present && !obs.player_within_reach {
                GnomeMotion::ChasePlayer
            } else {
                GnomeMotion::Still
            })
        }),
{
}

/// A gnome waiting to die dies, with its cry, once its timer is over; until
/// then it does nothing. Inactive, deactivated and dying gnomes do nothing.
pub proof fn lemma_dying_and_idle(s: GnomeState, obs: GnomeObservation)
    ensures
        ({
            let (n, adv, a) = frame_spec(GnomeState::WaitingToDie, obs);
            if obs.timer_finished {
                n == GnomeState::Dying && adv && a.audio == Some(AudioStart::GnomeDying)
                    && a.motion == GnomeMotion::Still && !a.tick_timer && !a.lights_off
                    && !a.catch_player
            } else {
                n == GnomeState::WaitingToDie && !adv && a.audio is None
                    && a.motion == GnomeMotion::Still && !a.tick_timer
            }
        }),
        s == GnomeState::Inactive || s == GnomeState::Deactivated || s == GnomeState::Dying ==> (
        frame_spec(s, obs).0 == s && !frame_spec(s, obs).1 && frame_spec(s, obs).2.motion
            == GnomeMotion::Still && !frame_spec(s, obs).2.tick_timer && frame_spec(s, obs).2.audio is None
            && !frame_spec(s, obs).2.lights_off && !frame_spec(s, obs).2.catch_player),
{
}

/// The clip shown: dying plays clip 0, attacking and walking run (clip 2,
/// the only one that loops), dropping the banana plays clip 3, and every
/// other state stands idle (clip 1).
pub proof fn lemma_animation_table(s: GnomeState)
    ensures
        s == GnomeState::Dying ==> animation_spec(s) == 0,
        s == GnomeState::Attacking || s == GnomeState::Moving ==> animation_spec(s) == RUN_ANIMATION,
        s == GnomeState::DroppingBanana ==> animation_spec(s) == 3,
        !(s == GnomeState::Dying || s == GnomeState::Attacking || s == GnomeState::Moving || s
            == GnomeState::DroppingBanana) ==> animation_spec(s) == 1,
{
}

} // verus!
