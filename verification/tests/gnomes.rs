use pilot_garden::audio::AudioStart;
use pilot_garden::gnomes::{
    GnomeAction, GnomeMachine, GnomeMotion, GnomeObservation, GnomeState, KilledPlayer,
};

fn obs() -> GnomeObservation {
    GnomeObservation {
        timer_finished: false,
        player_present: true,
        player_within_reach: false,
        player_spotted: false,
        player_looking_or_fleeing: false,
        player_already_caught: false,
    }
}

fn idle() -> GnomeAction {
    GnomeAction {
        motion: GnomeMotion::Still,
        tick_timer: false,
        audio: None,
        lights_off: false,
        catch_player: false,
    }
}

#[test]
fn next_state_chain_of_the_banana_carrier() {
    let mut g = GnomeMachine::in_state(GnomeState::LoadingBanana);
    assert!(!g.is_changed());
    g.next_state();
    assert_eq!(g.state(), GnomeState::DroppingBanana);
    assert!(g.is_changed());
    g.next_state();
    assert_eq!(g.state(), GnomeState::Moving);
    g.next_state();
    assert_eq!(g.state(), GnomeState::Active);
    g.next_state();
    assert_eq!(g.state(), GnomeState::Attacking);
    g.acknowledge_change();
    g.next_state();
    assert_eq!(g.state(), GnomeState::Attacking);
    assert!(!g.is_changed());
}

#[test]
fn inactive_gnome_dies() {
    let mut g = GnomeMachine::new();
    assert_eq!(g.state(), GnomeState::Inactive);
    g.next_state();
    assert_eq!(g.state(), GnomeState::WaitingToDie);
    assert!(g.ticks_before_deciding());
    g.next_state();
    assert_eq!(g.state(), GnomeState::Dying);
    assert!(g.is_dying());
    g.acknowledge_change();
    g.next_state();
    g.waiting_for_attack();
    g.deactivate();
    assert_eq!(g.state(), GnomeState::Dying);
    assert!(!g.is_changed());
}

#[test]
fn button_and_lights() {
    let mut g = GnomeMachine::in_state(GnomeState::Active);
    g.deactivate();
    assert_eq!(g.state(), GnomeState::Deactivated);
    g.next_state();
    assert_eq!(g.state(), GnomeState::WaitingForAttack { already_looking: false });
    let mut h = GnomeMachine::in_state(GnomeState::Moving);
    h.waiting_for_attack();
    assert_eq!(h.state(), GnomeState::WaitingForAttack { already_looking: false });
    let mut i = GnomeMachine::new();
    i.waiting_for_attack();
    assert_eq!(i.state(), GnomeState::Inactive);
    let mut m = GnomeMachine::in_state(GnomeState::Moving);
    m.deactivate();
    assert_eq!(m.state(), GnomeState::Moving);
    assert!(!m.is_changed());
}

#[test]
fn animations() {
    assert_eq!(GnomeMachine::in_state(GnomeState::Dying).animation(), 0);
    assert_eq!(GnomeMachine::in_state(GnomeState::Attacking).animation(), 2);
    assert_eq!(GnomeMachine::in_state(GnomeState::DroppingBanana).animation(), 3);
    assert_eq!(GnomeMachine::in_state(GnomeState::Moving).animation(), 2);
    assert_eq!(GnomeMachine::in_state(GnomeState::WaitingToDie).animation(), 1);
    assert_eq!(GnomeMachine::in_state(GnomeState::Active).animation(), 1);
}

#[test]
fn spotting_the_player() {
    let mut g = GnomeMachine::in_state(GnomeState::Active);
    assert_eq!(g.update(obs()), idle());
    let spotted = GnomeObservation { player_spotted: true, ..obs() };
    assert_eq!(g.update(spotted), GnomeAction { audio: Some(AudioStart::UhOh), ..idle() });
    assert_eq!(g.state(), GnomeState::Attacking);
}

#[test]
fn attacking_and_catching() {
    let mut g = GnomeMachine::in_state(GnomeState::Attacking);
    assert_eq!(g.update(obs()), GnomeAction { motion: GnomeMotion::ChasePlayer, ..idle() });
    let close = GnomeObservation { player_within_reach: true, ..obs() };
    assert_eq!(g.update(close), GnomeAction { catch_player: true, ..idle() });
    let caught = GnomeObservation { player_already_caught: true, ..close };
    assert_eq!(g.update(caught), idle());
    assert_eq!(g.state(), GnomeState::Attacking);
}

#[test]
fn dropping_the_banana_turns_off_the_lights() {
    let mut g = GnomeMachine::in_state(GnomeState::DroppingBanana);
    assert_eq!(
        g.update(obs()),
        GnomeAction { motion: GnomeMotion::FacePlayer, tick_timer: true, ..idle() }
    );
    let done = GnomeObservation { timer_finished: true, ..obs() };
    assert_eq!(g.update(done), GnomeAction { lights_off: true, ..idle() });
    assert_eq!(g.state(), GnomeState::Moving);
    assert_eq!(
        g.update(obs()),
        GnomeAction { motion: GnomeMotion::FollowPath, tick_timer: true, ..idle() }
    );
    assert_eq!(g.update(done), idle());
    assert_eq!(g.state(), GnomeState::Active);
}

#[test]
fn waiting_for_the_player_to_look() {
    let mut g = GnomeMachine::in_state(GnomeState::WaitingForAttack { already_looking: false });
    let face = GnomeAction { motion: GnomeMotion::FacePlayer, ..idle() };
    assert_eq!(g.update(obs()), face);
    assert_eq!(g.state(), GnomeState::WaitingForAttack { already_looking: false });
    let looking = GnomeObservation { player_looking_or_fleeing: true, ..obs() };
    assert_eq!(g.update(looking), face);
    assert_eq!(g.state(), GnomeState::WaitingForAttack { already_looking: true });
    assert!(!g.is_changed());
    assert_eq!(g.update(obs()), GnomeAction { tick_timer: true, ..face });
    let done = GnomeObservation { timer_finished: true, ..obs() };
    assert_eq!(g.update(done), GnomeAction { audio: Some(AudioStart::Goat), ..face });
    assert_eq!(g.state(), GnomeState::Attacking);
    assert!(g.is_changed());
}

#[test]
fn waiting_to_die() {
    let mut g = GnomeMachine::in_state(GnomeState::WaitingToDie);
    assert_eq!(g.update(obs()), idle());
    let done = GnomeObservation { timer_finished: true, player_present: false, ..obs() };
    assert_eq!(g.update(done), GnomeAction { audio: Some(AudioStart::GnomeDying), ..idle() });
    assert_eq!(g.state(), GnomeState::Dying);
    assert_eq!(g.update(done), idle());
    assert_eq!(g.state(), GnomeState::Dying);
}

#[test]
fn every_gnome_ends_dying_or_attacking_within_four_steps() {
    let all = [
        GnomeState::Inactive,
        GnomeState::Active,
        GnomeState::Deactivated,
        GnomeState::LoadingBanana,
        GnomeState::DroppingBanana,
        GnomeState::Moving,
        GnomeState::Attacking,
        GnomeState::WaitingForAttack { already_looking: true },
        GnomeState::Dying,
        GnomeState::WaitingToDie,
    ];
    for s in all {
        let mut g = GnomeMachine::in_state(s);
        for _ in 0..4 {
            g.next_state();
        }
        assert!(matches!(g.state(), GnomeState::Dying | GnomeState::Attacking));
    }
}

#[test]
fn tame_gnomes_are_not_alerted() {
    let mut g = GnomeMachine::new();
    assert!(!g.alertable());
    g.next_state();
    assert_eq!(g.state(), GnomeState::WaitingToDie);
    assert!(!g.alertable());
    g.acknowledge_change();
    g.waiting_for_attack();
    assert_eq!(g.state(), GnomeState::WaitingToDie);
    assert!(!g.is_changed());
    g.next_state();
    assert_eq!(g.state(), GnomeState::Dying);
    assert!(!g.alertable());
    let mut w = GnomeMachine::in_state(GnomeState::WaitingForAttack { already_looking: true });
    assert!(w.alertable());
    w.waiting_for_attack();
    assert_eq!(w.state(), GnomeState::WaitingForAttack { already_looking: false });
}

#[test]
fn the_player_is_caught_once() {
    let mut killed = KilledPlayer::default();
    let close = GnomeObservation { player_within_reach: true, ..obs() };
    let mut first = GnomeMachine::in_state(GnomeState::Attacking);
    let mut second = GnomeMachine::in_state(GnomeState::Attacking);
    assert_eq!(killed.frame(&mut first, close), GnomeAction { catch_player: true, ..idle() });
    assert!(killed.caught);
    // the observation's own flag is replaced by the shared one
    assert_eq!(killed.frame(&mut second, close), idle());
    assert_eq!(killed.frame(&mut first, close), idle());
    killed.reset();
    assert!(!killed.caught);
    assert_eq!(killed.frame(&mut second, close), GnomeAction { catch_player: true, ..idle() });
    let mut chaser = GnomeMachine::in_state(GnomeState::Attacking);
    killed.reset();
    assert_eq!(killed.frame(&mut chaser, obs()), GnomeAction { motion: GnomeMotion::ChasePlayer, ..idle() });
    assert!(!killed.caught);
}
