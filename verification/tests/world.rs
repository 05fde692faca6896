use pilot_garden::audio::{AudioStart, Playback};
use pilot_garden::dodgy::{banana_count, DodgeTimer, Dodgy, MAX_BANANAS, MIN_BANANAS};
use pilot_garden::input_mapping::{InputActions, PressedButtons};
use pilot_garden::killer_arms::{arms_lasers, BeamGuard, KillerTimer, ShowDots, UIDot};
use pilot_garden::menu::{button_response, toggle_exit_menu, ButtonAction, ButtonLook, ButtonResponse, Pointer};
use pilot_garden::surveillance::{link_screens, LightSwitch, ScreenCameras, TurnTheLights};
use pilot_garden::world_timer::ShowOnAlarmTime;

#[test]
fn only_the_drums_loop() {
    assert_eq!(AudioStart::DrumChase.playback(), Playback::Loop);
    assert_eq!(AudioStart::Pop.playback(), Playback::OnceVaried);
    assert_eq!(AudioStart::Goat.playback(), Playback::OnceVaried);
}

#[test]
fn bananas_per_bananite() {
    for seed in 0..200u64 {
        let mut rng = fastrand::Rng::with_seed(seed);
        let n = banana_count(&mut rng);
        assert!(MIN_BANANAS <= n && n < MAX_BANANAS);
        assert_eq!(n, 3);
    }
}

#[test]
fn dodging() {
    let d = Dodgy { init_pos: (0, 1), last_pos: (5, 6), go_back: false, ignore_viewing: false };
    assert_eq!(d.timer_command(true), DodgeTimer::Pause);
    assert_eq!(d.timer_command(false), DodgeTimer::Run);
    let back = Dodgy { go_back: true, ..d };
    assert_eq!(back.timer_command(true), DodgeTimer::PauseAndRewind);
    let arm = Dodgy { ignore_viewing: true, ..back };
    assert_eq!(arm.timer_command(true), DodgeTimer::Run);
    let s = d.swapped();
    assert_eq!(s.init_pos, (5, 6));
    assert_eq!(s.last_pos, (0, 1));
    assert_eq!(s.swapped(), d);
}

#[test]
fn alarm_and_new_day() {
    let mut lamp = ShowOnAlarmTime::as_false();
    assert!(!lamp.is_shown());
    assert!(!lamp.on_alarm(false, false));
    assert!(lamp.is_shown());
    assert!(lamp.lamps_toggle(true));
    assert!(!lamp.lamps_toggle(false));
    assert!(lamp.on_new_day(false));
    assert!(!lamp.is_shown());
    assert!(lamp.swap_pos());
    assert!(!lamp.lamps_toggle(true));
    assert!(lamp.on_alarm(false, false));

    let mut bench = ShowOnAlarmTime::as_false();
    assert!(!bench.on_new_day(true));
    assert!(!bench.on_alarm(true, false));
    assert!(bench.on_alarm(true, true));
}

#[test]
fn one_beam_catches() {
    let mut g = BeamGuard::new();
    assert!(!g.fire(false));
    assert!(g.fire(true));
    assert!(!g.fire(true));
    assert!(!g.fire(false));
    let mut h = BeamGuard::new();
    assert!(!h.fire(false));
    assert!(!h.fire(false));
}

#[test]
fn dots_and_lasers() {
    let dots = ShowDots { left: true, right: false, bottom: true };
    assert!(dots.visible(UIDot::Left));
    assert!(!dots.visible(UIDot::Right));
    assert!(dots.visible(UIDot::Bottom));
    assert!(arms_lasers(true, true, true));
    assert!(!arms_lasers(true, true, false));
    assert!(!arms_lasers(true, false, true));
    assert!(!arms_lasers(false, true, true));
}

#[test]
fn light_switch() {
    assert_eq!(
        TurnTheLights::On.switch(),
        LightSwitch {
            visible: true,
            deactivate_gnomes: false,
            stop_drums: true,
            first_audio: AudioStart::SwitchOn,
            second_audio: None,
        }
    );
    assert_eq!(
        TurnTheLights::Off.switch(),
        LightSwitch {
            visible: false,
            deactivate_gnomes: true,
            stop_drums: false,
            first_audio: AudioStart::SwitchOff,
            second_audio: Some(AudioStart::DrumChase),
        }
    );
}

#[test]
fn one_camera_per_feed() {
    let mut c = ScreenCameras::new();
    assert!(c.claim(1));
    assert!(!c.claim(1));
    assert!(c.claim(3));
    assert!(c.claim(0));
    assert!(!c.claim(4));
}

#[test]
fn menu_buttons() {
    assert_eq!(
        button_response(Pointer::Pressed, ButtonAction::StartGame),
        ButtonResponse { look: ButtonLook::Pressed, start_game: true, exit: false }
    );
    assert_eq!(
        button_response(Pointer::Pressed, ButtonAction::Exit),
        ButtonResponse { look: ButtonLook::Pressed, start_game: false, exit: true }
    );
    assert_eq!(
        button_response(Pointer::Pressed, ButtonAction::ShowSettings),
        ButtonResponse { look: ButtonLook::Pressed, start_game: false, exit: false }
    );
    assert_eq!(
        button_response(Pointer::Hovered, ButtonAction::Exit),
        ButtonResponse { look: ButtonLook::Hovered, start_game: false, exit: false }
    );
    assert_eq!(
        button_response(Pointer::Away, ButtonAction::StartGame),
        ButtonResponse { look: ButtonLook::Normal, start_game: false, exit: false }
    );
    assert_eq!(toggle_exit_menu(false), (true, true));
    assert_eq!(toggle_exit_menu(true), (false, false));
}

#[test]
fn input_actions() {
    let b = PressedButtons { key_w: true, arrow_left: true, right_click_just_pressed: true, ..Default::default() };
    let a = InputActions::from_buttons(&b);
    assert_eq!(
        a,
        InputActions { up: true, down: false, left: true, right: false, jump: true, pick: false }
    );
    let c = PressedButtons { key_s: true, key_d: true, left_click_just_pressed: true, ..Default::default() };
    assert_eq!(
        InputActions::from_buttons(&c),
        InputActions { up: false, down: true, left: false, right: true, jump: false, pick: true }
    );
    assert_eq!(InputActions::from_buttons(&PressedButtons::default()), InputActions::default());
}

#[test]
fn linking_screens() {
    assert_eq!(link_screens(true, &vec![0, 1, 1, 3]), None);
    assert_eq!(link_screens(false, &vec![0, 1, 2, 1, 3, 3]), Some(vec![true, true, true, false, true, false]));
    assert_eq!(link_screens(false, &vec![]), Some(vec![]));
}

#[test]
fn one_shot_per_arming() {
    let mut k = KillerTimer::new();
    assert!(!k.fire(true, true, true));
    k.arm();
    assert!(k.can_kill);
    assert!(!k.fire(false, true, true));
    assert!(!k.fire(true, false, true));
    assert!(!k.fire(true, true, false));
    assert!(k.fire(true, true, true));
    assert!(!k.can_kill);
    assert!(!k.fire(true, true, true));
    k.arm();
    assert!(k.fire(true, true, true));
}
