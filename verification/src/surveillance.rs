//! The studio below: the big screens, the button and the lights.

use vstd::prelude::*;

use crate::audio::AudioStart;

verus! {

/// Turn the studio lights on or off.
#[derive(Clone, Copy, PartialEq, Eq, Structural, Debug)]
pub enum TurnTheLights {
    On,
    Off,
}

/// What switching the lights does.
#[derive(Clone, Copy, PartialEq, Eq, Structural, Debug)]
pub struct LightSwitch {
    /// The light is visible afterwards.
    pub visible: bool,
    /// Active gnomes are deactivated (so they do not attack in the dark).
    pub deactivate_gnomes: bool,
    /// The looping chase drums are stopped.
    pub stop_drums: bool,
    /// The cues to play, in order.
    pub first_audio: AudioStart,
    pub second_audio: Option<AudioStart>,
}

impl TurnTheLights {
    pub open spec fn switch_spec(self) -> LightSwitch {
        match self {
            TurnTheLights::On => LightSwitch {
                visible: true,
                deactivate_gnomes: false,
                stop_drums: true,
                first_audio: AudioStart::SwitchOn,
                second_audio: None,
            },
            TurnTheLights::Off => LightSwitch {
                visible: false,
                deactivate_gnomes: true,
                stop_drums: false,
                first_audio: AudioStart::SwitchOff,
                second_audio: Some(AudioStart::DrumChase),
            },
        }
    }

    /// Lights on: the light shows, the drums stop and the switch sounds.
    /// Lights off: the light hides, the switch and the chase drums sound, and
    /// the gnomes are deactivated.
    pub fn switch(&self) -> (s: LightSwitch)
        ensures
            s == self.switch_spec(),
    {
        match self {
            TurnTheLights::On => LightSwitch {
                visible: true,
                deactivate_gnomes: false,
                stop_drums: true,
                first_audio: AudioStart::SwitchOn,
                second_audio: None,
            },
            TurnTheLights::Off => LightSwitch {
                visible: false,
                deactivate_gnomes: true,
                stop_drums: false,
                first_audio: AudioStart::SwitchOff,
                second_audio: Some(AudioStart::DrumChase),
            },
        }
    }
}

/// Number of big screens fed by snapshot cameras.
pub const SCREEN_COUNT: usize = 4;

/// Which screen feeds still need their snapshot camera. Several screens may
/// show the same feed; one camera serves them all.
pub struct ScreenCameras {
    pending: Vec<bool>,
}

impl ScreenCameras {
    /// Whether feed `i` still needs its camera.
    pub closed spec fn needs_camera(&self, i: int) -> bool {
        0 <= i < self.pending@.len() && self.pending@[i]
    }

    /// Every feed needs its camera.
    pub fn new() -> (c: Self)
        ensures
            forall|i: int| 0 <= i < SCREEN_COUNT ==> c.needs_camera(i),
            forall|i: int| !(0 <= i < SCREEN_COUNT) ==> !c.needs_camera(i),
    {
        ScreenCameras { pending: vec![true, true, true, true] }
    }

    /// A screen of feed `i` is linked: gives whether a camera is to be set up
    /// for it (only for the first screen of each feed).
    pub fn claim(&mut self, i: usize) -> (setup: bool)
        ensures
            setup == old(self).needs_camera(i as int),
            !final(self).needs_camera(i as int),
            forall|k: int| k != i ==> final(self).needs_camera(k) == old(self).needs_camera(k),
    {
        if i < self.pending.len() && self.pending[i] {
            self.pending.set(i, false);
            true
        } else {
            false
        }
    }
}

/// Screen `k` is the first in the list that shows its feed.
pub open spec fn first_of_feed(screens: Seq<usize>, k: int) -> bool {
    forall|j: int| 0 <= j < k ==> screens[j] != screens[k]
}

/// Linking the screens to the snapshot cameras above: nothing is done if the
/// cameras already exist (`None`); otherwise every screen gets its feed, and
/// the `k`-th flag says whether a camera is set up for its feed, which is so
/// for the first screen of each feed only.
pub fn link_screens(snapshot_cameras_exist: bool, screens: &Vec<usize>) -> (plan: Option<Vec<bool>>)
    requires
        forall|k: int| 0 <= k < screens@.len() ==> screens@[k] < SCREEN_COUNT,
    ensures
        snapshot_cameras_exist <==> plan is None,
        plan matches Some(v) ==> v@.len() == screens@.len() && forall|k: int|
            0 <= k < screens@.len() ==> v@[k] == first_of_feed(screens@, k),
{
    if snapshot_cameras_exist {
        return None;
    }
    let mut cameras = ScreenCameras::new();
    let mut plan: Vec<bool> = Vec::new();
    let mut k: usize = 0;
    while k < screens.len()
        invariant
            k <= screens@.len(),
            plan@.len() == k,
            forall|m: int| 0 <= m < screens@.len() ==> screens@[m] < SCREEN_COUNT,
            forall|m: int| 0 <= m < k ==> plan@[m] == first_of_feed(screens@, m),
            forall|i: int|
                0 <= i < SCREEN_COUNT ==> (cameras.needs_camera(i) <==> forall|j: int|
                    0 <= j < k ==> screens@[j] != i),
        decreases screens@.len() - k,
    {
        let idx = screens[k];
        let setup = cameras.claim(idx);
        plan.push(setup);
        k = k + 1;
    }
    Some(plan)
}

/// Each feed shown on some screen gets exactly one camera: one screen of the
/// feed is the first of it, and no two are.
pub proof fn lemma_one_camera_per_feed(screens: Seq<usize>, k: int)
    requires
        0 <= k < screens.len(),
    ensures
        exists|f: int| 0 <= f <= k && screens[f] == screens[k] && first_of_feed(screens, f),
        forall|a: int, b: int|
            0 <= a < screens.len() && 0 <= b < screens.len() && screens[a] == screens[k]
                && screens[b] == screens[k] && first_of_feed(screens, a) && first_of_feed(
                screens,
                b,
            ) ==> a == b,
    decreases k,
{
    if !first_of_feed(screens, k) {
        let j = choose|j: int| 0 <= j < k && screens[j] == screens[k];
        lemma_one_camera_per_feed(screens, j);
        let f = choose|f: int| 0 <= f <= j && screens[f] == screens[j] && first_of_feed(screens, f);
        assert(0 <= f <= k && screens[f] == screens[k] && first_of_feed(screens, f));
    } else {
        assert(0 <= k <= k && screens[k] == screens[k] && first_of_feed(screens, k));
    }
    assert forall|a: int, b: int|
        0 <= a < screens.len() && 0 <= b < screens.len() && screens[a] == screens[k]
            && screens[b] == screens[k] && first_of_feed(screens, a) && first_of_feed(
            screens,
            b,
        ) implies a == b by {
        if a < b {
            assert(screens[a] != screens[b]);
        } else if b < a {
            assert(screens[b] != screens[a]);
        }
    }
}

} // verus!
