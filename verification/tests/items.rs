use pilot_garden::audio::AudioStart;
use pilot_garden::digging::{
    collectible_for_name, hand_animation, Collectible, HandAnimation, Life, LifeResponse, OnHand,
    OnHandPose,
};
use pilot_garden::point_raycast::{
    click, crosshair_aim, drop_tool, first_marked, manage_inventory, ray_stops, Aim, ClickOutcome,
    ClickTarget, HeldTool, Inventory, RayCandidate, RayHit, RayParent, ToolEffect,
};

#[test]
fn shovels_equal_whatever_their_uses() {
    assert_eq!(Collectible::Shovel(3), Collectible::Shovel(0));
    assert_eq!(Collectible::Seeds, Collectible::Seeds);
    assert_ne!(Collectible::Shovel(1), Collectible::MiningPick);
    assert_ne!(Collectible::Food, Collectible::Seeds);
    assert_ne!(Collectible::Button, Collectible::Food);
}

#[test]
fn poses_by_kind() {
    assert_eq!(Collectible::MiningPick.on_hand_poses(), OnHandPose::MiningPick);
    assert_eq!(Collectible::Seeds.on_hand_poses(), OnHandPose::Seeds);
    assert_eq!(Collectible::Button.on_hand_poses(), OnHandPose::Button);
    assert_eq!(Collectible::Shovel(2).on_hand_poses(), OnHandPose::Tool);
    assert_eq!(Collectible::Food.on_hand_poses(), OnHandPose::Tool);
    assert!(!OnHand::new().active);
}

#[test]
fn collectibles_by_name() {
    assert!(matches!(collectible_for_name("Shovel", 7), Some(Collectible::Shovel(7))));
    assert!(matches!(collectible_for_name("MiningPick", 7), Some(Collectible::MiningPick)));
    assert!(matches!(collectible_for_name("Food", 7), Some(Collectible::Food)));
    assert!(matches!(collectible_for_name("Seeds", 7), Some(Collectible::Seeds)));
    assert!(collectible_for_name("Shovel2", 7).is_none());
    assert!(collectible_for_name("shovel", 7).is_none());
    assert!(collectible_for_name("", 7).is_none());
}

#[test]
fn hits_take_one_life_and_never_below_zero() {
    let mut l = Life::Left(2);
    l.hit();
    assert_eq!(l, Life::Left(1));
    l.hit();
    assert_eq!(l, Life::Left(0));
    l.hit();
    assert_eq!(l, Life::Left(0));
    let mut fresh = Life::JustSpawned;
    fresh.hit();
    assert_eq!(fresh, Life::Left(1));
}

#[test]
fn depleted_life_responses() {
    let mut gnome = Life::Left(0);
    assert_eq!(
        gnome.on_change(true),
        LifeResponse { advance_gnome: true, reveal_secret: true, remove: false, shrink: false }
    );
    let mut rock = Life::Left(0);
    assert_eq!(
        rock.on_change(false),
        LifeResponse { advance_gnome: false, reveal_secret: false, remove: true, shrink: true }
    );
    let mut worn = Life::Left(2);
    assert_eq!(
        worn.on_change(false),
        LifeResponse { advance_gnome: false, reveal_secret: false, remove: false, shrink: true }
    );
    let mut healthy = Life::Left(3);
    assert_eq!(
        healthy.on_change(false),
        LifeResponse { advance_gnome: false, reveal_secret: false, remove: false, shrink: false }
    );
    let mut fresh = Life::JustSpawned;
    assert_eq!(
        fresh.on_change(false),
        LifeResponse { advance_gnome: false, reveal_secret: false, remove: false, shrink: false }
    );
    assert_eq!(fresh, Life::Left(1));
}

#[test]
fn inventory_uses() {
    let mut i = Inventory::Shovel(2);
    i.decrease();
    assert_eq!(i, Inventory::Shovel(1));
    i.decrease();
    i.decrease();
    assert_eq!(i, Inventory::Shovel(0));
    let mut p = Inventory::MiningPick;
    p.decrease();
    assert_eq!(p, Inventory::MiningPick);
    let mut s = Inventory::Seeds(1);
    s.decrease();
    assert_eq!(s, Inventory::Seeds(0));
    assert!(s.is_seeds());
    assert!(!Inventory::Food(1).is_seeds());
    assert_eq!(Inventory::default(), Inventory::Empty);
}

#[test]
fn usage_handed_back() {
    assert_eq!(Inventory::Shovel(5).get_usage(), 5);
    assert_eq!(Inventory::MiningPick.get_usage(), 1);
    assert_eq!(Inventory::Empty.get_usage(), 1);
}

#[test]
fn depleted_tools() {
    assert_eq!(Inventory::Shovel(0).depleted_tool(), Some(Collectible::Shovel(9)));
    assert_eq!(Inventory::Food(0).depleted_tool(), Some(Collectible::Food));
    assert_eq!(Inventory::Seeds(0).depleted_tool(), Some(Collectible::Seeds));
    assert_eq!(Inventory::Shovel(1).depleted_tool(), None);
    assert_eq!(Inventory::MiningPick.depleted_tool(), None);
    assert_eq!(Inventory::Empty.depleted_tool(), None);
}

#[test]
fn eating() {
    let mut f = Inventory::Food(1);
    f.eat_food(false);
    assert_eq!(f, Inventory::Food(1));
    f.eat_food(true);
    assert_eq!(f, Inventory::Food(0));
    f.eat_food(true);
    assert_eq!(f, Inventory::Food(0));
    let mut s = Inventory::Shovel(3);
    s.eat_food(true);
    assert_eq!(s, Inventory::Shovel(3));
}

#[test]
fn used_up_tools_removed() {
    let tools = vec![
        HeldTool { tool: Collectible::Shovel(4), active: true },
        HeldTool { tool: Collectible::Food, active: true },
        HeldTool { tool: Collectible::Shovel(0), active: false },
        HeldTool { tool: Collectible::Shovel(0), active: true },
    ];
    let mut inv = Inventory::Shovel(0);
    assert_eq!(manage_inventory(&mut inv, &tools), vec![0, 3]);
    assert_eq!(inv, Inventory::Empty);

    let mut still = Inventory::Shovel(2);
    assert_eq!(manage_inventory(&mut still, &tools), Vec::<usize>::new());
    assert_eq!(still, Inventory::Shovel(2));

    let mut none_held = Inventory::Seeds(0);
    assert_eq!(manage_inventory(&mut none_held, &tools), Vec::<usize>::new());
    assert_eq!(none_held, Inventory::Seeds(0));
}

#[test]
fn dropped_shovel_keeps_uses() {
    let mut t = Collectible::Shovel(9);
    drop_tool(&mut t, 4);
    assert!(matches!(t, Collectible::Shovel(4)));
    let mut f = Collectible::Food;
    drop_tool(&mut f, 4);
    assert!(matches!(f, Collectible::Food));
}

#[test]
fn shovel_round_trip_through_the_hand() {
    let mut inv = Inventory::MiningPick;
    let target = ClickTarget {
        collectible: Some(Collectible::Shovel(6)),
        diggable: false,
        minable: false,
        tool_in_hand: true,
    };
    assert_eq!(click(&mut inv, &target), ClickOutcome::PickUp { drop_usage: 1 });
    assert_eq!(inv, Inventory::Shovel(6));
    let mut shovel = Collectible::Shovel(0);
    drop_tool(&mut shovel, inv.get_usage());
    assert!(matches!(shovel, Collectible::Shovel(6)));
}

#[test]
fn clicks() {
    let mut inv = Inventory::Shovel(3);
    let button = ClickTarget {
        collectible: Some(Collectible::Button),
        diggable: false,
        minable: false,
        tool_in_hand: true,
    };
    assert_eq!(click(&mut inv, &button), ClickOutcome::PressButton);
    assert_eq!(inv, Inventory::Shovel(3));

    let pick_up_food = ClickTarget {
        collectible: Some(Collectible::Food),
        diggable: false,
        minable: false,
        tool_in_hand: true,
    };
    assert_eq!(click(&mut inv, &pick_up_food), ClickOutcome::PickUp { drop_usage: 3 });
    assert_eq!(inv, Inventory::Food(1));

    let mut seeds = Inventory::Seeds(1);
    let ground = ClickTarget { collectible: None, diggable: true, minable: false, tool_in_hand: true };
    assert_eq!(click(&mut seeds, &ground), ClickOutcome::Use { effect: Some(ToolEffect::PlantSeeds) });
    assert_eq!(seeds, Inventory::Seeds(0));

    let mut shovel = Inventory::Shovel(1);
    assert_eq!(click(&mut shovel, &ground), ClickOutcome::Use { effect: Some(ToolEffect::Remove) });
    assert_eq!(shovel, Inventory::Shovel(0));

    let mut pick = Inventory::MiningPick;
    let rock = ClickTarget { collectible: None, diggable: false, minable: true, tool_in_hand: true };
    assert_eq!(click(&mut pick, &rock), ClickOutcome::Use { effect: Some(ToolEffect::HitMinable) });

    let mut empty = Inventory::Empty;
    let bare = ClickTarget { collectible: None, diggable: true, minable: true, tool_in_hand: false };
    assert_eq!(click(&mut empty, &bare), ClickOutcome::Use { effect: None });
    assert_eq!(empty, Inventory::Empty);
}

#[test]
fn ray_filter() {
    let parent = RayParent { diggable: true, minable: false, collectable: false };
    let with_parent = RayCandidate { blocker: false, parent: Some(parent) };
    assert!(ray_stops(&Inventory::Shovel(1), &with_parent));
    assert!(ray_stops(&Inventory::Seeds(1), &with_parent));
    assert!(!ray_stops(&Inventory::MiningPick, &with_parent));
    assert!(!ray_stops(&Inventory::Food(1), &with_parent));
    let minable = RayCandidate {
        blocker: false,
        parent: Some(RayParent { diggable: false, minable: true, collectable: false }),
    };
    assert!(ray_stops(&Inventory::MiningPick, &minable));
    assert!(!ray_stops(&Inventory::Shovel(1), &minable));
    let collectable = RayCandidate {
        blocker: false,
        parent: Some(RayParent { diggable: false, minable: false, collectable: true }),
    };
    assert!(ray_stops(&Inventory::Empty, &collectable));
    assert!(ray_stops(&Inventory::Empty, &RayCandidate { blocker: true, parent: None }));
    assert!(!ray_stops(&Inventory::Shovel(1), &RayCandidate { blocker: false, parent: None }));
}

#[test]
fn first_minable_ancestor() {
    assert_eq!(first_marked(&vec![false, false, true, true]), Some(2));
    assert_eq!(first_marked(&vec![true]), Some(0));
    assert_eq!(first_marked(&vec![false, false]), None);
    assert_eq!(first_marked(&vec![]), None);
}

#[test]
fn crosshair() {
    assert_eq!(crosshair_aim(None), Aim::Idle);
    let far = RayHit { within_reach: false, has_parent: true, blocked: false };
    assert_eq!(crosshair_aim(Some(far)), Aim::Idle);
    let orphan = RayHit { within_reach: true, has_parent: false, blocked: false };
    assert_eq!(crosshair_aim(Some(orphan)), Aim::Unchanged);
    let blocked = RayHit { within_reach: true, has_parent: true, blocked: true };
    assert_eq!(crosshair_aim(Some(blocked)), Aim::Idle);
    let target = RayHit { within_reach: true, has_parent: true, blocked: false };
    assert_eq!(crosshair_aim(Some(target)), Aim::Target);
}

#[test]
fn use_sounds() {
    assert_eq!(Collectible::Shovel(1).use_sound(), Some(AudioStart::Shovel));
    assert_eq!(Collectible::MiningPick.use_sound(), Some(AudioStart::Pick));
    assert_eq!(Collectible::Food.use_sound(), Some(AudioStart::Pop));
    assert_eq!(Collectible::Seeds.use_sound(), Some(AudioStart::Pop));
    assert_eq!(Collectible::Button.use_sound(), None);
}

#[test]
fn hand_animation_steps() {
    assert_eq!(hand_animation(false, true, true), HandAnimation::Skip);
    assert_eq!(hand_animation(true, true, true), HandAnimation::Animate { play_sound: true });
    assert_eq!(hand_animation(true, false, true), HandAnimation::Rest);
    assert_eq!(hand_animation(true, false, false), HandAnimation::Animate { play_sound: false });
}
