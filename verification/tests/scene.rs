use pilot_garden::audio::AudioStart;
use pilot_garden::killer_arms::{find_entity, Hierarchy, SceneNode};
use pilot_garden::scene_tags::{
    bone_audio_for, bone_parent_names, find_recursive_parent, named_role, prefix_role, BoneAudio,
    BumpLatch, NamedRole, PrefixRole,
};
use pilot_garden::text::{same_text, starts_with};

#[test]
fn prefixes() {
    assert!(starts_with("crop_ground_special", "crop_ground"));
    assert!(starts_with("main", "main"));
    assert!(starts_with("x", ""));
    assert!(!starts_with("mai", "main"));
    assert!(!starts_with("domain", "main"));
    assert!(same_text("ik_target", "ik_target"));
    assert!(!same_text("ik_target", "ik_target2"));
}

#[test]
fn named_roles() {
    assert_eq!(named_role("point_bone"), NamedRole::KillerPoint);
    assert_eq!(named_role("ik_target"), NamedRole::KillerHead);
    assert_eq!(named_role("fakebush"), NamedRole::FakeBush);
    assert_eq!(named_role("crop_ground_special"), NamedRole::FakeGround);
    assert_eq!(named_role("ik_target.001"), NamedRole::Plain);
}

#[test]
fn prefix_roles() {
    assert_eq!(prefix_role("main_bone"), PrefixRole::MainBone);
    assert_eq!(prefix_role("one_sized_rock"), PrefixRole::OneSized);
    assert_eq!(prefix_role("crop_ground_special"), PrefixRole::CropGround);
    assert_eq!(prefix_role("crop_ground.004"), PrefixRole::CropGround);
    assert_eq!(prefix_role("dodgy_lamp"), PrefixRole::Dodgy);
    assert_eq!(prefix_role("fakebush"), PrefixRole::Plain);
}

fn names(v: &[Option<&str>]) -> Vec<Option<String>> {
    v.iter().map(|o| o.map(|s| s.to_string())).collect()
}

#[test]
fn ancestor_search() {
    let look = bone_parent_names();
    assert_eq!(find_recursive_parent(&names(&[Some("bush.001"), Some("rock")]), &look), Some(0));
    assert_eq!(find_recursive_parent(&names(&[Some("Armature"), Some("rig_fence.2")]), &look), Some(1));
    assert_eq!(find_recursive_parent(&names(&[Some("Armature"), None, Some("rock")]), &look), None);
    assert_eq!(find_recursive_parent(&names(&[]), &look), None);
    // the first name is tried upwards before the other names on the nearer ancestor
    assert_eq!(find_recursive_parent(&names(&[Some("rock_a"), Some("bush")]), &look), Some(0));
    assert_eq!(find_recursive_parent(&names(&[Some("rock_a"), Some("tree")]), &look), Some(2));
}

#[test]
fn bone_sounds() {
    assert_eq!(BoneAudio::new(Some("bush")), BoneAudio::Bush);
    assert_eq!(BoneAudio::new(Some("rig_fence")), BoneAudio::Fence);
    assert_eq!(BoneAudio::new(Some("rock")), BoneAudio::Rock);
    assert_eq!(BoneAudio::new(None), BoneAudio::Rock);
    assert_eq!(BoneAudio::Bush.to_audio(), AudioStart::Bush);
    assert_eq!(BoneAudio::Fence.to_audio(), AudioStart::Fence);
    assert_eq!(BoneAudio::Rock.to_audio(), AudioStart::Rock);
    assert_eq!(bone_audio_for(&names(&[Some("x"), Some("rig_fence")])), BoneAudio::Fence);
    assert_eq!(bone_audio_for(&names(&[None, Some("bush")])), BoneAudio::Rock);
}

#[test]
fn one_wiggle_per_approach() {
    let mut latch = BumpLatch::new();
    assert!(latch.on_frame(true, true));
    assert!(!latch.on_frame(true, true));
    assert!(!latch.on_frame(true, true));
    assert!(!latch.on_frame(false, true));
    assert!(!latch.on_frame(true, false));
    assert!(latch.on_frame(true, true));
}

fn node(name: Option<&str>, children: Vec<usize>) -> SceneNode {
    SceneNode { name: name.map(|s| s.to_string()), children }
}

#[test]
fn hierarchy_search() {
    // 0 root -> [1 "Armature" -> [3 "bone" -> [4 "ik_target.001"]], 2 unnamed -> [5 "ik_target"]]
    let nodes = vec![
        node(None, vec![1, 2]),
        node(Some("Armature"), vec![3]),
        node(None, vec![5]),
        node(Some("bone"), vec![4]),
        node(Some("ik_target.001"), vec![]),
        node(Some("ik_target"), vec![]),
    ];
    let h = Hierarchy::new(nodes).unwrap();
    assert_eq!(h.len(), 6);
    assert_eq!(find_entity(&h, 0, "ik_target"), Some(4));
    assert_eq!(find_entity(&h, 0, "Armature"), Some(1));
    assert_eq!(find_entity(&h, 2, "ik_target"), Some(5));
    assert_eq!(find_entity(&h, 0, "platform_mover"), None);
    assert_eq!(find_entity(&h, 4, "ik_target"), None);
    assert_eq!(find_entity(&h, 9, "ik_target"), None);
}

#[test]
fn malformed_hierarchies_refused() {
    assert!(Hierarchy::new(vec![node(None, vec![0])]).is_none());
    assert!(Hierarchy::new(vec![node(None, vec![1])]).is_none());
    assert!(Hierarchy::new(vec![node(None, vec![1]), node(None, vec![0])]).is_none());
    assert!(Hierarchy::new(vec![]).is_some());
}
