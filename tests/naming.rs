use mocap_display::face::Blendshape;
use mocap_display::skeleton::{BodyPart, CharacterParts};
use mocap_display::text::same_text;

#[test]
fn node_names_map_to_parts() {
    assert_eq!(BodyPart::from_name("Root"), Some(BodyPart::Root));
    assert_eq!(BodyPart::from_name("Eye.L"), Some(BodyPart::LeftEye));
    assert_eq!(BodyPart::from_name("Eye.R"), Some(BodyPart::RightEye));
    assert_eq!(BodyPart::from_name("IndexMcp.R"), Some(BodyPart::RightIndexMcp));
    assert_eq!(BodyPart::from_name("LowerArmR.L"), Some(BodyPart::LeftLowerArmR));
    assert_eq!(BodyPart::from_name("PinkyDip.L"), Some(BodyPart::LeftPinkyDip));
    assert_eq!(BodyPart::from_name("UpperLeg.R"), Some(BodyPart::RightUpperLeg));
}

#[test]
fn node_names_match_exactly() {
    assert_eq!(BodyPart::from_name("root"), None);
    assert_eq!(BodyPart::from_name("Eye.L "), None);
    assert_eq!(BodyPart::from_name("Eye"), None);
    assert_eq!(BodyPart::from_name(""), None);
    assert_eq!(BodyPart::from_name("Armature"), None);
}

#[test]
fn recording_named_nodes_fills_parts() {
    let mut parts = CharacterParts::<u64>::new();
    assert_eq!(parts.record(7, "Neck"), Some(BodyPart::Neck));
    assert_eq!(parts.record(9, "ThumbIp.R"), Some(BodyPart::RightThumbIp));
    assert_eq!(parts.record(11, "Camera"), None);
    assert_eq!(parts.neck, Some(7));
    assert_eq!(parts.right_hand.thumb.ip, Some(9));
    assert_eq!(parts.get(BodyPart::Neck), Some(7));
    assert_eq!(parts.get(BodyPart::Root), None);
    assert_eq!(parts.left_hand.thumb.ip, None);
}

#[test]
fn unmatched_name_changes_nothing() {
    let mut parts = CharacterParts::<u64>::new();
    parts.record(1, "Mouth");
    let before = parts;
    assert_eq!(parts.record(2, "Mouth.001"), None);
    assert_eq!(parts, before);
}

#[test]
fn later_node_replaces_earlier() {
    let mut parts = CharacterParts::<u64>::new();
    parts.set(BodyPart::LeftLowerLeg, 3);
    parts.record(4, "LowerLeg.L");
    assert_eq!(parts.left_leg.lower, Some(4));
    assert_eq!(parts.get(BodyPart::LeftLowerLeg), Some(4));
    assert_eq!(parts.right_leg.lower, None);
}

#[test]
fn blendshape_names() {
    assert_eq!(Blendshape::from_category_name("jawOpen"), Some(Blendshape::JawOpen));
    assert_eq!(Blendshape::from_category_name("_neutral"), Some(Blendshape::Neutral));
    assert_eq!(Blendshape::from_category_name("eyeLookInLeft"), Some(Blendshape::EyeLookInLeft));
    assert_eq!(Blendshape::from_category_name("noseSneerRight"), Some(Blendshape::NoseSneerRight));
    assert_eq!(Blendshape::from_category_name("JawOpen"), None);
    assert_eq!(Blendshape::from_category_name("tongueOut"), None);
}

#[test]
fn text_comparison() {
    assert!(same_text("Palm.L", "Palm.L"));
    assert!(!same_text("Palm.L", "Palm.R"));
    assert!(!same_text("Palm", "Palm.L"));
    assert!(same_text("", ""));
    assert!(same_text("héllo", "héllo"));
    assert!(!same_text("héllo", "hello"));
}
