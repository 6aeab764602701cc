use mocap_display::pose::PoseLandmarkIndex::{
    LeftAnkle, LeftEar, LeftElbow, LeftHip, LeftIndex, LeftKnee, LeftShoulder, LeftThumb, LeftWrist,
    Nose, RightAnkle, RightEar, RightElbow, RightHip, RightIndex, RightKnee, RightShoulder,
    RightThumb, RightWrist,
};
use mocap_display::rig::{BodyJoint, JointRecipe, JointToggles};
use mocap_display::skeleton::BodyPart;
use mocap_display::tracking::{
    elapsed_since, track_step, LastHandsUpdateTime, LastPoseUpdateTime, TrackStep,
};

#[test]
fn first_update_has_no_elapsed_time() {
    let mut t = LastPoseUpdateTime(None);
    assert_eq!(t.advance(1_000), 0);
    assert_eq!(t.0, Some(1_000));
    assert_eq!(t.advance(34_333), 33_333);
    assert_eq!(t.0, Some(34_333));
}

#[test]
fn clock_going_back_gives_zero() {
    let mut t = LastHandsUpdateTime(Some(500));
    assert_eq!(t.advance(200), 0);
    assert_eq!(t.0, Some(200));
    assert_eq!(elapsed_since(Some(10), 10), 0);
    assert_eq!(elapsed_since(Some(0), u64::MAX), u64::MAX);
}

#[test]
fn filter_lifecycle() {
    assert_eq!(track_step(true, true, false), TrackStep::Start);
    assert_eq!(track_step(true, true, true), TrackStep::Update);
    assert_eq!(track_step(true, false, true), TrackStep::Keep);
    assert_eq!(track_step(true, false, false), TrackStep::Keep);
    assert_eq!(track_step(false, true, true), TrackStep::Keep);
    assert_eq!(track_step(false, true, false), TrackStep::Keep);
}

#[test]
fn joints_drive_their_nodes() {
    assert_eq!(BodyJoint::Root.part(), BodyPart::Root);
    assert_eq!(BodyJoint::LeftLowerArmR.part(), BodyPart::LeftLowerArmR);
    assert_eq!(BodyJoint::RightUpperLeg.part(), BodyPart::RightUpperLeg);
}

#[test]
fn joint_recipes() {
    assert_eq!(
        BodyJoint::LeftUpperArm.recipe(),
        JointRecipe::Limb { proximal: LeftShoulder, distal: LeftElbow, reference: LeftHip }
    );
    assert_eq!(
        BodyJoint::RightUpperArm.recipe(),
        JointRecipe::Limb { proximal: RightShoulder, distal: RightElbow, reference: RightHip }
    );
    assert_eq!(
        BodyJoint::LeftUpperLeg.recipe(),
        JointRecipe::Hip { proximal: LeftHip, distal: LeftKnee, other_hip: RightHip }
    );
    assert_eq!(
        BodyJoint::Root.recipe(),
        JointRecipe::Torso {
            left_shoulder: LeftShoulder,
            right_shoulder: RightShoulder,
            left_hip: LeftHip,
            right_hip: RightHip
        }
    );
    assert_eq!(
        BodyJoint::Neck.recipe(),
        JointRecipe::Head { nose: Nose, left_ear: LeftEar, right_ear: RightEar }
    );
    assert_eq!(
        BodyJoint::RightLowerArmR.recipe(),
        JointRecipe::Forearm { elbow: RightElbow, wrist: RightWrist, index: RightIndex, thumb: RightThumb }
    );
}

#[test]
fn joint_toggles() {
    let mut toggles = JointToggles::all_on();
    assert!(toggles.enabled(BodyJoint::Neck));
    toggles.rotate_neck = false;
    assert!(!toggles.enabled(BodyJoint::Neck));
    assert!(toggles.enabled(BodyJoint::Root));
    assert!(toggles.enabled(BodyJoint::RightLowerLeg));
}

#[test]
fn mirrored_joints_read_mirrored_landmarks() {
    assert_eq!(
        BodyJoint::LeftLowerLeg.recipe(),
        JointRecipe::Limb { proximal: LeftKnee, distal: LeftAnkle, reference: LeftHip }
    );
    assert_eq!(
        BodyJoint::RightLowerLeg.recipe(),
        JointRecipe::Limb { proximal: RightKnee, distal: RightAnkle, reference: RightHip }
    );
    assert_eq!(
        BodyJoint::RightUpperLeg.recipe(),
        JointRecipe::Hip { proximal: RightHip, distal: RightKnee, other_hip: LeftHip }
    );
    assert_eq!(
        BodyJoint::LeftLowerArmR.recipe(),
        JointRecipe::Forearm { elbow: LeftElbow, wrist: LeftWrist, index: LeftIndex, thumb: LeftThumb }
    );
    assert_eq!(
        BodyJoint::RightLowerArm.recipe(),
        JointRecipe::Limb { proximal: RightElbow, distal: RightWrist, reference: RightShoulder }
    );
}
