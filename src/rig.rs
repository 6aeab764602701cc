//! The body joints that the pose drives: the node each one moves, the pose
//! landmarks its basis is built from, and whether live tracking drives it.

use crate::pose::PoseLandmarkIndex;
use crate::skeleton::BodyPart;
use vstd::prelude::*;

verus! {

/// A body joint whose rotation is solved from the pose.
#[derive(Debug, Clone, Copy, PartialEq, Eq, Hash, Structural)]
pub enum BodyJoint {
    Root,
    Neck,
    LeftUpperArm,
    RightUpperArm,
    LeftLowerArm,
    RightLowerArm,
    LeftLowerArmR,
    RightLowerArmR,
    LeftUpperLeg,
    RightUpperLeg,
    LeftLowerLeg,
    RightLowerLeg,
}

/// Which pose landmarks a joint's basis is built from, and how.
#[derive(Debug, Clone, Copy, PartialEq, Eq, Structural)]
pub enum JointRecipe {
    /// Forward runs from the midpoint of the ears to the nose; right runs
    /// from the left ear to the right ear.
    Head { nose: PoseLandmarkIndex, left_ear: PoseLandmarkIndex, right_ear: PoseLandmarkIndex },
    /// Up runs from the midpoint of the hips to that of the shoulders; right
    /// runs from the right hip to the left hip.
    Torso {
        left_shoulder: PoseLandmarkIndex,
        right_shoulder: PoseLandmarkIndex,
        left_hip: PoseLandmarkIndex,
        right_hip: PoseLandmarkIndex,
    },
    /// Up runs along the bone from `proximal` to `distal`; forward runs from
    /// `reference` to `proximal`.
    Limb { proximal: PoseLandmarkIndex, distal: PoseLandmarkIndex, reference: PoseLandmarkIndex },
    /// Up runs along the thigh from `proximal` to `distal`; right runs from
    /// `other_hip` to `proximal`.
    Hip { proximal: PoseLandmarkIndex, distal: PoseLandmarkIndex, other_hip: PoseLandmarkIndex },
    /// Forward runs from the elbow to the wrist; right runs from the thumb to
    /// the index finger.
    Forearm {
        elbow: PoseLandmarkIndex,
        wrist: PoseLandmarkIndex,
        index: PoseLandmarkIndex,
        thumb: PoseLandmarkIndex,
    },
}

/// The pose landmark on the other side of the body; points on the middle
/// line are their own mirror image.
pub open spec fn mirror_landmark(i: PoseLandmarkIndex) -> PoseLandmarkIndex {
    match i {
        PoseLandmarkIndex::Nose => PoseLandmarkIndex::Nose,
        PoseLandmarkIndex::LeftEyeInner => PoseLandmarkIndex::RightEyeInner,
        PoseLandmarkIndex::LeftEye => PoseLandmarkIndex::RightEye,
        PoseLandmarkIndex::LeftEyeOuter => PoseLandmarkIndex::RightEyeOuter,
        PoseLandmarkIndex::RightEyeInner => PoseLandmarkIndex::LeftEyeInner,
        PoseLandmarkIndex::RightEye => PoseLandmarkIndex::LeftEye,
        PoseLandmarkIndex::RightEyeOuter => PoseLandmarkIndex::LeftEyeOuter,
        PoseLandmarkIndex::LeftEar => PoseLandmarkIndex::RightEar,
        PoseLandmarkIndex::RightEar => PoseLandmarkIndex::LeftEar,
        PoseLandmarkIndex::MouthLeft => PoseLandmarkIndex::MouthRight,
        PoseLandmarkIndex::MouthRight => PoseLandmarkIndex::MouthLeft,
        PoseLandmarkIndex::LeftShoulder => PoseLandmarkIndex::RightShoulder,
        PoseLandmarkIndex::RightShoulder => PoseLandmarkIndex::LeftShoulder,
        PoseLandmarkIndex::LeftElbow => PoseLandmarkIndex::RightElbow,
        PoseLandmarkIndex::RightElbow => PoseLandmarkIndex::LeftElbow,
        PoseLandmarkIndex::LeftWrist => PoseLandmarkIndex::RightWrist,
        PoseLandmarkIndex::RightWrist => PoseLandmarkIndex::LeftWrist,
        PoseLandmarkIndex::LeftPinky => PoseLandmarkIndex::RightPinky,
        PoseLandmarkIndex::RightPinky => PoseLandmarkIndex::LeftPinky,
        PoseLandmarkIndex::LeftIndex => PoseLandmarkIndex::RightIndex,
        PoseLandmarkIndex::RightIndex => PoseLandmarkIndex::LeftIndex,
        PoseLandmarkIndex::LeftThumb => PoseLandmarkIndex::RightThumb,
        PoseLandmarkIndex::RightThumb => PoseLandmarkIndex::LeftThumb,
        PoseLandmarkIndex::LeftHip => PoseLandmarkIndex::RightHip,
        PoseLandmarkIndex::RightHip => PoseLandmarkIndex::LeftHip,
        PoseLandmarkIndex::LeftKnee => PoseLandmarkIndex::RightKnee,
        PoseLandmarkIndex::RightKnee => PoseLandmarkIndex::LeftKnee,
        PoseLandmarkIndex::LeftAnkle => PoseLandmarkIndex::RightAnkle,
        PoseLandmarkIndex::RightAnkle => PoseLandmarkIndex::LeftAnkle,
        PoseLandmarkIndex::LeftHeel => PoseLandmarkIndex::RightHeel,
        PoseLandmarkIndex::RightHeel => PoseLandmarkIndex::LeftHeel,
        PoseLandmarkIndex::LeftFootIndex => PoseLandmarkIndex::RightFootIndex,
        PoseLandmarkIndex::RightFootIndex => PoseLandmarkIndex::LeftFootIndex,
    }
}

/// The joint on the other side of the body.
pub open spec fn mirror_joint(j: BodyJoint) -> BodyJoint {
    match j {
        BodyJoint::Root => BodyJoint::Root,
        BodyJoint::Neck => BodyJoint::Neck,
        BodyJoint::LeftUpperArm => BodyJoint::RightUpperArm,
        BodyJoint::RightUpperArm => BodyJoint::LeftUpperArm,
        BodyJoint::LeftLowerArm => BodyJoint::RightLowerArm,
        BodyJoint::RightLowerArm => BodyJoint::LeftLowerArm,
        BodyJoint::LeftLowerArmR => BodyJoint::RightLowerArmR,
        BodyJoint::RightLowerArmR => BodyJoint::LeftLowerArmR,
        BodyJoint::LeftUpperLeg => BodyJoint::RightUpperLeg,
        BodyJoint::RightUpperLeg => BodyJoint::LeftUpperLeg,
        BodyJoint::LeftLowerLeg => BodyJoint::RightLowerLeg,
        BodyJoint::RightLowerLeg => BodyJoint::LeftLowerLeg,
    }
}

/// The recipe seen in a mirror: every landmark goes to the other side, and
/// the roles that name a side change places.
pub open spec fn mirror_recipe(r: JointRecipe) -> JointRecipe {
    match r {
        JointRecipe::Head { nose, left_ear, right_ear } => JointRecipe::Head {
            nose: mirror_landmark(nose),
            left_ear: mirror_landmark(right_ear),
            right_ear: mirror_landmark(left_ear),
        },
        JointRecipe::Torso { left_shoulder, right_shoulder, left_hip, right_hip } => JointRecipe::Torso {
            left_shoulder: mirror_landmark(right_shoulder),
            right_shoulder: mirror_landmark(left_shoulder),
            left_hip: mirror_landmark(right_hip),
            right_hip: mirror_landmark(left_hip),
        },
        JointRecipe::Limb { proximal, distal, reference } => JointRecipe::Limb {
            proximal: mirror_landmark(proximal),
            distal: mirror_landmark(distal),
            reference: mirror_landmark(reference),
        },
        JointRecipe::Hip { proximal, distal, other_hip } => JointRecipe::Hip {
            proximal: mirror_landmark(proximal),
            distal: mirror_landmark(distal),
            other_hip: mirror_landmark(other_hip),
        },
        JointRecipe::Forearm { elbow, wrist, index, thumb } => JointRecipe::Forearm {
            elbow: mirror_landmark(elbow),
            wrist: mirror_landmark(wrist),
            index: mirror_landmark(index),
            thumb: mirror_landmark(thumb),
        },
    }
}

/// The recipe of each joint.
pub open spec fn spec_recipe(j: BodyJoint) -> JointRecipe {
    match j {
        BodyJoint::Root => (JointRecipe::Torso { left_shoulder: PoseLandmarkIndex::LeftShoulder, right_shoulder: PoseLandmarkIndex::RightShoulder, left_hip: PoseLandmarkIndex::LeftHip, right_hip: PoseLandmarkIndex::RightHip }),
        BodyJoint::Neck => (JointRecipe::Head { nose: PoseLandmarkIndex::Nose, left_ear: PoseLandmarkIndex::LeftEar, right_ear: PoseLandmarkIndex::RightEar }),
        BodyJoint::LeftUpperArm => (JointRecipe::Limb { proximal: PoseLandmarkIndex::LeftShoulder, distal: PoseLandmarkIndex::LeftElbow, reference: PoseLandmarkIndex::LeftHip }),
        BodyJoint::RightUpperArm => (JointRecipe::Limb { proximal: PoseLandmarkIndex::RightShoulder, distal: PoseLandmarkIndex::RightElbow, reference: PoseLandmarkIndex::RightHip }),
        BodyJoint::LeftLowerArm => (JointRecipe::Limb { proximal: PoseLandmarkIndex::LeftElbow, distal: PoseLandmarkIndex::LeftWrist, reference: PoseLandmarkIndex::LeftShoulder }),
        BodyJoint::RightLowerArm => (JointRecipe::Limb { proximal: PoseLandmarkIndex::RightElbow, distal: PoseLandmarkIndex::RightWrist, reference: PoseLandmarkIndex::RightShoulder }),
        BodyJoint::LeftLowerArmR => (JointRecipe::Forearm { elbow: PoseLandmarkIndex::LeftElbow, wrist: PoseLandmarkIndex::LeftWrist, index: PoseLandmarkIndex::LeftIndex, thumb: PoseLandmarkIndex::LeftThumb }),
        BodyJoint::RightLowerArmR => (JointRecipe::Forearm { elbow: PoseLandmarkIndex::RightElbow, wrist: PoseLandmarkIndex::RightWrist, index: PoseLandmarkIndex::RightIndex, thumb: PoseLandmarkIndex::RightThumb }),
        BodyJoint::LeftUpperLeg => (JointRecipe::Hip { proximal: PoseLandmarkIndex::LeftHip, distal: PoseLandmarkIndex::LeftKnee, other_hip: PoseLandmarkIndex::RightHip }),
        BodyJoint::RightUpperLeg => (JointRecipe::Hip { proximal: PoseLandmarkIndex::RightHip, distal: PoseLandmarkIndex::RightKnee, other_hip: PoseLandmarkIndex::LeftHip }),
        BodyJoint::LeftLowerLeg => (JointRecipe::Limb { proximal: PoseLandmarkIndex::LeftKnee, distal: PoseLandmarkIndex::LeftAnkle, reference: PoseLandmarkIndex::LeftHip }),
        BodyJoint::RightLowerLeg => (JointRecipe::Limb { proximal: PoseLandmarkIndex::RightKnee, distal: PoseLandmarkIndex::RightAnkle, reference: PoseLandmarkIndex::RightHip }),
    }
}

/// The node that each joint moves.
pub open spec fn spec_part(j: BodyJoint) -> BodyPart {
    match j {
        BodyJoint::Root => BodyPart::Root,
        BodyJoint::Neck => BodyPart::Neck,
        BodyJoint::LeftUpperArm => BodyPart::LeftUpperArm,
        BodyJoint::RightUpperArm => BodyPart::RightUpperArm,
        BodyJoint::LeftLowerArm => BodyPart::LeftLowerArm,
        BodyJoint::RightLowerArm => BodyPart::RightLowerArm,
        BodyJoint::LeftLowerArmR => BodyPart::LeftLowerArmR,
        BodyJoint::RightLowerArmR => BodyPart::RightLowerArmR,
        BodyJoint::LeftUpperLeg => BodyPart::LeftUpperLeg,
        BodyJoint::RightUpperLeg => BodyPart::RightUpperLeg,
        BodyJoint::LeftLowerLeg => BodyPart::LeftLowerLeg,
        BodyJoint::RightLowerLeg => BodyPart::RightLowerLeg,
    }
}

/// A joint and its mirror image build their bases from mirror-image
/// landmarks in mirror-image roles, so mirrored poses feed mirrored inputs
/// to the two sides.
pub proof fn lemma_mirrored_joints_read_mirrored_landmarks(j: BodyJoint)
    ensures
        spec_recipe(mirror_joint(j)) == mirror_recipe(spec_recipe(j)),
        mirror_joint(mirror_joint(j)) == j,
{
}

impl BodyJoint {
    /// The pose landmarks that this joint's basis is built from.
    pub fn recipe(self) -> (r: JointRecipe)
        ensures
            r == spec_recipe(self),
    {
        match self {
            BodyJoint::Root => JointRecipe::Torso { left_shoulder: PoseLandmarkIndex::LeftShoulder, right_shoulder: PoseLandmarkIndex::RightShoulder, left_hip: PoseLandmarkIndex::LeftHip, right_hip: PoseLandmarkIndex::RightHip },
            BodyJoint::Neck => JointRecipe::Head { nose: PoseLandmarkIndex::Nose, left_ear: PoseLandmarkIndex::LeftEar, right_ear: PoseLandmarkIndex::RightEar },
            BodyJoint::LeftUpperArm => JointRecipe::Limb { proximal: PoseLandmarkIndex::LeftShoulder, distal: PoseLandmarkIndex::LeftElbow, reference: PoseLandmarkIndex::LeftHip },
            BodyJoint::RightUpperArm => JointRecipe::Limb { proximal: PoseLandmarkIndex::RightShoulder, distal: PoseLandmarkIndex::RightElbow, reference: PoseLandmarkIndex::RightHip },
            BodyJoint::LeftLowerArm => JointRecipe::Limb { proximal: PoseLandmarkIndex::LeftElbow, distal: PoseLandmarkIndex::LeftWrist, reference: PoseLandmarkIndex::LeftShoulder },
            BodyJoint::RightLowerArm => JointRecipe::Limb { proximal: PoseLandmarkIndex::RightElbow, distal: PoseLandmarkIndex::RightWrist, reference: PoseLandmarkIndex::RightShoulder },
            BodyJoint::LeftLowerArmR => JointRecipe::Forearm { elbow: PoseLandmarkIndex::LeftElbow, wrist: PoseLandmarkIndex::LeftWrist, index: PoseLandmarkIndex::LeftIndex, thumb: PoseLandmarkIndex::LeftThumb },
            BodyJoint::RightLowerArmR => JointRecipe::Forearm { elbow: PoseLandmarkIndex::RightElbow, wrist: PoseLandmarkIndex::RightWrist, index: PoseLandmarkIndex::RightIndex, thumb: PoseLandmarkIndex::RightThumb },
            BodyJoint::LeftUpperLeg => JointRecipe::Hip { proximal: PoseLandmarkIndex::LeftHip, distal: PoseLandmarkIndex::LeftKnee, other_hip: PoseLandmarkIndex::RightHip },
            BodyJoint::RightUpperLeg => JointRecipe::Hip { proximal: PoseLandmarkIndex::RightHip, distal: PoseLandmarkIndex::RightKnee, other_hip: PoseLandmarkIndex::LeftHip },
            BodyJoint::LeftLowerLeg => JointRecipe::Limb { proximal: PoseLandmarkIndex::LeftKnee, distal: PoseLandmarkIndex::LeftAnkle, reference: PoseLandmarkIndex::LeftHip },
            BodyJoint::RightLowerLeg => JointRecipe::Limb { proximal: PoseLandmarkIndex::RightKnee, distal: PoseLandmarkIndex::RightAnkle, reference: PoseLandmarkIndex::RightHip },
        }
    }

    /// The node that this joint moves.
    pub fn part(self) -> (r: BodyPart)
        ensures
            r == spec_part(self),
    {
        match self {
            BodyJoint::Root => BodyPart::Root,
            BodyJoint::Neck => BodyPart::Neck,
            BodyJoint::LeftUpperArm => BodyPart::LeftUpperArm,
            BodyJoint::RightUpperArm => BodyPart::RightUpperArm,
            BodyJoint::LeftLowerArm => BodyPart::LeftLowerArm,
            BodyJoint::RightLowerArm => BodyPart::RightLowerArm,
            BodyJoint::LeftLowerArmR => BodyPart::LeftLowerArmR,
            BodyJoint::RightLowerArmR => BodyPart::RightLowerArmR,
            BodyJoint::LeftUpperLeg => BodyPart::LeftUpperLeg,
            BodyJoint::RightUpperLeg => BodyPart::RightUpperLeg,
            BodyJoint::LeftLowerLeg => BodyPart::LeftLowerLeg,
            BodyJoint::RightLowerLeg => BodyPart::RightLowerLeg,
        }
    }
}

/// For each body joint, whether live tracking drives it; a joint switched
/// off holds its rest rotation.
#[derive(Debug, Clone, Copy, PartialEq, Eq, Structural)]
pub struct JointToggles {
    pub rotate_root: bool,
    pub rotate_neck: bool,
    pub rotate_left_upper_arm: bool,
    pub rotate_right_upper_arm: bool,
    pub rotate_left_lower_arm: bool,
    pub rotate_right_lower_arm: bool,
    pub rotate_left_lower_arm_r: bool,
    pub rotate_right_lower_arm_r: bool,
    pub rotate_left_upper_leg: bool,
    pub rotate_right_upper_leg: bool,
    pub rotate_left_lower_leg: bool,
    pub rotate_right_lower_leg: bool,
}

impl JointToggles {
    /// Every joint driven by live tracking.
    pub fn all_on() -> (r: Self)
        ensures
            forall|j: BodyJoint| r.spec_enabled(j),
    {
        JointToggles {
            rotate_root: true,
            rotate_neck: true,
            rotate_left_upper_arm: true,
            rotate_right_upper_arm: true,
            rotate_left_lower_arm: true,
            rotate_right_lower_arm: true,
            rotate_left_lower_arm_r: true,
            rotate_right_lower_arm_r: true,
            rotate_left_upper_leg: true,
            rotate_right_upper_leg: true,
            rotate_left_lower_leg: true,
            rotate_right_lower_leg: true,
        }
    }

    /// Whether live tracking drives joint `j`.
    pub open spec fn spec_enabled(self, j: BodyJoint) -> bool {
        match j {
            BodyJoint::Root => self.rotate_root,
            BodyJoint::Neck => self.rotate_neck,
            BodyJoint::LeftUpperArm => self.rotate_left_upper_arm,
            BodyJoint::RightUpperArm => self.rotate_right_upper_arm,
            BodyJoint::LeftLowerArm => self.rotate_left_lower_arm,
            BodyJoint::RightLowerArm => self.rotate_right_lower_arm,
            BodyJoint::LeftLowerArmR => self.rotate_left_lower_arm_r,
            BodyJoint::RightLowerArmR => self.rotate_right_lower_arm_r,
            BodyJoint::LeftUpperLeg => self.rotate_left_upper_leg,
            BodyJoint::RightUpperLeg => self.rotate_right_upper_leg,
            BodyJoint::LeftLowerLeg => self.rotate_left_lower_leg,
            BodyJoint::RightLowerLeg => self.rotate_right_lower_leg,
        }
    }

    /// Whether live tracking drives joint `j`.
    pub fn enabled(&self, j: BodyJoint) -> (r: bool)
        ensures
            r == self.spec_enabled(j),
    {
        match j {
            BodyJoint::Root => self.rotate_root,
            BodyJoint::Neck => self.rotate_neck,
            BodyJoint::LeftUpperArm => self.rotate_left_upper_arm,
            BodyJoint::RightUpperArm => self.rotate_right_upper_arm,
            BodyJoint::LeftLowerArm => self.rotate_left_lower_arm,
            BodyJoint::RightLowerArm => self.rotate_right_lower_arm,
            BodyJoint::LeftLowerArmR => self.rotate_left_lower_arm_r,
            BodyJoint::RightLowerArmR => self.rotate_right_lower_arm_r,
            BodyJoint::LeftUpperLeg => self.rotate_left_upper_leg,
            BodyJoint::RightUpperLeg => self.rotate_right_upper_leg,
            BodyJoint::LeftLowerLeg => self.rotate_left_lower_leg,
            BodyJoint::RightLowerLeg => self.rotate_right_lower_leg,
        }
    }
}

} // verus!
