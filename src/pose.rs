//! The body pose scheme, and pose data taken from a detector's payload.

use crate::landmarks::{LandmarkIndex, Landmarks, LandmarksError};
use vstd::prelude::*;

verus! {

/// The named points of a detected body pose, in the detector's order.
#[derive(Debug, Clone, Copy, PartialEq, Eq, Hash, Structural)]
pub enum PoseLandmarkIndex {
    Nose,
    LeftEyeInner,
    LeftEye,
    LeftEyeOuter,
    RightEyeInner,
    RightEye,
    RightEyeOuter,
    LeftEar,
    RightEar,
    MouthLeft,
    MouthRight,
    LeftShoulder,
    RightShoulder,
    LeftElbow,
    RightElbow,
    LeftWrist,
    RightWrist,
    LeftPinky,
    RightPinky,
    LeftIndex,
    RightIndex,
    LeftThumb,
    RightThumb,
    LeftHip,
    RightHip,
    LeftKnee,
    RightKnee,
    LeftAnkle,
    RightAnkle,
    LeftHeel,
    RightHeel,
    LeftFootIndex,
    RightFootIndex,
}

/// How many points a pose scheme names.
pub const POSE_LANDMARK_COUNT: usize = 33;

impl LandmarkIndex for PoseLandmarkIndex {
    open spec fn spec_index(self) -> nat {
        match self {
            PoseLandmarkIndex::Nose => 0,
            PoseLandmarkIndex::LeftEyeInner => 1,
            PoseLandmarkIndex::LeftEye => 2,
            PoseLandmarkIndex::LeftEyeOuter => 3,
            PoseLandmarkIndex::RightEyeInner => 4,
            PoseLandmarkIndex::RightEye => 5,
            PoseLandmarkIndex::RightEyeOuter => 6,
            PoseLandmarkIndex::LeftEar => 7,
            PoseLandmarkIndex::RightEar => 8,
            PoseLandmarkIndex::MouthLeft => 9,
            PoseLandmarkIndex::MouthRight => 10,
            PoseLandmarkIndex::LeftShoulder => 11,
            PoseLandmarkIndex::RightShoulder => 12,
            PoseLandmarkIndex::LeftElbow => 13,
            PoseLandmarkIndex::RightElbow => 14,
            PoseLandmarkIndex::LeftWrist => 15,
            PoseLandmarkIndex::RightWrist => 16,
            PoseLandmarkIndex::LeftPinky => 17,
            PoseLandmarkIndex::RightPinky => 18,
            PoseLandmarkIndex::LeftIndex => 19,
            PoseLandmarkIndex::RightIndex => 20,
            PoseLandmarkIndex::LeftThumb => 21,
            PoseLandmarkIndex::RightThumb => 22,
            PoseLandmarkIndex::LeftHip => 23,
            PoseLandmarkIndex::RightHip => 24,
            PoseLandmarkIndex::LeftKnee => 25,
            PoseLandmarkIndex::RightKnee => 26,
            PoseLandmarkIndex::LeftAnkle => 27,
            PoseLandmarkIndex::RightAnkle => 28,
            PoseLandmarkIndex::LeftHeel => 29,
            PoseLandmarkIndex::RightHeel => 30,
            PoseLandmarkIndex::LeftFootIndex => 31,
            PoseLandmarkIndex::RightFootIndex => 32,
        }
    }

    open spec fn spec_count() -> nat {
        POSE_LANDMARK_COUNT as nat
    }

    proof fn lemma_index_injective(a: Self, b: Self) {
    }

    fn as_index(self) -> (r: usize) {
        match self {
            PoseLandmarkIndex::Nose => 0,
            PoseLandmarkIndex::LeftEyeInner => 1,
            PoseLandmarkIndex::LeftEye => 2,
            PoseLandmarkIndex::LeftEyeOuter => 3,
            PoseLandmarkIndex::RightEyeInner => 4,
            PoseLandmarkIndex::RightEye => 5,
            PoseLandmarkIndex::RightEyeOuter => 6,
            PoseLandmarkIndex::LeftEar => 7,
            PoseLandmarkIndex::RightEar => 8,
            PoseLandmarkIndex::MouthLeft => 9,
            PoseLandmarkIndex::MouthRight => 10,
            PoseLandmarkIndex::LeftShoulder => 11,
            PoseLandmarkIndex::RightShoulder => 12,
            PoseLandmarkIndex::LeftElbow => 13,
            PoseLandmarkIndex::RightElbow => 14,
            PoseLandmarkIndex::LeftWrist => 15,
            PoseLandmarkIndex::RightWrist => 16,
            PoseLandmarkIndex::LeftPinky => 17,
            PoseLandmarkIndex::RightPinky => 18,
            PoseLandmarkIndex::LeftIndex => 19,
            PoseLandmarkIndex::RightIndex => 20,
            PoseLandmarkIndex::LeftThumb => 21,
            PoseLandmarkIndex::RightThumb => 22,
            PoseLandmarkIndex::LeftHip => 23,
            PoseLandmarkIndex::RightHip => 24,
            PoseLandmarkIndex::LeftKnee => 25,
            PoseLandmarkIndex::RightKnee => 26,
            PoseLandmarkIndex::LeftAnkle => 27,
            PoseLandmarkIndex::RightAnkle => 28,
            PoseLandmarkIndex::LeftHeel => 29,
            PoseLandmarkIndex::RightHeel => 30,
            PoseLandmarkIndex::LeftFootIndex => 31,
            PoseLandmarkIndex::RightFootIndex => 32,
        }
    }

    fn count() -> (r: usize) {
        POSE_LANDMARK_COUNT
    }
}

impl PoseLandmarkIndex {
    /// The value that names slot `i`, if the scheme has such a slot.
    pub fn from_index(i: usize) -> (r: Option<Self>)
        ensures
            r is Some <==> i < POSE_LANDMARK_COUNT,
            forall|x: Self| (r == Some(x)) <==> x.spec_index() == i,
    {
        let r = Self::lookup_index(i);
        proof {
            if let Some(y) = r {
                assert forall|x: Self| x.spec_index() == i implies r == Some(x) by {
                    Self::lemma_index_injective(x, y);
                }
            }
        }
        r
    }

    fn lookup_index(i: usize) -> (r: Option<Self>)
        ensures
            r is Some <==> i < POSE_LANDMARK_COUNT,
            r matches Some(x) ==> x.spec_index() == i,
            r is None ==> forall|x: Self| x.spec_index() != i,
    {
        match i {
            0 => Some(PoseLandmarkIndex::Nose),
            1 => Some(PoseLandmarkIndex::LeftEyeInner),
            2 => Some(PoseLandmarkIndex::LeftEye),
            3 => Some(PoseLandmarkIndex::LeftEyeOuter),
            4 => Some(PoseLandmarkIndex::RightEyeInner),
            5 => Some(PoseLandmarkIndex::RightEye),
            6 => Some(PoseLandmarkIndex::RightEyeOuter),
            7 => Some(PoseLandmarkIndex::LeftEar),
            8 => Some(PoseLandmarkIndex::RightEar),
            9 => Some(PoseLandmarkIndex::MouthLeft),
            10 => Some(PoseLandmarkIndex::MouthRight),
            11 => Some(PoseLandmarkIndex::LeftShoulder),
            12 => Some(PoseLandmarkIndex::RightShoulder),
            13 => Some(PoseLandmarkIndex::LeftElbow),
            14 => Some(PoseLandmarkIndex::RightElbow),
            15 => Some(PoseLandmarkIndex::LeftWrist),
            16 => Some(PoseLandmarkIndex::RightWrist),
            17 => Some(PoseLandmarkIndex::LeftPinky),
            18 => Some(PoseLandmarkIndex::RightPinky),
            19 => Some(PoseLandmarkIndex::LeftIndex),
            20 => Some(PoseLandmarkIndex::RightIndex),
            21 => Some(PoseLandmarkIndex::LeftThumb),
            22 => Some(PoseLandmarkIndex::RightThumb),
            23 => Some(PoseLandmarkIndex::LeftHip),
            24 => Some(PoseLandmarkIndex::RightHip),
            25 => Some(PoseLandmarkIndex::LeftKnee),
            26 => Some(PoseLandmarkIndex::RightKnee),
            27 => Some(PoseLandmarkIndex::LeftAnkle),
            28 => Some(PoseLandmarkIndex::RightAnkle),
            29 => Some(PoseLandmarkIndex::LeftHeel),
            30 => Some(PoseLandmarkIndex::RightHeel),
            31 => Some(PoseLandmarkIndex::LeftFootIndex),
            32 => Some(PoseLandmarkIndex::RightFootIndex),
            _ => None,
        }
    }
}

/// A pose landmark set with points of type `P`.
pub type PoseLandmarks<P> = Landmarks<PoseLandmarkIndex, P>;

/// One detected body pose: its world-space and image-space landmark sets.
pub struct PoseData<P> {
    pub world_landmarks: PoseLandmarks<P>,
    pub landmarks: PoseLandmarks<P>,
}

/// Why a pose payload cannot be taken, if it cannot: the image-space
/// detection is checked before the world-space one.
pub open spec fn pose_error(landmarks: Seq<nat>, world_landmarks: Seq<nat>) -> Option<LandmarksError> {
    if landmarks.len() == 0 {
        Some(LandmarksError::NoKeyPoints)
    } else if landmarks[0] != POSE_LANDMARK_COUNT {
        Some(LandmarksError::IncorrectLength { expected: POSE_LANDMARK_COUNT, actual: landmarks[0] as usize })
    } else if world_landmarks.len() == 0 {
        Some(LandmarksError::NoKeyPoints)
    } else if world_landmarks[0] != POSE_LANDMARK_COUNT {
        Some(
            LandmarksError::IncorrectLength {
                expected: POSE_LANDMARK_COUNT,
                actual: world_landmarks[0] as usize,
            },
        )
    } else {
        None
    }
}

/// The length of each detection of a payload.
pub open spec fn detection_lens<P>(v: Seq<Vec<P>>) -> Seq<nat> {
    v.map_values(|d: Vec<P>| d@.len())
}

impl<P> PoseData<P> {
    /// Takes the first detection of each kind from a payload; the rest are
    /// ignored.
    pub fn try_from_detections(landmarks: Vec<Vec<P>>, world_landmarks: Vec<Vec<P>>) -> (r: Result<
        Self,
        LandmarksError,
    >)
        ensures
            r is Err <==> pose_error(detection_lens(landmarks@), detection_lens(world_landmarks@)) is Some,
            r matches Err(e) ==> pose_error(detection_lens(landmarks@), detection_lens(world_landmarks@))
                == Some(e),
            r matches Ok(p) ==> p.landmarks@ == landmarks@[0]@ && p.world_landmarks@
                == world_landmarks@[0]@,
    {
        let mut landmarks = landmarks;
        let mut world_landmarks = world_landmarks;
        if landmarks.len() == 0 {
            return Err(LandmarksError::NoKeyPoints);
        }
        let first = landmarks.swap_remove(0);
        let landmarks = match PoseLandmarks::<P>::try_from(first) {
            Ok(l) => l,
            Err(e) => return Err(e),
        };
        if world_landmarks.len() == 0 {
            return Err(LandmarksError::NoKeyPoints);
        }
        let first_world = world_landmarks.swap_remove(0);
        let world_landmarks = match PoseLandmarks::<P>::try_from(first_world) {
            Ok(w) => w,
            Err(e) => return Err(e),
        };
        Ok(PoseData { world_landmarks, landmarks })
    }

    /// Both landmark sets combined slot by slot with `f`.
    pub fn zip_with<F: Fn(&P, &P) -> P>(&self, other: &Self, f: F) -> (r: Self)
        requires
            forall|a: &P, b: &P| f.requires((a, b)),
        ensures
            r.landmarks@.len() == POSE_LANDMARK_COUNT,
            r.world_landmarks@.len() == POSE_LANDMARK_COUNT,
            forall|k: int|
                0 <= k < POSE_LANDMARK_COUNT ==> f.ensures(
                    (&self.landmarks@[k], &other.landmarks@[k]),
                    #[trigger] r.landmarks@[k],
                ),
            forall|k: int|
                0 <= k < POSE_LANDMARK_COUNT ==> f.ensures(
                    (&self.world_landmarks@[k], &other.world_landmarks@[k]),
                    #[trigger] r.world_landmarks@[k],
                ),
    {
        PoseData {
            world_landmarks: self.world_landmarks.zip_with(&other.world_landmarks, &f),
            landmarks: self.landmarks.zip_with(&other.landmarks, &f),
        }
    }

    /// Both landmark sets mapped slot by slot with `f`.
    pub fn map<F: Fn(&P) -> P>(&self, f: F) -> (r: Self)
        requires
            forall|a: &P| f.requires((a,)),
        ensures
            r.landmarks@.len() == POSE_LANDMARK_COUNT,
            r.world_landmarks@.len() == POSE_LANDMARK_COUNT,
            forall|k: int|
                0 <= k < POSE_LANDMARK_COUNT ==> f.ensures((&self.landmarks@[k],), #[trigger] r.landmarks@[k]),
            forall|k: int|
                0 <= k < POSE_LANDMARK_COUNT ==> f.ensures(
                    (&self.world_landmarks@[k],),
                    #[trigger] r.world_landmarks@[k],
                ),
    {
        PoseData { world_landmarks: self.world_landmarks.map(&f), landmarks: self.landmarks.map(&f) }
    }
}

} // verus!
