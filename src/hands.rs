//! The hand scheme, and hand key points taken from a detector's payload.

use crate::landmarks::{LandmarkIndex, Landmarks, LandmarksError};
use vstd::prelude::*;

verus! {

/// The named points of a detected hand, in the detector's order.
#[derive(Debug, Clone, Copy, PartialEq, Eq, Hash, Structural)]
pub enum HandLandmarkIndex {
    Wrist,
    ThumbCmc,
    ThumbMcp,
    ThumbIp,
    ThumbTip,
    IndexFingerMcp,
    IndexFingerPip,
    IndexFingerDip,
    IndexFingerTip,
    MiddleFingerMcp,
    MiddleFingerPip,
    MiddleFingerDip,
    MiddleFingerTip,
    RingFingerMcp,
    RingFingerPip,
    RingFingerDip,
    RingFingerTip,
    PinkyMcp,
    PinkyPip,
    PinkyDip,
    PinkyTip,
}

/// How many points a hand scheme names.
pub const HAND_LANDMARK_COUNT: usize = 21;

impl LandmarkIndex for HandLandmarkIndex {
    open spec fn spec_index(self) -> nat {
        match self {
            HandLandmarkIndex::Wrist => 0,
            HandLandmarkIndex::ThumbCmc => 1,
            HandLandmarkIndex::ThumbMcp => 2,
            HandLandmarkIndex::ThumbIp => 3,
            HandLandmarkIndex::ThumbTip => 4,
            HandLandmarkIndex::IndexFingerMcp => 5,
            HandLandmarkIndex::IndexFingerPip => 6,
            HandLandmarkIndex::IndexFingerDip => 7,
            HandLandmarkIndex::IndexFingerTip => 8,
            HandLandmarkIndex::MiddleFingerMcp => 9,
            HandLandmarkIndex::MiddleFingerPip => 10,
            HandLandmarkIndex::MiddleFingerDip => 11,
            HandLandmarkIndex::MiddleFingerTip => 12,
            HandLandmarkIndex::RingFingerMcp => 13,
            HandLandmarkIndex::RingFingerPip => 14,
            HandLandmarkIndex::RingFingerDip => 15,
            HandLandmarkIndex::RingFingerTip => 16,
            HandLandmarkIndex::PinkyMcp => 17,
            HandLandmarkIndex::PinkyPip => 18,
            HandLandmarkIndex::PinkyDip => 19,
            HandLandmarkIndex::PinkyTip => 20,
        }
    }

    open spec fn spec_count() -> nat {
        HAND_LANDMARK_COUNT as nat
    }

    proof fn lemma_index_injective(a: Self, b: Self) {
    }

    fn as_index(self) -> (r: usize) {
        match self {
            HandLandmarkIndex::Wrist => 0,
            HandLandmarkIndex::ThumbCmc => 1,
            HandLandmarkIndex::ThumbMcp => 2,
            HandLandmarkIndex::ThumbIp => 3,
            HandLandmarkIndex::ThumbTip => 4,
            HandLandmarkIndex::IndexFingerMcp => 5,
            HandLandmarkIndex::IndexFingerPip => 6,
            HandLandmarkIndex::IndexFingerDip => 7,
            HandLandmarkIndex::IndexFingerTip => 8,
            HandLandmarkIndex::MiddleFingerMcp => 9,
            HandLandmarkIndex::MiddleFingerPip => 10,
            HandLandmarkIndex::MiddleFingerDip => 11,
            HandLandmarkIndex::MiddleFingerTip => 12,
            HandLandmarkIndex::RingFingerMcp => 13,
            HandLandmarkIndex::RingFingerPip => 14,
            HandLandmarkIndex::RingFingerDip => 15,
            HandLandmarkIndex::RingFingerTip => 16,
            HandLandmarkIndex::PinkyMcp => 17,
            HandLandmarkIndex::PinkyPip => 18,
            HandLandmarkIndex::PinkyDip => 19,
            HandLandmarkIndex::PinkyTip => 20,
        }
    }

    fn count() -> (r: usize) {
        HAND_LANDMARK_COUNT
    }
}

impl HandLandmarkIndex {
    /// The value that names slot `i`, if the scheme has such a slot.
    pub fn from_index(i: usize) -> (r: Option<Self>)
        ensures
            r is Some <==> i < HAND_LANDMARK_COUNT,
            forall|x: Self| (r == Some(x)) <==> x.spec_index() == i,
    {
        let r = Self::lookup_index(i);
        proof {
            if let Some(y) = r {
                assert forall|x: Self| x.spec_index() == i implies r == Some(x) by {
                    Self::lemma_index_injective(x, y);
                }
            }
        }
        r
    }

    fn lookup_index(i: usize) -> (r: Option<Self>)
        ensures
            r is Some <==> i < HAND_LANDMARK_COUNT,
            r matches Some(x) ==> x.spec_index() == i,
            r is None ==> forall|x: Self| x.spec_index() != i,
    {
        match i {
            0 => Some(HandLandmarkIndex::Wrist),
            1 => Some(HandLandmarkIndex::ThumbCmc),
            2 => Some(HandLandmarkIndex::ThumbMcp),
            3 => Some(HandLandmarkIndex::ThumbIp),
            4 => Some(HandLandmarkIndex::ThumbTip),
            5 => Some(HandLandmarkIndex::IndexFingerMcp),
            6 => Some(HandLandmarkIndex::IndexFingerPip),
            7 => Some(HandLandmarkIndex::IndexFingerDip),
            8 => Some(HandLandmarkIndex::IndexFingerTip),
            9 => Some(HandLandmarkIndex::MiddleFingerMcp),
            10 => Some(HandLandmarkIndex::MiddleFingerPip),
            11 => Some(HandLandmarkIndex::MiddleFingerDip),
            12 => Some(HandLandmarkIndex::MiddleFingerTip),
            13 => Some(HandLandmarkIndex::RingFingerMcp),
            14 => Some(HandLandmarkIndex::RingFingerPip),
            15 => Some(HandLandmarkIndex::RingFingerDip),
            16 => Some(HandLandmarkIndex::RingFingerTip),
            17 => Some(HandLandmarkIndex::PinkyMcp),
            18 => Some(HandLandmarkIndex::PinkyPip),
            19 => Some(HandLandmarkIndex::PinkyDip),
            20 => Some(HandLandmarkIndex::PinkyTip),
            _ => None,
        }
    }
}

/// Which hand a detection stands for.
#[derive(Debug, Clone, Copy, PartialEq, Eq, Structural)]
pub enum HandednessName {
    Left,
    Right,
}

/// A hand landmark set with points of type `P`.
pub type HandLandmarks<P> = Landmarks<HandLandmarkIndex, P>;

/// One detected hand: its image-space and world-space landmark sets.
pub struct HandKeyPoints<P> {
    pub landmarks: HandLandmarks<P>,
    pub world_landmarks: HandLandmarks<P>,
    pub name: HandednessName,
}

impl<P> HandKeyPoints<P> {
    /// Both landmark sets combined slot by slot with `f`; the hand stays
    /// that of `self`.
    pub fn zip_with<F: Fn(&P, &P) -> P>(&self, other: &Self, f: F) -> (r: Self)
        requires
            forall|a: &P, b: &P| f.requires((a, b)),
        ensures
            r.name == self.name,
            r.landmarks@.len() == HAND_LANDMARK_COUNT,
            r.world_landmarks@.len() == HAND_LANDMARK_COUNT,
            forall|k: int|
                0 <= k < HAND_LANDMARK_COUNT ==> f.ensures(
                    (&self.landmarks@[k], &other.landmarks@[k]),
                    #[trigger] r.landmarks@[k],
                ),
            forall|k: int|
                0 <= k < HAND_LANDMARK_COUNT ==> f.ensures(
                    (&self.world_landmarks@[k], &other.world_landmarks@[k]),
                    #[trigger] r.world_landmarks@[k],
                ),
    {
        HandKeyPoints {
            landmarks: self.landmarks.zip_with(&other.landmarks, &f),
            world_landmarks: self.world_landmarks.zip_with(&other.world_landmarks, &f),
            name: self.name,
        }
    }

    /// Both landmark sets mapped slot by slot with `f`; the hand stays.
    pub fn map<F: Fn(&P) -> P>(&self, f: F) -> (r: Self)
        requires
            forall|a: &P| f.requires((a,)),
        ensures
            r.name == self.name,
            r.landmarks@.len() == HAND_LANDMARK_COUNT,
            r.world_landmarks@.len() == HAND_LANDMARK_COUNT,
            forall|k: int|
                0 <= k < HAND_LANDMARK_COUNT ==> f.ensures(
                    (&self.landmarks@[k],),
                    #[trigger] r.landmarks@[k],
                ),
            forall|k: int|
                0 <= k < HAND_LANDMARK_COUNT ==> f.ensures(
                    (&self.world_landmarks@[k],),
                    #[trigger] r.world_landmarks@[k],
                ),
    {
        HandKeyPoints {
            landmarks: self.landmarks.map(&f),
            world_landmarks: self.world_landmarks.map(&f),
            name: self.name,
        }
    }
}

/// Why one hand's detection cannot be taken, if it cannot: the world-space
/// set is checked before the image-space one.
pub open spec fn hand_error(landmarks_len: nat, world_len: Option<nat>) -> Option<LandmarksError> {
    match world_len {
        None => Some(LandmarksError::NoKeyPoints),
        Some(w) => if w != HAND_LANDMARK_COUNT {
            Some(LandmarksError::IncorrectLength { expected: HAND_LANDMARK_COUNT, actual: w as usize })
        } else if landmarks_len != HAND_LANDMARK_COUNT {
            Some(
                LandmarksError::IncorrectLength {
                    expected: HAND_LANDMARK_COUNT,
                    actual: landmarks_len as usize,
                },
            )
        } else {
            None
        },
    }
}

/// What one hand's detection yields: its two landmark sets, or why they
/// cannot be taken.
pub open spec fn hand_result_matches<P>(
    r: Result<HandKeyPoints<P>, LandmarksError>,
    name: HandednessName,
    landmarks: Seq<P>,
    world_landmarks: Option<Seq<P>>,
) -> bool {
    let world_len = match world_landmarks {
        Some(w) => Some(w.len()),
        None => None,
    };
    match r {
        Ok(h) => hand_error(landmarks.len(), world_len) is None && h.name == name
            && h.landmarks@ == landmarks && Some(h.world_landmarks@) == world_landmarks,
        Err(e) => hand_error(landmarks.len(), world_len) == Some(e),
    }
}

/// Takes one hand from its image-space points and, if the payload has them,
/// its world-space points.
pub fn hand_from_detection<P>(
    name: HandednessName,
    landmarks: Vec<P>,
    world_landmarks: Option<Vec<P>>,
) -> (r: Result<HandKeyPoints<P>, LandmarksError>)
    ensures
        hand_result_matches(
            r,
            name,
            landmarks@,
            match world_landmarks {
                Some(w) => Some(w@),
                None => None,
            },
        ),
{
    let world_landmarks = match world_landmarks {
        Some(w) => w,
        None => return Err(LandmarksError::NoKeyPoints),
    };
    let world_landmarks = match HandLandmarks::<P>::try_from(world_landmarks) {
        Ok(w) => w,
        Err(e) => return Err(e),
    };
    let landmarks = match HandLandmarks::<P>::try_from(landmarks) {
        Ok(l) => l,
        Err(e) => return Err(e),
    };
    Ok(HandKeyPoints { landmarks, world_landmarks, name })
}

/// The hands found in one payload: `None` where the payload has no
/// detection for that hand.
pub struct DetectedHands<P> {
    pub left_hand: Option<Result<HandKeyPoints<P>, LandmarksError>>,
    pub right_hand: Option<Result<HandKeyPoints<P>, LandmarksError>>,
}

/// The world-space detection in slot `k`, if the payload has one.
pub open spec fn slot_of<P>(v: Seq<Vec<P>>, k: int) -> Option<Seq<P>> {
    if 0 <= k < v.len() {
        Some(v[k]@)
    } else {
        None
    }
}

/// What a payload's detection slot yields for the hand `name`.
pub open spec fn slot_result_matches<P>(
    r: Option<Result<HandKeyPoints<P>, LandmarksError>>,
    name: HandednessName,
    k: int,
    landmarks: Seq<Vec<P>>,
    world_landmarks: Seq<Vec<P>>,
) -> bool {
    match r {
        None => landmarks.len() <= k,
        Some(res) => k < landmarks.len() && hand_result_matches(
            res,
            name,
            landmarks[k]@,
            slot_of(world_landmarks, k),
        ),
    }
}

/// Splits a payload's per-slot detections into the left hand (first slot)
/// and the right hand (second slot); further slots are ignored.
pub fn split_hands<P>(landmarks: Vec<Vec<P>>, world_landmarks: Vec<Vec<P>>) -> (r: DetectedHands<P>)
    ensures
        slot_result_matches(r.left_hand, HandednessName::Left, 0, landmarks@, world_landmarks@),
        slot_result_matches(r.right_hand, HandednessName::Right, 1, landmarks@, world_landmarks@),
{
    let ghost lm0 = landmarks@;
    let ghost wl0 = world_landmarks@;
    let mut landmarks = landmarks;
    let mut world_landmarks = world_landmarks;
    landmarks.truncate(2);
    world_landmarks.truncate(2);
    let right_world = if world_landmarks.len() > 1 {
        Some(world_landmarks.remove(1))
    } else {
        None
    };
    let left_world = if world_landmarks.len() > 0 {
        Some(world_landmarks.remove(0))
    } else {
        None
    };
    let right_hand = if landmarks.len() > 1 {
        let v = landmarks.remove(1);
        Some(hand_from_detection(HandednessName::Right, v, right_world))
    } else {
        None
    };
    let left_hand = if landmarks.len() > 0 {
        let v = landmarks.remove(0);
        Some(hand_from_detection(HandednessName::Left, v, left_world))
    } else {
        None
    };
    DetectedHands { left_hand, right_hand }
}

} // verus!
