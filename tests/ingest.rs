use mocap_display::hands::{
    hand_from_detection, split_hands, HandKeyPoints, HandLandmarkIndex, HandednessName,
};
use mocap_display::landmarks::LandmarksError;
use mocap_display::pose::{PoseData, PoseLandmarkIndex};

fn numbered(n: usize, base: u32) -> Vec<u32> {
    (0..n as u32).map(|i| base + i).collect()
}

#[test]
fn pose_without_detection_has_no_key_points() {
    let r = PoseData::<u32>::try_from_detections(Vec::new(), vec![numbered(33, 0)]);
    assert_eq!(r.err(), Some(LandmarksError::NoKeyPoints));
}

#[test]
fn pose_without_world_detection_has_no_key_points() {
    let r = PoseData::<u32>::try_from_detections(vec![numbered(33, 0)], Vec::new());
    assert_eq!(r.err(), Some(LandmarksError::NoKeyPoints));
}

#[test]
fn pose_checks_image_points_before_world_points() {
    let r = PoseData::<u32>::try_from_detections(vec![numbered(32, 0)], vec![numbered(3, 0)]);
    assert_eq!(r.err(), Some(LandmarksError::IncorrectLength { expected: 33, actual: 32 }));
    let r = PoseData::<u32>::try_from_detections(vec![numbered(33, 0)], vec![numbered(3, 0)]);
    assert_eq!(r.err(), Some(LandmarksError::IncorrectLength { expected: 33, actual: 3 }));
}

#[test]
fn pose_takes_first_detection() {
    let r = PoseData::<u32>::try_from_detections(
        vec![numbered(33, 100), numbered(33, 200)],
        vec![numbered(33, 300), numbered(2, 0)],
    );
    let pose = r.ok().unwrap();
    assert_eq!(*pose.landmarks.index(PoseLandmarkIndex::Nose), 100);
    assert_eq!(*pose.world_landmarks.index(PoseLandmarkIndex::LeftHip), 323);
}

#[test]
fn pose_data_combines_both_sets() {
    let a = PoseData::<u32>::try_from_detections(vec![numbered(33, 0)], vec![numbered(33, 10)])
        .ok()
        .unwrap();
    let b = PoseData::<u32>::try_from_detections(vec![numbered(33, 1)], vec![numbered(33, 1)])
        .ok()
        .unwrap();
    let sum = a.zip_with(&b, |x, y| x + y);
    assert_eq!(*sum.landmarks.index(PoseLandmarkIndex::RightKnee), 26 + 27);
    assert_eq!(*sum.world_landmarks.index(PoseLandmarkIndex::Nose), 11);
    let doubled = a.map(|x| x * 2);
    assert_eq!(*doubled.world_landmarks.index(PoseLandmarkIndex::LeftEye), 24);
}

#[test]
fn no_hand_detected() {
    let hands = split_hands::<u32>(Vec::new(), Vec::new());
    assert!(hands.left_hand.is_none());
    assert!(hands.right_hand.is_none());
}

#[test]
fn one_detection_drives_left_hand() {
    let hands = split_hands(vec![numbered(21, 0)], vec![numbered(21, 50)]);
    let left = hands.left_hand.unwrap().ok().unwrap();
    assert_eq!(left.name, HandednessName::Left);
    assert_eq!(*left.landmarks.index(HandLandmarkIndex::ThumbTip), 4);
    assert_eq!(*left.world_landmarks.index(HandLandmarkIndex::Wrist), 50);
    assert!(hands.right_hand.is_none());
}

#[test]
fn two_detections_drive_both_hands() {
    let hands = split_hands(
        vec![numbered(21, 0), numbered(21, 100), numbered(21, 200)],
        vec![numbered(21, 50), numbered(21, 150)],
    );
    let left = hands.left_hand.unwrap().ok().unwrap();
    let right = hands.right_hand.unwrap().ok().unwrap();
    assert_eq!(left.name, HandednessName::Left);
    assert_eq!(right.name, HandednessName::Right);
    assert_eq!(*right.landmarks.index(HandLandmarkIndex::Wrist), 100);
    assert_eq!(*right.world_landmarks.index(HandLandmarkIndex::PinkyTip), 170);
}

#[test]
fn hand_without_world_points_has_no_key_points() {
    let hands = split_hands(vec![numbered(21, 0), numbered(21, 0)], vec![numbered(21, 0)]);
    assert!(hands.left_hand.unwrap().is_ok());
    assert_eq!(hands.right_hand.unwrap().err(), Some(LandmarksError::NoKeyPoints));
}

#[test]
fn hand_checks_world_points_first() {
    let r = hand_from_detection(HandednessName::Right, numbered(20, 0), Some(numbered(19, 0)));
    assert_eq!(r.err(), Some(LandmarksError::IncorrectLength { expected: 21, actual: 19 }));
    let r = hand_from_detection(HandednessName::Right, numbered(20, 0), Some(numbered(21, 0)));
    assert_eq!(r.err(), Some(LandmarksError::IncorrectLength { expected: 21, actual: 20 }));
    let r = hand_from_detection(HandednessName::Right, numbered(21, 0), None);
    assert_eq!(r.err(), Some(LandmarksError::NoKeyPoints));
}

#[test]
fn hand_key_points_keep_their_hand() {
    let a: HandKeyPoints<u32> =
        hand_from_detection(HandednessName::Left, numbered(21, 0), Some(numbered(21, 0)))
            .ok()
            .unwrap();
    let b: HandKeyPoints<u32> =
        hand_from_detection(HandednessName::Right, numbered(21, 5), Some(numbered(21, 5)))
            .ok()
            .unwrap();
    let sum = a.zip_with(&b, |x, y| x + y);
    assert_eq!(sum.name, HandednessName::Left);
    assert_eq!(*sum.landmarks.index(HandLandmarkIndex::ThumbCmc), 1 + 6);
    let scaled = b.map(|x| x * 3);
    assert_eq!(scaled.name, HandednessName::Right);
    assert_eq!(*scaled.world_landmarks.index(HandLandmarkIndex::Wrist), 15);
}
