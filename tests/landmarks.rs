use mocap_display::hands::{HandLandmarkIndex, HandLandmarks, HAND_LANDMARK_COUNT};
use mocap_display::landmarks::{LandmarkIndex, Landmarks, LandmarksError};
use mocap_display::pose::{PoseLandmarkIndex, PoseLandmarks, POSE_LANDMARK_COUNT};

type Point = (f32, f32, f32, f32);

fn points(n: usize) -> Vec<Point> {
    (0..n).map(|i| (i as f32, 2.0 * i as f32, -(i as f32), 0.5)).collect()
}

#[test]
fn hand_set_with_twenty_points_is_rejected() {
    let r = HandLandmarks::<Point>::try_from(points(20));
    assert_eq!(r.err(), Some(LandmarksError::IncorrectLength { expected: 21, actual: 20 }));
}

#[test]
fn hand_set_with_too_many_points_is_rejected() {
    let r = HandLandmarks::<Point>::try_from(points(22));
    assert_eq!(r.err(), Some(LandmarksError::IncorrectLength { expected: 21, actual: 22 }));
}

#[test]
fn empty_list_is_rejected() {
    let r = PoseLandmarks::<Point>::try_from(Vec::new());
    assert_eq!(r.err(), Some(LandmarksError::IncorrectLength { expected: 33, actual: 0 }));
}

#[test]
fn hand_set_indexes_by_name() {
    let set = HandLandmarks::<Point>::try_from(points(21)).ok().unwrap();
    assert_eq!(*set.index(HandLandmarkIndex::Wrist), (0.0, 0.0, 0.0, 0.5));
    assert_eq!(*set.index(HandLandmarkIndex::MiddleFingerMcp), (9.0, 18.0, -9.0, 0.5));
    assert_eq!(*set.index(HandLandmarkIndex::PinkyTip), (20.0, 40.0, -20.0, 0.5));
    assert_eq!(set.points().len(), 21);
}

#[test]
fn pose_set_indexes_by_name() {
    let set = PoseLandmarks::<u32>::try_from((0..33).collect()).ok().unwrap();
    assert_eq!(*set.index(PoseLandmarkIndex::Nose), 0);
    assert_eq!(*set.index(PoseLandmarkIndex::LeftShoulder), 11);
    assert_eq!(*set.index(PoseLandmarkIndex::RightHip), 24);
    assert_eq!(*set.index(PoseLandmarkIndex::RightFootIndex), 32);
}

#[test]
fn scheme_counts() {
    assert_eq!(HandLandmarkIndex::count(), 21);
    assert_eq!(HAND_LANDMARK_COUNT, 21);
    assert_eq!(PoseLandmarkIndex::count(), 33);
    assert_eq!(POSE_LANDMARK_COUNT, 33);
}

#[test]
fn index_round_trip() {
    for i in 0..21 {
        let h = HandLandmarkIndex::from_index(i).unwrap();
        assert_eq!(h.as_index(), i);
    }
    for i in 0..33 {
        let p = PoseLandmarkIndex::from_index(i).unwrap();
        assert_eq!(p.as_index(), i);
    }
    assert_eq!(HandLandmarkIndex::from_index(21), None);
    assert_eq!(PoseLandmarkIndex::from_index(33), None);
    assert_eq!(HandLandmarkIndex::from_index(4), Some(HandLandmarkIndex::ThumbTip));
    assert_eq!(PoseLandmarkIndex::from_index(15), Some(PoseLandmarkIndex::LeftWrist));
}

#[test]
fn sets_add_slot_by_slot() {
    let a = HandLandmarks::<Point>::try_from(points(21)).ok().unwrap();
    let b = HandLandmarks::<Point>::try_from(vec![(1.0, 1.0, 1.0, 0.5); 21]).ok().unwrap();
    let sum = a.zip_with(&b, |p, q| (p.0 + q.0, p.1 + q.1, p.2 + q.2, p.3 + q.3));
    assert_eq!(*sum.index(HandLandmarkIndex::Wrist), (1.0, 1.0, 1.0, 1.0));
    assert_eq!(*sum.index(HandLandmarkIndex::ThumbCmc), (2.0, 3.0, 0.0, 1.0));
    let diff = sum.zip_with(&b, |p, q| (p.0 - q.0, p.1 - q.1, p.2 - q.2, p.3 - q.3));
    assert_eq!(diff.points(), a.points());
}

#[test]
fn sets_scale_slot_by_slot() {
    let a = HandLandmarks::<Point>::try_from(points(21)).ok().unwrap();
    let scaled = a.map(|p| (p.0 * 2.0, p.1 * 2.0, p.2 * 2.0, p.3 * 2.0));
    assert_eq!(*scaled.index(HandLandmarkIndex::ThumbMcp), (4.0, 8.0, -4.0, 1.0));
    assert_eq!(scaled.points().len(), 21);
}

#[test]
fn set_minus_itself_is_zero() {
    let a = PoseLandmarks::<Point>::try_from(points(33)).ok().unwrap();
    let zero = a.zip_with(&a, |p, q| (p.0 - q.0, p.1 - q.1, p.2 - q.2, p.3 - q.3));
    assert!(zero.points().iter().all(|p| *p == (0.0, 0.0, 0.0, 0.0)));
}

#[test]
fn generic_container_accepts_any_scheme() {
    let r = Landmarks::<HandLandmarkIndex, u8>::try_from(vec![7; 21]);
    assert!(r.is_ok());
}
