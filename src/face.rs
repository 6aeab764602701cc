//! The face blendshape categories that a face detector reports by name.

use crate::text::same_text;
use vstd::prelude::*;

verus! {

/// One face blendshape category.
#[derive(Debug, Clone, Copy, PartialEq, Eq, Hash, Structural)]
pub enum Blendshape {
    Neutral,
    BrowDownLeft,
    BrowDownRight,
    BrowInnerUp,
    BrowOuterUpLeft,
    BrowOuterUpRight,
    CheekPuff,
    CheekSquintLeft,
    CheekSquintRight,
    EyeBlinkLeft,
    EyeBlinkRight,
    EyeLookDownLeft,
    EyeLookDownRight,
    EyeLookInLeft,
    EyeLookInRight,
    EyeLookOutLeft,
    EyeLookOutRight,
    EyeLookUpLeft,
    EyeLookUpRight,
    EyeSquintLeft,
    EyeSquintRight,
    EyeWideLeft,
    EyeWideRight,
    JawForward,
    JawLeft,
    JawOpen,
    JawRight,
    MouthClose,
    MouthDimpleLeft,
    MouthDimpleRight,
    MouthFrownLeft,
    MouthFrownRight,
    MouthFunnel,
    MouthLeft,
    MouthLowerDownLeft,
    MouthLowerDownRight,
    MouthPressLeft,
    MouthPressRight,
    MouthPucker,
    MouthRight,
    MouthRollLower,
    MouthRollUpper,
    MouthShrugLower,
    MouthShrugUpper,
    MouthSmileLeft,
    MouthSmileRight,
    MouthStretchLeft,
    MouthStretchRight,
    MouthUpperUpLeft,
    MouthUpperUpRight,
    NoseSneerLeft,
    NoseSneerRight,
}

/// The name under which the detector reports blendshape `b`.
pub open spec fn blendshape_name(b: Blendshape) -> Seq<char> {
    match b {
        Blendshape::Neutral => "_neutral"@,
        Blendshape::BrowDownLeft => "browDownLeft"@,
        Blendshape::BrowDownRight => "browDownRight"@,
        Blendshape::BrowInnerUp => "browInnerUp"@,
        Blendshape::BrowOuterUpLeft => "browOuterUpLeft"@,
        Blendshape::BrowOuterUpRight => "browOuterUpRight"@,
        Blendshape::CheekPuff => "cheekPuff"@,
        Blendshape::CheekSquintLeft => "cheekSquintLeft"@,
        Blendshape::CheekSquintRight => "cheekSquintRight"@,
        Blendshape::EyeBlinkLeft => "eyeBlinkLeft"@,
        Blendshape::EyeBlinkRight => "eyeBlinkRight"@,
        Blendshape::EyeLookDownLeft => "eyeLookDownLeft"@,
        Blendshape::EyeLookDownRight => "eyeLookDownRight"@,
        Blendshape::EyeLookInLeft => "eyeLookInLeft"@,
        Blendshape::EyeLookInRight => "eyeLookInRight"@,
        Blendshape::EyeLookOutLeft => "eyeLookOutLeft"@,
        Blendshape::EyeLookOutRight => "eyeLookOutRight"@,
        Blendshape::EyeLookUpLeft => "eyeLookUpLeft"@,
        Blendshape::EyeLookUpRight => "eyeLookUpRight"@,
        Blendshape::EyeSquintLeft => "eyeSquintLeft"@,
        Blendshape::EyeSquintRight => "eyeSquintRight"@,
        Blendshape::EyeWideLeft => "eyeWideLeft"@,
        Blendshape::EyeWideRight => "eyeWideRight"@,
        Blendshape::JawForward => "jawForward"@,
        Blendshape::JawLeft => "jawLeft"@,
        Blendshape::JawOpen => "jawOpen"@,
        Blendshape::JawRight => "jawRight"@,
        Blendshape::MouthClose => "mouthClose"@,
        Blendshape::MouthDimpleLeft => "mouthDimpleLeft"@,
        Blendshape::MouthDimpleRight => "mouthDimpleRight"@,
        Blendshape::MouthFrownLeft => "mouthFrownLeft"@,
        Blendshape::MouthFrownRight => "mouthFrownRight"@,
        Blendshape::MouthFunnel => "mouthFunnel"@,
        Blendshape::MouthLeft => "mouthLeft"@,
        Blendshape::MouthLowerDownLeft => "mouthLowerDownLeft"@,
        Blendshape::MouthLowerDownRight => "mouthLowerDownRight"@,
        Blendshape::MouthPressLeft => "mouthPressLeft"@,
        Blendshape::MouthPressRight => "mouthPressRight"@,
        Blendshape::MouthPucker => "mouthPucker"@,
        Blendshape::MouthRight => "mouthRight"@,
        Blendshape::MouthRollLower => "mouthRollLower"@,
        Blendshape::MouthRollUpper => "mouthRollUpper"@,
        Blendshape::MouthShrugLower => "mouthShrugLower"@,
        Blendshape::MouthShrugUpper => "mouthShrugUpper"@,
        Blendshape::MouthSmileLeft => "mouthSmileLeft"@,
        Blendshape::MouthSmileRight => "mouthSmileRight"@,
        Blendshape::MouthStretchLeft => "mouthStretchLeft"@,
        Blendshape::MouthStretchRight => "mouthStretchRight"@,
        Blendshape::MouthUpperUpLeft => "mouthUpperUpLeft"@,
        Blendshape::MouthUpperUpRight => "mouthUpperUpRight"@,
        Blendshape::NoseSneerLeft => "noseSneerLeft"@,
        Blendshape::NoseSneerRight => "noseSneerRight"@,
    }
}

/// The length and the third and sixth characters from the end, which tell
/// the category names apart.
spec fn name_marks(s: Seq<char>) -> (int, char, char) {
    (s.len() as int, s[s.len() - 3], s[s.len() - 6])
}

/// The category whose name has the marks `f`.
spec fn blendshape_with_marks(f: (int, char, char)) -> Option<Blendshape> {
    if f.0 == 8 && f.1 == 'r' && f.2 == 'e' {
        Some(Blendshape::Neutral)
    } else if f.0 == 12 && f.1 == 'e' && f.2 == 'w' {
        Some(Blendshape::BrowDownLeft)
    } else if f.0 == 13 && f.1 == 'g' && f.2 == 'n' {
        Some(Blendshape::BrowDownRight)
    } else if f.0 == 11 && f.1 == 'r' && f.2 == 'n' {
        Some(Blendshape::BrowInnerUp)
    } else if f.0 == 15 && f.1 == 'e' && f.2 == 'U' {
        Some(Blendshape::BrowOuterUpLeft)
    } else if f.0 == 16 && f.1 == 'g' && f.2 == 'p' {
        Some(Blendshape::BrowOuterUpRight)
    } else if f.0 == 9 && f.1 == 'u' && f.2 == 'e' {
        Some(Blendshape::CheekPuff)
    } else if f.0 == 15 && f.1 == 'e' && f.2 == 'n' {
        Some(Blendshape::CheekSquintLeft)
    } else if f.0 == 16 && f.1 == 'g' && f.2 == 't' {
        Some(Blendshape::CheekSquintRight)
    } else if f.0 == 12 && f.1 == 'e' && f.2 == 'n' {
        Some(Blendshape::EyeBlinkLeft)
    } else if f.0 == 13 && f.1 == 'g' && f.2 == 'k' {
        Some(Blendshape::EyeBlinkRight)
    } else if f.0 == 15 && f.1 == 'e' && f.2 == 'w' {
        Some(Blendshape::EyeLookDownLeft)
    } else if f.0 == 16 && f.1 == 'g' && f.2 == 'n' {
        Some(Blendshape::EyeLookDownRight)
    } else if f.0 == 13 && f.1 == 'e' && f.2 == 'I' {
        Some(Blendshape::EyeLookInLeft)
    } else if f.0 == 14 && f.1 == 'g' && f.2 == 'n' {
        Some(Blendshape::EyeLookInRight)
    } else if f.0 == 14 && f.1 == 'e' && f.2 == 'u' {
        Some(Blendshape::EyeLookOutLeft)
    } else if f.0 == 15 && f.1 == 'g' && f.2 == 't' {
        Some(Blendshape::EyeLookOutRight)
    } else if f.0 == 13 && f.1 == 'e' && f.2 == 'U' {
        Some(Blendshape::EyeLookUpLeft)
    } else if f.0 == 14 && f.1 == 'g' && f.2 == 'p' {
        Some(Blendshape::EyeLookUpRight)
    } else if f.0 == 13 && f.1 == 'e' && f.2 == 'n' {
        Some(Blendshape::EyeSquintLeft)
    } else if f.0 == 14 && f.1 == 'g' && f.2 == 't' {
        Some(Blendshape::EyeSquintRight)
    } else if f.0 == 11 && f.1 == 'e' && f.2 == 'd' {
        Some(Blendshape::EyeWideLeft)
    } else if f.0 == 12 && f.1 == 'g' && f.2 == 'e' {
        Some(Blendshape::EyeWideRight)
    } else if f.0 == 10 && f.1 == 'a' && f.2 == 'o' {
        Some(Blendshape::JawForward)
    } else if f.0 == 7 && f.1 == 'e' && f.2 == 'a' {
        Some(Blendshape::JawLeft)
    } else if f.0 == 7 && f.1 == 'p' && f.2 == 'a' {
        Some(Blendshape::JawOpen)
    } else if f.0 == 8 && f.1 == 'g' && f.2 == 'w' {
        Some(Blendshape::JawRight)
    } else if f.0 == 10 && f.1 == 'o' && f.2 == 'h' {
        Some(Blendshape::MouthClose)
    } else if f.0 == 15 && f.1 == 'e' && f.2 == 'l' {
        Some(Blendshape::MouthDimpleLeft)
    } else if f.0 == 16 && f.1 == 'g' && f.2 == 'e' {
        Some(Blendshape::MouthDimpleRight)
    } else if f.0 == 14 && f.1 == 'e' && f.2 == 'w' {
        Some(Blendshape::MouthFrownLeft)
    } else if f.0 == 15 && f.1 == 'g' && f.2 == 'n' {
        Some(Blendshape::MouthFrownRight)
    } else if f.0 == 11 && f.1 == 'n' && f.2 == 'F' {
        Some(Blendshape::MouthFunnel)
    } else if f.0 == 9 && f.1 == 'e' && f.2 == 't' {
        Some(Blendshape::MouthLeft)
    } else if f.0 == 18 && f.1 == 'e' && f.2 == 'w' {
        Some(Blendshape::MouthLowerDownLeft)
    } else if f.0 == 19 && f.1 == 'g' && f.2 == 'n' {
        Some(Blendshape::MouthLowerDownRight)
    } else if f.0 == 14 && f.1 == 'e' && f.2 == 's' {
        Some(Blendshape::MouthPressLeft)
    } else if f.0 == 15 && f.1 == 'g' && f.2 == 's' {
        Some(Blendshape::MouthPressRight)
    } else if f.0 == 11 && f.1 == 'k' && f.2 == 'P' {
        Some(Blendshape::MouthPucker)
    } else if f.0 == 10 && f.1 == 'g' && f.2 == 'h' {
        Some(Blendshape::MouthRight)
    } else if f.0 == 14 && f.1 == 'w' && f.2 == 'l' {
        Some(Blendshape::MouthRollLower)
    } else if f.0 == 14 && f.1 == 'p' && f.2 == 'l' {
        Some(Blendshape::MouthRollUpper)
    } else if f.0 == 15 && f.1 == 'w' && f.2 == 'g' {
        Some(Blendshape::MouthShrugLower)
    } else if f.0 == 15 && f.1 == 'p' && f.2 == 'g' {
        Some(Blendshape::MouthShrugUpper)
    } else if f.0 == 14 && f.1 == 'e' && f.2 == 'l' {
        Some(Blendshape::MouthSmileLeft)
    } else if f.0 == 15 && f.1 == 'g' && f.2 == 'e' {
        Some(Blendshape::MouthSmileRight)
    } else if f.0 == 16 && f.1 == 'e' && f.2 == 'c' {
        Some(Blendshape::MouthStretchLeft)
    } else if f.0 == 17 && f.1 == 'g' && f.2 == 'h' {
        Some(Blendshape::MouthStretchRight)
    } else if f.0 == 16 && f.1 == 'e' && f.2 == 'U' {
        Some(Blendshape::MouthUpperUpLeft)
    } else if f.0 == 17 && f.1 == 'g' && f.2 == 'p' {
        Some(Blendshape::MouthUpperUpRight)
    } else if f.0 == 13 && f.1 == 'e' && f.2 == 'e' {
        Some(Blendshape::NoseSneerLeft)
    } else if f.0 == 14 && f.1 == 'g' && f.2 == 'r' {
        Some(Blendshape::NoseSneerRight)
    } else {
        None
    }
}

proof fn lemma_marks_of_blendshape(b: Blendshape)
    ensures
        blendshape_with_marks(name_marks(blendshape_name(b))) == Some(b),
{
    reveal_strlit("_neutral");
    reveal_strlit("browDownLeft");
    reveal_strlit("browDownRight");
    reveal_strlit("browInnerUp");
    reveal_strlit("browOuterUpLeft");
    reveal_strlit("browOuterUpRight");
    reveal_strlit("cheekPuff");
    reveal_strlit("cheekSquintLeft");
    reveal_strlit("cheekSquintRight");
    reveal_strlit("eyeBlinkLeft");
    reveal_strlit("eyeBlinkRight");
    reveal_strlit("eyeLookDownLeft");
    reveal_strlit("eyeLookDownRight");
    reveal_strlit("eyeLookInLeft");
    reveal_strlit("eyeLookInRight");
    reveal_strlit("eyeLookOutLeft");
    reveal_strlit("eyeLookOutRight");
    reveal_strlit("eyeLookUpLeft");
    reveal_strlit("eyeLookUpRight");
    reveal_strlit("eyeSquintLeft");
    reveal_strlit("eyeSquintRight");
    reveal_strlit("eyeWideLeft");
    reveal_strlit("eyeWideRight");
    reveal_strlit("jawForward");
    reveal_strlit("jawLeft");
    reveal_strlit("jawOpen");
    reveal_strlit("jawRight");
    reveal_strlit("mouthClose");
    reveal_strlit("mouthDimpleLeft");
    reveal_strlit("mouthDimpleRight");
    reveal_strlit("mouthFrownLeft");
    reveal_strlit("mouthFrownRight");
    reveal_strlit("mouthFunnel");
    reveal_strlit("mouthLeft");
    reveal_strlit("mouthLowerDownLeft");
    reveal_strlit("mouthLowerDownRight");
    reveal_strlit("mouthPressLeft");
    reveal_strlit("mouthPressRight");
    reveal_strlit("mouthPucker");
    reveal_strlit("mouthRight");
    reveal_strlit("mouthRollLower");
    reveal_strlit("mouthRollUpper");
    reveal_strlit("mouthShrugLower");
    reveal_strlit("mouthShrugUpper");
    reveal_strlit("mouthSmileLeft");
    reveal_strlit("mouthSmileRight");
    reveal_strlit("mouthStretchLeft");
    reveal_strlit("mouthStretchRight");
    reveal_strlit("mouthUpperUpLeft");
    reveal_strlit("mouthUpperUpRight");
    reveal_strlit("noseSneerLeft");
    reveal_strlit("noseSneerRight");
}

/// Distinct categories carry distinct names.
pub proof fn lemma_blendshape_names_distinct(a: Blendshape, b: Blendshape)
    requires
        blendshape_name(a) == blendshape_name(b),
    ensures
        a == b,
{
    lemma_marks_of_blendshape(a);
    lemma_marks_of_blendshape(b);
}

impl Blendshape {
    /// The category reported under exactly the name `name`, if any.
    pub fn from_category_name(name: &str) -> (r: Option<Blendshape>)
        ensures
            forall|b: Blendshape| (r == Some(b)) <==> name@ == #[trigger] blendshape_name(b),
    {
        let r = Self::find_by_name(name);
        proof {
            if let Some(a) = r {
                assert forall|b: Blendshape| name@ == #[trigger] blendshape_name(b) implies r == Some(b) by {
                    lemma_blendshape_names_distinct(a, b);
                }
            }
        }
        r
    }

    fn find_by_name(name: &str) -> (r: Option<Blendshape>)
        ensures
            r matches Some(b) ==> name@ == blendshape_name(b),
            r is None ==> forall|b: Blendshape| name@ != #[trigger] blendshape_name(b),
    {
        if same_text(name, "_neutral") {
            return Some(Blendshape::Neutral);
        }
        if same_text(name, "browDownLeft") {
            return Some(Blendshape::BrowDownLeft);
        }
        if same_text(name, "browDownRight") {
            return Some(Blendshape::BrowDownRight);
        }
        if same_text(name, "browInnerUp") {
            return Some(Blendshape::BrowInnerUp);
        }
        if same_text(name, "browOuterUpLeft") {
            return Some(Blendshape::BrowOuterUpLeft);
        }
        if same_text(name, "browOuterUpRight") {
            return Some(Blendshape::BrowOuterUpRight);
        }
        if same_text(name, "cheekPuff") {
            return Some(Blendshape::CheekPuff);
        }
        if same_text(name, "cheekSquintLeft") {
            return Some(Blendshape::CheekSquintLeft);
        }
        if same_text(name, "cheekSquintRight") {
            return Some(Blendshape::CheekSquintRight);
        }
        if same_text(name, "eyeBlinkLeft") {
            return Some(Blendshape::EyeBlinkLeft);
        }
        if same_text(name, "eyeBlinkRight") {
            return Some(Blendshape::EyeBlinkRight);
        }
        if same_text(name, "eyeLookDownLeft") {
            return Some(Blendshape::EyeLookDownLeft);
        }
        if same_text(name, "eyeLookDownRight") {
            return Some(Blendshape::EyeLookDownRight);
        }
        if same_text(name, "eyeLookInLeft") {
            return Some(Blendshape::EyeLookInLeft);
        }
        if same_text(name, "eyeLookInRight") {
            return Some(Blendshape::EyeLookInRight);
        }
        if same_text(name, "eyeLookOutLeft") {
            return Some(Blendshape::EyeLookOutLeft);
        }
        if same_text(name, "eyeLookOutRight") {
            return Some(Blendshape::EyeLookOutRight);
        }
        if same_text(name, "eyeLookUpLeft") {
            return Some(Blendshape::EyeLookUpLeft);
        }
        if same_text(name, "eyeLookUpRight") {
            return Some(Blendshape::EyeLookUpRight);
        }
        if same_text(name, "eyeSquintLeft") {
            return Some(Blendshape::EyeSquintLeft);
        }
        if same_text(name, "eyeSquintRight") {
            return Some(Blendshape::EyeSquintRight);
        }
        if same_text(name, "eyeWideLeft") {
            return Some(Blendshape::EyeWideLeft);
        }
        if same_text(name, "eyeWideRight") {
            return Some(Blendshape::EyeWideRight);
        }
        if same_text(name, "jawForward") {
            return Some(Blendshape::JawForward);
        }
        if same_text(name, "jawLeft") {
            return Some(Blendshape::JawLeft);
        }
        if same_text(name, "jawOpen") {
            return Some(Blendshape::JawOpen);
        }
        if same_text(name, "jawRight") {
            return Some(Blendshape::JawRight);
        }
        if same_text(name, "mouthClose") {
            return Some(Blendshape::MouthClose);
        }
        if same_text(name, "mouthDimpleLeft") {
            return Some(Blendshape::MouthDimpleLeft);
        }
        if same_text(name, "mouthDimpleRight") {
            return Some(Blendshape::MouthDimpleRight);
        }
        if same_text(name, "mouthFrownLeft") {
            return Some(Blendshape::MouthFrownLeft);
        }
        if same_text(name, "mouthFrownRight") {
            return Some(Blendshape::MouthFrownRight);
        }
        if same_text(name, "mouthFunnel") {
            return Some(Blendshape::MouthFunnel);
        }
        if same_text(name, "mouthLeft") {
            return Some(Blendshape::MouthLeft);
        }
        if same_text(name, "mouthLowerDownLeft") {
            return Some(Blendshape::MouthLowerDownLeft);
        }
        if same_text(name, "mouthLowerDownRight") {
            return Some(Blendshape::MouthLowerDownRight);
        }
        if same_text(name, "mouthPressLeft") {
            return Some(Blendshape::MouthPressLeft);
        }
        if same_text(name, "mouthPressRight") {
            return Some(Blendshape::MouthPressRight);
        }
        if same_text(name, "mouthPucker") {
            return Some(Blendshape::MouthPucker);
        }
        if same_text(name, "mouthRight") {
            return Some(Blendshape::MouthRight);
        }
        if same_text(name, "mouthRollLower") {
            return Some(Blendshape::MouthRollLower);
        }
        if same_text(name, "mouthRollUpper") {
            return Some(Blendshape::MouthRollUpper);
        }
        if same_text(name, "mouthShrugLower") {
            return Some(Blendshape::MouthShrugLower);
        }
        if same_text(name, "mouthShrugUpper") {
            return Some(Blendshape::MouthShrugUpper);
        }
        if same_text(name, "mouthSmileLeft") {
            return Some(Blendshape::MouthSmileLeft);
        }
        if same_text(name, "mouthSmileRight") {
            return Some(Blendshape::MouthSmileRight);
        }
        if same_text(name, "mouthStretchLeft") {
            return Some(Blendshape::MouthStretchLeft);
        }
        if same_text(name, "mouthStretchRight") {
            return Some(Blendshape::MouthStretchRight);
        }
        if same_text(name, "mouthUpperUpLeft") {
            return Some(Blendshape::MouthUpperUpLeft);
        }
        if same_text(name, "mouthUpperUpRight") {
            return Some(Blendshape::MouthUpperUpRight);
        }
        if same_text(name, "noseSneerLeft") {
            return Some(Blendshape::NoseSneerLeft);
        }
        if same_text(name, "noseSneerRight") {
            return Some(Blendshape::NoseSneerRight);
        }
        None
    }
}

} // verus!
