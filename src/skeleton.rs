//! The rigged model's named nodes, and the table from node name to body part.

use crate::text::same_text;
use vstd::prelude::*;

verus! {

/// The nodes of the rigged model that the driver moves, each found by its
/// name in the loaded scene.
#[derive(Debug, Clone, Copy, PartialEq, Eq, Hash, Structural)]
pub enum BodyPart {
    Root,
    Neck,
    LeftEye,
    RightEye,
    GPencil,
    Mouth,
    LeftUpperArm,
    LeftLowerArm,
    LeftLowerArmR,
    RightUpperArm,
    RightLowerArm,
    RightLowerArmR,
    LeftPalm,
    LeftThumbMcp,
    LeftThumbIp,
    LeftIndexMcp,
    LeftIndexPip,
    LeftIndexDip,
    LeftMiddleMcp,
    LeftMiddlePip,
    LeftMiddleDip,
    LeftRingMcp,
    LeftRingPip,
    LeftRingDip,
    LeftPinkyMcp,
    LeftPinkyPip,
    LeftPinkyDip,
    RightPalm,
    RightThumbMcp,
    RightThumbIp,
    RightIndexMcp,
    RightIndexPip,
    RightIndexDip,
    RightMiddleMcp,
    RightMiddlePip,
    RightMiddleDip,
    RightRingMcp,
    RightRingPip,
    RightRingDip,
    RightPinkyMcp,
    RightPinkyPip,
    RightPinkyDip,
    LeftUpperLeg,
    LeftLowerLeg,
    RightUpperLeg,
    RightLowerLeg,
}

/// The scene name of the node for part `p`.
pub open spec fn part_name(p: BodyPart) -> Seq<char> {
    match p {
        BodyPart::Root => "Root"@,
        BodyPart::Neck => "Neck"@,
        BodyPart::LeftEye => "Eye.L"@,
        BodyPart::RightEye => "Eye.R"@,
        BodyPart::GPencil => "GPencil"@,
        BodyPart::Mouth => "Mouth"@,
        BodyPart::LeftUpperArm => "UpperArm.L"@,
        BodyPart::LeftLowerArm => "LowerArm.L"@,
        BodyPart::LeftLowerArmR => "LowerArmR.L"@,
        BodyPart::RightUpperArm => "UpperArm.R"@,
        BodyPart::RightLowerArm => "LowerArm.R"@,
        BodyPart::RightLowerArmR => "LowerArmR.R"@,
        BodyPart::LeftPalm => "Palm.L"@,
        BodyPart::LeftThumbMcp => "ThumbMcp.L"@,
        BodyPart::LeftThumbIp => "ThumbIp.L"@,
        BodyPart::LeftIndexMcp => "IndexMcp.L"@,
        BodyPart::LeftIndexPip => "IndexPip.L"@,
        BodyPart::LeftIndexDip => "IndexDip.L"@,
        BodyPart::LeftMiddleMcp => "MiddleMcp.L"@,
        BodyPart::LeftMiddlePip => "MiddlePip.L"@,
        BodyPart::LeftMiddleDip => "MiddleDip.L"@,
        BodyPart::LeftRingMcp => "RingMcp.L"@,
        BodyPart::LeftRingPip => "RingPip.L"@,
        BodyPart::LeftRingDip => "RingDip.L"@,
        BodyPart::LeftPinkyMcp => "PinkyMcp.L"@,
        BodyPart::LeftPinkyPip => "PinkyPip.L"@,
        BodyPart::LeftPinkyDip => "PinkyDip.L"@,
        BodyPart::RightPalm => "Palm.R"@,
        BodyPart::RightThumbMcp => "ThumbMcp.R"@,
        BodyPart::RightThumbIp => "ThumbIp.R"@,
        BodyPart::RightIndexMcp => "IndexMcp.R"@,
        BodyPart::RightIndexPip => "IndexPip.R"@,
        BodyPart::RightIndexDip => "IndexDip.R"@,
        BodyPart::RightMiddleMcp => "MiddleMcp.R"@,
        BodyPart::RightMiddlePip => "MiddlePip.R"@,
        BodyPart::RightMiddleDip => "MiddleDip.R"@,
        BodyPart::RightRingMcp => "RingMcp.R"@,
        BodyPart::RightRingPip => "RingPip.R"@,
        BodyPart::RightRingDip => "RingDip.R"@,
        BodyPart::RightPinkyMcp => "PinkyMcp.R"@,
        BodyPart::RightPinkyPip => "PinkyPip.R"@,
        BodyPart::RightPinkyDip => "PinkyDip.R"@,
        BodyPart::LeftUpperLeg => "UpperLeg.L"@,
        BodyPart::LeftLowerLeg => "LowerLeg.L"@,
        BodyPart::RightUpperLeg => "UpperLeg.R"@,
        BodyPart::RightLowerLeg => "LowerLeg.R"@,
    }
}

/// A few characters that tell the part names apart: the length, the first
/// and last characters, and the fifth from the end.
spec fn name_marks(s: Seq<char>) -> (int, char, char, char) {
    (s.len() as int, s[0], s[s.len() - 1], s[s.len() - 5])
}

/// The part whose name has the marks `f`.
spec fn part_with_marks(f: (int, char, char, char)) -> Option<BodyPart> {
    if f.0 == 4 && f.1 == 'R' && f.2 == 't' {
        Some(BodyPart::Root)
    } else if f.0 == 4 && f.1 == 'N' && f.2 == 'k' {
        Some(BodyPart::Neck)
    } else if f.0 == 5 && f.1 == 'E' && f.2 == 'L' && f.3 == 'E' {
        Some(BodyPart::LeftEye)
    } else if f.0 == 5 && f.1 == 'E' && f.2 == 'R' && f.3 == 'E' {
        Some(BodyPart::RightEye)
    } else if f.0 == 7 && f.1 == 'G' && f.2 == 'l' && f.3 == 'e' {
        Some(BodyPart::GPencil)
    } else if f.0 == 5 && f.1 == 'M' && f.2 == 'h' && f.3 == 'M' {
        Some(BodyPart::Mouth)
    } else if f.0 == 10 && f.1 == 'U' && f.2 == 'L' && f.3 == 'A' {
        Some(BodyPart::LeftUpperArm)
    } else if f.0 == 10 && f.1 == 'L' && f.2 == 'L' && f.3 == 'A' {
        Some(BodyPart::LeftLowerArm)
    } else if f.0 == 11 && f.1 == 'L' && f.2 == 'L' && f.3 == 'r' {
        Some(BodyPart::LeftLowerArmR)
    } else if f.0 == 10 && f.1 == 'U' && f.2 == 'R' && f.3 == 'A' {
        Some(BodyPart::RightUpperArm)
    } else if f.0 == 10 && f.1 == 'L' && f.2 == 'R' && f.3 == 'A' {
        Some(BodyPart::RightLowerArm)
    } else if f.0 == 11 && f.1 == 'L' && f.2 == 'R' && f.3 == 'r' {
        Some(BodyPart::RightLowerArmR)
    } else if f.0 == 6 && f.1 == 'P' && f.2 == 'L' && f.3 == 'a' {
        Some(BodyPart::LeftPalm)
    } else if f.0 == 10 && f.1 == 'T' && f.2 == 'L' && f.3 == 'M' {
        Some(BodyPart::LeftThumbMcp)
    } else if f.0 == 9 && f.1 == 'T' && f.2 == 'L' && f.3 == 'b' {
        Some(BodyPart::LeftThumbIp)
    } else if f.0 == 10 && f.1 == 'I' && f.2 == 'L' && f.3 == 'M' {
        Some(BodyPart::LeftIndexMcp)
    } else if f.0 == 10 && f.1 == 'I' && f.2 == 'L' && f.3 == 'P' {
        Some(BodyPart::LeftIndexPip)
    } else if f.0 == 10 && f.1 == 'I' && f.2 == 'L' && f.3 == 'D' {
        Some(BodyPart::LeftIndexDip)
    } else if f.0 == 11 && f.1 == 'M' && f.2 == 'L' && f.3 == 'M' {
        Some(BodyPart::LeftMiddleMcp)
    } else if f.0 == 11 && f.1 == 'M' && f.2 == 'L' && f.3 == 'P' {
        Some(BodyPart::LeftMiddlePip)
    } else if f.0 == 11 && f.1 == 'M' && f.2 == 'L' && f.3 == 'D' {
        Some(BodyPart::LeftMiddleDip)
    } else if f.0 == 9 && f.1 == 'R' && f.2 == 'L' && f.3 == 'M' {
        Some(BodyPart::LeftRingMcp)
    } else if f.0 == 9 && f.1 == 'R' && f.2 == 'L' && f.3 == 'P' {
        Some(BodyPart::LeftRingPip)
    } else if f.0 == 9 && f.1 == 'R' && f.2 == 'L' && f.3 == 'D' {
        Some(BodyPart::LeftRingDip)
    } else if f.0 == 10 && f.1 == 'P' && f.2 == 'L' && f.3 == 'M' {
        Some(BodyPart::LeftPinkyMcp)
    } else if f.0 == 10 && f.1 == 'P' && f.2 == 'L' && f.3 == 'P' {
        Some(BodyPart::LeftPinkyPip)
    } else if f.0 == 10 && f.1 == 'P' && f.2 == 'L' && f.3 == 'D' {
        Some(BodyPart::LeftPinkyDip)
    } else if f.0 == 6 && f.1 == 'P' && f.2 == 'R' && f.3 == 'a' {
        Some(BodyPart::RightPalm)
    } else if f.0 == 10 && f.1 == 'T' && f.2 == 'R' && f.3 == 'M' {
        Some(BodyPart::RightThumbMcp)
    } else if f.0 == 9 && f.1 == 'T' && f.2 == 'R' && f.3 == 'b' {
        Some(BodyPart::RightThumbIp)
    } else if f.0 == 10 && f.1 == 'I' && f.2 == 'R' && f.3 == 'M' {
        Some(BodyPart::RightIndexMcp)
    } else if f.0 == 10 && f.1 == 'I' && f.2 == 'R' && f.3 == 'P' {
        Some(BodyPart::RightIndexPip)
    } else if f.0 == 10 && f.1 == 'I' && f.2 == 'R' && f.3 == 'D' {
        Some(BodyPart::RightIndexDip)
    } else if f.0 == 11 && f.1 == 'M' && f.2 == 'R' && f.3 == 'M' {
        Some(BodyPart::RightMiddleMcp)
    } else if f.0 == 11 && f.1 == 'M' && f.2 == 'R' && f.3 == 'P' {
        Some(BodyPart::RightMiddlePip)
    } else if f.0 == 11 && f.1 == 'M' && f.2 == 'R' && f.3 == 'D' {
        Some(BodyPart::RightMiddleDip)
    } else if f.0 == 9 && f.1 == 'R' && f.2 == 'R' && f.3 == 'M' {
        Some(BodyPart::RightRingMcp)
    } else if f.0 == 9 && f.1 == 'R' && f.2 == 'R' && f.3 == 'P' {
        Some(BodyPart::RightRingPip)
    } else if f.0 == 9 && f.1 == 'R' && f.2 == 'R' && f.3 == 'D' {
        Some(BodyPart::RightRingDip)
    } else if f.0 == 10 && f.1 == 'P' && f.2 == 'R' && f.3 == 'M' {
        Some(BodyPart::RightPinkyMcp)
    } else if f.0 == 10 && f.1 == 'P' && f.2 == 'R' && f.3 == 'P' {
        Some(BodyPart::RightPinkyPip)
    } else if f.0 == 10 && f.1 == 'P' && f.2 == 'R' && f.3 == 'D' {
        Some(BodyPart::RightPinkyDip)
    } else if f.0 == 10 && f.1 == 'U' && f.2 == 'L' && f.3 == 'L' {
        Some(BodyPart::LeftUpperLeg)
    } else if f.0 == 10 && f.1 == 'L' && f.2 == 'L' && f.3 == 'L' {
        Some(BodyPart::LeftLowerLeg)
    } else if f.0 == 10 && f.1 == 'U' && f.2 == 'R' && f.3 == 'L' {
        Some(BodyPart::RightUpperLeg)
    } else if f.0 == 10 && f.1 == 'L' && f.2 == 'R' && f.3 == 'L' {
        Some(BodyPart::RightLowerLeg)
    } else {
        None
    }
}

proof fn lemma_marks_of_part(p: BodyPart)
    ensures
        part_with_marks(name_marks(part_name(p))) == Some(p),
{
        reveal_strlit("Root");
        reveal_strlit("Neck");
        reveal_strlit("Eye.L");
        reveal_strlit("Eye.R");
        reveal_strlit("GPencil");
        reveal_strlit("Mouth");
        reveal_strlit("UpperArm.L");
        reveal_strlit("LowerArm.L");
        reveal_strlit("LowerArmR.L");
        reveal_strlit("UpperArm.R");
        reveal_strlit("LowerArm.R");
        reveal_strlit("LowerArmR.R");
        reveal_strlit("Palm.L");
        reveal_strlit("ThumbMcp.L");
        reveal_strlit("ThumbIp.L");
        reveal_strlit("IndexMcp.L");
        reveal_strlit("IndexPip.L");
        reveal_strlit("IndexDip.L");
        reveal_strlit("MiddleMcp.L");
        reveal_strlit("MiddlePip.L");
        reveal_strlit("MiddleDip.L");
        reveal_strlit("RingMcp.L");
        reveal_strlit("RingPip.L");
        reveal_strlit("RingDip.L");
        reveal_strlit("PinkyMcp.L");
        reveal_strlit("PinkyPip.L");
        reveal_strlit("PinkyDip.L");
        reveal_strlit("Palm.R");
        reveal_strlit("ThumbMcp.R");
        reveal_strlit("ThumbIp.R");
        reveal_strlit("IndexMcp.R");
        reveal_strlit("IndexPip.R");
        reveal_strlit("IndexDip.R");
        reveal_strlit("MiddleMcp.R");
        reveal_strlit("MiddlePip.R");
        reveal_strlit("MiddleDip.R");
        reveal_strlit("RingMcp.R");
        reveal_strlit("RingPip.R");
        reveal_strlit("RingDip.R");
        reveal_strlit("PinkyMcp.R");
        reveal_strlit("PinkyPip.R");
        reveal_strlit("PinkyDip.R");
        reveal_strlit("UpperLeg.L");
        reveal_strlit("LowerLeg.L");
        reveal_strlit("UpperLeg.R");
        reveal_strlit("LowerLeg.R");
}

/// Distinct parts carry distinct node names, so a node name picks out at
/// most one part.
pub proof fn lemma_part_names_distinct(p: BodyPart, q: BodyPart)
    requires
        part_name(p) == part_name(q),
    ensures
        p == q,
{
    lemma_marks_of_part(p);
    lemma_marks_of_part(q);
}

impl BodyPart {
    /// The part whose node carries exactly the name `name`, if any.
    pub fn from_name(name: &str) -> (r: Option<BodyPart>)
        ensures
            forall|p: BodyPart| (r == Some(p)) <==> name@ == #[trigger] part_name(p),
    {
        let r = Self::find_by_name(name);
        proof {
            if let Some(p) = r {
                assert forall|q: BodyPart| name@ == #[trigger] part_name(q) implies r == Some(q) by {
                    lemma_part_names_distinct(p, q);
                }
            }
        }
        r
    }

    fn find_by_name(name: &str) -> (r: Option<BodyPart>)
        ensures
            r matches Some(p) ==> name@ == part_name(p),
            r is None ==> forall|p: BodyPart| name@ != #[trigger] part_name(p),
    {
        if same_text(name, "Root") {
            return Some(BodyPart::Root);
        }
        if same_text(name, "Neck") {
            return Some(BodyPart::Neck);
        }
        if same_text(name, "Eye.L") {
            return Some(BodyPart::LeftEye);
        }
        if same_text(name, "Eye.R") {
            return Some(BodyPart::RightEye);
        }
        if same_text(name, "GPencil") {
            return Some(BodyPart::GPencil);
        }
        if same_text(name, "Mouth") {
            return Some(BodyPart::Mouth);
        }
        if same_text(name, "UpperArm.L") {
            return Some(BodyPart::LeftUpperArm);
        }
        if same_text(name, "LowerArm.L") {
            return Some(BodyPart::LeftLowerArm);
        }
        if same_text(name, "LowerArmR.L") {
            return Some(BodyPart::LeftLowerArmR);
        }
        if same_text(name, "UpperArm.R") {
            return Some(BodyPart::RightUpperArm);
        }
        if same_text(name, "LowerArm.R") {
            return Some(BodyPart::RightLowerArm);
        }
        if same_text(name, "LowerArmR.R") {
            return Some(BodyPart::RightLowerArmR);
        }
        if same_text(name, "Palm.L") {
            return Some(BodyPart::LeftPalm);
        }
        if same_text(name, "ThumbMcp.L") {
            return Some(BodyPart::LeftThumbMcp);
        }
        if same_text(name, "ThumbIp.L") {
            return Some(BodyPart::LeftThumbIp);
        }
        if same_text(name, "IndexMcp.L") {
            return Some(BodyPart::LeftIndexMcp);
        }
        if same_text(name, "IndexPip.L") {
            return Some(BodyPart::LeftIndexPip);
        }
        if same_text(name, "IndexDip.L") {
            return Some(BodyPart::LeftIndexDip);
        }
        if same_text(name, "MiddleMcp.L") {
            return Some(BodyPart::LeftMiddleMcp);
        }
        if same_text(name, "MiddlePip.L") {
            return Some(BodyPart::LeftMiddlePip);
        }
        if same_text(name, "MiddleDip.L") {
            return Some(BodyPart::LeftMiddleDip);
        }
        if same_text(name, "RingMcp.L") {
            return Some(BodyPart::LeftRingMcp);
        }
        if same_text(name, "RingPip.L") {
            return Some(BodyPart::LeftRingPip);
        }
        if same_text(name, "RingDip.L") {
            return Some(BodyPart::LeftRingDip);
        }
        if same_text(name, "PinkyMcp.L") {
            return Some(BodyPart::LeftPinkyMcp);
        }
        if same_text(name, "PinkyPip.L") {
            return Some(BodyPart::LeftPinkyPip);
        }
        if same_text(name, "PinkyDip.L") {
            return Some(BodyPart::LeftPinkyDip);
        }
        if same_text(name, "Palm.R") {
            return Some(BodyPart::RightPalm);
        }
        if same_text(name, "ThumbMcp.R") {
            return Some(BodyPart::RightThumbMcp);
        }
        if same_text(name, "ThumbIp.R") {
            return Some(BodyPart::RightThumbIp);
        }
        if same_text(name, "IndexMcp.R") {
            return Some(BodyPart::RightIndexMcp);
        }
        if same_text(name, "IndexPip.R") {
            return Some(BodyPart::RightIndexPip);
        }
        if same_text(name, "IndexDip.R") {
            return Some(BodyPart::RightIndexDip);
        }
        if same_text(name, "MiddleMcp.R") {
            return Some(BodyPart::RightMiddleMcp);
        }
        if same_text(name, "MiddlePip.R") {
            return Some(BodyPart::RightMiddlePip);
        }
        if same_text(name, "MiddleDip.R") {
            return Some(BodyPart::RightMiddleDip);
        }
        if same_text(name, "RingMcp.R") {
            return Some(BodyPart::RightRingMcp);
        }
        if same_text(name, "RingPip.R") {
            return Some(BodyPart::RightRingPip);
        }
        if same_text(name, "RingDip.R") {
            return Some(BodyPart::RightRingDip);
        }
        if same_text(name, "PinkyMcp.R") {
            return Some(BodyPart::RightPinkyMcp);
        }
        if same_text(name, "PinkyPip.R") {
            return Some(BodyPart::RightPinkyPip);
        }
        if same_text(name, "PinkyDip.R") {
            return Some(BodyPart::RightPinkyDip);
        }
        if same_text(name, "UpperLeg.L") {
            return Some(BodyPart::LeftUpperLeg);
        }
        if same_text(name, "LowerLeg.L") {
            return Some(BodyPart::LeftLowerLeg);
        }
        if same_text(name, "UpperLeg.R") {
            return Some(BodyPart::RightUpperLeg);
        }
        if same_text(name, "LowerLeg.R") {
            return Some(BodyPart::RightLowerLeg);
        }
        None
    }
}

/// The node handles of one limb.
#[derive(Debug, Clone, Copy, PartialEq, Eq, Hash)]
pub struct LimbParts<E> {
    pub upper: Option<E>,
    pub lower: Option<E>,
}

/// The node handles of one arm; `lower_r` turns the forearm about its axis.
#[derive(Debug, Clone, Copy, PartialEq, Eq, Hash)]
pub struct ArmParts<E> {
    pub upper: Option<E>,
    pub lower: Option<E>,
    pub lower_r: Option<E>,
}

/// The node handles of one finger's three joints.
#[derive(Debug, Clone, Copy, PartialEq, Eq, Hash)]
pub struct FingerParts<E> {
    pub mcp: Option<E>,
    pub pip: Option<E>,
    pub dip: Option<E>,
}

/// The node handles of one thumb's two joints.
#[derive(Debug, Clone, Copy, PartialEq, Eq, Hash)]
pub struct ThumbParts<E> {
    pub mcp: Option<E>,
    pub ip: Option<E>,
}

/// The node handles of one hand.
#[derive(Debug, Clone, Copy, PartialEq, Eq, Hash)]
pub struct HandParts<E> {
    pub wrist: Option<E>,
    pub thumb: ThumbParts<E>,
    pub index: FingerParts<E>,
    pub middle: FingerParts<E>,
    pub ring: FingerParts<E>,
    pub pinky: FingerParts<E>,
}

/// The node handle of each body part, where the scene has one; `E` is the
/// host scene graph's node handle.
#[derive(Debug, Clone, Copy, PartialEq, Eq, Hash)]
pub struct CharacterParts<E> {
    pub root: Option<E>,
    pub neck: Option<E>,
    pub left_eye: Option<E>,
    pub right_eye: Option<E>,
    pub g_pencil: Option<E>,
    pub mouth: Option<E>,
    pub left_arm: ArmParts<E>,
    pub right_arm: ArmParts<E>,
    pub left_leg: LimbParts<E>,
    pub right_leg: LimbParts<E>,
    pub left_hand: HandParts<E>,
    pub right_hand: HandParts<E>,
}

impl<E: Copy> CharacterParts<E> {
    /// The node handle held for part `p`.
    pub open spec fn part(&self, p: BodyPart) -> Option<E> {
        match p {
            BodyPart::Root => self.root,
            BodyPart::Neck => self.neck,
            BodyPart::LeftEye => self.left_eye,
            BodyPart::RightEye => self.right_eye,
            BodyPart::GPencil => self.g_pencil,
            BodyPart::Mouth => self.mouth,
            BodyPart::LeftUpperArm => self.left_arm.upper,
            BodyPart::LeftLowerArm => self.left_arm.lower,
            BodyPart::LeftLowerArmR => self.left_arm.lower_r,
            BodyPart::RightUpperArm => self.right_arm.upper,
            BodyPart::RightLowerArm => self.right_arm.lower,
            BodyPart::RightLowerArmR => self.right_arm.lower_r,
            BodyPart::LeftPalm => self.left_hand.wrist,
            BodyPart::LeftThumbMcp => self.left_hand.thumb.mcp,
            BodyPart::LeftThumbIp => self.left_hand.thumb.ip,
            BodyPart::LeftIndexMcp => self.left_hand.index.mcp,
            BodyPart::LeftIndexPip => self.left_hand.index.pip,
            BodyPart::LeftIndexDip => self.left_hand.index.dip,
            BodyPart::LeftMiddleMcp => self.left_hand.middle.mcp,
            BodyPart::LeftMiddlePip => self.left_hand.middle.pip,
            BodyPart::LeftMiddleDip => self.left_hand.middle.dip,
            BodyPart::LeftRingMcp => self.left_hand.ring.mcp,
            BodyPart::LeftRingPip => self.left_hand.ring.pip,
            BodyPart::LeftRingDip => self.left_hand.ring.dip,
            BodyPart::LeftPinkyMcp => self.left_hand.pinky.mcp,
            BodyPart::LeftPinkyPip => self.left_hand.pinky.pip,
            BodyPart::LeftPinkyDip => self.left_hand.pinky.dip,
            BodyPart::RightPalm => self.right_hand.wrist,
            BodyPart::RightThumbMcp => self.right_hand.thumb.mcp,
            BodyPart::RightThumbIp => self.right_hand.thumb.ip,
            BodyPart::RightIndexMcp => self.right_hand.index.mcp,
            BodyPart::RightIndexPip => self.right_hand.index.pip,
            BodyPart::RightIndexDip => self.right_hand.index.dip,
            BodyPart::RightMiddleMcp => self.right_hand.middle.mcp,
            BodyPart::RightMiddlePip => self.right_hand.middle.pip,
            BodyPart::RightMiddleDip => self.right_hand.middle.dip,
            BodyPart::RightRingMcp => self.right_hand.ring.mcp,
            BodyPart::RightRingPip => self.right_hand.ring.pip,
            BodyPart::RightRingDip => self.right_hand.ring.dip,
            BodyPart::RightPinkyMcp => self.right_hand.pinky.mcp,
            BodyPart::RightPinkyPip => self.right_hand.pinky.pip,
            BodyPart::RightPinkyDip => self.right_hand.pinky.dip,
            BodyPart::LeftUpperLeg => self.left_leg.upper,
            BodyPart::LeftLowerLeg => self.left_leg.lower,
            BodyPart::RightUpperLeg => self.right_leg.upper,
            BodyPart::RightLowerLeg => self.right_leg.lower,
        }
    }

    /// No part has a node yet.
    pub fn new() -> (r: Self)
        ensures
            forall|p: BodyPart| (#[trigger] r.part(p)) is None,
    {
        let limb = LimbParts { upper: None, lower: None };
        let arm = ArmParts { upper: None, lower: None, lower_r: None };
        let finger = FingerParts { mcp: None, pip: None, dip: None };
        let hand = HandParts {
            wrist: None,
            thumb: ThumbParts { mcp: None, ip: None },
            index: finger,
            middle: finger,
            ring: finger,
            pinky: finger,
        };
        CharacterParts {
            root: None,
            neck: None,
            left_eye: None,
            right_eye: None,
            g_pencil: None,
            mouth: None,
            left_arm: arm,
            right_arm: arm,
            left_leg: limb,
            right_leg: limb,
            left_hand: hand,
            right_hand: hand,
        }
    }

    /// The node handle held for part `p`.
    pub fn get(&self, p: BodyPart) -> (r: Option<E>)
        ensures
            r == self.part(p),
    {
        match p {
            BodyPart::Root => self.root,
            BodyPart::Neck => self.neck,
            BodyPart::LeftEye => self.left_eye,
            BodyPart::RightEye => self.right_eye,
            BodyPart::GPencil => self.g_pencil,
            BodyPart::Mouth => self.mouth,
            BodyPart::LeftUpperArm => self.left_arm.upper,
            BodyPart::LeftLowerArm => self.left_arm.lower,
            BodyPart::LeftLowerArmR => self.left_arm.lower_r,
            BodyPart::RightUpperArm => self.right_arm.upper,
            BodyPart::RightLowerArm => self.right_arm.lower,
            BodyPart::RightLowerArmR => self.right_arm.lower_r,
            BodyPart::LeftPalm => self.left_hand.wrist,
            BodyPart::LeftThumbMcp => self.left_hand.thumb.mcp,
            BodyPart::LeftThumbIp => self.left_hand.thumb.ip,
            BodyPart::LeftIndexMcp => self.left_hand.index.mcp,
            BodyPart::LeftIndexPip => self.left_hand.index.pip,
            BodyPart::LeftIndexDip => self.left_hand.index.dip,
            BodyPart::LeftMiddleMcp => self.left_hand.middle.mcp,
            BodyPart::LeftMiddlePip => self.left_hand.middle.pip,
            BodyPart::LeftMiddleDip => self.left_hand.middle.dip,
            BodyPart::LeftRingMcp => self.left_hand.ring.mcp,
            BodyPart::LeftRingPip => self.left_hand.ring.pip,
            BodyPart::LeftRingDip => self.left_hand.ring.dip,
            BodyPart::LeftPinkyMcp => self.left_hand.pinky.mcp,
            BodyPart::LeftPinkyPip => self.left_hand.pinky.pip,
            BodyPart::LeftPinkyDip => self.left_hand.pinky.dip,
            BodyPart::RightPalm => self.right_hand.wrist,
            BodyPart::RightThumbMcp => self.right_hand.thumb.mcp,
            BodyPart::RightThumbIp => self.right_hand.thumb.ip,
            BodyPart::RightIndexMcp => self.right_hand.index.mcp,
            BodyPart::RightIndexPip => self.right_hand.index.pip,
            BodyPart::RightIndexDip => self.right_hand.index.dip,
            BodyPart::RightMiddleMcp => self.right_hand.middle.mcp,
            BodyPart::RightMiddlePip => self.right_hand.middle.pip,
            BodyPart::RightMiddleDip => self.right_hand.middle.dip,
            BodyPart::RightRingMcp => self.right_hand.ring.mcp,
            BodyPart::RightRingPip => self.right_hand.ring.pip,
            BodyPart::RightRingDip => self.right_hand.ring.dip,
            BodyPart::RightPinkyMcp => self.right_hand.pinky.mcp,
            BodyPart::RightPinkyPip => self.right_hand.pinky.pip,
            BodyPart::RightPinkyDip => self.right_hand.pinky.dip,
            BodyPart::LeftUpperLeg => self.left_leg.upper,
            BodyPart::LeftLowerLeg => self.left_leg.lower,
            BodyPart::RightUpperLeg => self.right_leg.upper,
            BodyPart::RightLowerLeg => self.right_leg.lower,
        }
    }

    /// Holds `e` as the node of part `p`; every other part keeps its node.
    pub fn set(&mut self, p: BodyPart, e: E)
        ensures
            final(self).part(p) == Some(e),
            forall|q: BodyPart| q != p ==> final(self).part(q) == old(self).part(q),
    {
        match p {
            BodyPart::Root => self.root = Some(e),
            BodyPart::Neck => self.neck = Some(e),
            BodyPart::LeftEye => self.left_eye = Some(e),
            BodyPart::RightEye => self.right_eye = Some(e),
            BodyPart::GPencil => self.g_pencil = Some(e),
            BodyPart::Mouth => self.mouth = Some(e),
            BodyPart::LeftUpperArm => self.left_arm.upper = Some(e),
            BodyPart::LeftLowerArm => self.left_arm.lower = Some(e),
            BodyPart::LeftLowerArmR => self.left_arm.lower_r = Some(e),
            BodyPart::RightUpperArm => self.right_arm.upper = Some(e),
            BodyPart::RightLowerArm => self.right_arm.lower = Some(e),
            BodyPart::RightLowerArmR => self.right_arm.lower_r = Some(e),
            BodyPart::LeftPalm => self.left_hand.wrist = Some(e),
            BodyPart::LeftThumbMcp => self.left_hand.thumb.mcp = Some(e),
            BodyPart::LeftThumbIp => self.left_hand.thumb.ip = Some(e),
            BodyPart::LeftIndexMcp => self.left_hand.index.mcp = Some(e),
            BodyPart::LeftIndexPip => self.left_hand.index.pip = Some(e),
            BodyPart::LeftIndexDip => self.left_hand.index.dip = Some(e),
            BodyPart::LeftMiddleMcp => self.left_hand.middle.mcp = Some(e),
            BodyPart::LeftMiddlePip => self.left_hand.middle.pip = Some(e),
            BodyPart::LeftMiddleDip => self.left_hand.middle.dip = Some(e),
            BodyPart::LeftRingMcp => self.left_hand.ring.mcp = Some(e),
            BodyPart::LeftRingPip => self.left_hand.ring.pip = Some(e),
            BodyPart::LeftRingDip => self.left_hand.ring.dip = Some(e),
            BodyPart::LeftPinkyMcp => self.left_hand.pinky.mcp = Some(e),
            BodyPart::LeftPinkyPip => self.left_hand.pinky.pip = Some(e),
            BodyPart::LeftPinkyDip => self.left_hand.pinky.dip = Some(e),
            BodyPart::RightPalm => self.right_hand.wrist = Some(e),
            BodyPart::RightThumbMcp => self.right_hand.thumb.mcp = Some(e),
            BodyPart::RightThumbIp => self.right_hand.thumb.ip = Some(e),
            BodyPart::RightIndexMcp => self.right_hand.index.mcp = Some(e),
            BodyPart::RightIndexPip => self.right_hand.index.pip = Some(e),
            BodyPart::RightIndexDip => self.right_hand.index.dip = Some(e),
            BodyPart::RightMiddleMcp => self.right_hand.middle.mcp = Some(e),
            BodyPart::RightMiddlePip => self.right_hand.middle.pip = Some(e),
            BodyPart::RightMiddleDip => self.right_hand.middle.dip = Some(e),
            BodyPart::RightRingMcp => self.right_hand.ring.mcp = Some(e),
            BodyPart::RightRingPip => self.right_hand.ring.pip = Some(e),
            BodyPart::RightRingDip => self.right_hand.ring.dip = Some(e),
            BodyPart::RightPinkyMcp => self.right_hand.pinky.mcp = Some(e),
            BodyPart::RightPinkyPip => self.right_hand.pinky.pip = Some(e),
            BodyPart::RightPinkyDip => self.right_hand.pinky.dip = Some(e),
            BodyPart::LeftUpperLeg => self.left_leg.upper = Some(e),
            BodyPart::LeftLowerLeg => self.left_leg.lower = Some(e),
            BodyPart::RightUpperLeg => self.right_leg.upper = Some(e),
            BodyPart::RightLowerLeg => self.right_leg.lower = Some(e),
        }
    }

    /// Takes a named node of the loaded scene: if its name is that of a
    /// part, the node becomes that part's node and the part is returned;
    /// otherwise nothing changes.
    pub fn record(&mut self, e: E, name: &str) -> (r: Option<BodyPart>)
        ensures
            forall|p: BodyPart| (r == Some(p)) <==> name@ == #[trigger] part_name(p),
            r matches Some(p) ==> final(self).part(p) == Some(e) && forall|q: BodyPart|
                q != p ==> final(self).part(q) == old(self).part(q),
            r is None ==> *final(self) == *old(self),
    {
        match BodyPart::from_name(name) {
            Some(p) => {
                self.set(p, e);
                Some(p)
            },
            None => None,
        }
    }
}

} // verus!
