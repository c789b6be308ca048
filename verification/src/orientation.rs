use crate::error::Error;
use vstd::prelude::*;

verus! {

/// The eight orientations of the EXIF convention, in the order of their
/// numeric codes 1 to 8.
#[derive(Clone, Copy, Debug, PartialEq, Eq, Structural)]
pub enum Orientation {
    /// Normal
    Horizontal,
    MirrorHorizontal,
    Rotate180,
    MirrorVertical,
    MirrorHorizontalAndRotate270Cw,
    Rotate90Cw,
    MirrorHorizontalAndRotate90Cw,
    Rotate270Cw,
}

impl Default for Orientation {
    fn default() -> (out: Self)
        ensures
            out == Orientation::Horizontal,
    {
        Orientation::Horizontal
    }
}

impl Orientation {
    /// The numeric code of the orientation.
    pub open spec fn code(self) -> int {
        match self {
            Orientation::Horizontal => 1,
            Orientation::MirrorHorizontal => 2,
            Orientation::Rotate180 => 3,
            Orientation::MirrorVertical => 4,
            Orientation::MirrorHorizontalAndRotate270Cw => 5,
            Orientation::Rotate90Cw => 6,
            Orientation::MirrorHorizontalAndRotate90Cw => 7,
            Orientation::Rotate270Cw => 8,
        }
    }

    /// The orientation with the numeric code `value`, for the codes 1 to 8.
    pub open spec fn from_code(value: int) -> Option<Orientation> {
        if value == 1 {
            Some(Orientation::Horizontal)
        } else if value == 2 {
            Some(Orientation::MirrorHorizontal)
        } else if value == 3 {
            Some(Orientation::Rotate180)
        } else if value == 4 {
            Some(Orientation::MirrorVertical)
        } else if value == 5 {
            Some(Orientation::MirrorHorizontalAndRotate270Cw)
        } else if value == 6 {
            Some(Orientation::Rotate90Cw)
        } else if value == 7 {
            Some(Orientation::MirrorHorizontalAndRotate90Cw)
        } else if value == 8 {
            Some(Orientation::Rotate270Cw)
        } else {
            None
        }
    }

    /// The orientation with the numeric code `value`.
    ///
    /// Fails with `InvalidOrientation` for a value outside 1 to 8.
    pub fn try_from(value: u16) -> (out: Result<Orientation, Error>)
        ensures
            out == match Orientation::from_code(value as int) {
                Some(o) => Ok::<Orientation, Error>(o),
                None => Err(Error::InvalidOrientation),
            },
    {
        match value {
            1 => Ok(Orientation::Horizontal),
            2 => Ok(Orientation::MirrorHorizontal),
            3 => Ok(Orientation::Rotate180),
            4 => Ok(Orientation::MirrorVertical),
            5 => Ok(Orientation::MirrorHorizontalAndRotate270Cw),
            6 => Ok(Orientation::Rotate90Cw),
            7 => Ok(Orientation::MirrorHorizontalAndRotate90Cw),
            8 => Ok(Orientation::Rotate270Cw),
            _ => Err(Error::InvalidOrientation),
        }
    }

    /// The numeric code as a 16-bit number.
    pub open spec fn to_u16_spec(self) -> u16 {
        self.code() as u16
    }

    /// The numeric code as a machine integer.
    pub fn to_u16(self) -> (code: u16)
        ensures
            code == self.code(),
    {
        match self {
            Orientation::Horizontal => 1,
            Orientation::MirrorHorizontal => 2,
            Orientation::Rotate180 => 3,
            Orientation::MirrorVertical => 4,
            Orientation::MirrorHorizontalAndRotate270Cw => 5,
            Orientation::Rotate90Cw => 6,
            Orientation::MirrorHorizontalAndRotate90Cw => 7,
            Orientation::Rotate270Cw => 8,
        }
    }
}

/// The code of an orientation leads back to it, and only the codes from 1
/// to 8 are codes of an orientation.
pub proof fn lemma_orientation_codes(o: Orientation, value: int)
    ensures
        Orientation::from_code(o.code()) == Some(o),
        1 <= o.code() <= 8,
        Orientation::from_code(value) is Some <==> 1 <= value <= 8,
        Orientation::from_code(value) matches Some(found) ==> found.code() == value,
{
}

} // verus!
