use vstd::prelude::*;
use crate::scalar::Scalar;
use crate::text::Piece;

verus! {

/// The unit in which an angle's value is to be read.
#[derive(Clone, Copy, Debug, PartialEq, Eq, Structural)]
pub enum AngleUnit {
    Radians,
    Degrees,
}

/// A value tagged with its unit. The value is never normalised: an angle in
/// degrees may exceed 360, one in radians may exceed a full turn.
#[derive(Clone, Copy, Debug, PartialEq, Eq, Structural)]
pub struct Angle {
    pub value: Scalar,
    pub unit: AngleUnit,
}

impl Angle {
    /// The rendering of an angle: its value at the requested precision, and
    /// behind a value in degrees the degree sign.
    pub open spec fn spec_pieces(self, precision: Option<usize>) -> Seq<Piece> {
        match self.unit {
            AngleUnit::Radians => seq![Piece::Number { value: self.value, precision }],
            AngleUnit::Degrees => seq![
                Piece::Number { value: self.value, precision },
                Piece::DegreeSign,
            ],
        }
    }

    /// The angle of `value` radians.
    pub open spec fn spec_from_radians(value: Scalar) -> Angle {
        Angle { value, unit: AngleUnit::Radians }
    }

    /// The angle of `value` degrees.
    pub open spec fn spec_from_degrees(value: Scalar) -> Angle {
        Angle { value, unit: AngleUnit::Degrees }
    }

    /// The value in radians, where the angle holds it: to read degrees as
    /// radians takes a scaling by pi over 180, which rounds.
    pub open spec fn spec_as_radians(self) -> Option<Scalar> {
        match self.unit {
            AngleUnit::Radians => Some(self.value),
            AngleUnit::Degrees => None,
        }
    }

    /// The value in degrees, where the angle holds it: to read radians as
    /// degrees takes a scaling by 180 over pi, which rounds.
    pub open spec fn spec_as_degrees(self) -> Option<Scalar> {
        match self.unit {
            AngleUnit::Radians => None,
            AngleUnit::Degrees => Some(self.value),
        }
    }

    /// The angle of `value` radians.
    #[verifier::when_used_as_spec(spec_from_radians)]
    pub fn from_radians(value: Scalar) -> (out: Angle)
        ensures
            out == Angle::spec_from_radians(value),
    {
        Angle { value, unit: AngleUnit::Radians }
    }

    /// The angle of `value` degrees.
    #[verifier::when_used_as_spec(spec_from_degrees)]
    pub fn from_degrees(value: Scalar) -> (out: Angle)
        ensures
            out == Angle::spec_from_degrees(value),
    {
        Angle { value, unit: AngleUnit::Degrees }
    }

    /// The value in radians, unchanged, of an angle in radians; `None` of an
    /// angle in degrees, whose value has to be scaled.
    #[verifier::when_used_as_spec(spec_as_radians)]
    pub fn as_radians(self) -> (out: Option<Scalar>)
        ensures
            out == self.spec_as_radians(),
    {
        match self.unit {
            AngleUnit::Radians => Some(self.value),
            AngleUnit::Degrees => None,
        }
    }

    /// The value in degrees, unchanged, of an angle in degrees; `None` of an
    /// angle in radians, whose value has to be scaled.
    #[verifier::when_used_as_spec(spec_as_degrees)]
    pub fn as_degrees(self) -> (out: Option<Scalar>)
        ensures
            out == self.spec_as_degrees(),
    {
        match self.unit {
            AngleUnit::Radians => None,
            AngleUnit::Degrees => Some(self.value),
        }
    }

    /// Renders the angle, its value with `precision` digits after the
    /// decimal point where one is given.
    pub fn pieces(&self, precision: Option<usize>) -> (out: Vec<Piece>)
        ensures
            out@ == self.spec_pieces(precision),
    {
        let mut out: Vec<Piece> = Vec::new();
        out.push(Piece::Number { value: self.value, precision });
        match self.unit {
            AngleUnit::Radians => {},
            AngleUnit::Degrees => {
                out.push(Piece::DegreeSign);
            },
        }
        assert(out@ =~= self.spec_pieces(precision));
        out
    }
}

/// An angle is read without loss in the unit it was made in, and in that
/// unit alone.
pub proof fn angle_keeps_its_value(value: Scalar)
    ensures
        Angle::from_radians(value).as_radians() == Some(value),
        Angle::from_degrees(value).as_degrees() == Some(value),
        Angle::from_radians(value).as_degrees() is None,
        Angle::from_degrees(value).as_radians() is None,
{
}

} // verus!
