use vstd::prelude::*;
use crate::angle::Angle;
use crate::scalar::Scalar;
use crate::text::Piece;

verus! {

/// A complex number in polar form. The magnitude is by convention not
/// negative; nothing enforces that.
#[derive(Clone, Copy, Debug, PartialEq, Eq, Structural)]
pub struct Polar {
    pub magnitude: Scalar,
    pub angle: Angle,
}

impl Polar {
    /// The rendering of a polar form: the magnitude, the angle sign, and the
    /// angle as it renders itself. A requested precision reaches the angle's
    /// value as it reaches the magnitude.
    pub open spec fn spec_pieces(self, precision: Option<usize>) -> Seq<Piece> {
        seq![Piece::Number { value: self.magnitude, precision }, Piece::AngleSign]
            + self.angle.spec_pieces(precision)
    }

    /// Renders the polar form, each number with `precision` digits after the
    /// decimal point where one is given.
    pub fn pieces(&self, precision: Option<usize>) -> (out: Vec<Piece>)
        ensures
            out@ == self.spec_pieces(precision),
    {
        let mut out: Vec<Piece> = Vec::new();
        out.push(Piece::Number { value: self.magnitude, precision });
        out.push(Piece::AngleSign);
        let mut rest: Vec<Piece> = self.angle.pieces(precision);
        out.append(&mut rest);
        assert(out@ =~= self.spec_pieces(precision));
        out
    }
}

} // verus!
