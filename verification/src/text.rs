use vstd::prelude::*;
use crate::scalar::Scalar;

verus! {

/// One part of a rendering. A rendering is a sequence of pieces; its text is
/// the texts of its pieces, one after the other.
///
/// The text of a number without a precision is the shortest decimal text
/// that reads back as the same value; with a precision it has that many
/// digits after the decimal point. Every other piece has a fixed text.
#[derive(Clone, Copy, Debug, PartialEq, Eq, Structural)]
pub enum Piece {
    /// A number, with the precision to show it at, if any.
    Number { value: Scalar, precision: Option<usize> },
    /// `" + "`, between a real part and a positive imaginary part.
    Plus,
    /// `" - "`, between a real part and the size of any other imaginary part.
    Minus,
    /// `"i"`, behind an imaginary part.
    ImaginaryUnit,
    /// `"°"`, behind a value in degrees.
    DegreeSign,
    /// `" ∢ "`, between a magnitude and its angle.
    AngleSign,
}

impl Piece {
    /// The text of a piece that is no number.
    pub open spec fn spec_fixed_text(self) -> Option<Seq<char>> {
        match self {
            Piece::Number { .. } => None,
            Piece::Plus => Some(" + "@),
            Piece::Minus => Some(" - "@),
            Piece::ImaginaryUnit => Some("i"@),
            Piece::DegreeSign => Some("°"@),
            Piece::AngleSign => Some(" ∢ "@),
        }
    }

    /// The number that the piece shows and the precision to show it at, if
    /// it shows one.
    pub open spec fn spec_number(self) -> Option<(Scalar, Option<usize>)> {
        match self {
            Piece::Number { value, precision } => Some((value, precision)),
            _ => None,
        }
    }

    /// The text of the piece, or `None` for a number.
    pub fn fixed_text(&self) -> (out: Option<&'static str>)
        ensures
            match out {
                Some(text) => self.spec_fixed_text() == Some(text@),
                None => self.spec_fixed_text() is None,
            },
    {
        match self {
            Piece::Number { .. } => None,
            Piece::Plus => Some(" + "),
            Piece::Minus => Some(" - "),
            Piece::ImaginaryUnit => Some("i"),
            Piece::DegreeSign => Some("°"),
            Piece::AngleSign => Some(" ∢ "),
        }
    }

    /// The number that the piece shows and the precision to show it at, or
    /// `None` for a fixed text.
    pub fn number(&self) -> (out: Option<(Scalar, Option<usize>)>)
        ensures
            out == self.spec_number(),
    {
        match self {
            Piece::Number { value, precision } => Some((*value, *precision)),
            _ => None,
        }
    }
}

/// Every piece is a number or a fixed text, never both.
pub proof fn piece_is_number_or_text(piece: Piece)
    ensures
        piece.spec_number() is Some <==> piece.spec_fixed_text() is None,
{
}

} // verus!
