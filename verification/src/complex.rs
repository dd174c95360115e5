use vstd::prelude::*;
use vstd::std_specs::ops::NegSpec;
use crate::scalar::{abs_is_positive, negate_keeps_the_class, Scalar};
use crate::text::Piece;

verus! {

/// A complex number in Cartesian form: `r` is its real part, `i` its
/// imaginary part. Every pair of values is a valid state.
#[derive(Clone, Copy, Debug, PartialEq, Eq, Structural)]
pub struct Complex {
    pub r: Scalar,
    pub i: Scalar,
}

impl Complex {
    /// The same real part with the imaginary part's sign flipped.
    pub open spec fn spec_conjugate(self) -> Complex {
        Complex { r: self.r, i: self.i.spec_negate() }
    }

    /// The rendering of a complex number, by the first rule that applies:
    /// a zero real part is dropped, and the imaginary part stands alone
    /// before its unit; else a zero imaginary part is dropped; else, where
    /// either part is a NaN, the real part alone is shown, and without the
    /// requested precision; else both parts are shown, the real part first,
    /// then the sign of the imaginary part as a word of its own, then its
    /// size and the unit. But for the third rule every number is shown at
    /// the requested precision.
    pub open spec fn spec_pieces(self, precision: Option<usize>) -> Seq<Piece> {
        if self.r.spec_is_zero() {
            seq![Piece::Number { value: self.i, precision }, Piece::ImaginaryUnit]
        } else if self.i.spec_is_zero() {
            seq![Piece::Number { value: self.r, precision }]
        } else if self.r.spec_is_nan() || self.i.spec_is_nan() {
            seq![Piece::Number { value: self.r, precision: None }]
        } else {
            seq![
                Piece::Number { value: self.r, precision },
                if self.i.spec_is_positive() {
                    Piece::Plus
                } else {
                    Piece::Minus
                },
                Piece::Number { value: self.i.spec_abs(), precision },
                Piece::ImaginaryUnit,
            ]
        }
    }

    /// The complex conjugate.
    #[verifier::when_used_as_spec(spec_conjugate)]
    pub fn conjugate(self) -> (out: Complex)
        ensures
            out == self.spec_conjugate(),
    {
        Complex { r: self.r, i: self.i.negate() }
    }

    /// Renders the number, with `precision` digits after the decimal point
    /// of each part where one is given.
    pub fn pieces(&self, precision: Option<usize>) -> (out: Vec<Piece>)
        ensures
            out@ == self.spec_pieces(precision),
    {
        let mut out: Vec<Piece> = Vec::new();
        if self.r.is_zero() {
            out.push(Piece::Number { value: self.i, precision });
            out.push(Piece::ImaginaryUnit);
        } else if self.i.is_zero() {
            out.push(Piece::Number { value: self.r, precision });
        } else if self.r.is_nan() || self.i.is_nan() {
            out.push(Piece::Number { value: self.r, precision: None });
        } else {
            out.push(Piece::Number { value: self.r, precision });
            if self.i.is_positive() {
                out.push(Piece::Plus);
            } else {
                out.push(Piece::Minus);
            }
            out.push(Piece::Number { value: self.i.abs(), precision });
            out.push(Piece::ImaginaryUnit);
        }
        assert(out@ =~= self.spec_pieces(precision));
        out
    }
}

/// The additive inverse, written `-c`.
impl core::ops::Neg for Complex {
    type Output = Complex;

    fn neg(self) -> (out: Complex) {
        Complex { r: self.r.negate(), i: self.i.negate() }
    }
}

impl vstd::std_specs::ops::NegSpecImpl for Complex {
    open spec fn obeys_neg_spec() -> bool {
        true
    }

    open spec fn neg_req(self) -> bool {
        true
    }

    /// Both parts with their signs flipped.
    open spec fn neg_spec(self) -> Complex {
        Complex { r: self.r.spec_negate(), i: self.i.spec_negate() }
    }
}

/// Conjugating twice gives the number back: both parts, bit for bit.
pub proof fn conjugate_is_an_involution(c: Complex)
    ensures
        c.spec_conjugate().spec_conjugate() == c,
{
}

/// Negating twice gives the number back.
pub proof fn neg_is_an_involution(c: Complex)
    ensures
        c.neg_spec().neg_spec() == c,
{
}

/// Where both parts are shown, the word between them alone tells the sign of
/// the imaginary part: the number behind it is positive, and it is the
/// imaginary part itself after `Plus`, its negation after `Minus`.
pub proof fn sign_is_told_by_the_word(c: Complex, precision: Option<usize>)
    requires
        !c.r.spec_is_zero(),
        !c.i.spec_is_zero(),
        !c.r.spec_is_nan(),
        !c.i.spec_is_nan(),
    ensures
        c.spec_pieces(precision).len() == 4,
        c.spec_pieces(precision)[0] == (Piece::Number { value: c.r, precision }),
        c.spec_pieces(precision)[2] == (Piece::Number { value: c.i.spec_abs(), precision }),
        c.spec_pieces(precision)[3] == Piece::ImaginaryUnit,
        c.i.spec_abs().spec_is_positive(),
        c.spec_pieces(precision)[1] == Piece::Plus ==> c.i.spec_abs() == c.i,
        c.spec_pieces(precision)[1] == Piece::Minus ==> c.i.spec_abs() == c.i.spec_negate(),
{
    abs_is_positive(c.i);
}

/// A number and its conjugate are rendered alike but for the sign of the
/// imaginary part: where both parts are shown, `Plus` and `Minus` change
/// places and nothing else differs.
pub proof fn conjugate_swaps_the_word(c: Complex, precision: Option<usize>)
    requires
        !c.r.spec_is_zero(),
        !c.i.spec_is_zero(),
        !c.r.spec_is_nan(),
        !c.i.spec_is_nan(),
    ensures
        c.spec_pieces(precision)[1] == Piece::Plus ==> c.spec_conjugate().spec_pieces(precision)
            == c.spec_pieces(precision).update(1, Piece::Minus),
        c.spec_pieces(precision)[1] == Piece::Minus ==> c.spec_conjugate().spec_pieces(precision)
            == c.spec_pieces(precision).update(1, Piece::Plus),
{
    negate_keeps_the_class(c.i);
    assert(c.i.spec_negate().spec_abs() == c.i.spec_abs());
    if c.spec_pieces(precision)[1] == Piece::Plus {
        assert(c.spec_conjugate().spec_pieces(precision) =~= c.spec_pieces(precision).update(
            1,
            Piece::Minus,
        ));
    } else {
        assert(c.spec_conjugate().spec_pieces(precision) =~= c.spec_pieces(precision).update(
            1,
            Piece::Plus,
        ));
    }
}

/// Without a requested precision no number of a rendering has one.
pub proof fn no_precision_unless_requested(c: Complex, k: int)
    requires
        0 <= k < c.spec_pieces(None).len(),
    ensures
        match c.spec_pieces(None)[k].spec_number() {
            Some((_, precision)) => precision is None,
            None => true,
        },
{
}

} // verus!
