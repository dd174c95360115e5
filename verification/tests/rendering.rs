use complex_numbers::angle::{Angle, AngleUnit};
use complex_numbers::complex::Complex;
use complex_numbers::polar::Polar;
use complex_numbers::scalar::Scalar;
use complex_numbers::text::Piece;

fn scalar(x: f64) -> Scalar {
    Scalar::from_bits(x.to_bits())
}

fn complex(r: f64, i: f64) -> Complex {
    Complex { r: scalar(r), i: scalar(i) }
}

fn plain(x: f64) -> Piece {
    Piece::Number { value: scalar(x), precision: None }
}

fn fixed(x: f64, places: usize) -> Piece {
    Piece::Number { value: scalar(x), precision: Some(places) }
}

fn show(pieces: &Vec<Piece>) -> String {
    let mut out = String::new();
    for piece in pieces {
        match (piece.fixed_text(), piece.number()) {
            (Some(text), _) => out.push_str(text),
            (None, Some((x, Some(p)))) => out.push_str(&format!("{:.*}", p, f64::from_bits(x.bits))),
            (None, Some((x, None))) => out.push_str(&format!("{}", f64::from_bits(x.bits))),
            (None, None) => panic!("a piece with neither text nor number"),
        }
    }
    out
}

#[test]
fn sum_is_rendered_with_plus() {
    let c = complex(8.0, 17.0);
    assert_eq!(
        c.pieces(None),
        vec![plain(8.0), Piece::Plus, plain(17.0), Piece::ImaginaryUnit]
    );
    assert_eq!(show(&c.pieces(None)), "8 + 17i");
}

#[test]
fn difference_is_rendered_with_plus() {
    assert_eq!(show(&complex(2.0, 3.0).pieces(None)), "2 + 3i");
}

#[test]
fn conjugate_is_rendered_with_minus() {
    let c = complex(5.0, 10.0).conjugate();
    assert_eq!(c, complex(5.0, -10.0));
    assert_eq!(
        c.pieces(None),
        vec![plain(5.0), Piece::Minus, plain(10.0), Piece::ImaginaryUnit]
    );
    assert_eq!(show(&c.pieces(None)), "5 - 10i");
}

#[test]
fn quotient_is_rendered_to_five_places() {
    let c = complex(58.0 / 31.0, 15.0 / 31.0);
    assert_eq!(
        c.pieces(Some(5)),
        vec![
            fixed(58.0 / 31.0, 5),
            Piece::Plus,
            fixed(15.0 / 31.0, 5),
            Piece::ImaginaryUnit
        ]
    );
    assert_eq!(show(&c.pieces(Some(5))), "1.87097 + 0.48387i");
}

#[test]
fn product_is_rendered_to_two_places() {
    let c = complex(-55.0, 65.0);
    assert_eq!(show(&c.pieces(Some(2))), "-55.00 + 65.00i");
    assert_eq!(show(&c.pieces(None)), "-55 + 65i");
}

#[test]
fn zero_real_part_is_dropped() {
    assert_eq!(show(&complex(0.0, 3.5).pieces(None)), "3.5i");
    assert_eq!(show(&complex(-0.0, -3.5).pieces(None)), "-3.5i");
    assert_eq!(show(&complex(0.0, 3.5).pieces(Some(2))), "3.50i");
    assert_eq!(
        complex(0.0, -3.5).pieces(None),
        vec![plain(-3.5), Piece::ImaginaryUnit]
    );
    assert_eq!(
        complex(0.0, -3.5).pieces(Some(1)),
        vec![fixed(-3.5, 1), Piece::ImaginaryUnit]
    );
}

#[test]
fn zero_is_rendered_as_imaginary_zero() {
    assert_eq!(show(&complex(0.0, 0.0).pieces(None)), "0i");
    assert_eq!(show(&complex(0.0, 0.0).pieces(Some(3))), "0.000i");
}

#[test]
fn zero_imaginary_part_is_dropped() {
    assert_eq!(show(&complex(5.0, 0.0).pieces(None)), "5");
    assert_eq!(show(&complex(5.0, -0.0).pieces(None)), "5");
    assert_eq!(show(&complex(-2.25, 0.0).pieces(Some(1))), "-2.2");
    assert_eq!(complex(5.0, 0.0).pieces(None), vec![plain(5.0)]);
    assert_eq!(complex(5.0, 0.0).pieces(Some(0)), vec![fixed(5.0, 0)]);
}

#[test]
fn zero_part_wins_over_nan() {
    assert_eq!(show(&complex(0.0, f64::NAN).pieces(None)), "NaNi");
    assert_eq!(show(&complex(f64::NAN, 0.0).pieces(None)), "NaN");
    assert_eq!(
        complex(f64::NAN, 0.0).pieces(Some(2)),
        vec![fixed(f64::NAN, 2)]
    );
}

#[test]
fn nan_shows_the_real_part_without_precision() {
    let c = complex(1.5, f64::NAN);
    assert_eq!(c.pieces(None), vec![plain(1.5)]);
    assert_eq!(c.pieces(Some(4)), vec![plain(1.5)]);
    assert_eq!(show(&c.pieces(None)), "1.5");
    assert_eq!(show(&c.pieces(Some(4))), "1.5");
    let d = complex(f64::NAN, 2.0);
    assert_eq!(d.pieces(Some(4)), vec![plain(f64::NAN)]);
    assert_eq!(show(&d.pieces(Some(4))), "NaN");
}

#[test]
fn infinite_parts_are_rendered_like_numbers() {
    assert_eq!(
        show(&complex(1.0, f64::NEG_INFINITY).pieces(None)),
        "1 - infi"
    );
    assert_eq!(
        show(&complex(f64::NEG_INFINITY, f64::INFINITY).pieces(None)),
        "-inf + infi"
    );
}

#[test]
fn sign_word_carries_the_sign() {
    let c = complex(3.0, -4.0);
    let pieces = c.pieces(Some(1));
    assert_eq!(pieces.len(), 4);
    assert_eq!(pieces[1], Piece::Minus);
    assert_eq!(pieces[2], fixed(4.0, 1));
    let back = c.conjugate().pieces(Some(1));
    assert_eq!(back[1], Piece::Plus);
    assert_eq!(back[0], pieces[0]);
    assert_eq!(back[2], pieces[2]);
    assert_eq!(back[3], pieces[3]);
}

#[test]
fn degrees_are_rendered_to_two_places() {
    let a = Angle::from_degrees(scalar(30.0));
    assert_eq!(a.unit, AngleUnit::Degrees);
    assert_eq!(a.pieces(Some(2)), vec![fixed(30.0, 2), Piece::DegreeSign]);
    assert_eq!(a.pieces(None), vec![plain(30.0), Piece::DegreeSign]);
    assert_eq!(show(&a.pieces(Some(2))), "30.00°");
    assert_eq!(show(&a.pieces(None)), "30°");
}

#[test]
fn radians_have_no_suffix() {
    let a = Angle::from_radians(scalar(0.5));
    assert_eq!(a.unit, AngleUnit::Radians);
    assert_eq!(a.value, scalar(0.5));
    assert_eq!(a.pieces(None), vec![plain(0.5)]);
    assert_eq!(show(&a.pieces(None)), "0.5");
    assert_eq!(show(&a.pieces(Some(3))), "0.500");
}

#[test]
fn zero_argument_is_rendered_as_zero() {
    let a = Angle::from_radians(scalar(0.0));
    assert_eq!(show(&a.pieces(None)), "0");
    assert_eq!(show(&a.pieces(Some(2))), "0.00");
}

#[test]
fn magnitude_is_rendered_to_two_places() {
    let p = Polar {
        magnitude: scalar(125.0f64.sqrt()),
        angle: Angle::from_radians(scalar(10.0f64.atan2(5.0))),
    };
    assert_eq!(show(&p.pieces(Some(2))), "11.18 ∢ 1.11");
}

#[test]
fn angles_are_not_normalised() {
    let a = Angle::from_degrees(scalar(725.0));
    assert_eq!(a.value, scalar(725.0));
    assert_eq!(show(&a.pieces(None)), "725°");
}

#[test]
fn polar_form_is_rendered_with_its_angle() {
    let p = Polar { magnitude: scalar(5.0), angle: Angle::from_degrees(scalar(30.0)) };
    assert_eq!(
        p.pieces(None),
        vec![plain(5.0), Piece::AngleSign, plain(30.0), Piece::DegreeSign]
    );
    assert_eq!(show(&p.pieces(None)), "5 ∢ 30°");
    let q = Polar { magnitude: scalar(5.0), angle: Angle::from_radians(scalar(0.0)) };
    assert_eq!(show(&q.pieces(None)), "5 ∢ 0");
}

#[test]
fn polar_precision_reaches_the_angle() {
    let p = Polar { magnitude: scalar(5.0), angle: Angle::from_degrees(scalar(30.0)) };
    assert_eq!(
        p.pieces(Some(2)),
        vec![fixed(5.0, 2), Piece::AngleSign, fixed(30.0, 2), Piece::DegreeSign]
    );
    assert_eq!(show(&p.pieces(Some(2))), "5.00 ∢ 30.00°");
    let q = Polar { magnitude: scalar(5.0), angle: Angle::from_radians(scalar(0.0)) };
    assert_eq!(show(&q.pieces(Some(1))), "5.0 ∢ 0.0");
}

#[test]
fn fixed_texts() {
    assert_eq!(Piece::Plus.fixed_text(), Some(" + "));
    assert_eq!(Piece::Minus.fixed_text(), Some(" - "));
    assert_eq!(Piece::ImaginaryUnit.fixed_text(), Some("i"));
    assert_eq!(Piece::DegreeSign.fixed_text(), Some("°"));
    assert_eq!(Piece::AngleSign.fixed_text(), Some(" ∢ "));
    assert_eq!(plain(1.0).fixed_text(), None);
    assert_eq!(fixed(1.0, 3).fixed_text(), None);
}

#[test]
fn numbers_of_pieces() {
    assert_eq!(plain(1.0).number(), Some((scalar(1.0), None)));
    assert_eq!(fixed(2.0, 7).number(), Some((scalar(2.0), Some(7))));
    assert_eq!(Piece::Plus.number(), None);
    assert_eq!(Piece::Minus.number(), None);
    assert_eq!(Piece::ImaginaryUnit.number(), None);
    assert_eq!(Piece::DegreeSign.number(), None);
    assert_eq!(Piece::AngleSign.number(), None);
}

#[test]
fn angle_is_read_in_its_own_unit() {
    let r = Angle::from_radians(scalar(1.25));
    assert_eq!(r.as_radians(), Some(scalar(1.25)));
    assert_eq!(r.as_degrees(), None);
    let d = Angle::from_degrees(scalar(30.0));
    assert_eq!(d.as_degrees(), Some(scalar(30.0)));
    assert_eq!(d.as_radians(), None);
    let n = Angle::from_radians(scalar(f64::NAN));
    assert_eq!(n.as_radians(), Some(scalar(f64::NAN)));
}
