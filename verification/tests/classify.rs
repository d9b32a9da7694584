use std::borrow::Cow;
use std::collections::HashMap;
use typed_pdf::normalize_operation;
use typed_pdf::normalize_operation_with_font;
use typed_pdf::BaseEncoding;
use typed_pdf::ColorRenderingIntent;
use typed_pdf::FontInfo;
use typed_pdf::Instruction;
use typed_pdf::LineCapStyle;
use typed_pdf::LineJoinStyle;
use typed_pdf::Name;
use typed_pdf::Operation;
use typed_pdf::Primitive;
use typed_pdf::Real;
use typed_pdf::TextOrGlyphPositioning;
use typed_pdf::TextRenderingMode;
use typed_pdf::UntypedColor;

fn r(x: f32) -> Real {
    Real::from_bits(x.to_bits())
}

fn whole(i: i32) -> Primitive {
    Primitive::Integer(i)
}

fn num(x: f32) -> Primitive {
    Primitive::Number(r(x))
}

fn name(s: &str) -> Primitive {
    Primitive::Name(s.to_string())
}

fn string(s: &[u8]) -> Primitive {
    Primitive::String(s.to_vec())
}

fn ins(operator: &str, operands: Vec<Primitive>) -> Instruction {
    Instruction { operator: operator.to_string(), operands }
}

fn is_unknown(instruction: &Instruction) -> bool {
    match normalize_operation(instruction) {
        Operation::Unknown { operator, operands } => {
            operator == instruction.operator && operands == instruction.operands.as_slice()
        }
        _ => false,
    }
}

#[test]
fn unknown_keeps_operator_and_operands() {
    let i = ins("zz", vec![whole(1), string(b"x")]);
    let expected = [whole(1), string(b"x")];
    assert_eq!(
        normalize_operation(&i),
        Operation::Unknown { operator: "zz", operands: &expected }
    );
}

#[test]
fn unknown_keeps_values_of_every_type() {
    let operands = || {
        vec![
            Primitive::Null,
            Primitive::Boolean(true),
            Primitive::Reference { id: 12, generation: 3 },
            Primitive::Dictionary(vec![("Type".to_string(), name("XObject"))]),
            Primitive::Stream { info: vec![("Length".to_string(), whole(2))], data: vec![1, 2] },
            Primitive::Array(vec![whole(1), Primitive::Array(vec![num(0.5)])]),
        ]
    };
    let i = ins("m", operands());
    let expected = operands();
    assert_eq!(normalize_operation(&i), Operation::Unknown { operator: "m", operands: &expected });
}

#[test]
fn names_that_are_no_operator_are_unknown() {
    for op in ["", "zz", "bb", "b**", "TJ ", "tj", "Bt", "BDCX", "\u{e9}", "sC", "q ", " q", "RE", "D0"] {
        assert!(is_unknown(&ins(op, vec![])), "{:?}", op);
        assert!(is_unknown(&ins(op, vec![whole(1)])), "{:?}", op);
    }
}

#[test]
fn painting_operators_ignore_their_operands() {
    let cases: Vec<(&str, Operation)> = vec![
        ("b", Operation::CloseFillAndStrokePathUsingNonZeroWindingNumber),
        ("B", Operation::FillAndStrokePathUsingNonZeroWindingNumber),
        ("b*", Operation::CloseFillAndStrokePathUsingEvenOddRule),
        ("B*", Operation::FillAndStrokePathUsingEvenOddRule),
        ("BT", Operation::BeginTextObject),
        ("ET", Operation::EndTextObject),
        ("f", Operation::FillPathUsingNonZeroWindingNumberRule),
        ("F", Operation::ObsoleteFillPathUsingNonZeroWindingMumberRule),
        ("f*", Operation::FillPathUsingEvenOddRule),
        ("h", Operation::CloseSubpath),
        ("n", Operation::EndPathWithoutFillingOrStroking),
        ("q", Operation::SaveGraphicsState),
        ("Q", Operation::RestoreGraphicsState),
        ("s", Operation::CloseAndStrokePath),
        ("S", Operation::StrokePath),
        ("T*", Operation::MoveToStartOfNextTextLine),
        ("W", Operation::SetClippingPathUsingNonZeroWindingNumberRule),
        ("W*", Operation::SetClippingPathUsingEvenOddRule),
    ];
    for (op, expected) in &cases {
        assert_eq!(&normalize_operation(&ins(op, vec![])), expected);
        assert_eq!(&normalize_operation(&ins(op, vec![whole(1), name("x"), Primitive::Null])), expected);
    }
}

#[test]
fn bracketing_operators_take_no_operand() {
    let cases: Vec<(&str, Operation)> = vec![
        ("BI", Operation::BeginInlineImageObject),
        ("BX", Operation::BeginCompatibilitySection),
        ("EI", Operation::EndInlineImageObject),
        ("EMC", Operation::EndMarkedContentSequence),
        ("EX", Operation::EndCompatibilitySection),
    ];
    for (op, expected) in &cases {
        assert_eq!(&normalize_operation(&ins(op, vec![])), expected);
        assert!(is_unknown(&ins(op, vec![whole(1)])));
        assert!(is_unknown(&ins(op, vec![name("Span")])));
        assert!(is_unknown(&ins(op, vec![name("Span"), name("Props")])));
    }
}

fn dictionary(entries: Vec<(&str, Primitive)>) -> Primitive {
    Primitive::Dictionary(entries.into_iter().map(|(key, value)| (key.to_string(), value)).collect())
}

#[test]
fn marked_content_sequence_takes_its_tag() {
    assert_eq!(
        normalize_operation(&ins("BMC", vec![name("Span")])),
        Operation::BeginMarkedContentSequence
    );
    assert_eq!(
        normalize_operation_with_font(&ins("BMC", vec![name("Span")]), Some(&latin())),
        Operation::BeginMarkedContentSequence
    );
    assert_eq!(normalize_operation(&ins("BMC", vec![name("")])), Operation::BeginMarkedContentSequence);
    assert!(is_unknown(&ins("BMC", vec![])));
    assert!(is_unknown(&ins("BMC", vec![string(b"Span")])));
    assert!(is_unknown(&ins("BMC", vec![whole(1)])));
    assert!(is_unknown(&ins("BMC", vec![name("Span"), name("Props")])));
    assert!(is_unknown(&ins("BMC", vec![name("Span"), dictionary(vec![])])));
}

#[test]
fn marked_content_with_a_property_list_takes_tag_and_properties() {
    let cases: Vec<(&str, Operation)> = vec![
        ("BDC", Operation::BeginMarkedContentSequenceWithPropertyList),
        ("DP", Operation::DefineMarkedContentPointWithPropertyList),
    ];
    for (op, expected) in &cases {
        assert_eq!(&normalize_operation(&ins(op, vec![name("Span"), name("Props")])), expected);
        assert_eq!(
            &normalize_operation(&ins(op, vec![name("Span"), dictionary(vec![("MCID", whole(0))])])),
            expected
        );
        assert_eq!(&normalize_operation(&ins(op, vec![name("Artifact"), dictionary(vec![])])), expected);
        assert!(is_unknown(&ins(op, vec![])));
        assert!(is_unknown(&ins(op, vec![name("Span")])));
        assert!(is_unknown(&ins(op, vec![dictionary(vec![]), name("Span")])));
        assert!(is_unknown(&ins(op, vec![name("Span"), whole(0)])));
        assert!(is_unknown(&ins(op, vec![name("Span"), string(b"Props")])));
        assert!(is_unknown(&ins(op, vec![name("Span"), Primitive::Array(vec![])])));
        assert!(is_unknown(&ins(op, vec![string(b"Span"), name("Props")])));
        assert!(is_unknown(&ins(op, vec![name("Span"), name("Props"), name("More")])));
    }
}

#[test]
fn inline_image_data_takes_the_entries_of_the_image() {
    let expected = Operation::BeginInlineImageData;
    assert_eq!(normalize_operation(&ins("ID", vec![])), expected);
    assert_eq!(normalize_operation(&ins("ID", vec![name("W"), whole(4)])), expected);
    assert_eq!(
        normalize_operation(&ins(
            "ID",
            vec![
                name("W"),
                whole(4),
                name("H"),
                whole(4),
                name("BPC"),
                whole(8),
                name("CS"),
                name("RGB"),
                name("F"),
                Primitive::Array(vec![name("AHx"), name("Fl")]),
                name("I"),
                Primitive::Boolean(true),
                name("D"),
                Primitive::Array(vec![num(0.0), num(1.0)]),
            ]
        )),
        expected
    );
    assert!(is_unknown(&ins("ID", vec![name("W")])));
    assert!(is_unknown(&ins("ID", vec![whole(4)])));
    assert!(is_unknown(&ins("ID", vec![whole(4), name("W")])));
    assert!(is_unknown(&ins("ID", vec![name("W"), whole(4), name("H")])));
    assert!(is_unknown(&ins("ID", vec![name("W"), whole(4), whole(4), name("H")])));
    assert!(is_unknown(&ins("ID", vec![name("W"), whole(4), string(b"H"), whole(4)])));
}

#[test]
fn six_number_operators() {
    let xs = || vec![num(1.5), whole(2), num(-3.0), whole(4), num(5.25), whole(-6)];
    assert_eq!(
        normalize_operation(&ins("c", xs())),
        Operation::AppendCurvedSegmentToPath {
            x1: r(1.5),
            y1: r(2.0),
            x2: r(-3.0),
            y2: r(4.0),
            x3: r(5.25),
            y3: r(-6.0)
        }
    );
    assert_eq!(
        normalize_operation(&ins("cm", xs())),
        Operation::ConcatenateMatrixToCurrentTransformationMatrix(
            r(1.5),
            r(2.0),
            r(-3.0),
            r(4.0),
            r(5.25),
            r(-6.0)
        )
    );
    assert_eq!(
        normalize_operation(&ins("d1", xs())),
        Operation::SetGlyphWidthAndBoundingBoxInType3Font {
            wx: r(1.5),
            wy: r(2.0),
            llx: r(-3.0),
            lly: r(4.0),
            urx: r(5.25),
            ury: r(-6.0)
        }
    );
    assert_eq!(
        normalize_operation(&ins("Tm", xs())),
        Operation::SetTextMatrixAndTextLineMatrix(r(1.5), r(2.0), r(-3.0), r(4.0), r(5.25), r(-6.0))
    );
}

#[test]
fn four_number_operators() {
    let xs = || vec![num(0.1), whole(1), num(0.5), whole(0)];
    assert_eq!(
        normalize_operation(&ins("K", xs())),
        Operation::SetCMYKColorForStrokingOperations(r(0.1), r(1.0), r(0.5), r(0.0))
    );
    assert_eq!(
        normalize_operation(&ins("k", xs())),
        Operation::SetCMYKColorForNonStrokingOperations(r(0.1), r(1.0), r(0.5), r(0.0))
    );
    assert_eq!(
        normalize_operation(&ins("re", xs())),
        Operation::AppendRectangleToPath { x: r(0.1), y: r(1.0), width: r(0.5), height: r(0.0) }
    );
    assert_eq!(
        normalize_operation(&ins("v", xs())),
        Operation::AppendCurvedSegmentToPathInitialPointReplicated {
            x2: r(0.1),
            y2: r(1.0),
            x3: r(0.5),
            y3: r(0.0)
        }
    );
    assert_eq!(
        normalize_operation(&ins("y", xs())),
        Operation::AppendCurvedSegmentToPathFinalPointReplicated {
            x1: r(0.1),
            y1: r(1.0),
            x3: r(0.5),
            y3: r(0.0)
        }
    );
}

#[test]
fn three_number_operators() {
    let xs = || vec![num(0.25), whole(1), num(0.75)];
    assert_eq!(
        normalize_operation(&ins("RG", xs())),
        Operation::SetRGBColorForStrokingOperations(r(0.25), r(1.0), r(0.75))
    );
    assert_eq!(
        normalize_operation(&ins("rg", xs())),
        Operation::SetRGBColorForNonStrokingOperations(r(0.25), r(1.0), r(0.75))
    );
}

#[test]
fn two_number_operators() {
    let xs = || vec![whole(100), num(-20.5)];
    assert_eq!(
        normalize_operation(&ins("d0", xs())),
        Operation::SetGlyphWidthInType3Font { wx: r(100.0), wy: r(-20.5) }
    );
    assert_eq!(
        normalize_operation(&ins("l", xs())),
        Operation::AppendStraightLineSegmentToPath { x: r(100.0), y: r(-20.5) }
    );
    assert_eq!(normalize_operation(&ins("m", xs())), Operation::BeginNewSubpath { x: r(100.0), y: r(-20.5) });
    assert_eq!(normalize_operation(&ins("Td", xs())), Operation::MoveTextPosition { x: r(100.0), y: r(-20.5) });
    assert_eq!(
        normalize_operation(&ins("TD", xs())),
        Operation::MoveTextPositionAndSetLeading { x: r(100.0), y: r(-20.5) }
    );
}

#[test]
fn one_number_operators() {
    let both = [(num(0.5), r(0.5)), (whole(3), r(3.0))];
    for (p, x) in both {
        let xs = || vec![match &p {
            Primitive::Integer(i) => Primitive::Integer(*i),
            Primitive::Number(n) => Primitive::Number(*n),
            _ => unreachable!(),
        }];
        assert_eq!(normalize_operation(&ins("G", xs())), Operation::SetGrayLevelForStrokingOperations(x));
        assert_eq!(normalize_operation(&ins("g", xs())), Operation::SetGrayLevelForNonStrokingOperations(x));
        assert_eq!(normalize_operation(&ins("i", xs())), Operation::SetFlatnessTolerance(x));
        assert_eq!(normalize_operation(&ins("M", xs())), Operation::SetMiterLimit(x));
        assert_eq!(normalize_operation(&ins("Tc", xs())), Operation::SetCharacterSpacing(x));
        assert_eq!(normalize_operation(&ins("TL", xs())), Operation::SetTextLeading(x));
        assert_eq!(normalize_operation(&ins("Ts", xs())), Operation::SetTextRise(x));
        assert_eq!(normalize_operation(&ins("Tw", xs())), Operation::SetWordSpacing(x));
        assert_eq!(normalize_operation(&ins("Tz", xs())), Operation::SetHorizontalTextScaling(x));
        assert_eq!(normalize_operation(&ins("w", xs())), Operation::SetLineWidth(x));
    }
}

#[test]
fn numeric_operators_refuse_any_other_count() {
    let table = [
        ("c", 6),
        ("cm", 6),
        ("d1", 6),
        ("Tm", 6),
        ("K", 4),
        ("k", 4),
        ("re", 4),
        ("v", 4),
        ("y", 4),
        ("RG", 3),
        ("rg", 3),
        ("d0", 2),
        ("l", 2),
        ("m", 2),
        ("Td", 2),
        ("TD", 2),
        ("G", 1),
        ("g", 1),
        ("i", 1),
        ("M", 1),
        ("Tc", 1),
        ("TL", 1),
        ("Ts", 1),
        ("Tw", 1),
        ("Tz", 1),
        ("w", 1),
    ];
    for (op, arity) in table {
        for count in 0..9 {
            let operands: Vec<Primitive> = (0..count).map(|i| whole(i)).collect();
            let i = ins(op, operands);
            assert_eq!(is_unknown(&i), count != arity, "{} with {}", op, count);
        }
    }
}

#[test]
fn one_operand_that_is_no_number_makes_the_instruction_unknown() {
    let table = [
        ("c", 6),
        ("cm", 6),
        ("d1", 6),
        ("Tm", 6),
        ("K", 4),
        ("k", 4),
        ("re", 4),
        ("v", 4),
        ("y", 4),
        ("RG", 3),
        ("rg", 3),
        ("SC", 3),
        ("sc", 4),
        ("d0", 2),
        ("l", 2),
        ("m", 2),
        ("Td", 2),
        ("TD", 2),
        ("G", 1),
        ("g", 1),
        ("i", 1),
        ("M", 1),
        ("Tc", 1),
        ("TL", 1),
        ("Ts", 1),
        ("Tw", 1),
        ("Tz", 1),
        ("w", 1),
    ];
    for (op, arity) in table {
        for bad in 0..arity {
            for kind in 0..4 {
                let operands: Vec<Primitive> = (0..arity)
                    .map(|i| {
                        if i != bad {
                            num(i as f32)
                        } else {
                            match kind {
                                0 => name("x"),
                                1 => string(b"1"),
                                2 => Primitive::Boolean(true),
                                _ => Primitive::Array(vec![whole(1)]),
                            }
                        }
                    })
                    .collect();
                assert!(is_unknown(&ins(op, operands)), "{} at {}", op, bad);
            }
        }
    }
}

#[test]
fn a_value_that_is_no_number_is_not_skipped_over() {
    // Six numbers are there, and one name among them.
    let xs = || vec![whole(1), name("x"), whole(2), whole(3), whole(4), whole(5), whole(6)];
    assert!(is_unknown(&ins("c", xs())));
    assert!(is_unknown(&ins("cm", xs())));
    assert!(is_unknown(&ins("Tm", xs())));
}

#[test]
fn an_integer_and_the_same_real_give_one_operation() {
    for op in ["G", "g", "i", "M", "Tc", "TL", "Ts", "Tw", "Tz", "w", "SC", "sc", "SCN", "scn"] {
        for n in [0, 1, -1, 7, 612, 16_777_216, -2_000_000] {
            assert_eq!(
                normalize_operation(&ins(op, vec![whole(n)])),
                normalize_operation(&ins(op, vec![num(n as f32)])),
                "{} {}",
                op,
                n
            );
        }
    }
    assert_eq!(
        normalize_operation(&ins("re", vec![whole(0), whole(0), whole(612), whole(792)])),
        normalize_operation(&ins("re", vec![num(0.0), num(0.0), num(612.0), num(792.0)]))
    );
    assert_eq!(
        normalize_operation(&ins("d", vec![Primitive::Array(vec![whole(3), whole(5)]), whole(6)])),
        normalize_operation(&ins("d", vec![Primitive::Array(vec![num(3.0), num(5.0)]), num(6.0)]))
    );
    assert_eq!(
        normalize_operation(&ins("Tf", vec![name("F1"), whole(12)])),
        normalize_operation(&ins("Tf", vec![name("F1"), num(12.0)]))
    );
    assert_eq!(
        normalize_operation(&ins("TJ", vec![Primitive::Array(vec![whole(-120)])])),
        normalize_operation(&ins("TJ", vec![Primitive::Array(vec![num(-120.0)])]))
    );
}

#[test]
fn text_matrix_with_identity_linear_part_is_a_move() {
    assert_eq!(
        normalize_operation(&ins("Tm", vec![whole(1), whole(0), whole(0), whole(1), whole(72), whole(700)])),
        Operation::MoveTextPosition { x: r(72.0), y: r(700.0) }
    );
    assert_eq!(
        normalize_operation(&ins("Tm", vec![num(1.0), num(0.0), num(0.0), num(1.0), num(72.5), num(-3.0)])),
        Operation::MoveTextPosition { x: r(72.5), y: r(-3.0) }
    );
    assert_eq!(
        normalize_operation(&ins("Tm", vec![whole(1), num(-0.0), num(-0.0), num(1.0), whole(5), whole(6)])),
        Operation::MoveTextPosition { x: r(5.0), y: r(6.0) }
    );
}

#[test]
fn text_matrix_with_a_linear_part_stays_a_matrix() {
    assert_eq!(
        normalize_operation(&ins("Tm", vec![whole(2), whole(0), whole(0), whole(1), whole(72), whole(700)])),
        Operation::SetTextMatrixAndTextLineMatrix(r(2.0), r(0.0), r(0.0), r(1.0), r(72.0), r(700.0))
    );
    assert_eq!(
        normalize_operation(&ins("Tm", vec![whole(1), num(0.5), whole(0), whole(1), whole(0), whole(0)])),
        Operation::SetTextMatrixAndTextLineMatrix(r(1.0), r(0.5), r(0.0), r(1.0), r(0.0), r(0.0))
    );
    assert_eq!(
        normalize_operation(&ins("Tm", vec![whole(1), whole(0), whole(-1), whole(1), whole(0), whole(0)])),
        Operation::SetTextMatrixAndTextLineMatrix(r(1.0), r(0.0), r(-1.0), r(1.0), r(0.0), r(0.0))
    );
    assert_eq!(
        normalize_operation(&ins("Tm", vec![whole(1), whole(0), whole(0), num(-1.0), whole(0), whole(0)])),
        Operation::SetTextMatrixAndTextLineMatrix(r(1.0), r(0.0), r(0.0), r(-1.0), r(0.0), r(0.0))
    );
    let nan = f32::NAN;
    assert_eq!(
        normalize_operation(&ins("Tm", vec![num(nan), whole(0), whole(0), whole(1), whole(0), whole(0)])),
        Operation::SetTextMatrixAndTextLineMatrix(r(nan), r(0.0), r(0.0), r(1.0), r(0.0), r(0.0))
    );
}

#[test]
fn text_leading_takes_one_number() {
    assert_eq!(normalize_operation(&ins("TL", vec![num(14.5)])), Operation::SetTextLeading(r(14.5)));
    assert_eq!(normalize_operation(&ins("TL", vec![whole(14)])), Operation::SetTextLeading(r(14.0)));
    assert!(is_unknown(&ins("TL", vec![])));
    assert!(is_unknown(&ins("TL", vec![num(1.0), num(2.0)])));
    assert!(is_unknown(&ins("TL", vec![name("x")])));
}

#[test]
fn flatness_takes_one_number() {
    assert_eq!(normalize_operation(&ins("i", vec![whole(50)])), Operation::SetFlatnessTolerance(r(50.0)));
    assert_eq!(normalize_operation(&ins("i", vec![num(0.5)])), Operation::SetFlatnessTolerance(r(0.5)));
    assert_eq!(normalize_operation(&ins("i", vec![whole(0)])), Operation::SetFlatnessTolerance(r(0.0)));
    assert!(is_unknown(&ins("i", vec![])));
    assert!(is_unknown(&ins("i", vec![whole(1), whole(2)])));
    assert!(is_unknown(&ins("i", vec![name("x")])));
}

#[test]
fn line_join_styles() {
    assert_eq!(normalize_operation(&ins("j", vec![whole(0)])), Operation::SetLineJoinStyle(LineJoinStyle::MiterJoin));
    assert_eq!(normalize_operation(&ins("j", vec![whole(1)])), Operation::SetLineJoinStyle(LineJoinStyle::RoundJoin));
    assert_eq!(normalize_operation(&ins("j", vec![whole(2)])), Operation::SetLineJoinStyle(LineJoinStyle::BevelJoin));
    assert!(is_unknown(&ins("j", vec![whole(3)])));
    assert!(is_unknown(&ins("j", vec![whole(-1)])));
    assert!(is_unknown(&ins("j", vec![num(1.0)])));
    assert!(is_unknown(&ins("j", vec![])));
    assert!(is_unknown(&ins("j", vec![whole(1), whole(1)])));
}

#[test]
fn line_cap_styles() {
    assert_eq!(normalize_operation(&ins("J", vec![whole(0)])), Operation::SetLineCapStyle(LineCapStyle::ButtCap));
    assert_eq!(normalize_operation(&ins("J", vec![whole(1)])), Operation::SetLineCapStyle(LineCapStyle::RoundCap));
    assert_eq!(
        normalize_operation(&ins("J", vec![whole(2)])),
        Operation::SetLineCapStyle(LineCapStyle::ProjectingSquareCap)
    );
    assert!(is_unknown(&ins("J", vec![whole(3)])));
    assert!(is_unknown(&ins("J", vec![whole(i32::MIN)])));
    assert!(is_unknown(&ins("J", vec![num(0.0)])));
}

#[test]
fn text_rendering_modes() {
    let modes = [
        TextRenderingMode::FillText,
        TextRenderingMode::StrokeText,
        TextRenderingMode::FillThenStrokeText,
        TextRenderingMode::Invisible,
        TextRenderingMode::FillTextAndAddToPathForClipping,
        TextRenderingMode::StrokeTextAndAddToPathForClipping,
        TextRenderingMode::FillThenStrokeTextAndAddToPathForClipping,
        TextRenderingMode::AddTextToPathForClipping,
    ];
    for (i, mode) in modes.iter().enumerate() {
        assert_eq!(
            normalize_operation(&ins("Tr", vec![whole(i as i32)])),
            Operation::SetTextRenderingMode(*mode)
        );
    }
    assert!(is_unknown(&ins("Tr", vec![whole(8)])));
    assert!(is_unknown(&ins("Tr", vec![whole(-1)])));
    assert!(is_unknown(&ins("Tr", vec![num(2.0)])));
    assert!(is_unknown(&ins("Tr", vec![])));
}

#[test]
fn colour_by_number_of_components() {
    assert_eq!(
        normalize_operation(&ins("SC", vec![num(0.5)])),
        Operation::SetColorForStrokingOperations(UntypedColor::DeviceGrayCalGrayOrIndexed(r(0.5)))
    );
    assert_eq!(
        normalize_operation(&ins("SC", vec![whole(1), num(0.5), whole(0)])),
        Operation::SetColorForStrokingOperations(UntypedColor::DeviceRGBCalRGBOrLab(r(1.0), r(0.5), r(0.0)))
    );
    assert_eq!(
        normalize_operation(&ins("SC", vec![whole(1), num(0.5), whole(0), num(0.25)])),
        Operation::SetColorForStrokingOperations(UntypedColor::DeviceCMYK(r(1.0), r(0.5), r(0.0), r(0.25)))
    );
    assert_eq!(
        normalize_operation(&ins("sc", vec![num(0.5)])),
        Operation::SetColorForNonStrokingOperations(UntypedColor::DeviceGrayCalGrayOrIndexed(r(0.5)))
    );
    assert_eq!(
        normalize_operation(&ins("sc", vec![whole(1), num(0.5), whole(0)])),
        Operation::SetColorForNonStrokingOperations(UntypedColor::DeviceRGBCalRGBOrLab(r(1.0), r(0.5), r(0.0)))
    );
    assert_eq!(
        normalize_operation(&ins("sc", vec![whole(1), num(0.5), whole(0), num(0.25)])),
        Operation::SetColorForNonStrokingOperations(UntypedColor::DeviceCMYK(r(1.0), r(0.5), r(0.0), r(0.25)))
    );
    for op in ["SC", "sc"] {
        assert!(is_unknown(&ins(op, vec![])));
        assert!(is_unknown(&ins(op, vec![whole(1), whole(2)])));
        assert!(is_unknown(&ins(op, vec![whole(1), whole(2), whole(3), whole(4), whole(5)])));
        assert!(is_unknown(&ins(op, vec![name("Pat1")])));
    }
}

#[test]
fn special_colour_with_and_without_a_name() {
    assert_eq!(
        normalize_operation(&ins("SCN", vec![num(0.5), whole(1), name("Pat1")])),
        Operation::SetColorForStrokingOperationsICCBasedAndSpecialColorSpaces {
            cs: vec![r(0.5), r(1.0)],
            name: Some(Name("Pat1"))
        }
    );
    assert_eq!(
        normalize_operation(&ins("SCN", vec![num(0.5), whole(1)])),
        Operation::SetColorForStrokingOperationsICCBasedAndSpecialColorSpaces {
            cs: vec![r(0.5), r(1.0)],
            name: None
        }
    );
    assert_eq!(
        normalize_operation(&ins("scn", vec![name("Pat1")])),
        Operation::SetColorForNonStrokingOperationsICCBasedAndSpecialColorSpaces {
            cs: vec![],
            name: Some(Name("Pat1"))
        }
    );
    assert_eq!(
        normalize_operation(&ins("scn", vec![])),
        Operation::SetColorForNonStrokingOperationsICCBasedAndSpecialColorSpaces { cs: vec![], name: None }
    );
    assert_eq!(
        normalize_operation(&ins("scn", vec![whole(1), whole(2), whole(3), whole(4), whole(5)])),
        Operation::SetColorForNonStrokingOperationsICCBasedAndSpecialColorSpaces {
            cs: vec![r(1.0), r(2.0), r(3.0), r(4.0), r(5.0)],
            name: None
        }
    );
    for op in ["SCN", "scn"] {
        assert!(is_unknown(&ins(op, vec![name("Pat1"), num(0.5)])));
        assert!(is_unknown(&ins(op, vec![name("Pat1"), name("Pat2")])));
        assert!(is_unknown(&ins(op, vec![num(0.5), string(b"x"), name("Pat1")])));
        assert!(is_unknown(&ins(op, vec![num(0.5), string(b"x")])));
    }
}

#[test]
fn operators_that_take_one_name() {
    let cases: Vec<(&str, Operation)> = vec![
        ("CS", Operation::SetColorSpaceForStrokingOperations(Name("R1"))),
        ("cs", Operation::SetColorSpaceForNonStrokingOperations(Name("R1"))),
        ("Do", Operation::InvokeNamedXObject(Name("R1"))),
        ("gs", Operation::SetParametersFromGraphicsStateParameterDictionary(Name("R1"))),
        ("MP", Operation::DefineMarkedContentPoint(Name("R1"))),
        ("sh", Operation::PaintAreaDefinedByShadingPattern(Name("R1"))),
    ];
    for (op, expected) in &cases {
        assert_eq!(&normalize_operation(&ins(op, vec![name("R1")])), expected);
        assert!(is_unknown(&ins(op, vec![])));
        assert!(is_unknown(&ins(op, vec![name("R1"), name("R2")])));
        assert!(is_unknown(&ins(op, vec![string(b"R1")])));
        assert!(is_unknown(&ins(op, vec![whole(1)])));
    }
}

#[test]
fn rendering_intents_by_name() {
    let cases = [
        ("AbsoluteColorimetric", ColorRenderingIntent::AbsoluteColorimetric),
        ("RelativeColorimetric", ColorRenderingIntent::RelativeColorimetric),
        ("Saturation", ColorRenderingIntent::Saturation),
        ("Perceptual", ColorRenderingIntent::Perceptual),
    ];
    for (n, intent) in cases {
        assert_eq!(normalize_operation(&ins("ri", vec![name(n)])), Operation::SetColorRenderingIntent(intent));
    }
    assert!(is_unknown(&ins("ri", vec![name("perceptual")])));
    assert!(is_unknown(&ins("ri", vec![name("Perceptua")])));
    assert!(is_unknown(&ins("ri", vec![name("")])));
    assert!(is_unknown(&ins("ri", vec![string(b"Perceptual")])));
    assert!(is_unknown(&ins("ri", vec![])));
    assert!(is_unknown(&ins("ri", vec![name("Perceptual"), name("Perceptual")])));
}

#[test]
fn dash_pattern() {
    assert_eq!(
        normalize_operation(&ins("d", vec![Primitive::Array(vec![whole(3), num(1.5)]), whole(2)])),
        Operation::SetLineDashPattern { array: vec![r(3.0), r(1.5)], phase: r(2.0) }
    );
    assert_eq!(
        normalize_operation(&ins("d", vec![Primitive::Array(vec![]), num(0.0)])),
        Operation::SetLineDashPattern { array: vec![], phase: r(0.0) }
    );
    assert!(is_unknown(&ins("d", vec![Primitive::Array(vec![whole(3), name("x")]), whole(2)])));
    assert!(is_unknown(&ins("d", vec![Primitive::Array(vec![whole(3)]), name("x")])));
    assert!(is_unknown(&ins("d", vec![whole(3), whole(2)])));
    assert!(is_unknown(&ins("d", vec![Primitive::Array(vec![whole(3)])])));
    assert!(is_unknown(&ins("d", vec![Primitive::Array(vec![whole(3)]), whole(2), whole(1)])));
    assert!(is_unknown(&ins("d", vec![])));
}

#[test]
fn font_and_size() {
    assert_eq!(
        normalize_operation(&ins("Tf", vec![name("F1"), num(9.5)])),
        Operation::SetTextFontAndSize { font: "F1", size: r(9.5) }
    );
    assert_eq!(
        normalize_operation(&ins("Tf", vec![name("F1"), whole(12)])),
        Operation::SetTextFontAndSize { font: "F1", size: r(12.0) }
    );
    assert!(is_unknown(&ins("Tf", vec![whole(12), name("F1")])));
    assert!(is_unknown(&ins("Tf", vec![name("F1")])));
    assert!(is_unknown(&ins("Tf", vec![name("F1"), name("F2")])));
    assert!(is_unknown(&ins("Tf", vec![name("F1"), whole(12), whole(1)])));
}

fn latin() -> FontInfo {
    let mut cmap = HashMap::new();
    cmap.insert(0x80, "\u{20ac}".to_string());
    FontInfo { encoding: Some(BaseEncoding::WinAnsiEncoding), cmap }
}

fn composite() -> FontInfo {
    let mut cmap = HashMap::new();
    cmap.insert(0x0041, "A".to_string());
    cmap.insert(0x0042, "B".to_string());
    FontInfo { encoding: Some(BaseEncoding::IdentityH), cmap }
}

#[test]
fn show_text_without_a_font() {
    assert_eq!(
        normalize_operation(&ins("Tj", vec![string(b"Hello")])),
        Operation::ShowText(Cow::Borrowed("Hello"))
    );
    assert_eq!(
        normalize_operation(&ins("'", vec![string(b"Hello")])),
        Operation::MoveToNextLineAndShowText(Cow::Borrowed("Hello"))
    );
    assert_eq!(
        normalize_operation(&ins("\"", vec![whole(1), num(0.5), string(b"Hello")])),
        Operation::SetWordAndCharacterSpacingMoveToNextLineAndShowText {
            text: Cow::Borrowed("Hello"),
            word_spacing: r(1.0),
            character_spacing: r(0.5)
        }
    );
    assert_eq!(
        normalize_operation(&ins("Tj", vec![string(&[0xfe, 0xff, 0x00, 0x41])])),
        Operation::ShowText(Cow::Borrowed("A"))
    );
}

#[test]
fn show_text_under_a_font() {
    let l = latin();
    let c = composite();
    assert_eq!(
        normalize_operation_with_font(&ins("Tj", vec![string(&[0x41, 0x80])]), Some(&l)),
        Operation::ShowText(Cow::Borrowed("A\u{20ac}"))
    );
    assert_eq!(
        normalize_operation_with_font(&ins("Tj", vec![string(&[0x00, 0x41, 0x00, 0x42])]), Some(&c)),
        Operation::ShowText(Cow::Borrowed("AB"))
    );
    assert_eq!(
        normalize_operation_with_font(&ins("'", vec![string(&[0x00, 0x99])]), Some(&c)),
        Operation::MoveToNextLineAndShowText(Cow::Borrowed(""))
    );
    assert_eq!(
        normalize_operation_with_font(&ins("\"", vec![num(2.0), whole(3), string(&[0xff])]), Some(&l)),
        Operation::SetWordAndCharacterSpacingMoveToNextLineAndShowText {
            text: Cow::Borrowed("\u{ff}"),
            word_spacing: r(2.0),
            character_spacing: r(3.0)
        }
    );
}

#[test]
fn text_that_does_not_decode_makes_the_instruction_unknown() {
    assert!(is_unknown(&ins("Tj", vec![string(&[0xff])])));
    assert!(is_unknown(&ins("'", vec![string(&[0xc3])])));
    assert!(is_unknown(&ins("\"", vec![whole(1), whole(2), string(&[0xff])])));
    assert!(is_unknown(&ins("Tj", vec![string(&[0xfe, 0xff, 0x00])])));
    assert!(is_unknown(&ins("Tj", vec![string(&[0xfe, 0xff, 0xd8, 0x00])])));
    assert!(is_unknown(&ins("TJ", vec![Primitive::Array(vec![string(b"ok"), string(&[0xff])])])));
}

#[test]
fn text_operators_refuse_other_shapes() {
    for op in ["Tj", "'"] {
        assert!(is_unknown(&ins(op, vec![])));
        assert!(is_unknown(&ins(op, vec![name("Hello")])));
        assert!(is_unknown(&ins(op, vec![string(b"a"), string(b"b")])));
        assert!(is_unknown(&ins(op, vec![Primitive::Array(vec![string(b"a")])])));
    }
    assert!(is_unknown(&ins("\"", vec![string(b"a")])));
    assert!(is_unknown(&ins("\"", vec![whole(1), string(b"a")])));
    assert!(is_unknown(&ins("\"", vec![name("x"), whole(1), string(b"a")])));
    assert!(is_unknown(&ins("\"", vec![whole(1), name("x"), string(b"a")])));
    assert!(is_unknown(&ins("\"", vec![whole(1), whole(2), whole(3)])));
    assert!(is_unknown(&ins("\"", vec![whole(1), whole(2), string(b"a"), whole(3)])));
}

#[test]
fn text_with_glyph_positioning() {
    let i = ins(
        "TJ",
        vec![Primitive::Array(vec![string(b"Hel"), whole(-120), string(b"lo"), num(15.5)])],
    );
    assert_eq!(
        normalize_operation(&i),
        Operation::ShowTextAllowingIndividualGlyphPositioning(vec![
            TextOrGlyphPositioning::Text(Cow::Borrowed("Hel")),
            TextOrGlyphPositioning::GlyphPositioning(r(-120.0)),
            TextOrGlyphPositioning::Text(Cow::Borrowed("lo")),
            TextOrGlyphPositioning::GlyphPositioning(r(15.5)),
        ])
    );
    let c = composite();
    let j = ins("TJ", vec![Primitive::Array(vec![string(&[0x00, 0x42]), whole(7), string(&[0x00, 0x41])])]);
    assert_eq!(
        normalize_operation_with_font(&j, Some(&c)),
        Operation::ShowTextAllowingIndividualGlyphPositioning(vec![
            TextOrGlyphPositioning::Text(Cow::Borrowed("B")),
            TextOrGlyphPositioning::GlyphPositioning(r(7.0)),
            TextOrGlyphPositioning::Text(Cow::Borrowed("A")),
        ])
    );
    assert_eq!(
        normalize_operation(&ins("TJ", vec![Primitive::Array(vec![])])),
        Operation::ShowTextAllowingIndividualGlyphPositioning(vec![])
    );
}

#[test]
fn glyph_positioning_refuses_other_elements_and_shapes() {
    assert!(is_unknown(&ins("TJ", vec![Primitive::Array(vec![string(b"a"), name("x")])])));
    assert!(is_unknown(&ins("TJ", vec![Primitive::Array(vec![Primitive::Array(vec![])])])));
    assert!(is_unknown(&ins("TJ", vec![string(b"a")])));
    assert!(is_unknown(&ins("TJ", vec![])));
    assert!(is_unknown(&ins("TJ", vec![Primitive::Array(vec![]), Primitive::Array(vec![])])));
}

#[test]
fn the_font_matters_only_to_text() {
    let l = latin();
    let c = composite();
    let stream = vec![
        ins("re", vec![whole(0), whole(0), whole(10), whole(10)]),
        ins("Tf", vec![name("F1"), whole(12)]),
        ins("zz", vec![whole(1)]),
        ins("ri", vec![name("Saturation")]),
    ];
    for i in &stream {
        assert_eq!(normalize_operation_with_font(i, Some(&l)), normalize_operation(i));
        assert_eq!(normalize_operation_with_font(i, Some(&c)), normalize_operation(i));
        assert_eq!(normalize_operation_with_font(i, None), normalize_operation(i));
    }
}

#[test]
fn a_well_formed_stream_has_no_unknown() {
    let stream = vec![
        ins("q", vec![]),
        ins("cm", vec![whole(1), whole(0), whole(0), whole(1), num(36.0), num(36.0)]),
        ins("w", vec![num(0.5)]),
        ins("J", vec![whole(1)]),
        ins("j", vec![whole(2)]),
        ins("M", vec![whole(10)]),
        ins("d", vec![Primitive::Array(vec![whole(3), whole(2)]), whole(0)]),
        ins("ri", vec![name("RelativeColorimetric")]),
        ins("i", vec![num(0.5)]),
        ins("gs", vec![name("GS0")]),
        ins("CS", vec![name("DeviceRGB")]),
        ins("cs", vec![name("DeviceRGB")]),
        ins("SC", vec![num(0.1), num(0.2), num(0.3)]),
        ins("sc", vec![num(0.1)]),
        ins("SCN", vec![num(0.1), name("Pat0")]),
        ins("scn", vec![num(0.1), num(0.2), num(0.3), num(0.4)]),
        ins("G", vec![num(0.5)]),
        ins("g", vec![whole(1)]),
        ins("RG", vec![whole(1), whole(0), whole(0)]),
        ins("rg", vec![whole(0), whole(1), whole(0)]),
        ins("K", vec![whole(0), whole(0), whole(0), whole(1)]),
        ins("k", vec![whole(0), whole(0), whole(0), whole(1)]),
        ins("m", vec![whole(0), whole(0)]),
        ins("l", vec![whole(100), whole(0)]),
        ins("c", vec![whole(1), whole(2), whole(3), whole(4), whole(5), whole(6)]),
        ins("v", vec![whole(1), whole(2), whole(3), whole(4)]),
        ins("y", vec![whole(1), whole(2), whole(3), whole(4)]),
        ins("h", vec![]),
        ins("re", vec![whole(0), whole(0), whole(612), whole(792)]),
        ins("W", vec![]),
        ins("W*", vec![]),
        ins("n", vec![]),
        ins("S", vec![]),
        ins("s", vec![]),
        ins("f", vec![]),
        ins("F", vec![]),
        ins("f*", vec![]),
        ins("B", vec![]),
        ins("B*", vec![]),
        ins("b", vec![]),
        ins("b*", vec![]),
        ins("sh", vec![name("Sh0")]),
        ins("Do", vec![name("Im0")]),
        ins("MP", vec![name("Tag")]),
        ins("DP", vec![name("Tag"), name("Props0")]),
        ins("BMC", vec![name("Span")]),
        ins("BDC", vec![name("Span"), dictionary(vec![("MCID", whole(0))])]),
        ins("EMC", vec![]),
        ins("BX", vec![]),
        ins("EX", vec![]),
        ins("BI", vec![]),
        ins("ID", vec![name("W"), whole(2), name("H"), whole(2), name("CS"), name("G")]),
        ins("EI", vec![]),
        ins("d0", vec![whole(500), whole(0)]),
        ins("d1", vec![whole(500), whole(0), whole(0), whole(0), whole(500), whole(700)]),
        ins("BT", vec![]),
        ins("Tf", vec![name("F1"), whole(12)]),
        ins("Tc", vec![whole(0)]),
        ins("Tw", vec![whole(0)]),
        ins("Tz", vec![whole(100)]),
        ins("TL", vec![num(14.0)]),
        ins("Tr", vec![whole(0)]),
        ins("Ts", vec![whole(0)]),
        ins("Td", vec![whole(72), whole(700)]),
        ins("TD", vec![whole(0), whole(-14)]),
        ins("Tm", vec![whole(1), whole(0), whole(0), whole(1), whole(72), whole(700)]),
        ins("T*", vec![]),
        ins("Tj", vec![string(b"Hello")]),
        ins("TJ", vec![Primitive::Array(vec![string(b"Wor"), whole(-20), string(b"ld")])]),
        ins("'", vec![string(b"next")]),
        ins("\"", vec![whole(1), whole(2), string(b"spaced")]),
        ins("ET", vec![]),
        ins("Q", vec![]),
    ];
    assert_eq!(stream.len(), 73);
    let unknown = stream
        .iter()
        .filter(|i| matches!(normalize_operation(i), Operation::Unknown { .. }))
        .count();
    assert_eq!(unknown, 0);
}
