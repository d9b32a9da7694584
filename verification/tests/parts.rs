use pdf::error::PdfError;
use typed_pdf::classify::rendering_intent;
use typed_pdf::classify::typed_operation;
use typed_pdf::operator::Operator;
use typed_pdf::operator::Shape;
use typed_pdf::primitive::numbers;
use typed_pdf::text::plain_text_from;
use typed_pdf::ColorRenderingIntent;
use typed_pdf::DecodeError;
use typed_pdf::Operation;
use typed_pdf::Primitive;
use typed_pdf::Real;

#[test]
fn operators_by_name() {
    assert_eq!(Operator::from_name("b"), Some(Operator::CloseFillAndStrokePathUsingNonZeroWindingNumber));
    assert_eq!(Operator::from_name("B"), Some(Operator::FillAndStrokePathUsingNonZeroWindingNumber));
    assert_eq!(Operator::from_name("b*"), Some(Operator::CloseFillAndStrokePathUsingEvenOddRule));
    assert_eq!(Operator::from_name("BDC"), Some(Operator::BeginMarkedContentSequenceWithPropertyList));
    assert_eq!(Operator::from_name("SCN"), Some(Operator::SetColorForStrokingOperationsICCBasedAndSpecialColorSpaces));
    assert_eq!(Operator::from_name("scn"), Some(Operator::SetColorForNonStrokingOperationsICCBasedAndSpecialColorSpaces));
    assert_eq!(Operator::from_name("Tj"), Some(Operator::ShowText));
    assert_eq!(Operator::from_name("TJ"), Some(Operator::ShowTextAllowingIndividualGlyphPositioning));
    assert_eq!(Operator::from_name("'"), Some(Operator::MoveToNextLineAndShowText));
    assert_eq!(
        Operator::from_name("\""),
        Some(Operator::SetWordAndCharacterSpacingMoveToNextLineAndShowText)
    );
    assert_eq!(Operator::from_name(""), None);
    assert_eq!(Operator::from_name("zz"), None);
    assert_eq!(Operator::from_name("BDCs"), None);
    assert_eq!(Operator::from_name("b "), None);
    assert_eq!(Operator::from_name("\u{2033}"), None);
}

#[test]
fn every_operator_name_is_found_once() {
    let names = [
        "b", "B", "b*", "B*", "BDC", "BI", "BMC", "BT", "BX", "c", "cm", "CS", "cs", "d", "d0", "d1", "Do",
        "DP", "EI", "EMC", "ET", "EX", "f", "F", "f*", "G", "g", "gs", "h", "i", "ID", "j", "J", "K", "k",
        "l", "m", "M", "MP", "n", "q", "Q", "re", "RG", "rg", "ri", "s", "S", "SC", "sc", "SCN", "scn", "sh",
        "T*", "Tc", "Td", "TD", "Tf", "Tj", "TJ", "TL", "Tm", "Tr", "Ts", "Tw", "Tz", "v", "w", "W", "W*",
        "y", "'", "\"",
    ];
    assert_eq!(names.len(), 73);
    let mut found: Vec<Operator> = Vec::new();
    for n in names {
        let op = Operator::from_name(n).expect(n);
        assert!(!found.contains(&op), "{}", n);
        found.push(op);
    }
}

#[test]
fn operand_shapes() {
    assert_eq!(Operator::CloseSubpath.operand_shape(), Shape::Any);
    assert_eq!(Operator::BeginInlineImageObject.operand_shape(), Shape::Empty);
    assert_eq!(Operator::EndMarkedContentSequence.operand_shape(), Shape::Empty);
    assert_eq!(Operator::BeginMarkedContentSequence.operand_shape(), Shape::Tag);
    assert_eq!(
        Operator::BeginMarkedContentSequenceWithPropertyList.operand_shape(),
        Shape::TagAndProperties
    );
    assert_eq!(
        Operator::DefineMarkedContentPointWithPropertyList.operand_shape(),
        Shape::TagAndProperties
    );
    assert_eq!(Operator::BeginInlineImageData.operand_shape(), Shape::ImageEntries);
    assert_eq!(Operator::AppendCurvedSegmentToPath.operand_shape(), Shape::Numbers(6));
    assert_eq!(Operator::AppendRectangleToPath.operand_shape(), Shape::Numbers(4));
    assert_eq!(Operator::SetRGBColorForStrokingOperations.operand_shape(), Shape::Numbers(3));
    assert_eq!(Operator::MoveTextPosition.operand_shape(), Shape::Numbers(2));
    assert_eq!(Operator::SetLineWidth.operand_shape(), Shape::Numbers(1));
    assert_eq!(Operator::SetTextLeading.operand_shape(), Shape::Numbers(1));
    assert_eq!(Operator::SetFlatnessTolerance.operand_shape(), Shape::Numbers(1));
    assert_eq!(Operator::SetLineJoinStyle.operand_shape(), Shape::Choice(3));
    assert_eq!(Operator::SetLineCapStyle.operand_shape(), Shape::Choice(3));
    assert_eq!(Operator::SetTextRenderingMode.operand_shape(), Shape::Choice(8));
    assert_eq!(Operator::SetColorForStrokingOperations.operand_shape(), Shape::Color);
    assert_eq!(
        Operator::SetColorForNonStrokingOperationsICCBasedAndSpecialColorSpaces.operand_shape(),
        Shape::SpecialColor
    );
    assert_eq!(Operator::InvokeNamedXObject.operand_shape(), Shape::Name);
    assert_eq!(Operator::SetColorRenderingIntent.operand_shape(), Shape::Intent);
    assert_eq!(Operator::SetLineDashPattern.operand_shape(), Shape::Dash);
    assert_eq!(Operator::SetTextFontAndSize.operand_shape(), Shape::Font);
    assert_eq!(Operator::ShowText.operand_shape(), Shape::Text);
    assert_eq!(
        Operator::SetWordAndCharacterSpacingMoveToNextLineAndShowText.operand_shape(),
        Shape::SpacedText
    );
    assert_eq!(Operator::ShowTextAllowingIndividualGlyphPositioning.operand_shape(), Shape::TextArray);
}

#[test]
fn typed_operation_is_none_for_a_wrong_shape() {
    let two = [Primitive::Integer(1), Primitive::Integer(2)];
    assert_eq!(
        typed_operation(Operator::BeginNewSubpath, &two, None),
        Some(Operation::BeginNewSubpath { x: Real::from_i32(1), y: Real::from_i32(2) })
    );
    assert_eq!(typed_operation(Operator::AppendRectangleToPath, &two, None), None);
    assert_eq!(typed_operation(Operator::BeginInlineImageObject, &two, None), None);
    assert_eq!(typed_operation(Operator::BeginInlineImageData, &two, None), None);
    assert_eq!(typed_operation(Operator::BeginMarkedContentSequence, &two, None), None);
    assert_eq!(typed_operation(Operator::CloseSubpath, &two, None), Some(Operation::CloseSubpath));
}

#[test]
fn try_to_f_widens_integers_and_keeps_reals() {
    assert_eq!(Primitive::Integer(3).try_to_f(), Some(Real::from_bits(3.0f32.to_bits())));
    assert_eq!(Primitive::Integer(-7).try_to_f(), Some(Real::from_bits((-7.0f32).to_bits())));
    let x = Real::from_bits(0.1f32.to_bits());
    assert_eq!(Primitive::Number(x).try_to_f(), Some(x));
    assert_eq!(Primitive::Number(x).try_to_f().and_then(|y| Primitive::Number(y).try_to_f()), Some(x));
    assert_eq!(Primitive::Null.try_to_f(), None);
    assert_eq!(Primitive::Boolean(true).try_to_f(), None);
    assert_eq!(Primitive::Name("1".to_string()).try_to_f(), None);
    assert_eq!(Primitive::String(b"1".to_vec()).try_to_f(), None);
    assert_eq!(Primitive::Array(vec![Primitive::Integer(1)]).try_to_f(), None);
    assert_eq!(Primitive::Reference { id: 1, generation: 0 }.try_to_f(), None);
    assert_eq!(Primitive::Dictionary(vec![]).try_to_f(), None);
    assert_eq!(Primitive::Stream { info: vec![], data: vec![] }.try_to_f(), None);
}

#[test]
fn numbers_wants_every_value_numeric() {
    let x = Real::from_bits(2.5f32.to_bits());
    assert_eq!(
        numbers(&[Primitive::Integer(1), Primitive::Number(x)]),
        Some(vec![Real::from_bits(1.0f32.to_bits()), x])
    );
    assert_eq!(numbers(&[]), Some(vec![]));
    assert_eq!(numbers(&[Primitive::Integer(1), Primitive::Null]), None);
    assert_eq!(numbers(&[Primitive::Name("a".to_string()), Primitive::Integer(1)]), None);
}

#[test]
fn rendering_intent_by_name() {
    assert_eq!(rendering_intent("AbsoluteColorimetric"), Some(ColorRenderingIntent::AbsoluteColorimetric));
    assert_eq!(rendering_intent("RelativeColorimetric"), Some(ColorRenderingIntent::RelativeColorimetric));
    assert_eq!(rendering_intent("Saturation"), Some(ColorRenderingIntent::Saturation));
    assert_eq!(rendering_intent("Perceptual"), Some(ColorRenderingIntent::Perceptual));
    assert_eq!(rendering_intent("Absolute"), None);
    assert_eq!(rendering_intent(""), None);
}

#[test]
fn an_outside_error_becomes_the_kind_the_mark_decides() {
    assert_eq!(plain_text_from(Ok("text".to_string()), false), Ok("text".to_string()));
    assert_eq!(plain_text_from(Ok("text".to_string()), true), Ok("text".to_string()));
    assert_eq!(plain_text_from(Err(PdfError::EOF), false), Err(DecodeError::InvalidUtf8));
    assert_eq!(plain_text_from(Err(PdfError::EOF), true), Err(DecodeError::InvalidUtf16));
}

#[test]
fn a_copy_equals_what_it_was_made_from() {
    let value = Primitive::Array(vec![
        Primitive::Null,
        Primitive::Integer(-4),
        Primitive::Number(Real::from_bits(0.75f32.to_bits())),
        Primitive::Boolean(false),
        Primitive::String(vec![0, 255, 65]),
        Primitive::Name("Name".to_string()),
        Primitive::Reference { id: 9, generation: 1 },
        Primitive::Dictionary(vec![
            ("A".to_string(), Primitive::Array(vec![Primitive::Integer(1)])),
            ("B".to_string(), Primitive::Dictionary(vec![])),
        ]),
        Primitive::Stream {
            info: vec![("Length".to_string(), Primitive::Integer(3))],
            data: vec![1, 2, 3],
        },
    ]);
    assert_eq!(value.clone(), value);
    assert_ne!(value.clone(), Primitive::Array(vec![]));
    let instruction = typed_pdf::Instruction { operator: "Do".to_string(), operands: vec![value] };
    assert_eq!(instruction.clone(), instruction);
}

#[test]
fn classify_takes_name_and_operands_apart() {
    let operands = [Primitive::Integer(72), Primitive::Integer(700)];
    assert_eq!(
        typed_pdf::classify("Td", &operands, None),
        Operation::MoveTextPosition { x: Real::from_i32(72), y: Real::from_i32(700) }
    );
    assert_eq!(
        typed_pdf::classify("zz", &operands, None),
        Operation::Unknown { operator: "zz", operands: &operands }
    );
    let instruction = typed_pdf::Instruction {
        operator: "Td".to_string(),
        operands: vec![Primitive::Integer(72), Primitive::Integer(700)],
    };
    assert_eq!(
        typed_pdf::normalize_operation(&instruction),
        typed_pdf::classify("Td", &operands, None)
    );
}
