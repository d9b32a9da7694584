//! Sorting an instruction into a typed operation.
//!
//! The rule has three steps. The operator name picks an operator of the
//! grammar. The operator says what shape its operands must have. Operands of
//! that shape give the operator's typed operation, anything else gives
//! `Unknown` with the instruction as it came.

use crate::font::font_view;
use crate::font::FontInfo;
use crate::font::FontInfoView;
use crate::number::Real;
use crate::operation::ColorRenderingIntent;
use crate::operation::LineCapStyle;
use crate::operation::LineJoinStyle;
use crate::operation::Name;
use crate::operation::Operation;
use crate::operation::OperationView;
use crate::operation::TextOrGlyphPositioning;
use crate::operation::TextOrGlyphPositioningView;
use crate::operation::TextRenderingMode;
use crate::operation::UntypedColor;
use crate::operation::parts_view;
use crate::operator::operator_named;
use crate::operator::Operator;
use crate::operator::Shape;
use crate::primitive::all_numbers;
use crate::primitive::is_number;
use crate::primitive::number_of;
use crate::primitive::numbers;
use crate::primitive::numbers_of;
use crate::primitive::operands_view;
use crate::primitive::lemma_values_view;
use crate::primitive::Instruction;
use crate::primitive::Primitive;
use crate::primitive::PrimitiveView;
use crate::text::decode;
use crate::text::decode_string;
use crate::text::same_text;
use vstd::prelude::*;

verus! {

/// The rendering intent with the given name.
pub open spec fn intent_named(name: Seq<char>) -> Option<ColorRenderingIntent> {
    if name == "AbsoluteColorimetric"@ {
        Some(ColorRenderingIntent::AbsoluteColorimetric)
    } else if name == "RelativeColorimetric"@ {
        Some(ColorRenderingIntent::RelativeColorimetric)
    } else if name == "Saturation"@ {
        Some(ColorRenderingIntent::Saturation)
    } else if name == "Perceptual"@ {
        Some(ColorRenderingIntent::Perceptual)
    } else {
        None
    }
}

/// The line join style with the given number, for numbers from 0 to 2.
pub open spec fn join_style(i: i32) -> LineJoinStyle {
    if i == 0 {
        LineJoinStyle::MiterJoin
    } else if i == 1 {
        LineJoinStyle::RoundJoin
    } else {
        LineJoinStyle::BevelJoin
    }
}

/// The line cap style with the given number, for numbers from 0 to 2.
pub open spec fn cap_style(i: i32) -> LineCapStyle {
    if i == 0 {
        LineCapStyle::ButtCap
    } else if i == 1 {
        LineCapStyle::RoundCap
    } else {
        LineCapStyle::ProjectingSquareCap
    }
}

/// The text rendering mode with the given number, for numbers from 0 to 7.
pub open spec fn rendering_mode(i: i32) -> TextRenderingMode {
    if i == 0 {
        TextRenderingMode::FillText
    } else if i == 1 {
        TextRenderingMode::StrokeText
    } else if i == 2 {
        TextRenderingMode::FillThenStrokeText
    } else if i == 3 {
        TextRenderingMode::Invisible
    } else if i == 4 {
        TextRenderingMode::FillTextAndAddToPathForClipping
    } else if i == 5 {
        TextRenderingMode::StrokeTextAndAddToPathForClipping
    } else if i == 6 {
        TextRenderingMode::FillThenStrokeTextAndAddToPathForClipping
    } else {
        TextRenderingMode::AddTextToPathForClipping
    }
}

/// The colour that one, three or four components make.
pub open spec fn color_of(n: Seq<Real>) -> UntypedColor {
    if n.len() == 1 {
        UntypedColor::DeviceGrayCalGrayOrIndexed(n[0])
    } else if n.len() == 3 {
        UntypedColor::DeviceRGBCalRGBOrLab(n[0], n[1], n[2])
    } else {
        UntypedColor::DeviceCMYK(n[0], n[1], n[2], n[3])
    }
}

/// Whether the operands of a special-colour operator end in a name.
pub open spec fn ends_in_name(xs: Seq<PrimitiveView>) -> bool {
    xs.len() > 0 && xs.last() is Name
}

/// The operands of a special-colour operator without the name at their end,
/// if there is one: the colour's components.
pub open spec fn color_components(xs: Seq<PrimitiveView>) -> Seq<PrimitiveView> {
    if ends_in_name(xs) {
        xs.drop_last()
    } else {
        xs
    }
}

/// The name at the end of the operands of a special-colour operator.
pub open spec fn color_space_name(xs: Seq<PrimitiveView>) -> Option<Seq<char>> {
    if ends_in_name(xs) {
        Some(xs.last()->Name_0)
    } else {
        None
    }
}

/// Whether the linear part of a matrix of six numbers is the identity, so
/// that the matrix only moves the origin.
pub open spec fn moves_only(n: Seq<Real>) -> bool {
    n[0].is_one() && n[1].is_zero() && n[2].is_zero() && n[3].is_one()
}

/// What one element of a glyph-positioning array stands for: text for a
/// string that decodes, an adjustment for a number, nothing for the rest.
pub open spec fn positioned(p: PrimitiveView, font: Option<FontInfoView>) -> Option<
    TextOrGlyphPositioningView,
> {
    match p {
        PrimitiveView::String(bytes) => match decode(bytes, font) {
            Ok(text) => Some(TextOrGlyphPositioningView::Text(text)),
            Err(_) => None,
        },
        PrimitiveView::Integer(_) | PrimitiveView::Number(_) => Some(
            TextOrGlyphPositioningView::GlyphPositioning(number_of(p).unwrap()),
        ),
        _ => None,
    }
}

/// What the elements of a glyph-positioning array stand for, in order.
pub open spec fn positioned_all(a: Seq<PrimitiveView>, font: Option<FontInfoView>) -> Seq<
    TextOrGlyphPositioningView,
> {
    Seq::new(a.len(), |i: int| positioned(a[i], font).unwrap())
}

/// Whether a value can be the property list of marked content: the name of
/// one among the resources, or a dictionary written in place.
pub open spec fn is_property_list(p: PrimitiveView) -> bool {
    p is Name || p is Dictionary
}

/// Whether a list of values is a list of entries, key and value in turn,
/// with a name for each key.
pub open spec fn are_image_entries(xs: Seq<PrimitiveView>) -> bool {
    xs.len() % 2 == 0 && forall|k: int|
        0 <= k < xs.len() && k % 2 == 0 ==> (#[trigger] xs[k]) is Name
}

/// Whether an operator of this shape takes nothing from its operands into
/// its operation.
pub open spec fn reads_no_operand(shape: Shape) -> bool {
    shape is Any || shape is Empty || shape is Tag || shape is TagAndProperties
        || shape is ImageEntries
}

/// Whether operands have the shape that an operator asks for.
pub open spec fn accepts(
    shape: Shape,
    xs: Seq<PrimitiveView>,
    font: Option<FontInfoView>,
) -> bool {
    match shape {
        Shape::Any => true,
        Shape::Empty => xs.len() == 0,
        Shape::Tag => xs.len() == 1 && xs[0] is Name,
        Shape::TagAndProperties => xs.len() == 2 && xs[0] is Name && is_property_list(xs[1]),
        Shape::ImageEntries => are_image_entries(xs),
        Shape::Numbers(count) => xs.len() == count && all_numbers(xs),
        Shape::Choice(bound) => xs.len() == 1 && xs[0] is Integer && 0 <= xs[0]->Integer_0 < bound,
        Shape::Color => (xs.len() == 1 || xs.len() == 3 || xs.len() == 4) && all_numbers(xs),
        Shape::SpecialColor => all_numbers(color_components(xs)),
        Shape::Name => xs.len() == 1 && xs[0] is Name,
        Shape::Intent => xs.len() == 1 && xs[0] is Name && intent_named(xs[0]->Name_0) is Some,
        Shape::Dash => xs.len() == 2 && xs[0] is Array && all_numbers(xs[0]->Array_0) && is_number(
            xs[1],
        ),
        Shape::Font => xs.len() == 2 && xs[0] is Name && is_number(xs[1]),
        Shape::Text => xs.len() == 1 && xs[0] is String && decode(xs[0]->String_0, font) is Ok,
        Shape::SpacedText => xs.len() == 3 && is_number(xs[0]) && is_number(xs[1])
            && xs[2] is String && decode(xs[2]->String_0, font) is Ok,
        Shape::TextArray => xs.len() == 1 && xs[0] is Array && forall|i: int|
            0 <= i < xs[0]->Array_0.len() ==> (#[trigger] positioned(xs[0]->Array_0[i], font))
                is Some,
    }
}

/// The typed operation of an operator whose operands have its shape. The
/// numbers are the operands widened to single precision, in the order given.
pub open spec fn typed(
    op: Operator,
    xs: Seq<PrimitiveView>,
    font: Option<FontInfoView>,
) -> OperationView {
    let n = numbers_of(xs);
    match op {
        Operator::CloseFillAndStrokePathUsingNonZeroWindingNumber => {
            OperationView::CloseFillAndStrokePathUsingNonZeroWindingNumber
        },
        Operator::FillAndStrokePathUsingNonZeroWindingNumber => {
            OperationView::FillAndStrokePathUsingNonZeroWindingNumber
        },
        Operator::CloseFillAndStrokePathUsingEvenOddRule => {
            OperationView::CloseFillAndStrokePathUsingEvenOddRule
        },
        Operator::FillAndStrokePathUsingEvenOddRule => {
            OperationView::FillAndStrokePathUsingEvenOddRule
        },
        Operator::BeginMarkedContentSequenceWithPropertyList => {
            OperationView::BeginMarkedContentSequenceWithPropertyList
        },
        Operator::BeginInlineImageObject => OperationView::BeginInlineImageObject,
        Operator::BeginMarkedContentSequence => OperationView::BeginMarkedContentSequence,
        Operator::BeginTextObject => OperationView::BeginTextObject,
        Operator::BeginCompatibilitySection => OperationView::BeginCompatibilitySection,
        Operator::AppendCurvedSegmentToPath => {
            OperationView::AppendCurvedSegmentToPath {
                x1: n[0],
                y1: n[1],
                x2: n[2],
                y2: n[3],
                x3: n[4],
                y3: n[5],
            }
        },
        Operator::ConcatenateMatrixToCurrentTransformationMatrix => {
            OperationView::ConcatenateMatrixToCurrentTransformationMatrix(
                n[0],
                n[1],
                n[2],
                n[3],
                n[4],
                n[5],
            )
        },
        Operator::SetColorSpaceForStrokingOperations => {
            OperationView::SetColorSpaceForStrokingOperations(xs[0]->Name_0)
        },
        Operator::SetColorSpaceForNonStrokingOperations => {
            OperationView::SetColorSpaceForNonStrokingOperations(xs[0]->Name_0)
        },
        Operator::SetLineDashPattern => OperationView::SetLineDashPattern {
                array: numbers_of(xs[0]->Array_0),
                phase: n[1],
            },
        Operator::SetGlyphWidthInType3Font => {
            OperationView::SetGlyphWidthInType3Font { wx: n[0], wy: n[1] }
        },
        Operator::SetGlyphWidthAndBoundingBoxInType3Font => {
            OperationView::SetGlyphWidthAndBoundingBoxInType3Font {
                wx: n[0],
                wy: n[1],
                llx: n[2],
                lly: n[3],
                urx: n[4],
                ury: n[5],
            }
        },
        Operator::InvokeNamedXObject => OperationView::InvokeNamedXObject(xs[0]->Name_0),
        Operator::DefineMarkedContentPointWithPropertyList => {
            OperationView::DefineMarkedContentPointWithPropertyList
        },
        Operator::EndInlineImageObject => OperationView::EndInlineImageObject,
        Operator::EndMarkedContentSequence => OperationView::EndMarkedContentSequence,
        Operator::EndTextObject => OperationView::EndTextObject,
        Operator::EndCompatibilitySection => OperationView::EndCompatibilitySection,
        Operator::FillPathUsingNonZeroWindingNumberRule => {
            OperationView::FillPathUsingNonZeroWindingNumberRule
        },
        Operator::ObsoleteFillPathUsingNonZeroWindingMumberRule => {
            OperationView::ObsoleteFillPathUsingNonZeroWindingMumberRule
        },
        Operator::FillPathUsingEvenOddRule => OperationView::FillPathUsingEvenOddRule,
        Operator::SetGrayLevelForStrokingOperations => {
            OperationView::SetGrayLevelForStrokingOperations(n[0])
        },
        Operator::SetGrayLevelForNonStrokingOperations => {
            OperationView::SetGrayLevelForNonStrokingOperations(n[0])
        },
        Operator::SetParametersFromGraphicsStateParameterDictionary => {
            OperationView::SetParametersFromGraphicsStateParameterDictionary(xs[0]->Name_0)
        },
        Operator::CloseSubpath => OperationView::CloseSubpath,
        Operator::SetFlatnessTolerance => OperationView::SetFlatnessTolerance(n[0]),
        Operator::BeginInlineImageData => OperationView::BeginInlineImageData,
        Operator::SetLineJoinStyle => {
            OperationView::SetLineJoinStyle(join_style(xs[0]->Integer_0))
        },
        Operator::SetLineCapStyle => OperationView::SetLineCapStyle(cap_style(xs[0]->Integer_0)),
        Operator::SetCMYKColorForStrokingOperations => {
            OperationView::SetCMYKColorForStrokingOperations(n[0], n[1], n[2], n[3])
        },
        Operator::SetCMYKColorForNonStrokingOperations => {
            OperationView::SetCMYKColorForNonStrokingOperations(n[0], n[1], n[2], n[3])
        },
        Operator::AppendStraightLineSegmentToPath => {
            OperationView::AppendStraightLineSegmentToPath { x: n[0], y: n[1] }
        },
        Operator::BeginNewSubpath => OperationView::BeginNewSubpath { x: n[0], y: n[1] },
        Operator::SetMiterLimit => OperationView::SetMiterLimit(n[0]),
        Operator::DefineMarkedContentPoint => {
            OperationView::DefineMarkedContentPoint(xs[0]->Name_0)
        },
        Operator::EndPathWithoutFillingOrStroking => {
            OperationView::EndPathWithoutFillingOrStroking
        },
        Operator::SaveGraphicsState => OperationView::SaveGraphicsState,
        Operator::RestoreGraphicsState => OperationView::RestoreGraphicsState,
        Operator::AppendRectangleToPath => {
            OperationView::AppendRectangleToPath { x: n[0], y: n[1], width: n[2], height: n[3] }
        },
        Operator::SetRGBColorForStrokingOperations => {
            OperationView::SetRGBColorForStrokingOperations(n[0], n[1], n[2])
        },
        Operator::SetRGBColorForNonStrokingOperations => {
            OperationView::SetRGBColorForNonStrokingOperations(n[0], n[1], n[2])
        },
        Operator::SetColorRenderingIntent => {
            OperationView::SetColorRenderingIntent(intent_named(xs[0]->Name_0).unwrap())
        },
        Operator::CloseAndStrokePath => OperationView::CloseAndStrokePath,
        Operator::StrokePath => OperationView::StrokePath,
        Operator::SetColorForStrokingOperations => {
            OperationView::SetColorForStrokingOperations(color_of(n))
        },
        Operator::SetColorForNonStrokingOperations => {
            OperationView::SetColorForNonStrokingOperations(color_of(n))
        },
        Operator::SetColorForStrokingOperationsICCBasedAndSpecialColorSpaces => {
            OperationView::SetColorForStrokingOperationsICCBasedAndSpecialColorSpaces {
                cs: numbers_of(color_components(xs)),
                name: color_space_name(xs),
            }
        },
        Operator::SetColorForNonStrokingOperationsICCBasedAndSpecialColorSpaces => {
            OperationView::SetColorForNonStrokingOperationsICCBasedAndSpecialColorSpaces {
                cs: numbers_of(color_components(xs)),
                name: color_space_name(xs),
            }
        },
        Operator::PaintAreaDefinedByShadingPattern => {
            OperationView::PaintAreaDefinedByShadingPattern(xs[0]->Name_0)
        },
        Operator::MoveToStartOfNextTextLine => OperationView::MoveToStartOfNextTextLine,
        Operator::SetCharacterSpacing => OperationView::SetCharacterSpacing(n[0]),
        Operator::MoveTextPosition => OperationView::MoveTextPosition { x: n[0], y: n[1] },
        Operator::MoveTextPositionAndSetLeading => {
            OperationView::MoveTextPositionAndSetLeading { x: n[0], y: n[1] }
        },
        Operator::SetTextFontAndSize => {
            OperationView::SetTextFontAndSize { font: xs[0]->Name_0, size: n[1] }
        },
        Operator::ShowText => OperationView::ShowText(decode(xs[0]->String_0, font).unwrap()),
        Operator::ShowTextAllowingIndividualGlyphPositioning => {
            OperationView::ShowTextAllowingIndividualGlyphPositioning(
                positioned_all(xs[0]->Array_0, font),
            )
        },
        Operator::SetTextLeading => OperationView::SetTextLeading(n[0]),
        Operator::SetTextMatrixAndTextLineMatrix => if moves_only(n) {
                OperationView::MoveTextPosition { x: n[4], y: n[5] }
            } else {
                OperationView::SetTextMatrixAndTextLineMatrix(n[0], n[1], n[2], n[3], n[4], n[5])
            },
        Operator::SetTextRenderingMode => {
            OperationView::SetTextRenderingMode(rendering_mode(xs[0]->Integer_0))
        },
        Operator::SetTextRise => OperationView::SetTextRise(n[0]),
        Operator::SetWordSpacing => OperationView::SetWordSpacing(n[0]),
        Operator::SetHorizontalTextScaling => OperationView::SetHorizontalTextScaling(n[0]),
        Operator::AppendCurvedSegmentToPathInitialPointReplicated => {
            OperationView::AppendCurvedSegmentToPathInitialPointReplicated {
                x2: n[0],
                y2: n[1],
                x3: n[2],
                y3: n[3],
            }
        },
        Operator::SetLineWidth => OperationView::SetLineWidth(n[0]),
        Operator::SetClippingPathUsingNonZeroWindingNumberRule => {
            OperationView::SetClippingPathUsingNonZeroWindingNumberRule
        },
        Operator::SetClippingPathUsingEvenOddRule => {
            OperationView::SetClippingPathUsingEvenOddRule
        },
        Operator::AppendCurvedSegmentToPathFinalPointReplicated => {
            OperationView::AppendCurvedSegmentToPathFinalPointReplicated {
                x1: n[0],
                y1: n[1],
                x3: n[2],
                y3: n[3],
            }
        },
        Operator::MoveToNextLineAndShowText => {
            OperationView::MoveToNextLineAndShowText(decode(xs[0]->String_0, font).unwrap())
        },
        Operator::SetWordAndCharacterSpacingMoveToNextLineAndShowText => {
            OperationView::SetWordAndCharacterSpacingMoveToNextLineAndShowText {
                text: decode(xs[2]->String_0, font).unwrap(),
                word_spacing: n[0],
                character_spacing: n[1],
            }
        },
    }
}

/// The typed form of an instruction: the operation of the operator it names
/// if the operands have that operator's shape, and otherwise `Unknown` with
/// the name and the operands unchanged.
pub open spec fn classified(
    name: Seq<char>,
    xs: Seq<PrimitiveView>,
    font: Option<FontInfoView>,
) -> OperationView {
    match operator_named(name) {
        Some(op) => if accepts(op.shape(), xs, font) {
            typed(op, xs, font)
        } else {
            OperationView::Unknown { operator: name, operands: xs }
        },
        None => OperationView::Unknown { operator: name, operands: xs },
    }
}

/// Whether a value is a name.
fn is_name(p: &Primitive) -> (b: bool)
    ensures
        b == (p@ is Name),
{
    match p {
        Primitive::Name(_) => true,
        _ => false,
    }
}

/// Whether a value can be the property list of marked content.
fn is_properties(p: &Primitive) -> (b: bool)
    ensures
        b == is_property_list(p@),
{
    match p {
        Primitive::Name(_) | Primitive::Dictionary(_) => true,
        _ => false,
    }
}

/// Whether operands are the entries of an inline image.
fn image_entries(operands: &[Primitive]) -> (b: bool)
    ensures
        b == are_image_entries(operands_view(operands@)),
{
    let ghost xs = operands_view(operands@);
    if operands.len() % 2 != 0 {
        return false;
    }
    let mut k: usize = 0;
    while k < operands.len()
        invariant
            k <= operands.len(),
            k % 2 == 0,
            operands.len() % 2 == 0,
            xs == operands_view(operands@),
            forall|j: int| 0 <= j < k && j % 2 == 0 ==> (#[trigger] xs[j]) is Name,
        decreases operands.len() - k,
    {
        if !is_name(&operands[k]) {
            assert(!(xs[k as int] is Name));
            return false;
        }
        k = k + 2;
    }
    true
}

/// The operation of an operator that takes nothing from its operands.
fn plain_operation<'a>(op: Operator) -> (r: Option<Operation<'a>>)
    ensures
        r is Some <==> reads_no_operand(op.shape()),
        forall|xs: Seq<PrimitiveView>, font: Option<FontInfoView>|
            r matches Some(o) ==> o@ == #[trigger] typed(op, xs, font),
{
    match op {
        Operator::CloseFillAndStrokePathUsingNonZeroWindingNumber => {
            Some(Operation::CloseFillAndStrokePathUsingNonZeroWindingNumber)
        },
        Operator::FillAndStrokePathUsingNonZeroWindingNumber => {
            Some(Operation::FillAndStrokePathUsingNonZeroWindingNumber)
        },
        Operator::CloseFillAndStrokePathUsingEvenOddRule => {
            Some(Operation::CloseFillAndStrokePathUsingEvenOddRule)
        },
        Operator::FillAndStrokePathUsingEvenOddRule => {
            Some(Operation::FillAndStrokePathUsingEvenOddRule)
        },
        Operator::BeginMarkedContentSequenceWithPropertyList => {
            Some(Operation::BeginMarkedContentSequenceWithPropertyList)
        },
        Operator::BeginInlineImageObject => Some(Operation::BeginInlineImageObject),
        Operator::BeginMarkedContentSequence => Some(Operation::BeginMarkedContentSequence),
        Operator::BeginTextObject => Some(Operation::BeginTextObject),
        Operator::BeginCompatibilitySection => Some(Operation::BeginCompatibilitySection),
        Operator::DefineMarkedContentPointWithPropertyList => {
            Some(Operation::DefineMarkedContentPointWithPropertyList)
        },
        Operator::EndInlineImageObject => Some(Operation::EndInlineImageObject),
        Operator::EndMarkedContentSequence => Some(Operation::EndMarkedContentSequence),
        Operator::EndTextObject => Some(Operation::EndTextObject),
        Operator::EndCompatibilitySection => Some(Operation::EndCompatibilitySection),
        Operator::FillPathUsingNonZeroWindingNumberRule => {
            Some(Operation::FillPathUsingNonZeroWindingNumberRule)
        },
        Operator::ObsoleteFillPathUsingNonZeroWindingMumberRule => {
            Some(Operation::ObsoleteFillPathUsingNonZeroWindingMumberRule)
        },
        Operator::FillPathUsingEvenOddRule => Some(Operation::FillPathUsingEvenOddRule),
        Operator::CloseSubpath => Some(Operation::CloseSubpath),
        Operator::BeginInlineImageData => Some(Operation::BeginInlineImageData),
        Operator::EndPathWithoutFillingOrStroking => {
            Some(Operation::EndPathWithoutFillingOrStroking)
        },
        Operator::SaveGraphicsState => Some(Operation::SaveGraphicsState),
        Operator::RestoreGraphicsState => Some(Operation::RestoreGraphicsState),
        Operator::CloseAndStrokePath => Some(Operation::CloseAndStrokePath),
        Operator::StrokePath => Some(Operation::StrokePath),
        Operator::MoveToStartOfNextTextLine => Some(Operation::MoveToStartOfNextTextLine),
        Operator::SetClippingPathUsingNonZeroWindingNumberRule => {
            Some(Operation::SetClippingPathUsingNonZeroWindingNumberRule)
        },
        Operator::SetClippingPathUsingEvenOddRule => {
            Some(Operation::SetClippingPathUsingEvenOddRule)
        },
        _ => None,
    }
}

/// The operation of an operator whose operands are all numbers, given those
/// numbers; `None` if the operator does not take that many.
fn numeric_operation<'a>(op: Operator, n: &[Real]) -> (r: Option<Operation<'a>>)
    ensures
        r is Some <==> (op.shape() == Shape::Numbers(n.len()) || (op.shape() is Color && (n.len()
            == 1 || n.len() == 3 || n.len() == 4))),
        forall|xs: Seq<PrimitiveView>, font: Option<FontInfoView>|
            numbers_of(xs) == n@ ==> (r matches Some(o) ==> o@ == #[trigger] typed(op, xs, font)),
{
    match op {
        Operator::AppendCurvedSegmentToPath => if n.len() == 6 {
            Some(Operation::AppendCurvedSegmentToPath {
                x1: n[0],
                y1: n[1],
                x2: n[2],
                y2: n[3],
                x3: n[4],
                y3: n[5],
            })
        } else {
            None
        },
        Operator::ConcatenateMatrixToCurrentTransformationMatrix => if n.len() == 6 {
            Some(Operation::ConcatenateMatrixToCurrentTransformationMatrix(
                n[0],
                n[1],
                n[2],
                n[3],
                n[4],
                n[5],
            ))
        } else {
            None
        },
        Operator::SetGlyphWidthInType3Font => if n.len() == 2 {
            Some(Operation::SetGlyphWidthInType3Font { wx: n[0], wy: n[1] })
        } else {
            None
        },
        Operator::SetGlyphWidthAndBoundingBoxInType3Font => if n.len() == 6 {
            Some(Operation::SetGlyphWidthAndBoundingBoxInType3Font {
                wx: n[0],
                wy: n[1],
                llx: n[2],
                lly: n[3],
                urx: n[4],
                ury: n[5],
            })
        } else {
            None
        },
        Operator::SetGrayLevelForStrokingOperations => if n.len() == 1 {
            Some(Operation::SetGrayLevelForStrokingOperations(n[0]))
        } else {
            None
        },
        Operator::SetGrayLevelForNonStrokingOperations => if n.len() == 1 {
            Some(Operation::SetGrayLevelForNonStrokingOperations(n[0]))
        } else {
            None
        },
        Operator::SetCMYKColorForStrokingOperations => if n.len() == 4 {
            Some(Operation::SetCMYKColorForStrokingOperations(n[0], n[1], n[2], n[3]))
        } else {
            None
        },
        Operator::SetCMYKColorForNonStrokingOperations => if n.len() == 4 {
            Some(Operation::SetCMYKColorForNonStrokingOperations(n[0], n[1], n[2], n[3]))
        } else {
            None
        },
        Operator::AppendStraightLineSegmentToPath => if n.len() == 2 {
            Some(Operation::AppendStraightLineSegmentToPath { x: n[0], y: n[1] })
        } else {
            None
        },
        Operator::BeginNewSubpath => if n.len() == 2 {
            Some(Operation::BeginNewSubpath { x: n[0], y: n[1] })
        } else {
            None
        },
        Operator::SetMiterLimit => if n.len() == 1 {
            Some(Operation::SetMiterLimit(n[0]))
        } else {
            None
        },
        Operator::AppendRectangleToPath => if n.len() == 4 {
            Some(Operation::AppendRectangleToPath { x: n[0], y: n[1], width: n[2], height: n[3] })
        } else {
            None
        },
        Operator::SetRGBColorForStrokingOperations => if n.len() == 3 {
            Some(Operation::SetRGBColorForStrokingOperations(n[0], n[1], n[2]))
        } else {
            None
        },
        Operator::SetRGBColorForNonStrokingOperations => if n.len() == 3 {
            Some(Operation::SetRGBColorForNonStrokingOperations(n[0], n[1], n[2]))
        } else {
            None
        },
        Operator::SetFlatnessTolerance => if n.len() == 1 {
            Some(Operation::SetFlatnessTolerance(n[0]))
        } else {
            None
        },
        Operator::SetCharacterSpacing => if n.len() == 1 {
            Some(Operation::SetCharacterSpacing(n[0]))
        } else {
            None
        },
        Operator::SetTextLeading => if n.len() == 1 {
            Some(Operation::SetTextLeading(n[0]))
        } else {
            None
        },
        Operator::MoveTextPosition => if n.len() == 2 {
            Some(Operation::MoveTextPosition { x: n[0], y: n[1] })
        } else {
            None
        },
        Operator::MoveTextPositionAndSetLeading => if n.len() == 2 {
            Some(Operation::MoveTextPositionAndSetLeading { x: n[0], y: n[1] })
        } else {
            None
        },
        Operator::SetTextMatrixAndTextLineMatrix => if n.len() == 6 {
            if n[0].is_one() && n[1].is_zero() && n[2].is_zero() && n[3].is_one() {
                Some(Operation::MoveTextPosition { x: n[4], y: n[5] })
            } else {
                Some(Operation::SetTextMatrixAndTextLineMatrix(n[0], n[1], n[2], n[3], n[4], n[5]))
            }
        } else {
            None
        },
        Operator::SetTextRise => if n.len() == 1 {
            Some(Operation::SetTextRise(n[0]))
        } else {
            None
        },
        Operator::SetWordSpacing => if n.len() == 1 {
            Some(Operation::SetWordSpacing(n[0]))
        } else {
            None
        },
        Operator::SetHorizontalTextScaling => if n.len() == 1 {
            Some(Operation::SetHorizontalTextScaling(n[0]))
        } else {
            None
        },
        Operator::AppendCurvedSegmentToPathInitialPointReplicated => if n.len() == 4 {
            Some(Operation::AppendCurvedSegmentToPathInitialPointReplicated {
                x2: n[0],
                y2: n[1],
                x3: n[2],
                y3: n[3],
            })
        } else {
            None
        },
        Operator::SetLineWidth => if n.len() == 1 {
            Some(Operation::SetLineWidth(n[0]))
        } else {
            None
        },
        Operator::AppendCurvedSegmentToPathFinalPointReplicated => if n.len() == 4 {
            Some(Operation::AppendCurvedSegmentToPathFinalPointReplicated {
                x1: n[0],
                y1: n[1],
                x3: n[2],
                y3: n[3],
            })
        } else {
            None
        },
        Operator::SetColorForStrokingOperations => match untyped_color(n) {
            Some(color) => Some(Operation::SetColorForStrokingOperations(color)),
            None => None,
        },
        Operator::SetColorForNonStrokingOperations => match untyped_color(n) {
            Some(color) => Some(Operation::SetColorForNonStrokingOperations(color)),
            None => None,
        },
        _ => None,
    }
}

/// The colour that the given components make, if they are one, three or four.
fn untyped_color(n: &[Real]) -> (r: Option<UntypedColor>)
    ensures
        r is Some <==> (n.len() == 1 || n.len() == 3 || n.len() == 4),
        r matches Some(color) ==> color == color_of(n@),
{
    if n.len() == 1 {
        Some(UntypedColor::DeviceGrayCalGrayOrIndexed(n[0]))
    } else if n.len() == 3 {
        Some(UntypedColor::DeviceRGBCalRGBOrLab(n[0], n[1], n[2]))
    } else if n.len() == 4 {
        Some(UntypedColor::DeviceCMYK(n[0], n[1], n[2], n[3]))
    } else {
        None
    }
}

/// The operation of an operator that takes one name.
fn named_operation<'a>(op: Operator, name: &'a str) -> (r: Option<Operation<'a>>)
    ensures
        r is Some <==> (op.shape() is Name || (op.shape() is Intent && intent_named(name@)
            is Some)),
        forall|xs: Seq<PrimitiveView>, font: Option<FontInfoView>|
            xs.len() > 0 && xs[0] == PrimitiveView::Name(name@) ==> (r matches Some(o) ==> o@
                == #[trigger] typed(op, xs, font)),
{
    match op {
        Operator::SetColorSpaceForStrokingOperations => Some(
            Operation::SetColorSpaceForStrokingOperations(Name(name)),
        ),
        Operator::SetColorSpaceForNonStrokingOperations => Some(
            Operation::SetColorSpaceForNonStrokingOperations(Name(name)),
        ),
        Operator::InvokeNamedXObject => Some(Operation::InvokeNamedXObject(Name(name))),
        Operator::SetParametersFromGraphicsStateParameterDictionary => Some(
            Operation::SetParametersFromGraphicsStateParameterDictionary(Name(name)),
        ),
        Operator::DefineMarkedContentPoint => Some(Operation::DefineMarkedContentPoint(Name(name))),
        Operator::PaintAreaDefinedByShadingPattern => Some(
            Operation::PaintAreaDefinedByShadingPattern(Name(name)),
        ),
        Operator::SetColorRenderingIntent => match rendering_intent(name) {
            Some(intent) => Some(Operation::SetColorRenderingIntent(intent)),
            None => None,
        },
        _ => None,
    }
}

/// The rendering intent with the given name.
pub fn rendering_intent(name: &str) -> (r: Option<ColorRenderingIntent>)
    ensures
        r == intent_named(name@),
{
    if same_text(name, "AbsoluteColorimetric") {
        Some(ColorRenderingIntent::AbsoluteColorimetric)
    } else if same_text(name, "RelativeColorimetric") {
        Some(ColorRenderingIntent::RelativeColorimetric)
    } else if same_text(name, "Saturation") {
        Some(ColorRenderingIntent::Saturation)
    } else if same_text(name, "Perceptual") {
        Some(ColorRenderingIntent::Perceptual)
    } else {
        None
    }
}

/// The operation of an operator whose one operand is the number of a style.
fn chosen_operation<'a>(op: Operator, i: i32) -> (r: Option<Operation<'a>>)
    ensures
        r is Some <==> (op.shape() matches Shape::Choice(bound) && 0 <= i < bound),
        forall|xs: Seq<PrimitiveView>, font: Option<FontInfoView>|
            xs.len() > 0 && xs[0] == PrimitiveView::Integer(i) ==> (r matches Some(o) ==> o@
                == #[trigger] typed(op, xs, font)),
{
    match op {
        Operator::SetLineJoinStyle => match i {
            0 => Some(Operation::SetLineJoinStyle(LineJoinStyle::MiterJoin)),
            1 => Some(Operation::SetLineJoinStyle(LineJoinStyle::RoundJoin)),
            2 => Some(Operation::SetLineJoinStyle(LineJoinStyle::BevelJoin)),
            _ => None,
        },
        Operator::SetLineCapStyle => match i {
            0 => Some(Operation::SetLineCapStyle(LineCapStyle::ButtCap)),
            1 => Some(Operation::SetLineCapStyle(LineCapStyle::RoundCap)),
            2 => Some(Operation::SetLineCapStyle(LineCapStyle::ProjectingSquareCap)),
            _ => None,
        },
        Operator::SetTextRenderingMode => match i {
            0 => Some(Operation::SetTextRenderingMode(TextRenderingMode::FillText)),
            1 => Some(Operation::SetTextRenderingMode(TextRenderingMode::StrokeText)),
            2 => Some(Operation::SetTextRenderingMode(TextRenderingMode::FillThenStrokeText)),
            3 => Some(Operation::SetTextRenderingMode(TextRenderingMode::Invisible)),
            4 => Some(
                Operation::SetTextRenderingMode(TextRenderingMode::FillTextAndAddToPathForClipping),
            ),
            5 => Some(
                Operation::SetTextRenderingMode(
                    TextRenderingMode::StrokeTextAndAddToPathForClipping,
                ),
            ),
            6 => Some(
                Operation::SetTextRenderingMode(
                    TextRenderingMode::FillThenStrokeTextAndAddToPathForClipping,
                ),
            ),
            7 => Some(Operation::SetTextRenderingMode(TextRenderingMode::AddTextToPathForClipping)),
            _ => None,
        },
        _ => None,
    }
}

/// The elements of a glyph-positioning array in typed form, if each is a
/// number or a string that decodes.
fn positioned_parts<'a>(values: &'a [Primitive], current_font: Option<&FontInfo>) -> (r: Option<
    Vec<TextOrGlyphPositioning<'a>>,
>)
    ensures
        r is Some <==> forall|i: int|
            0 <= i < values@.len() ==> (#[trigger] positioned(
                operands_view(values@)[i],
                font_view(current_font),
            )) is Some,
        r matches Some(parts) ==> parts_view(parts@) == positioned_all(
            operands_view(values@),
            font_view(current_font),
        ),
{
    let ghost a = operands_view(values@);
    let ghost font = font_view(current_font);
    let mut parts: Vec<TextOrGlyphPositioning<'a>> = Vec::new();
    let mut k: usize = 0;
    while k < values.len()
        invariant
            k <= values.len(),
            a == operands_view(values@),
            font == font_view(current_font),
            parts@.len() == k,
            forall|i: int| 0 <= i < k ==> (#[trigger] positioned(a[i], font)) == Some(parts@[i]@),
        decreases values.len() - k,
    {
        let part: TextOrGlyphPositioning<'a> = match &values[k] {
            Primitive::String(bytes) => match decode_string(bytes.as_slice(), current_font) {
                Ok(text) => TextOrGlyphPositioning::Text(text),
                Err(_) => {
                    assert(positioned(a[k as int], font) is None);
                    return None;
                },
            },
            Primitive::Number(amount) => TextOrGlyphPositioning::GlyphPositioning(*amount),
            Primitive::Integer(amount) => TextOrGlyphPositioning::GlyphPositioning(
                Real::from_i32(*amount),
            ),
            _ => {
                assert(positioned(a[k as int], font) is None);
                return None;
            },
        };
        assert(positioned(a[k as int], font) == Some(part@));
        parts.push(part);
        k = k + 1;
    }
    Some(parts)
}

/// The operation of a special-colour operator: the components in front,
/// and the name of a pattern behind them if the last operand is a name.
fn special_color_operation<'a>(op: Operator, operands: &'a [Primitive]) -> (r: Option<
    Operation<'a>,
>)
    ensures
        r is Some <==> op.shape() is SpecialColor && all_numbers(
            color_components(operands_view(operands@)),
        ),
        forall|font: Option<FontInfoView>|
            r matches Some(o) ==> o@ == #[trigger] typed(op, operands_view(operands@), font),
{
    let ghost xs = operands_view(operands@);
    let count: usize = operands.len();
    let last: Option<&'a str> = if count > 0 {
        match &operands[count - 1] {
            Primitive::Name(name) => Some(name.as_str()),
            _ => None,
        }
    } else {
        None
    };
    let (components, name): (&'a [Primitive], Option<Name<'a>>) = match last {
        Some(text) => (&operands[0..count - 1], Some(Name(text))),
        None => (operands, None),
    };
    assert(operands_view(components@) =~= color_components(xs));
    match (op, numbers(components)) {
        (Operator::SetColorForStrokingOperationsICCBasedAndSpecialColorSpaces, Some(cs)) => Some(
            Operation::SetColorForStrokingOperationsICCBasedAndSpecialColorSpaces { cs, name },
        ),
        (Operator::SetColorForNonStrokingOperationsICCBasedAndSpecialColorSpaces, Some(cs)) => Some(
            Operation::SetColorForNonStrokingOperationsICCBasedAndSpecialColorSpaces { cs, name },
        ),
        _ => None,
    }
}

/// The operation of an operator that shows one string.
fn text_operation<'a>(op: Operator, bytes: &'a [u8], current_font: Option<&FontInfo>) -> (r: Option<
    Operation<'a>,
>)
    ensures
        r is Some <==> op.shape() is Text && decode(bytes@, font_view(current_font)) is Ok,
        forall|xs: Seq<PrimitiveView>|
            xs.len() > 0 && xs[0] == PrimitiveView::String(bytes@) ==> (r matches Some(o) ==> o@
                == #[trigger] typed(op, xs, font_view(current_font))),
{
    match (op, decode_string(bytes, current_font)) {
        (Operator::ShowText, Ok(text)) => Some(Operation::ShowText(text)),
        (Operator::MoveToNextLineAndShowText, Ok(text)) => Some(
            Operation::MoveToNextLineAndShowText(text),
        ),
        _ => None,
    }
}

/// The typed operation of an operator for the given operands, or `None` if
/// the operands do not have the operator's shape.
pub fn typed_operation<'a>(
    op: Operator,
    operands: &'a [Primitive],
    current_font: Option<&FontInfo>,
) -> (r: Option<Operation<'a>>)
    ensures
        r is Some <==> accepts(op.shape(), operands_view(operands@), font_view(current_font)),
        r matches Some(o) ==> o@ == typed(op, operands_view(operands@), font_view(current_font)),
{
    let count: usize = operands.len();
    match op.operand_shape() {
        Shape::Any => plain_operation(op),
        Shape::Empty => if count == 0 {
            plain_operation(op)
        } else {
            None
        },
        Shape::Tag => if count == 1 && is_name(&operands[0]) {
            plain_operation(op)
        } else {
            None
        },
        Shape::TagAndProperties => if count == 2 && is_name(&operands[0]) && is_properties(
            &operands[1],
        ) {
            plain_operation(op)
        } else {
            None
        },
        Shape::ImageEntries => if image_entries(operands) {
            plain_operation(op)
        } else {
            None
        },
        Shape::Numbers(_) | Shape::Color => match numbers(operands) {
            Some(n) => numeric_operation(op, n.as_slice()),
            None => None,
        },
        Shape::SpecialColor => special_color_operation(op, operands),
        _ => if count == 1 {
            match &operands[0] {
                Primitive::Integer(i) => chosen_operation(op, *i),
                Primitive::Name(name) => named_operation(op, name.as_str()),
                Primitive::String(bytes) => text_operation(op, bytes.as_slice(), current_font),
                Primitive::Array(values) => {
                    proof {
                        lemma_values_view(*values);
                    }
                    match (op, positioned_parts(values.as_slice(), current_font)) {
                        (Operator::ShowTextAllowingIndividualGlyphPositioning, Some(parts)) => Some(
                            Operation::ShowTextAllowingIndividualGlyphPositioning(parts),
                        ),
                        _ => None,
                    }
                },
                _ => None,
            }
        } else if count == 2 {
            match (op, &operands[0], operands[1].try_to_f()) {
                (Operator::SetLineDashPattern, Primitive::Array(values), Some(phase)) => {
                    proof {
                        lemma_values_view(*values);
                    }
                    match numbers(values.as_slice()) {
                        Some(array) => Some(Operation::SetLineDashPattern { array, phase }),
                        None => None,
                    }
                },
                (Operator::SetTextFontAndSize, Primitive::Name(font_name), Some(size)) => Some(
                    Operation::SetTextFontAndSize { font: font_name.as_str(), size },
                ),
                _ => None,
            }
        } else if count == 3 {
            match (op, operands[0].try_to_f(), operands[1].try_to_f(), &operands[2]) {
                (
                    Operator::SetWordAndCharacterSpacingMoveToNextLineAndShowText,
                    Some(word_spacing),
                    Some(character_spacing),
                    Primitive::String(bytes),
                ) => match decode_string(bytes.as_slice(), current_font) {
                    Ok(text) => Some(
                        Operation::SetWordAndCharacterSpacingMoveToNextLineAndShowText {
                            text,
                            word_spacing,
                            character_spacing,
                        },
                    ),
                    Err(_) => None,
                },
                _ => None,
            }
        } else {
            None
        },
    }
}

/// Sorts an operator name and its operands into a typed operation,
/// decoding the strings of text-showing operators under the given font.
///
/// Every instruction has a result. One whose operator the grammar does not
/// have, or whose operands do not fit the operator, comes back as `Unknown`
/// and borrows the operator name and the operands as they were given.
pub fn classify<'a>(
    operator: &'a str,
    operands: &'a [Primitive],
    current_font: Option<&FontInfo>,
) -> (r: Operation<'a>)
    ensures
        r@ == classified(operator@, operands_view(operands@), font_view(current_font)),
{
    let typed: Option<Operation<'a>> = match Operator::from_name(operator) {
        Some(op) => typed_operation(op, operands, current_font),
        None => None,
    };
    match typed {
        Some(o) => o,
        None => Operation::Unknown { operator, operands },
    }
}

/// Sorts an instruction into a typed operation under the given font.
pub fn normalize_operation_with_font<'a>(
    operation: &'a Instruction,
    current_font: Option<&FontInfo>,
) -> (r: Operation<'a>)
    ensures
        r@ == classified(operation@.operator, operation@.operands, font_view(current_font)),
{
    classify(operation.operator.as_str(), operation.operands.as_slice(), current_font)
}

/// Sorts an instruction into a typed operation with no font in effect.
pub fn normalize_operation<'a>(operation: &'a Instruction) -> (r: Operation<'a>)
    ensures
        r@ == classified(operation@.operator, operation@.operands, None),
{
    normalize_operation_with_font(operation, None)
}

} // verus!
