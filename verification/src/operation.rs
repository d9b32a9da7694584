//! The typed operations of a content stream.
//!
//! One variant for each operator of the PDF content-stream grammar, with its
//! operands in their final type, and `Unknown` for an instruction that fits
//! none of them.

use crate::number::Real;
use crate::primitive::operands_view;
use crate::primitive::Primitive;
use crate::primitive::PrimitiveView;
use std::borrow::Cow;
use vstd::prelude::*;

verus! {

/// The name of a resource, without the leading slash.
#[derive(Clone, Copy, Debug, PartialEq, Eq)]
pub struct Name<'src>(pub &'src str);

impl<'src> View for Name<'src> {
    type V = Seq<char>;

    open spec fn view(&self) -> Seq<char> {
        self.0@
    }
}

/// Model of an optional name.
pub open spec fn name_view(name: Option<Name<'_>>) -> Option<Seq<char>> {
    match name {
        Some(n) => Some(n@),
        None => None,
    }
}

#[derive(Clone, Copy, Debug, PartialEq, Eq, Structural)]
pub enum LineCapStyle {
    ButtCap,
    RoundCap,
    ProjectingSquareCap,
}

#[derive(Clone, Copy, Debug, PartialEq, Eq, Structural)]
pub enum LineJoinStyle {
    MiterJoin,
    RoundJoin,
    BevelJoin,
}

#[derive(Clone, Copy, Debug, PartialEq, Eq, Structural)]
pub enum TextRenderingMode {
    FillText,
    StrokeText,
    FillThenStrokeText,
    Invisible,
    FillTextAndAddToPathForClipping,
    StrokeTextAndAddToPathForClipping,
    FillThenStrokeTextAndAddToPathForClipping,
    AddTextToPathForClipping,
}

/// One element of the array of a glyph-positioning text operator: a piece of
/// text, or an adjustment of the position in thousandths of text space.
#[derive(Debug, PartialEq)]
pub enum TextOrGlyphPositioning<'src> {
    Text(Cow<'src, str>),
    GlyphPositioning(Real),
}

/// Mathematical model of a [`TextOrGlyphPositioning`].
pub enum TextOrGlyphPositioningView {
    Text(Seq<char>),
    GlyphPositioning(Real),
}

impl<'src> View for TextOrGlyphPositioning<'src> {
    type V = TextOrGlyphPositioningView;

    open spec fn view(&self) -> TextOrGlyphPositioningView {
        match self {
            TextOrGlyphPositioning::Text(text) => TextOrGlyphPositioningView::Text(text@),
            TextOrGlyphPositioning::GlyphPositioning(amount) => {
                TextOrGlyphPositioningView::GlyphPositioning(*amount)
            },
        }
    }
}

/// Model of the elements of a glyph-positioning array.
pub open spec fn parts_view(parts: Seq<TextOrGlyphPositioning<'_>>) -> Seq<
    TextOrGlyphPositioningView,
> {
    Seq::new(parts.len(), |i: int| parts[i]@)
}

/// A colour whose space the operator does not say: the number of components
/// decides between the families.
#[derive(Clone, Copy, Debug, PartialEq, Eq, Structural)]
pub enum UntypedColor {
    DeviceGrayCalGrayOrIndexed(Real),
    DeviceRGBCalRGBOrLab(Real, Real, Real),
    DeviceCMYK(Real, Real, Real, Real),
}

#[derive(Clone, Copy, Debug, PartialEq, Eq, Structural)]
pub enum ColorRenderingIntent {
    AbsoluteColorimetric,
    RelativeColorimetric,
    Saturation,
    Perceptual,
}

/// A content-stream instruction in typed form.
///
/// An operation holds the operands that say what to do, in their final
/// type. The tag and the property list of marked content and the entries of
/// an inline image are checked for their form and not carried along.
/// `Unknown` borrows the operator name and the operands of the instruction
/// it came from, untouched.
#[derive(Debug, PartialEq)]
pub enum Operation<'src> {
    CloseFillAndStrokePathUsingNonZeroWindingNumber,
    FillAndStrokePathUsingNonZeroWindingNumber,
    CloseFillAndStrokePathUsingEvenOddRule,
    FillAndStrokePathUsingEvenOddRule,
    BeginMarkedContentSequenceWithPropertyList,
    BeginInlineImageObject,
    BeginMarkedContentSequence,
    BeginTextObject,
    BeginCompatibilitySection,
    AppendCurvedSegmentToPath {
        x1: Real,
        y1: Real,
        x2: Real,
        y2: Real,
        x3: Real,
        y3: Real,
    },
    ConcatenateMatrixToCurrentTransformationMatrix(Real, Real, Real, Real, Real, Real),
    SetColorSpaceForStrokingOperations(Name<'src>),
    SetColorSpaceForNonStrokingOperations(Name<'src>),
    SetLineDashPattern { array: Vec<Real>, phase: Real },
    SetGlyphWidthInType3Font { wx: Real, wy: Real },
    SetGlyphWidthAndBoundingBoxInType3Font {
        wx: Real,
        wy: Real,
        llx: Real,
        lly: Real,
        urx: Real,
        ury: Real,
    },
    InvokeNamedXObject(Name<'src>),
    DefineMarkedContentPointWithPropertyList,
    EndInlineImageObject,
    EndMarkedContentSequence,
    EndTextObject,
    EndCompatibilitySection,
    FillPathUsingNonZeroWindingNumberRule,
    ObsoleteFillPathUsingNonZeroWindingMumberRule,
    FillPathUsingEvenOddRule,
    SetGrayLevelForStrokingOperations(Real),
    SetGrayLevelForNonStrokingOperations(Real),
    SetParametersFromGraphicsStateParameterDictionary(Name<'src>),
    CloseSubpath,
    SetFlatnessTolerance(Real),
    BeginInlineImageData,
    SetLineJoinStyle(LineJoinStyle),
    SetLineCapStyle(LineCapStyle),
    SetCMYKColorForStrokingOperations(Real, Real, Real, Real),
    SetCMYKColorForNonStrokingOperations(Real, Real, Real, Real),
    AppendStraightLineSegmentToPath { x: Real, y: Real },
    BeginNewSubpath { x: Real, y: Real },
    SetMiterLimit(Real),
    DefineMarkedContentPoint(Name<'src>),
    EndPathWithoutFillingOrStroking,
    SaveGraphicsState,
    RestoreGraphicsState,
    AppendRectangleToPath {
        x: Real,
        y: Real,
        width: Real,
        height: Real,
    },
    SetRGBColorForStrokingOperations(Real, Real, Real),
    SetRGBColorForNonStrokingOperations(Real, Real, Real),
    SetColorRenderingIntent(ColorRenderingIntent),
    CloseAndStrokePath,
    StrokePath,
    SetColorForStrokingOperations(UntypedColor),
    SetColorForNonStrokingOperations(UntypedColor),
    SetColorForStrokingOperationsICCBasedAndSpecialColorSpaces {
        cs: Vec<Real>,
        name: Option<Name<'src>>,
    },
    SetColorForNonStrokingOperationsICCBasedAndSpecialColorSpaces {
        cs: Vec<Real>,
        name: Option<Name<'src>>,
    },
    PaintAreaDefinedByShadingPattern(Name<'src>),
    MoveToStartOfNextTextLine,
    SetCharacterSpacing(Real),
    MoveTextPosition { x: Real, y: Real },
    MoveTextPositionAndSetLeading { x: Real, y: Real },
    SetTextFontAndSize { font: &'src str, size: Real },
    ShowText(Cow<'src, str>),
    ShowTextAllowingIndividualGlyphPositioning(Vec<TextOrGlyphPositioning<'src>>),
    SetTextLeading(Real),
    SetTextMatrixAndTextLineMatrix(Real, Real, Real, Real, Real, Real),
    SetTextRenderingMode(TextRenderingMode),
    SetTextRise(Real),
    SetWordSpacing(Real),
    SetHorizontalTextScaling(Real),
    AppendCurvedSegmentToPathInitialPointReplicated {
        x2: Real,
        y2: Real,
        x3: Real,
        y3: Real,
    },
    SetLineWidth(Real),
    SetClippingPathUsingNonZeroWindingNumberRule,
    SetClippingPathUsingEvenOddRule,
    AppendCurvedSegmentToPathFinalPointReplicated {
        x1: Real,
        y1: Real,
        x3: Real,
        y3: Real,
    },
    MoveToNextLineAndShowText(Cow<'src, str>),
    SetWordAndCharacterSpacingMoveToNextLineAndShowText {
        text: Cow<'src,
        str>,
        word_spacing: Real,
        character_spacing: Real,
    },
    Unknown {
        operator: &'src str,
        operands: &'src [Primitive],
    },
}

/// Mathematical model of an [`Operation`].
pub enum OperationView {
    CloseFillAndStrokePathUsingNonZeroWindingNumber,
    FillAndStrokePathUsingNonZeroWindingNumber,
    CloseFillAndStrokePathUsingEvenOddRule,
    FillAndStrokePathUsingEvenOddRule,
    BeginMarkedContentSequenceWithPropertyList,
    BeginInlineImageObject,
    BeginMarkedContentSequence,
    BeginTextObject,
    BeginCompatibilitySection,
    AppendCurvedSegmentToPath {
        x1: Real,
        y1: Real,
        x2: Real,
        y2: Real,
        x3: Real,
        y3: Real,
    },
    ConcatenateMatrixToCurrentTransformationMatrix(Real, Real, Real, Real, Real, Real),
    SetColorSpaceForStrokingOperations(Seq<char>),
    SetColorSpaceForNonStrokingOperations(Seq<char>),
    SetLineDashPattern { array: Seq<Real>, phase: Real },
    SetGlyphWidthInType3Font { wx: Real, wy: Real },
    SetGlyphWidthAndBoundingBoxInType3Font {
        wx: Real,
        wy: Real,
        llx: Real,
        lly: Real,
        urx: Real,
        ury: Real,
    },
    InvokeNamedXObject(Seq<char>),
    DefineMarkedContentPointWithPropertyList,
    EndInlineImageObject,
    EndMarkedContentSequence,
    EndTextObject,
    EndCompatibilitySection,
    FillPathUsingNonZeroWindingNumberRule,
    ObsoleteFillPathUsingNonZeroWindingMumberRule,
    FillPathUsingEvenOddRule,
    SetGrayLevelForStrokingOperations(Real),
    SetGrayLevelForNonStrokingOperations(Real),
    SetParametersFromGraphicsStateParameterDictionary(Seq<char>),
    CloseSubpath,
    SetFlatnessTolerance(Real),
    BeginInlineImageData,
    SetLineJoinStyle(LineJoinStyle),
    SetLineCapStyle(LineCapStyle),
    SetCMYKColorForStrokingOperations(Real, Real, Real, Real),
    SetCMYKColorForNonStrokingOperations(Real, Real, Real, Real),
    AppendStraightLineSegmentToPath { x: Real, y: Real },
    BeginNewSubpath { x: Real, y: Real },
    SetMiterLimit(Real),
    DefineMarkedContentPoint(Seq<char>),
    EndPathWithoutFillingOrStroking,
    SaveGraphicsState,
    RestoreGraphicsState,
    AppendRectangleToPath {
        x: Real,
        y: Real,
        width: Real,
        height: Real,
    },
    SetRGBColorForStrokingOperations(Real, Real, Real),
    SetRGBColorForNonStrokingOperations(Real, Real, Real),
    SetColorRenderingIntent(ColorRenderingIntent),
    CloseAndStrokePath,
    StrokePath,
    SetColorForStrokingOperations(UntypedColor),
    SetColorForNonStrokingOperations(UntypedColor),
    SetColorForStrokingOperationsICCBasedAndSpecialColorSpaces {
        cs: Seq<Real>,
        name: Option<Seq<char>>,
    },
    SetColorForNonStrokingOperationsICCBasedAndSpecialColorSpaces {
        cs: Seq<Real>,
        name: Option<Seq<char>>,
    },
    PaintAreaDefinedByShadingPattern(Seq<char>),
    MoveToStartOfNextTextLine,
    SetCharacterSpacing(Real),
    MoveTextPosition { x: Real, y: Real },
    MoveTextPositionAndSetLeading { x: Real, y: Real },
    SetTextFontAndSize { font: Seq<char>, size: Real },
    ShowText(Seq<char>),
    ShowTextAllowingIndividualGlyphPositioning(Seq<TextOrGlyphPositioningView>),
    SetTextLeading(Real),
    SetTextMatrixAndTextLineMatrix(Real, Real, Real, Real, Real, Real),
    SetTextRenderingMode(TextRenderingMode),
    SetTextRise(Real),
    SetWordSpacing(Real),
    SetHorizontalTextScaling(Real),
    AppendCurvedSegmentToPathInitialPointReplicated {
        x2: Real,
        y2: Real,
        x3: Real,
        y3: Real,
    },
    SetLineWidth(Real),
    SetClippingPathUsingNonZeroWindingNumberRule,
    SetClippingPathUsingEvenOddRule,
    AppendCurvedSegmentToPathFinalPointReplicated {
        x1: Real,
        y1: Real,
        x3: Real,
        y3: Real,
    },
    MoveToNextLineAndShowText(Seq<char>),
    SetWordAndCharacterSpacingMoveToNextLineAndShowText {
        text: Seq<char>,
        word_spacing: Real,
        character_spacing: Real,
    },
    Unknown {
        operator: Seq<char>,
        operands: Seq<PrimitiveView>,
    },
}

impl<'src> View for Operation<'src> {
    type V = OperationView;

    open spec fn view(&self) -> OperationView {
        match self {
            Operation::CloseFillAndStrokePathUsingNonZeroWindingNumber => {
                OperationView::CloseFillAndStrokePathUsingNonZeroWindingNumber
            },
            Operation::FillAndStrokePathUsingNonZeroWindingNumber => {
                OperationView::FillAndStrokePathUsingNonZeroWindingNumber
            },
            Operation::CloseFillAndStrokePathUsingEvenOddRule => {
                OperationView::CloseFillAndStrokePathUsingEvenOddRule
            },
            Operation::FillAndStrokePathUsingEvenOddRule => {
                OperationView::FillAndStrokePathUsingEvenOddRule
            },
            Operation::BeginMarkedContentSequenceWithPropertyList => {
                OperationView::BeginMarkedContentSequenceWithPropertyList
            },
            Operation::BeginInlineImageObject => OperationView::BeginInlineImageObject,
            Operation::BeginMarkedContentSequence => OperationView::BeginMarkedContentSequence,
            Operation::BeginTextObject => OperationView::BeginTextObject,
            Operation::BeginCompatibilitySection => OperationView::BeginCompatibilitySection,
            Operation::AppendCurvedSegmentToPath { x1, y1, x2, y2, x3, y3 } => {
                OperationView::AppendCurvedSegmentToPath {
                    x1: *x1,
                    y1: *y1,
                    x2: *x2,
                    y2: *y2,
                    x3: *x3,
                    y3: *y3,
                }
            },
            Operation::ConcatenateMatrixToCurrentTransformationMatrix(a, b, c, d, e, f) => {
                OperationView::ConcatenateMatrixToCurrentTransformationMatrix(
                    *a,
                    *b,
                    *c,
                    *d,
                    *e,
                    *f,
                )
            },
            Operation::SetColorSpaceForStrokingOperations(name) => {
                OperationView::SetColorSpaceForStrokingOperations(name@)
            },
            Operation::SetColorSpaceForNonStrokingOperations(name) => {
                OperationView::SetColorSpaceForNonStrokingOperations(name@)
            },
            Operation::SetLineDashPattern { array, phase } => {
                OperationView::SetLineDashPattern { array: array@, phase: *phase }
            },
            Operation::SetGlyphWidthInType3Font { wx, wy } => {
                OperationView::SetGlyphWidthInType3Font { wx: *wx, wy: *wy }
            },
            Operation::SetGlyphWidthAndBoundingBoxInType3Font { wx, wy, llx, lly, urx, ury } => {
                OperationView::SetGlyphWidthAndBoundingBoxInType3Font {
                    wx: *wx,
                    wy: *wy,
                    llx: *llx,
                    lly: *lly,
                    urx: *urx,
                    ury: *ury,
                }
            },
            Operation::InvokeNamedXObject(name) => OperationView::InvokeNamedXObject(name@),
            Operation::DefineMarkedContentPointWithPropertyList => {
                OperationView::DefineMarkedContentPointWithPropertyList
            },
            Operation::EndInlineImageObject => OperationView::EndInlineImageObject,
            Operation::EndMarkedContentSequence => OperationView::EndMarkedContentSequence,
            Operation::EndTextObject => OperationView::EndTextObject,
            Operation::EndCompatibilitySection => OperationView::EndCompatibilitySection,
            Operation::FillPathUsingNonZeroWindingNumberRule => {
                OperationView::FillPathUsingNonZeroWindingNumberRule
            },
            Operation::ObsoleteFillPathUsingNonZeroWindingMumberRule => {
                OperationView::ObsoleteFillPathUsingNonZeroWindingMumberRule
            },
            Operation::FillPathUsingEvenOddRule => OperationView::FillPathUsingEvenOddRule,
            Operation::SetGrayLevelForStrokingOperations(a) => {
                OperationView::SetGrayLevelForStrokingOperations(*a)
            },
            Operation::SetGrayLevelForNonStrokingOperations(a) => {
                OperationView::SetGrayLevelForNonStrokingOperations(*a)
            },
            Operation::SetParametersFromGraphicsStateParameterDictionary(name) => {
                OperationView::SetParametersFromGraphicsStateParameterDictionary(name@)
            },
            Operation::CloseSubpath => OperationView::CloseSubpath,
            Operation::SetFlatnessTolerance(a) => OperationView::SetFlatnessTolerance(*a),
            Operation::BeginInlineImageData => OperationView::BeginInlineImageData,
            Operation::SetLineJoinStyle(a) => OperationView::SetLineJoinStyle(*a),
            Operation::SetLineCapStyle(a) => OperationView::SetLineCapStyle(*a),
            Operation::SetCMYKColorForStrokingOperations(a, b, c, d) => {
                OperationView::SetCMYKColorForStrokingOperations(*a, *b, *c, *d)
            },
            Operation::SetCMYKColorForNonStrokingOperations(a, b, c, d) => {
                OperationView::SetCMYKColorForNonStrokingOperations(*a, *b, *c, *d)
            },
            Operation::AppendStraightLineSegmentToPath { x, y } => {
                OperationView::AppendStraightLineSegmentToPath { x: *x, y: *y }
            },
            Operation::BeginNewSubpath { x, y } => OperationView::BeginNewSubpath { x: *x, y: *y },
            Operation::SetMiterLimit(a) => OperationView::SetMiterLimit(*a),
            Operation::DefineMarkedContentPoint(name) => {
                OperationView::DefineMarkedContentPoint(name@)
            },
            Operation::EndPathWithoutFillingOrStroking => {
                OperationView::EndPathWithoutFillingOrStroking
            },
            Operation::SaveGraphicsState => OperationView::SaveGraphicsState,
            Operation::RestoreGraphicsState => OperationView::RestoreGraphicsState,
            Operation::AppendRectangleToPath { x, y, width, height } => {
                OperationView::AppendRectangleToPath {
                    x: *x,
                    y: *y,
                    width: *width,
                    height: *height,
                }
            },
            Operation::SetRGBColorForStrokingOperations(a, b, c) => {
                OperationView::SetRGBColorForStrokingOperations(*a, *b, *c)
            },
            Operation::SetRGBColorForNonStrokingOperations(a, b, c) => {
                OperationView::SetRGBColorForNonStrokingOperations(*a, *b, *c)
            },
            Operation::SetColorRenderingIntent(a) => OperationView::SetColorRenderingIntent(*a),
            Operation::CloseAndStrokePath => OperationView::CloseAndStrokePath,
            Operation::StrokePath => OperationView::StrokePath,
            Operation::SetColorForStrokingOperations(a) => {
                OperationView::SetColorForStrokingOperations(*a)
            },
            Operation::SetColorForNonStrokingOperations(a) => {
                OperationView::SetColorForNonStrokingOperations(*a)
            },
            Operation::SetColorForStrokingOperationsICCBasedAndSpecialColorSpaces { cs, name } => {
                OperationView::SetColorForStrokingOperationsICCBasedAndSpecialColorSpaces {
                    cs: cs@,
                    name: name_view(*name),
                }
            },
            Operation::SetColorForNonStrokingOperationsICCBasedAndSpecialColorSpaces { cs, name } => {
                OperationView::SetColorForNonStrokingOperationsICCBasedAndSpecialColorSpaces {
                    cs: cs@,
                    name: name_view(*name),
                }
            },
            Operation::PaintAreaDefinedByShadingPattern(name) => {
                OperationView::PaintAreaDefinedByShadingPattern(name@)
            },
            Operation::MoveToStartOfNextTextLine => OperationView::MoveToStartOfNextTextLine,
            Operation::SetCharacterSpacing(a) => OperationView::SetCharacterSpacing(*a),
            Operation::MoveTextPosition { x, y } => {
                OperationView::MoveTextPosition { x: *x, y: *y }
            },
            Operation::MoveTextPositionAndSetLeading { x, y } => {
                OperationView::MoveTextPositionAndSetLeading { x: *x, y: *y }
            },
            Operation::SetTextFontAndSize { font, size } => {
                OperationView::SetTextFontAndSize { font: font@, size: *size }
            },
            Operation::ShowText(text) => OperationView::ShowText(text@),
            Operation::ShowTextAllowingIndividualGlyphPositioning(parts) => {
                OperationView::ShowTextAllowingIndividualGlyphPositioning(parts_view(parts@))
            },
            Operation::SetTextLeading(a) => OperationView::SetTextLeading(*a),
            Operation::SetTextMatrixAndTextLineMatrix(a, b, c, d, e, f) => {
                OperationView::SetTextMatrixAndTextLineMatrix(*a, *b, *c, *d, *e, *f)
            },
            Operation::SetTextRenderingMode(a) => OperationView::SetTextRenderingMode(*a),
            Operation::SetTextRise(a) => OperationView::SetTextRise(*a),
            Operation::SetWordSpacing(a) => OperationView::SetWordSpacing(*a),
            Operation::SetHorizontalTextScaling(a) => OperationView::SetHorizontalTextScaling(*a),
            Operation::AppendCurvedSegmentToPathInitialPointReplicated { x2, y2, x3, y3 } => {
                OperationView::AppendCurvedSegmentToPathInitialPointReplicated {
                    x2: *x2,
                    y2: *y2,
                    x3: *x3,
                    y3: *y3,
                }
            },
            Operation::SetLineWidth(a) => OperationView::SetLineWidth(*a),
            Operation::SetClippingPathUsingNonZeroWindingNumberRule => {
                OperationView::SetClippingPathUsingNonZeroWindingNumberRule
            },
            Operation::SetClippingPathUsingEvenOddRule => {
                OperationView::SetClippingPathUsingEvenOddRule
            },
            Operation::AppendCurvedSegmentToPathFinalPointReplicated { x1, y1, x3, y3 } => {
                OperationView::AppendCurvedSegmentToPathFinalPointReplicated {
                    x1: *x1,
                    y1: *y1,
                    x3: *x3,
                    y3: *y3,
                }
            },
            Operation::MoveToNextLineAndShowText(text) => {
                OperationView::MoveToNextLineAndShowText(text@)
            },
            Operation::SetWordAndCharacterSpacingMoveToNextLineAndShowText {
                text,
                word_spacing,
                character_spacing,
            } => {
                OperationView::SetWordAndCharacterSpacingMoveToNextLineAndShowText {
                    text: text@,
                    word_spacing: *word_spacing,
                    character_spacing: *character_spacing,
                }
            },
            Operation::Unknown { operator, operands } => OperationView::Unknown {
                operator: operator@,
                operands: operands_view(operands@),
            },
        }
    }
}

} // verus!
