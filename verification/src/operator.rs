//! The operators of the content-stream grammar: their names and the
//! operands each one takes.

use vstd::prelude::*;

verus! {

/// An operator of the content-stream grammar.
///
/// Each variant carries the name of the operation that the operator stands
/// for when its operands fit.
#[derive(Clone, Copy, Debug, PartialEq, Eq, Structural)]
pub enum Operator {
    /// `b`
    CloseFillAndStrokePathUsingNonZeroWindingNumber,
    /// `B`
    FillAndStrokePathUsingNonZeroWindingNumber,
    /// `b*`
    CloseFillAndStrokePathUsingEvenOddRule,
    /// `B*`
    FillAndStrokePathUsingEvenOddRule,
    /// `BDC`
    BeginMarkedContentSequenceWithPropertyList,
    /// `BI`
    BeginInlineImageObject,
    /// `BMC`
    BeginMarkedContentSequence,
    /// `BT`
    BeginTextObject,
    /// `BX`
    BeginCompatibilitySection,
    /// `c`
    AppendCurvedSegmentToPath,
    /// `cm`
    ConcatenateMatrixToCurrentTransformationMatrix,
    /// `CS`
    SetColorSpaceForStrokingOperations,
    /// `cs`
    SetColorSpaceForNonStrokingOperations,
    /// `d`
    SetLineDashPattern,
    /// `d0`
    SetGlyphWidthInType3Font,
    /// `d1`
    SetGlyphWidthAndBoundingBoxInType3Font,
    /// `Do`
    InvokeNamedXObject,
    /// `DP`
    DefineMarkedContentPointWithPropertyList,
    /// `EI`
    EndInlineImageObject,
    /// `EMC`
    EndMarkedContentSequence,
    /// `ET`
    EndTextObject,
    /// `EX`
    EndCompatibilitySection,
    /// `f`
    FillPathUsingNonZeroWindingNumberRule,
    /// `F`
    ObsoleteFillPathUsingNonZeroWindingMumberRule,
    /// `f*`
    FillPathUsingEvenOddRule,
    /// `G`
    SetGrayLevelForStrokingOperations,
    /// `g`
    SetGrayLevelForNonStrokingOperations,
    /// `gs`
    SetParametersFromGraphicsStateParameterDictionary,
    /// `h`
    CloseSubpath,
    /// `i`
    SetFlatnessTolerance,
    /// `ID`
    BeginInlineImageData,
    /// `j`
    SetLineJoinStyle,
    /// `J`
    SetLineCapStyle,
    /// `K`
    SetCMYKColorForStrokingOperations,
    /// `k`
    SetCMYKColorForNonStrokingOperations,
    /// `l`
    AppendStraightLineSegmentToPath,
    /// `m`
    BeginNewSubpath,
    /// `M`
    SetMiterLimit,
    /// `MP`
    DefineMarkedContentPoint,
    /// `n`
    EndPathWithoutFillingOrStroking,
    /// `q`
    SaveGraphicsState,
    /// `Q`
    RestoreGraphicsState,
    /// `re`
    AppendRectangleToPath,
    /// `RG`
    SetRGBColorForStrokingOperations,
    /// `rg`
    SetRGBColorForNonStrokingOperations,
    /// `ri`
    SetColorRenderingIntent,
    /// `s`
    CloseAndStrokePath,
    /// `S`
    StrokePath,
    /// `SC`
    SetColorForStrokingOperations,
    /// `sc`
    SetColorForNonStrokingOperations,
    /// `SCN`
    SetColorForStrokingOperationsICCBasedAndSpecialColorSpaces,
    /// `scn`
    SetColorForNonStrokingOperationsICCBasedAndSpecialColorSpaces,
    /// `sh`
    PaintAreaDefinedByShadingPattern,
    /// `T*`
    MoveToStartOfNextTextLine,
    /// `Tc`
    SetCharacterSpacing,
    /// `Td`
    MoveTextPosition,
    /// `TD`
    MoveTextPositionAndSetLeading,
    /// `Tf`
    SetTextFontAndSize,
    /// `Tj`
    ShowText,
    /// `TJ`
    ShowTextAllowingIndividualGlyphPositioning,
    /// `TL`
    SetTextLeading,
    /// `Tm`
    SetTextMatrixAndTextLineMatrix,
    /// `Tr`
    SetTextRenderingMode,
    /// `Ts`
    SetTextRise,
    /// `Tw`
    SetWordSpacing,
    /// `Tz`
    SetHorizontalTextScaling,
    /// `v`
    AppendCurvedSegmentToPathInitialPointReplicated,
    /// `w`
    SetLineWidth,
    /// `W`
    SetClippingPathUsingNonZeroWindingNumberRule,
    /// `W*`
    SetClippingPathUsingEvenOddRule,
    /// `y`
    AppendCurvedSegmentToPathFinalPointReplicated,
    /// `'`
    MoveToNextLineAndShowText,
    /// `"`
    SetWordAndCharacterSpacingMoveToNextLineAndShowText,
}

/// What an operator asks of its operands.
#[derive(Clone, Copy, Debug, PartialEq, Eq, Structural)]
pub enum Shape {
    /// Any operands, which are ignored.
    Any,
    /// No operand.
    Empty,
    /// One name: the tag of marked content.
    Tag,
    /// A name and a property list, which is a name or a dictionary.
    TagAndProperties,
    /// The entries of an inline image, which stand between the operators
    /// that begin the image and its data and so arrive as operands of the
    /// second: key and value in turn, each key a name. An image without
    /// entries has none.
    ImageEntries,
    /// The given count of numbers, each an integer or a real.
    Numbers(usize),
    /// One integer from zero up to, not including, the given bound.
    Choice(i32),
    /// One, three or four numbers.
    Color,
    /// Any count of numbers, and after them an optional name.
    SpecialColor,
    /// One name.
    Name,
    /// One name, that of a rendering intent.
    Intent,
    /// An array of numbers and a number.
    Dash,
    /// A name and a number.
    Font,
    /// One string that decodes under the font in effect.
    Text,
    /// Two numbers and a string that decodes under the font in effect.
    SpacedText,
    /// One array of numbers and of strings that decode under the font in
    /// effect.
    TextArray,
}

impl Operator {
    /// The operator as it is written in a content stream.
    pub open spec fn name(self) -> Seq<char> {
        match self {
            Operator::CloseFillAndStrokePathUsingNonZeroWindingNumber => seq!['b'],
            Operator::FillAndStrokePathUsingNonZeroWindingNumber => seq!['B'],
            Operator::CloseFillAndStrokePathUsingEvenOddRule => seq!['b', '*'],
            Operator::FillAndStrokePathUsingEvenOddRule => seq!['B', '*'],
            Operator::BeginMarkedContentSequenceWithPropertyList => seq!['B', 'D', 'C'],
            Operator::BeginInlineImageObject => seq!['B', 'I'],
            Operator::BeginMarkedContentSequence => seq!['B', 'M', 'C'],
            Operator::BeginTextObject => seq!['B', 'T'],
            Operator::BeginCompatibilitySection => seq!['B', 'X'],
            Operator::AppendCurvedSegmentToPath => seq!['c'],
            Operator::ConcatenateMatrixToCurrentTransformationMatrix => seq!['c', 'm'],
            Operator::SetColorSpaceForStrokingOperations => seq!['C', 'S'],
            Operator::SetColorSpaceForNonStrokingOperations => seq!['c', 's'],
            Operator::SetLineDashPattern => seq!['d'],
            Operator::SetGlyphWidthInType3Font => seq!['d', '0'],
            Operator::SetGlyphWidthAndBoundingBoxInType3Font => seq!['d', '1'],
            Operator::InvokeNamedXObject => seq!['D', 'o'],
            Operator::DefineMarkedContentPointWithPropertyList => seq!['D', 'P'],
            Operator::EndInlineImageObject => seq!['E', 'I'],
            Operator::EndMarkedContentSequence => seq!['E', 'M', 'C'],
            Operator::EndTextObject => seq!['E', 'T'],
            Operator::EndCompatibilitySection => seq!['E', 'X'],
            Operator::FillPathUsingNonZeroWindingNumberRule => seq!['f'],
            Operator::ObsoleteFillPathUsingNonZeroWindingMumberRule => seq!['F'],
            Operator::FillPathUsingEvenOddRule => seq!['f', '*'],
            Operator::SetGrayLevelForStrokingOperations => seq!['G'],
            Operator::SetGrayLevelForNonStrokingOperations => seq!['g'],
            Operator::SetParametersFromGraphicsStateParameterDictionary => seq!['g', 's'],
            Operator::CloseSubpath => seq!['h'],
            Operator::SetFlatnessTolerance => seq!['i'],
            Operator::BeginInlineImageData => seq!['I', 'D'],
            Operator::SetLineJoinStyle => seq!['j'],
            Operator::SetLineCapStyle => seq!['J'],
            Operator::SetCMYKColorForStrokingOperations => seq!['K'],
            Operator::SetCMYKColorForNonStrokingOperations => seq!['k'],
            Operator::AppendStraightLineSegmentToPath => seq!['l'],
            Operator::BeginNewSubpath => seq!['m'],
            Operator::SetMiterLimit => seq!['M'],
            Operator::DefineMarkedContentPoint => seq!['M', 'P'],
            Operator::EndPathWithoutFillingOrStroking => seq!['n'],
            Operator::SaveGraphicsState => seq!['q'],
            Operator::RestoreGraphicsState => seq!['Q'],
            Operator::AppendRectangleToPath => seq!['r', 'e'],
            Operator::SetRGBColorForStrokingOperations => seq!['R', 'G'],
            Operator::SetRGBColorForNonStrokingOperations => seq!['r', 'g'],
            Operator::SetColorRenderingIntent => seq!['r', 'i'],
            Operator::CloseAndStrokePath => seq!['s'],
            Operator::StrokePath => seq!['S'],
            Operator::SetColorForStrokingOperations => seq!['S', 'C'],
            Operator::SetColorForNonStrokingOperations => seq!['s', 'c'],
            Operator::SetColorForStrokingOperationsICCBasedAndSpecialColorSpaces => {
                seq!['S', 'C', 'N']
            },
            Operator::SetColorForNonStrokingOperationsICCBasedAndSpecialColorSpaces => {
                seq!['s', 'c', 'n']
            },
            Operator::PaintAreaDefinedByShadingPattern => seq!['s', 'h'],
            Operator::MoveToStartOfNextTextLine => seq!['T', '*'],
            Operator::SetCharacterSpacing => seq!['T', 'c'],
            Operator::MoveTextPosition => seq!['T', 'd'],
            Operator::MoveTextPositionAndSetLeading => seq!['T', 'D'],
            Operator::SetTextFontAndSize => seq!['T', 'f'],
            Operator::ShowText => seq!['T', 'j'],
            Operator::ShowTextAllowingIndividualGlyphPositioning => seq!['T', 'J'],
            Operator::SetTextLeading => seq!['T', 'L'],
            Operator::SetTextMatrixAndTextLineMatrix => seq!['T', 'm'],
            Operator::SetTextRenderingMode => seq!['T', 'r'],
            Operator::SetTextRise => seq!['T', 's'],
            Operator::SetWordSpacing => seq!['T', 'w'],
            Operator::SetHorizontalTextScaling => seq!['T', 'z'],
            Operator::AppendCurvedSegmentToPathInitialPointReplicated => seq!['v'],
            Operator::SetLineWidth => seq!['w'],
            Operator::SetClippingPathUsingNonZeroWindingNumberRule => seq!['W'],
            Operator::SetClippingPathUsingEvenOddRule => seq!['W', '*'],
            Operator::AppendCurvedSegmentToPathFinalPointReplicated => seq!['y'],
            Operator::MoveToNextLineAndShowText => seq!['\''],
            Operator::SetWordAndCharacterSpacingMoveToNextLineAndShowText => seq!['"'],
        }
    }

    /// What the operator asks of its operands.
    pub open spec fn shape(self) -> Shape {
        match self {
            Operator::CloseFillAndStrokePathUsingNonZeroWindingNumber
            | Operator::FillAndStrokePathUsingNonZeroWindingNumber
            | Operator::CloseFillAndStrokePathUsingEvenOddRule
            | Operator::FillAndStrokePathUsingEvenOddRule
            | Operator::BeginTextObject
            | Operator::EndTextObject
            | Operator::FillPathUsingNonZeroWindingNumberRule
            | Operator::ObsoleteFillPathUsingNonZeroWindingMumberRule
            | Operator::FillPathUsingEvenOddRule
            | Operator::CloseSubpath
            | Operator::EndPathWithoutFillingOrStroking
            | Operator::SaveGraphicsState
            | Operator::RestoreGraphicsState
            | Operator::CloseAndStrokePath
            | Operator::StrokePath
            | Operator::MoveToStartOfNextTextLine
            | Operator::SetClippingPathUsingNonZeroWindingNumberRule
            | Operator::SetClippingPathUsingEvenOddRule => Shape::Any,
            Operator::BeginInlineImageObject
            | Operator::BeginCompatibilitySection
            | Operator::EndInlineImageObject
            | Operator::EndMarkedContentSequence
            | Operator::EndCompatibilitySection => Shape::Empty,
            Operator::BeginMarkedContentSequence => Shape::Tag,
            Operator::BeginMarkedContentSequenceWithPropertyList
            | Operator::DefineMarkedContentPointWithPropertyList => Shape::TagAndProperties,
            Operator::BeginInlineImageData => Shape::ImageEntries,
            Operator::AppendCurvedSegmentToPath
            | Operator::ConcatenateMatrixToCurrentTransformationMatrix
            | Operator::SetGlyphWidthAndBoundingBoxInType3Font
            | Operator::SetTextMatrixAndTextLineMatrix => Shape::Numbers(6),
            Operator::SetColorSpaceForStrokingOperations
            | Operator::SetColorSpaceForNonStrokingOperations
            | Operator::InvokeNamedXObject
            | Operator::SetParametersFromGraphicsStateParameterDictionary
            | Operator::DefineMarkedContentPoint
            | Operator::PaintAreaDefinedByShadingPattern => Shape::Name,
            Operator::SetLineDashPattern => Shape::Dash,
            Operator::SetGlyphWidthInType3Font
            | Operator::AppendStraightLineSegmentToPath
            | Operator::BeginNewSubpath
            | Operator::MoveTextPosition
            | Operator::MoveTextPositionAndSetLeading => Shape::Numbers(2),
            Operator::SetGrayLevelForStrokingOperations
            | Operator::SetGrayLevelForNonStrokingOperations
            | Operator::SetMiterLimit
            | Operator::SetFlatnessTolerance
            | Operator::SetCharacterSpacing
            | Operator::SetTextLeading
            | Operator::SetTextRise
            | Operator::SetWordSpacing
            | Operator::SetHorizontalTextScaling
            | Operator::SetLineWidth => Shape::Numbers(1),
            Operator::SetLineJoinStyle
            | Operator::SetLineCapStyle => Shape::Choice(3),
            Operator::SetCMYKColorForStrokingOperations
            | Operator::SetCMYKColorForNonStrokingOperations
            | Operator::AppendRectangleToPath
            | Operator::AppendCurvedSegmentToPathInitialPointReplicated
            | Operator::AppendCurvedSegmentToPathFinalPointReplicated => Shape::Numbers(4),
            Operator::SetRGBColorForStrokingOperations
            | Operator::SetRGBColorForNonStrokingOperations => Shape::Numbers(3),
            Operator::SetColorRenderingIntent => Shape::Intent,
            Operator::SetColorForStrokingOperations
            | Operator::SetColorForNonStrokingOperations => Shape::Color,
            Operator::SetColorForStrokingOperationsICCBasedAndSpecialColorSpaces
            | Operator::SetColorForNonStrokingOperationsICCBasedAndSpecialColorSpaces => {
                Shape::SpecialColor
            },
            Operator::SetTextFontAndSize => Shape::Font,
            Operator::ShowText
            | Operator::MoveToNextLineAndShowText => Shape::Text,
            Operator::ShowTextAllowingIndividualGlyphPositioning => Shape::TextArray,
            Operator::SetTextRenderingMode => Shape::Choice(8),
            Operator::SetWordAndCharacterSpacingMoveToNextLineAndShowText => Shape::SpacedText,
        }
    }

    /// What the operator asks of its operands.
    pub fn operand_shape(self) -> (shape: Shape)
        ensures
            shape == self.shape(),
    {
        match self {
            Operator::CloseFillAndStrokePathUsingNonZeroWindingNumber
            | Operator::FillAndStrokePathUsingNonZeroWindingNumber
            | Operator::CloseFillAndStrokePathUsingEvenOddRule
            | Operator::FillAndStrokePathUsingEvenOddRule
            | Operator::BeginTextObject
            | Operator::EndTextObject
            | Operator::FillPathUsingNonZeroWindingNumberRule
            | Operator::ObsoleteFillPathUsingNonZeroWindingMumberRule
            | Operator::FillPathUsingEvenOddRule
            | Operator::CloseSubpath
            | Operator::EndPathWithoutFillingOrStroking
            | Operator::SaveGraphicsState
            | Operator::RestoreGraphicsState
            | Operator::CloseAndStrokePath
            | Operator::StrokePath
            | Operator::MoveToStartOfNextTextLine
            | Operator::SetClippingPathUsingNonZeroWindingNumberRule
            | Operator::SetClippingPathUsingEvenOddRule => Shape::Any,
            Operator::BeginInlineImageObject
            | Operator::BeginCompatibilitySection
            | Operator::EndInlineImageObject
            | Operator::EndMarkedContentSequence
            | Operator::EndCompatibilitySection => Shape::Empty,
            Operator::BeginMarkedContentSequence => Shape::Tag,
            Operator::BeginMarkedContentSequenceWithPropertyList
            | Operator::DefineMarkedContentPointWithPropertyList => Shape::TagAndProperties,
            Operator::BeginInlineImageData => Shape::ImageEntries,
            Operator::AppendCurvedSegmentToPath
            | Operator::ConcatenateMatrixToCurrentTransformationMatrix
            | Operator::SetGlyphWidthAndBoundingBoxInType3Font
            | Operator::SetTextMatrixAndTextLineMatrix => Shape::Numbers(6),
            Operator::SetColorSpaceForStrokingOperations
            | Operator::SetColorSpaceForNonStrokingOperations
            | Operator::InvokeNamedXObject
            | Operator::SetParametersFromGraphicsStateParameterDictionary
            | Operator::DefineMarkedContentPoint
            | Operator::PaintAreaDefinedByShadingPattern => Shape::Name,
            Operator::SetLineDashPattern => Shape::Dash,
            Operator::SetGlyphWidthInType3Font
            | Operator::AppendStraightLineSegmentToPath
            | Operator::BeginNewSubpath
            | Operator::MoveTextPosition
            | Operator::MoveTextPositionAndSetLeading => Shape::Numbers(2),
            Operator::SetGrayLevelForStrokingOperations
            | Operator::SetGrayLevelForNonStrokingOperations
            | Operator::SetMiterLimit
            | Operator::SetFlatnessTolerance
            | Operator::SetCharacterSpacing
            | Operator::SetTextLeading
            | Operator::SetTextRise
            | Operator::SetWordSpacing
            | Operator::SetHorizontalTextScaling
            | Operator::SetLineWidth => Shape::Numbers(1),
            Operator::SetLineJoinStyle
            | Operator::SetLineCapStyle => Shape::Choice(3),
            Operator::SetCMYKColorForStrokingOperations
            | Operator::SetCMYKColorForNonStrokingOperations
            | Operator::AppendRectangleToPath
            | Operator::AppendCurvedSegmentToPathInitialPointReplicated
            | Operator::AppendCurvedSegmentToPathFinalPointReplicated => Shape::Numbers(4),
            Operator::SetRGBColorForStrokingOperations
            | Operator::SetRGBColorForNonStrokingOperations => Shape::Numbers(3),
            Operator::SetColorRenderingIntent => Shape::Intent,
            Operator::SetColorForStrokingOperations
            | Operator::SetColorForNonStrokingOperations => Shape::Color,
            Operator::SetColorForStrokingOperationsICCBasedAndSpecialColorSpaces
            | Operator::SetColorForNonStrokingOperationsICCBasedAndSpecialColorSpaces => {
                Shape::SpecialColor
            },
            Operator::SetTextFontAndSize => Shape::Font,
            Operator::ShowText
            | Operator::MoveToNextLineAndShowText => Shape::Text,
            Operator::ShowTextAllowingIndividualGlyphPositioning => Shape::TextArray,
            Operator::SetTextRenderingMode => Shape::Choice(8),
            Operator::SetWordAndCharacterSpacingMoveToNextLineAndShowText => Shape::SpacedText,
        }
    }

    /// The operator with the given name, if the grammar has one.
    pub fn from_name(name: &str) -> (r: Option<Operator>)
        ensures
            r == operator_named(name@),
    {
        let n: usize = name.unicode_len();
        if n == 0 || n > 3 {
            proof {
                lemma_name_lengths();
            }
            return None;
        }
        let a: char = name.get_char(0);
        let b: char = if n > 1 {
            name.get_char(1)
        } else {
            ' '
        };
        let c: char = if n > 2 {
            name.get_char(2)
        } else {
            ' '
        };
        let found: Option<Operator> = match (n, a, b, c) {
            (1, 'b', _, _) => Some(Operator::CloseFillAndStrokePathUsingNonZeroWindingNumber),
            (1, 'B', _, _) => Some(Operator::FillAndStrokePathUsingNonZeroWindingNumber),
            (2, 'b', '*', _) => Some(Operator::CloseFillAndStrokePathUsingEvenOddRule),
            (2, 'B', '*', _) => Some(Operator::FillAndStrokePathUsingEvenOddRule),
            (3, 'B', 'D', 'C') => Some(Operator::BeginMarkedContentSequenceWithPropertyList),
            (2, 'B', 'I', _) => Some(Operator::BeginInlineImageObject),
            (3, 'B', 'M', 'C') => Some(Operator::BeginMarkedContentSequence),
            (2, 'B', 'T', _) => Some(Operator::BeginTextObject),
            (2, 'B', 'X', _) => Some(Operator::BeginCompatibilitySection),
            (1, 'c', _, _) => Some(Operator::AppendCurvedSegmentToPath),
            (2, 'c', 'm', _) => Some(Operator::ConcatenateMatrixToCurrentTransformationMatrix),
            (2, 'C', 'S', _) => Some(Operator::SetColorSpaceForStrokingOperations),
            (2, 'c', 's', _) => Some(Operator::SetColorSpaceForNonStrokingOperations),
            (1, 'd', _, _) => Some(Operator::SetLineDashPattern),
            (2, 'd', '0', _) => Some(Operator::SetGlyphWidthInType3Font),
            (2, 'd', '1', _) => Some(Operator::SetGlyphWidthAndBoundingBoxInType3Font),
            (2, 'D', 'o', _) => Some(Operator::InvokeNamedXObject),
            (2, 'D', 'P', _) => Some(Operator::DefineMarkedContentPointWithPropertyList),
            (2, 'E', 'I', _) => Some(Operator::EndInlineImageObject),
            (3, 'E', 'M', 'C') => Some(Operator::EndMarkedContentSequence),
            (2, 'E', 'T', _) => Some(Operator::EndTextObject),
            (2, 'E', 'X', _) => Some(Operator::EndCompatibilitySection),
            (1, 'f', _, _) => Some(Operator::FillPathUsingNonZeroWindingNumberRule),
            (1, 'F', _, _) => Some(Operator::ObsoleteFillPathUsingNonZeroWindingMumberRule),
            (2, 'f', '*', _) => Some(Operator::FillPathUsingEvenOddRule),
            (1, 'G', _, _) => Some(Operator::SetGrayLevelForStrokingOperations),
            (1, 'g', _, _) => Some(Operator::SetGrayLevelForNonStrokingOperations),
            (2, 'g', 's', _) => Some(Operator::SetParametersFromGraphicsStateParameterDictionary),
            (1, 'h', _, _) => Some(Operator::CloseSubpath),
            (1, 'i', _, _) => Some(Operator::SetFlatnessTolerance),
            (2, 'I', 'D', _) => Some(Operator::BeginInlineImageData),
            (1, 'j', _, _) => Some(Operator::SetLineJoinStyle),
            (1, 'J', _, _) => Some(Operator::SetLineCapStyle),
            (1, 'K', _, _) => Some(Operator::SetCMYKColorForStrokingOperations),
            (1, 'k', _, _) => Some(Operator::SetCMYKColorForNonStrokingOperations),
            (1, 'l', _, _) => Some(Operator::AppendStraightLineSegmentToPath),
            (1, 'm', _, _) => Some(Operator::BeginNewSubpath),
            (1, 'M', _, _) => Some(Operator::SetMiterLimit),
            (2, 'M', 'P', _) => Some(Operator::DefineMarkedContentPoint),
            (1, 'n', _, _) => Some(Operator::EndPathWithoutFillingOrStroking),
            (1, 'q', _, _) => Some(Operator::SaveGraphicsState),
            (1, 'Q', _, _) => Some(Operator::RestoreGraphicsState),
            (2, 'r', 'e', _) => Some(Operator::AppendRectangleToPath),
            (2, 'R', 'G', _) => Some(Operator::SetRGBColorForStrokingOperations),
            (2, 'r', 'g', _) => Some(Operator::SetRGBColorForNonStrokingOperations),
            (2, 'r', 'i', _) => Some(Operator::SetColorRenderingIntent),
            (1, 's', _, _) => Some(Operator::CloseAndStrokePath),
            (1, 'S', _, _) => Some(Operator::StrokePath),
            (2, 'S', 'C', _) => Some(Operator::SetColorForStrokingOperations),
            (2, 's', 'c', _) => Some(Operator::SetColorForNonStrokingOperations),
            (3, 'S', 'C', 'N') => Some(
                Operator::SetColorForStrokingOperationsICCBasedAndSpecialColorSpaces,
            ),
            (3, 's', 'c', 'n') => Some(
                Operator::SetColorForNonStrokingOperationsICCBasedAndSpecialColorSpaces,
            ),
            (2, 's', 'h', _) => Some(Operator::PaintAreaDefinedByShadingPattern),
            (2, 'T', '*', _) => Some(Operator::MoveToStartOfNextTextLine),
            (2, 'T', 'c', _) => Some(Operator::SetCharacterSpacing),
            (2, 'T', 'd', _) => Some(Operator::MoveTextPosition),
            (2, 'T', 'D', _) => Some(Operator::MoveTextPositionAndSetLeading),
            (2, 'T', 'f', _) => Some(Operator::SetTextFontAndSize),
            (2, 'T', 'j', _) => Some(Operator::ShowText),
            (2, 'T', 'J', _) => Some(Operator::ShowTextAllowingIndividualGlyphPositioning),
            (2, 'T', 'L', _) => Some(Operator::SetTextLeading),
            (2, 'T', 'm', _) => Some(Operator::SetTextMatrixAndTextLineMatrix),
            (2, 'T', 'r', _) => Some(Operator::SetTextRenderingMode),
            (2, 'T', 's', _) => Some(Operator::SetTextRise),
            (2, 'T', 'w', _) => Some(Operator::SetWordSpacing),
            (2, 'T', 'z', _) => Some(Operator::SetHorizontalTextScaling),
            (1, 'v', _, _) => Some(Operator::AppendCurvedSegmentToPathInitialPointReplicated),
            (1, 'w', _, _) => Some(Operator::SetLineWidth),
            (1, 'W', _, _) => Some(Operator::SetClippingPathUsingNonZeroWindingNumberRule),
            (2, 'W', '*', _) => Some(Operator::SetClippingPathUsingEvenOddRule),
            (1, 'y', _, _) => Some(Operator::AppendCurvedSegmentToPathFinalPointReplicated),
            (1, '\'', _, _) => Some(Operator::MoveToNextLineAndShowText),
            (1, '"', _, _) => Some(Operator::SetWordAndCharacterSpacingMoveToNextLineAndShowText),
            _ => None,
        };
        proof {
            assert(name@ =~= spelled(n as nat, a, b, c));
            match found {
                Some(op) => {
                    assert(op.name() =~= name@);
                    lemma_operator_named(op);
                },
                None => {
                    assert forall|op: Operator| op.name() != name@ by {
                        lemma_spelling(op);
                    }
                },
            }
        }
        found
    }
}

/// The operator with the given name, if the grammar has one.
pub open spec fn operator_named(name: Seq<char>) -> Option<Operator> {
    if exists|op: Operator| op.name() == name {
        Some(choose|op: Operator| op.name() == name)
    } else {
        None
    }
}

/// The sequence of the first `n` of three characters, for `n` from one to three.
pub open spec fn spelled(n: nat, a: char, b: char, c: char) -> Seq<char> {
    if n == 1 {
        seq![a]
    } else if n == 2 {
        seq![a, b]
    } else {
        seq![a, b, c]
    }
}

/// Every operator name has one, two or three characters.
pub proof fn lemma_name_lengths()
    ensures
        forall|op: Operator| 1 <= (#[trigger] op.name()).len() <= 3,
{
    assert forall|op: Operator| 1 <= (#[trigger] op.name()).len() <= 3 by {
        lemma_spelling(op);
    }
}

/// A name is the sequence of its characters.
proof fn lemma_spelling(op: Operator)
    ensures
        1 <= op.name().len() <= 3,
        op.name() == spelled(
            op.name().len(),
            op.name()[0],
            if op.name().len() > 1 { op.name()[1] } else { ' ' },
            if op.name().len() > 2 { op.name()[2] } else { ' ' },
        ),
{
    let s = op.name();
    assert(s =~= spelled(
        s.len(),
        s[0],
        if s.len() > 1 { s[1] } else { ' ' },
        if s.len() > 2 { s[2] } else { ' ' },
    ));
}

/// No two operators share a name.
pub proof fn lemma_names_are_distinct(a: Operator, b: Operator)
    requires
        a.name() == b.name(),
    ensures
        a == b,
{
    lemma_spelling(a);
    lemma_spelling(b);
    let s = a.name();
    let t = b.name();
    assert(s.len() == t.len());
    assert(s[0] == t[0]);
    if s.len() > 1 {
        assert(s[1] == t[1]);
    }
    if s.len() > 2 {
        assert(s[2] == t[2]);
    }
}

/// Looking an operator's own name up finds that operator.
pub proof fn lemma_operator_named(op: Operator)
    ensures
        operator_named(op.name()) == Some(op),
{
    let found = choose|other: Operator| other.name() == op.name();
    lemma_names_are_distinct(found, op);
}

} // verus!
