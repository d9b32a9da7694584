//! What holds of every instruction and of every string.
//!
//! The functions of this module are proofs. Each states a law of the
//! classifier or of the text decoder over the models that their contracts
//! use, so that a caller can rely on the law without reading a definition.

use crate::classify::accepts;
use crate::classify::are_image_entries;
use crate::classify::classified;
use crate::classify::color_components;
use crate::classify::is_property_list;
use crate::classify::moves_only;
use crate::classify::positioned;
use crate::classify::positioned_all;
use crate::classify::reads_no_operand;
use crate::classify::typed;
use crate::font::FontInfoView;
use crate::number::lemma_binary32_of_int_fits;
use crate::number::lemma_one_and_zero;
use crate::operation::OperationView;
use crate::operator::lemma_operator_named;
use crate::operator::operator_named;
use crate::operator::Operator;
use crate::operator::Shape;
use crate::primitive::all_numbers;
use crate::primitive::is_number;
use crate::primitive::number_of;
use crate::primitive::numbers_of;
use crate::primitive::PrimitiveView;
use crate::text::decode;
use crate::text::composite_code;
use crate::text::composite_fragment;
use crate::text::decode_composite;
use crate::text::decode_plain;
use crate::text::decode_simple;
use crate::text::has_utf16_mark;
use crate::text::simple_fragment;
use crate::text::DecodeError;
use vstd::prelude::*;
use vstd::utf8::decode_utf8;
use vstd::utf8::encode_utf8;
use vstd::utf8::encode_utf8_decode_utf8;
use vstd::utf8::encode_utf8_valid_utf8;
use vstd::utf8::valid_utf8;

verus! {

/// Whether an instruction names an operator of the grammar and gives it
/// operands of the shape it asks for.
pub open spec fn well_formed(
    name: Seq<char>,
    xs: Seq<PrimitiveView>,
    font: Option<FontInfoView>,
) -> bool {
    operator_named(name) matches Some(op) && accepts(op.shape(), xs, font)
}

/// The instruction as `Unknown` holds it: name and operands as they came.
pub open spec fn kept(name: Seq<char>, xs: Seq<PrimitiveView>) -> OperationView {
    OperationView::Unknown { operator: name, operands: xs }
}

/// The typed operation of an operator is never `Unknown`.
pub proof fn lemma_typed_is_not_unknown(
    op: Operator,
    xs: Seq<PrimitiveView>,
    font: Option<FontInfoView>,
)
    ensures
        !(typed(op, xs, font) is Unknown),
{
}

/// A well-formed instruction gives the typed operation of its operator, and
/// any other instruction gives `Unknown` with its name and operands
/// unchanged. So an instruction comes back as `Unknown` exactly when it is
/// not well formed, and a stream of well-formed instructions has none.
pub proof fn lemma_typed_exactly_when_well_formed(
    name: Seq<char>,
    xs: Seq<PrimitiveView>,
    font: Option<FontInfoView>,
)
    ensures
        well_formed(name, xs, font) ==> classified(name, xs, font) == typed(
            operator_named(name).unwrap(),
            xs,
            font,
        ),
        !well_formed(name, xs, font) ==> classified(name, xs, font) == kept(name, xs),
        classified(name, xs, font) is Unknown <==> !well_formed(name, xs, font),
{
    if well_formed(name, xs, font) {
        lemma_typed_is_not_unknown(operator_named(name).unwrap(), xs, font);
    }
}

/// Whatever the instruction, an `Unknown` result holds its name and its
/// operands unchanged.
pub proof fn lemma_unknown_keeps_the_instruction(
    name: Seq<char>,
    xs: Seq<PrimitiveView>,
    font: Option<FontInfoView>,
)
    ensures
        classified(name, xs, font) is Unknown ==> classified(name, xs, font) == kept(name, xs),
{
    lemma_typed_exactly_when_well_formed(name, xs, font);
}

/// An instruction written with an operator's own name is sorted by that
/// operator's shape: operands that fit give its typed operation, others
/// give `Unknown`.
pub proof fn lemma_sorted_by_shape(op: Operator, xs: Seq<PrimitiveView>, font: Option<FontInfoView>)
    ensures
        accepts(op.shape(), xs, font) ==> classified(op.name(), xs, font) == typed(op, xs, font),
        !accepts(op.shape(), xs, font) ==> classified(op.name(), xs, font) == kept(op.name(), xs),
{
    lemma_operator_named(op);
}

/// A name that no operator has gives `Unknown`, whatever the operands.
pub proof fn lemma_unnamed_is_unknown(
    name: Seq<char>,
    xs: Seq<PrimitiveView>,
    font: Option<FontInfoView>,
)
    requires
        forall|op: Operator| op.name() != name,
    ensures
        classified(name, xs, font) == kept(name, xs),
{
}

/// Marked content as the grammar writes it is typed: a sequence that begins
/// with its tag, and a sequence or a point with tag and property list.
pub proof fn lemma_marked_content_is_typed(
    tag: Seq<char>,
    properties: PrimitiveView,
    font: Option<FontInfoView>,
)
    requires
        is_property_list(properties),
    ensures
        classified(
            Operator::BeginMarkedContentSequence.name(),
            seq![PrimitiveView::Name(tag)],
            font,
        ) == OperationView::BeginMarkedContentSequence,
        classified(
            Operator::BeginMarkedContentSequenceWithPropertyList.name(),
            seq![PrimitiveView::Name(tag), properties],
            font,
        ) == OperationView::BeginMarkedContentSequenceWithPropertyList,
        classified(
            Operator::DefineMarkedContentPointWithPropertyList.name(),
            seq![PrimitiveView::Name(tag), properties],
            font,
        ) == OperationView::DefineMarkedContentPointWithPropertyList,
{
    let one = seq![PrimitiveView::Name(tag)];
    let two = seq![PrimitiveView::Name(tag), properties];
    lemma_sorted_by_shape(Operator::BeginMarkedContentSequence, one, font);
    lemma_sorted_by_shape(Operator::BeginMarkedContentSequenceWithPropertyList, two, font);
    lemma_sorted_by_shape(Operator::DefineMarkedContentPointWithPropertyList, two, font);
}

/// An operator that takes nothing from its operands into its operation
/// gives that operation for every list of operands that has its shape.
pub proof fn lemma_operands_of_the_shape_are_enough(
    op: Operator,
    xs: Seq<PrimitiveView>,
    ys: Seq<PrimitiveView>,
    font: Option<FontInfoView>,
)
    requires
        reads_no_operand(op.shape()),
        accepts(op.shape(), xs, font),
        accepts(op.shape(), ys, font),
    ensures
        classified(op.name(), xs, font) == classified(op.name(), ys, font),
{
    lemma_sorted_by_shape(op, xs, font);
    lemma_sorted_by_shape(op, ys, font);
}

/// For an operator that takes numbers only, one operand that is no number
/// makes the instruction `Unknown`, however many operands there are: no
/// value is skipped to make the count fit.
pub proof fn lemma_one_non_number_is_unknown(
    op: Operator,
    xs: Seq<PrimitiveView>,
    font: Option<FontInfoView>,
    k: int,
)
    requires
        op.shape() is Numbers || op.shape() is Color,
        0 <= k < xs.len(),
        !is_number(xs[k]),
    ensures
        classified(op.name(), xs, font) == kept(op.name(), xs),
{
    lemma_sorted_by_shape(op, xs, font);
}

/// For an operator that takes a fixed count of numbers, the instruction is
/// typed exactly when it has that count of operands and each is a number.
pub proof fn lemma_numbers_fit_exactly(
    op: Operator,
    count: usize,
    xs: Seq<PrimitiveView>,
    font: Option<FontInfoView>,
)
    requires
        op.shape() == Shape::Numbers(count),
    ensures
        classified(op.name(), xs, font) is Unknown <==> !(xs.len() == count && all_numbers(xs)),
{
    lemma_sorted_by_shape(op, xs, font);
    lemma_typed_is_not_unknown(op, xs, font);
}

/// A number written as a real: an integer becomes the real it widens to,
/// any other value stays.
pub open spec fn as_real(p: PrimitiveView) -> PrimitiveView {
    match p {
        PrimitiveView::Integer(_) => PrimitiveView::Number(number_of(p).unwrap()),
        _ => p,
    }
}

/// The values of a list with each integer written as a real.
pub open spec fn as_reals(xs: Seq<PrimitiveView>) -> Seq<PrimitiveView> {
    Seq::new(xs.len(), |i: int| as_real(xs[i]))
}

/// An operand with its integers written as reals, those of an array operand
/// included.
pub open spec fn widened(p: PrimitiveView) -> PrimitiveView {
    match p {
        PrimitiveView::Array(a) => PrimitiveView::Array(as_reals(a)),
        _ => as_real(p),
    }
}

/// The operands of an instruction with their integers written as reals.
pub open spec fn widened_all(xs: Seq<PrimitiveView>) -> Seq<PrimitiveView> {
    Seq::new(xs.len(), |i: int| widened(xs[i]))
}

/// Widening is idempotent: a value that is written as a real already stands
/// for the same number, and writing it as a real again changes nothing.
pub proof fn lemma_widening_is_idempotent(p: PrimitiveView)
    ensures
        number_of(as_real(p)) == number_of(p),
        is_number(as_real(p)) == is_number(p),
        as_real(as_real(p)) == as_real(p),
        widened(widened(p)) == widened(p),
{
    match p {
        PrimitiveView::Array(a) => {
            assert(as_reals(as_reals(a)) =~= as_reals(a));
        },
        _ => {},
    }
}

/// Writing the integers of a list as reals keeps what numbers it holds.
proof fn lemma_as_reals(xs: Seq<PrimitiveView>)
    ensures
        all_numbers(as_reals(xs)) == all_numbers(xs),
        numbers_of(as_reals(xs)) == numbers_of(xs),
{
    let ys = as_reals(xs);
    if all_numbers(xs) {
        assert forall|i: int| 0 <= i < ys.len() implies is_number(#[trigger] ys[i]) by {
            assert(is_number(xs[i]));
        }
    }
    if all_numbers(ys) {
        assert forall|i: int| 0 <= i < xs.len() implies is_number(#[trigger] xs[i]) by {
            assert(is_number(ys[i]));
        }
    }
}

/// Writing the integers of the operands as reals keeps what numbers the
/// operands hold.
proof fn lemma_widened_all(xs: Seq<PrimitiveView>)
    ensures
        all_numbers(widened_all(xs)) == all_numbers(xs),
        numbers_of(widened_all(xs)) == numbers_of(xs),
{
    let ys = widened_all(xs);
    if all_numbers(xs) {
        assert forall|i: int| 0 <= i < ys.len() implies is_number(#[trigger] ys[i]) by {
            assert(is_number(xs[i]));
        }
    }
    if all_numbers(ys) {
        assert forall|i: int| 0 <= i < xs.len() implies is_number(#[trigger] xs[i]) by {
            assert(is_number(ys[i]));
        }
    }
}

/// Whether an operator takes an integer as such: the number of one of a
/// few styles, which is not widened.
pub open spec fn takes_an_integer(shape: Shape) -> bool {
    shape is Choice
}

/// Representation does not matter: for an operator that takes numbers, an
/// instruction with an integer operand and the same instruction with that
/// number written as a real are typed alike, and into the same operation.
///
/// The operators that take an integer as such are left out: the integer
/// numbers a style, and a real in its place is `Unknown`.
pub proof fn lemma_integers_and_reals_agree(
    op: Operator,
    xs: Seq<PrimitiveView>,
    font: Option<FontInfoView>,
)
    requires
        !takes_an_integer(op.shape()),
    ensures
        accepts(op.shape(), widened_all(xs), font) == accepts(op.shape(), xs, font),
        accepts(op.shape(), xs, font) ==> classified(op.name(), widened_all(xs), font)
            == classified(op.name(), xs, font),
{
    let ys = widened_all(xs);
    lemma_sorted_by_shape(op, xs, font);
    lemma_sorted_by_shape(op, ys, font);
    lemma_widened_all(xs);
    match op.shape() {
        Shape::SpecialColor => {
            let cx = color_components(xs);
            let cy = color_components(ys);
            assert(cy =~= widened_all(cx));
            lemma_widened_all(cx);
        },
        Shape::Dash => {
            if xs.len() == 2 && xs[0] is Array {
                lemma_as_reals(xs[0]->Array_0);
            }
        },
        Shape::ImageEntries => {
            if are_image_entries(xs) {
                assert forall|k: int| 0 <= k < ys.len() && k % 2 == 0 implies (#[trigger] ys[k])
                    is Name by {
                    assert(xs[k] is Name);
                }
            }
            if are_image_entries(ys) {
                assert forall|k: int| 0 <= k < xs.len() && k % 2 == 0 implies (#[trigger] xs[k])
                    is Name by {
                    assert(ys[k] is Name);
                }
            }
        },
        Shape::TextArray => {
            if xs.len() == 1 && xs[0] is Array {
                let a = xs[0]->Array_0;
                let b = as_reals(a);
                assert forall|i: int| 0 <= i < a.len() implies positioned(b[i], font) == positioned(
                    a[i],
                    font,
                ) by {}
                if accepts(op.shape(), xs, font) {
                    assert forall|i: int| 0 <= i < b.len() implies (#[trigger] positioned(
                        b[i],
                        font,
                    )) is Some by {
                        assert(positioned(a[i], font) is Some);
                    }
                    assert(positioned_all(b, font) =~= positioned_all(a, font));
                }
                if accepts(op.shape(), ys, font) {
                    assert forall|i: int| 0 <= i < a.len() implies (#[trigger] positioned(
                        a[i],
                        font,
                    )) is Some by {
                        assert(positioned(b[i], font) is Some);
                    }
                }
            }
        },
        _ => {},
    }
}

/// The name of the operator that sets the text matrix.
pub open spec fn text_matrix_name() -> Seq<char> {
    Operator::SetTextMatrixAndTextLineMatrix.name()
}

/// A text matrix of six numbers whose linear part is the identity is a move
/// of the text position by its last two numbers; any other is the matrix
/// with all six.
pub proof fn lemma_text_matrix(xs: Seq<PrimitiveView>, font: Option<FontInfoView>)
    requires
        xs.len() == 6,
        all_numbers(xs),
    ensures
        ({
            let n = numbers_of(xs);
            classified(text_matrix_name(), xs, font) == if moves_only(n) {
                OperationView::MoveTextPosition { x: n[4], y: n[5] }
            } else {
                OperationView::SetTextMatrixAndTextLineMatrix(n[0], n[1], n[2], n[3], n[4], n[5])
            }
        }),
{
    lemma_sorted_by_shape(Operator::SetTextMatrixAndTextLineMatrix, xs, font);
}

/// With its linear part written in integers, a text matrix is a move
/// exactly when those integers are `1 0 0 1`.
pub proof fn lemma_text_matrix_of_integers(
    a: i32,
    b: i32,
    c: i32,
    d: i32,
    tx: PrimitiveView,
    ty: PrimitiveView,
    font: Option<FontInfoView>,
)
    requires
        is_number(tx),
        is_number(ty),
    ensures
        ({
            let xs = seq![
                PrimitiveView::Integer(a),
                PrimitiveView::Integer(b),
                PrimitiveView::Integer(c),
                PrimitiveView::Integer(d),
                tx,
                ty,
            ];
            let moved = OperationView::MoveTextPosition {
                x: number_of(tx).unwrap(),
                y: number_of(ty).unwrap(),
            };
            &&& a == 1 && b == 0 && c == 0 && d == 1 ==> classified(text_matrix_name(), xs, font)
                == moved
            &&& !(a == 1 && b == 0 && c == 0 && d == 1) ==> classified(text_matrix_name(), xs, font)
                is SetTextMatrixAndTextLineMatrix
        }),
{
    let xs = seq![
        PrimitiveView::Integer(a),
        PrimitiveView::Integer(b),
        PrimitiveView::Integer(c),
        PrimitiveView::Integer(d),
        tx,
        ty,
    ];
    lemma_text_matrix(xs, font);
    lemma_one_and_zero(a as int);
    lemma_one_and_zero(b as int);
    lemma_one_and_zero(c as int);
    lemma_one_and_zero(d as int);
    lemma_binary32_of_int_fits(a as int);
    lemma_binary32_of_int_fits(b as int);
    lemma_binary32_of_int_fits(c as int);
    lemma_binary32_of_int_fits(d as int);
}

/// Only text-showing operators read the font: any other instruction is
/// sorted alike under every font and under none.
pub proof fn lemma_font_matters_only_to_text(
    name: Seq<char>,
    xs: Seq<PrimitiveView>,
    font: Option<FontInfoView>,
    other: Option<FontInfoView>,
)
    requires
        operator_named(name) matches Some(op) ==> !(op.shape() is Text || op.shape() is SpacedText
            || op.shape() is TextArray),
    ensures
        classified(name, xs, font) == classified(name, xs, other),
{
}

/// Well-formed UTF-8 never starts with the UTF-16 byte order mark.
pub proof fn lemma_utf8_has_no_mark(bytes: Seq<u8>)
    requires
        valid_utf8(bytes),
    ensures
        !has_utf16_mark(bytes),
{
}

/// With no font, and with a font that has no encoding entry, the bytes of a
/// text decode to that text, character for character. The font's map plays
/// no part.
pub proof fn lemma_plain_text_is_verbatim(text: Seq<char>, font: Option<FontInfoView>)
    requires
        font matches Some(f) ==> f.encoding is None,
    ensures
        decode(encode_utf8(text), font) == Ok::<Seq<char>, DecodeError>(text),
{
    encode_utf8_valid_utf8(text);
    encode_utf8_decode_utf8(text);
    lemma_utf8_has_no_mark(encode_utf8(text));
}

/// A string that is read without a font encoding decodes exactly when it is
/// well-formed text, and a font without an encoding entry reads it as no
/// font does.
pub proof fn lemma_plain_decoding(bytes: Seq<u8>, font: Option<FontInfoView>)
    requires
        font matches Some(f) ==> f.encoding is None,
    ensures
        decode(bytes, font) == decode_plain(bytes),
        decode(bytes, font) == decode(bytes, None),
        valid_utf8(bytes) ==> decode(bytes, font) == Ok::<Seq<char>, DecodeError>(
            decode_utf8(bytes),
        ),
        !has_utf16_mark(bytes) && !valid_utf8(bytes) ==> decode(bytes, font) == Err::<
            Seq<char>,
            DecodeError,
        >(DecodeError::InvalidUtf8),
        has_utf16_mark(bytes) ==> !(decode(bytes, font) matches Err(DecodeError::InvalidUtf8)),
        has_utf16_mark(bytes) && bytes.len() % 2 == 1 ==> decode(bytes, font) == Err::<
            Seq<char>,
            DecodeError,
        >(DecodeError::InvalidUtf16),
{
    if valid_utf8(bytes) {
        lemma_utf8_has_no_mark(bytes);
    }
}

/// Under a single-byte encoding only the map's entries for the codes 0 to
/// 255 count: two maps that agree on those decode every string alike.
pub proof fn lemma_simple_decoding_reads_one_byte_codes(
    bytes: Seq<u8>,
    a: Map<u16, Seq<char>>,
    b: Map<u16, Seq<char>>,
)
    requires
        forall|code: u16|
            code < 256 ==> a.contains_key(code) == b.contains_key(code) && (a.contains_key(code)
                ==> a[code] == b[code]),
    ensures
        decode_simple(bytes, a) == decode_simple(bytes, b),
{
    let pa = Seq::new(bytes.len(), |k: int| simple_fragment(a, bytes[k]));
    let pb = Seq::new(bytes.len(), |k: int| simple_fragment(b, bytes[k]));
    assert(pa =~= pb);
}

/// The entries of a map for codes that the encoding cannot produce are
/// never read: without them the font is well formed and decodes every
/// string as before.
pub proof fn lemma_codes_out_of_range_are_never_read(bytes: Seq<u8>, font: FontInfoView)
    ensures
        font.restricted().well_formed(),
        font.well_formed() ==> font.restricted().cmap == font.cmap,
        decode(bytes, Some(font.restricted())) == decode(bytes, Some(font)),
{
    if font.is_simple() {
        lemma_simple_decoding_reads_one_byte_codes(bytes, font.cmap, font.restricted().cmap);
        if font.well_formed() {
            assert(font.restricted().cmap =~= font.cmap);
        }
    }
}

/// Under a composite encoding a code without an entry adds nothing: taking
/// entries with empty text out of the map changes no decoding.
pub proof fn lemma_composite_decoding_skips_empty_entries(
    bytes: Seq<u8>,
    a: Map<u16, Seq<char>>,
    code: u16,
)
    requires
        a.contains_key(code),
        a[code] == Seq::<char>::empty(),
    ensures
        decode_composite(bytes, a.remove(code)) == decode_composite(bytes, a),
{
    let b = a.remove(code);
    let pairs = (bytes.len() / 2) as nat;
    let pa = Seq::new(pairs, |k: int| composite_fragment(a, composite_code(bytes, k)));
    let pb = Seq::new(pairs, |k: int| composite_fragment(b, composite_code(bytes, k)));
    assert(pa =~= pb);
}

/// Under a font with an encoding entry every string decodes.
pub proof fn lemma_encoded_font_always_decodes(bytes: Seq<u8>, font: FontInfoView)
    requires
        font.encoding is Some,
    ensures
        decode(bytes, Some(font)) is Ok,
{
}

} // verus!
