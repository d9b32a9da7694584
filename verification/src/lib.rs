//! Typed PDF content-stream operations.
//!
//! A content stream is a list of instructions: an operator name and the
//! loosely typed operands in front of it. This crate sorts each instruction
//! into a closed set of typed operations, checking operand count and type for
//! each operator, and decodes the strings of text-showing operators by the
//! font in effect. An instruction that fits no rule is kept as it came.

pub mod classify;
pub mod font;
pub mod laws;
pub mod number;
pub mod operation;
pub mod operator;
pub mod primitive;
pub mod text;

pub use classify::classify;
pub use classify::normalize_operation;
pub use classify::normalize_operation_with_font;
pub use font::BaseEncoding;
pub use font::FontInfo;
pub use number::Real;
pub use operation::ColorRenderingIntent;
pub use operation::LineCapStyle;
pub use operation::LineJoinStyle;
pub use operation::Name;
pub use operation::Operation;
pub use operation::TextOrGlyphPositioning;
pub use operation::TextRenderingMode;
pub use operation::UntypedColor;
pub use operator::Operator;
pub use operator::Shape;
pub use primitive::Instruction;
pub use primitive::Primitive;
pub use text::decode_string;
pub use text::DecodeError;
