use vstd::prelude::*;

verus! {

/// Why a command stream could not be decoded.
#[derive(Clone, Copy, Debug, PartialEq, Eq, Structural)]
pub enum DecodeError {
    /// The stream ended before an opcode or the operands it announced.
    UnexpectedEndOfStream,
    /// The opcode has no known operand length, so the instruction cannot be
    /// skipped. Carries the opcode byte.
    UnknownOpcode(u8),
    /// A blend command announced more terms than a blend may combine.
    InvalidBlendTermCount,
}

/// Why a run stopped before reaching its terminator.
#[derive(Debug, PartialEq, Eq)]
pub enum RenderError<E> {
    /// The stream itself was malformed.
    Decode(DecodeError),
    /// The renderer refused a request; the payload is whatever it reported.
    Renderer(E),
}

} // verus!
