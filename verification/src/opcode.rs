use vstd::prelude::*;
use crate::cur::Cur;
use crate::error::DecodeError;

verus! {

/// The opcode of the weighted blend, the one command whose operand block
/// varies in length.
pub const BLEND: u8 = 0x09;

/// The most terms one blend may combine.
pub const MAX_BLEND_TERMS: u8 = 4;

/// The operand length of every opcode for which it is a constant, and `None`
/// for the blend opcode and for opcodes that are not part of the language.
pub open spec fn fixed_operand_len(opcode: u8) -> Option<nat> {
    if opcode == 0x00 || opcode == 0x01 {
        Some(0)
    } else if opcode == 0x02 {
        Some(2)
    } else if opcode == 0x03 || opcode == 0x04 || opcode == 0x05 {
        Some(1)
    } else if opcode == 0x06 {
        Some(3)
    } else if opcode == 0x07 || opcode == 0x08 {
        Some(1)
    } else if opcode == 0x0b {
        Some(0)
    } else if opcode == 0x24 {
        Some(1)
    } else if opcode == 0x26 {
        Some(4)
    } else if opcode == 0x2b || opcode == 0x40 {
        Some(0)
    } else if opcode == 0x44 {
        Some(1)
    } else if opcode == 0x46 {
        Some(4)
    } else if opcode == 0x66 {
        Some(5)
    } else if opcode == 0x80 {
        Some(0)
    } else {
        None
    }
}

/// Whether `opcode` belongs to the language at all.
pub open spec fn is_known_opcode(opcode: u8) -> bool {
    opcode == BLEND || fixed_operand_len(opcode) is Some
}

/// The length of a blend's operand block: the destination slot, the term
/// count, and three bytes for each term.
pub open spec fn blend_operand_len(count: u8) -> nat {
    (2 + 3 * count) as nat
}

/// The number of operand bytes that belong to an instruction, given its
/// opcode and the bytes that follow the opcode in the stream.
///
/// Only a blend looks at `following`: its length depends on the count in its
/// second operand byte, which is taken as it stands.
pub open spec fn operand_len(opcode: u8, following: Seq<u8>) -> Result<nat, DecodeError> {
    if opcode == BLEND {
        if following.len() < 2 {
            Err(DecodeError::UnexpectedEndOfStream)
        } else {
            Ok(blend_operand_len(following[1]))
        }
    } else {
        match fixed_operand_len(opcode) {
            Some(n) => Ok(n),
            None => Err(DecodeError::UnknownOpcode(opcode)),
        }
    }
}

/// Computes the operand length of the instruction whose opcode has just been
/// read from `cur`. Nothing is consumed: a blend's count is only peeked at.
pub fn cmd_size(opcode: u8, cur: Cur) -> (r: Result<usize, DecodeError>)
    ensures
        match r {
            Ok(n) => operand_len(opcode, cur.rest()) == Ok::<nat, DecodeError>(n as nat),
            Err(e) => operand_len(opcode, cur.rest()) == Err::<nat, DecodeError>(e),
        },
{
    let len: usize = match opcode {
        0x00 => 0,
        0x01 => 0,
        0x02 => 2,
        0x03 => 1,
        0x04 => 1,
        0x05 => 1,
        0x06 => 3,
        0x07 => 1,
        0x08 => 1,
        0x09 => {
            let head = match cur.peek_n_u8s(2) {
                Ok(head) => head,
                Err(e) => {
                    return Err(e);
                },
            };
            let count: usize = head[1] as usize;
            2 + 3 * count
        },
        0x0b => 0,
        0x24 => 1,
        0x26 => 4,
        0x2b => 0,
        0x40 => 0,
        0x44 => 1,
        0x46 => 4,
        0x66 => 5,
        0x80 => 0,
        _ => {
            return Err(DecodeError::UnknownOpcode(opcode));
        },
    };
    Ok(len)
}

} // verus!
