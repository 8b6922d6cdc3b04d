use vstd::prelude::*;
use crate::cur::Cur;
use crate::error::DecodeError;
use crate::opcode::{cmd_size, is_known_opcode, operand_len, BLEND, MAX_BLEND_TERMS};
use crate::sink::BlendTerm;

verus! {

/// A decoded instruction: what is to be done, apart from the opcode byte that
/// asked for it.
#[derive(Debug, PartialEq, Eq)]
pub enum Command {
    /// Do nothing.
    Nop,
    /// End the run.
    End,
    /// Make a stack slot the current matrix.
    LoadMatrix { stack_pos: u8 },
    /// Choose the material of the draws that follow.
    SetMaterial { material_id: u8 },
    /// Draw a mesh with the chosen material.
    Draw { mesh_id: u8 },
    /// Multiply the current matrix by an object's matrix and store the
    /// product: at `stack_id` if there is one, else at the stack cursor. With
    /// a `restore_id`, that slot is loaded first. `parent_id` is carried
    /// along and has no effect.
    MulByObject { object_id: u8, parent_id: u8, stack_id: Option<u8>, restore_id: Option<u8> },
    /// Store a weighted blend of matrices at `stack_pos`.
    Blend { stack_pos: u8, terms: Vec<BlendTerm> },
    /// An opcode that has operands and no effect.
    Reserved { opcode: u8 },
}

/// The mathematical value of a [`Command`].
pub ghost enum CommandView {
    Nop,
    End,
    LoadMatrix { stack_pos: u8 },
    SetMaterial { material_id: u8 },
    Draw { mesh_id: u8 },
    MulByObject { object_id: u8, parent_id: u8, stack_id: Option<u8>, restore_id: Option<u8> },
    Blend { stack_pos: u8, terms: Seq<BlendTerm> },
    Reserved { opcode: u8 },
}

impl View for Command {
    type V = CommandView;

    open spec fn view(&self) -> CommandView {
        match *self {
            Command::Nop => CommandView::Nop,
            Command::End => CommandView::End,
            Command::LoadMatrix { stack_pos } => CommandView::LoadMatrix { stack_pos },
            Command::SetMaterial { material_id } => CommandView::SetMaterial { material_id },
            Command::Draw { mesh_id } => CommandView::Draw { mesh_id },
            Command::MulByObject { object_id, parent_id, stack_id, restore_id } => {
                CommandView::MulByObject { object_id, parent_id, stack_id, restore_id }
            },
            Command::Blend { stack_pos, terms } => CommandView::Blend { stack_pos, terms: terms@ },
            Command::Reserved { opcode } => CommandView::Reserved { opcode },
        }
    }
}

/// The `i`-th term of a blend's operand block: three bytes, after the two
/// that hold the destination and the count.
pub open spec fn blend_term(params: Seq<u8>, i: int) -> BlendTerm {
    BlendTerm {
        stack_id: params[2 + 3 * i],
        blend_id: params[3 + 3 * i],
        weight: params[4 + 3 * i],
    }
}

/// All terms of a blend's operand block, in the order of the stream.
pub open spec fn blend_terms(params: Seq<u8>) -> Seq<BlendTerm> {
    Seq::new(params[1] as nat, |i: int| blend_term(params, i))
}

/// Whether `params` is a whole operand block for `opcode`.
pub open spec fn is_operand_block(opcode: u8, params: Seq<u8>) -> bool {
    operand_len(opcode, params) == Ok::<nat, DecodeError>(params.len())
}

impl CommandView {
    /// The command that an opcode and its operand block stand for.
    pub open spec fn decode(opcode: u8, params: Seq<u8>) -> Result<CommandView, DecodeError>
        recommends
            is_operand_block(opcode, params),
    {
        if opcode == 0x00 {
            Ok(CommandView::Nop)
        } else if opcode == 0x01 {
            Ok(CommandView::End)
        } else if opcode == 0x03 {
            Ok(CommandView::LoadMatrix { stack_pos: params[0] })
        } else if opcode == 0x04 || opcode == 0x24 || opcode == 0x44 {
            Ok(CommandView::SetMaterial { material_id: params[0] })
        } else if opcode == 0x05 {
            Ok(CommandView::Draw { mesh_id: params[0] })
        } else if opcode == 0x06 {
            Ok(
                CommandView::MulByObject {
                    object_id: params[0],
                    parent_id: params[1],
                    stack_id: None,
                    restore_id: None,
                },
            )
        } else if opcode == 0x26 {
            Ok(
                CommandView::MulByObject {
                    object_id: params[0],
                    parent_id: params[1],
                    stack_id: Some(params[3]),
                    restore_id: None,
                },
            )
        } else if opcode == 0x46 {
            Ok(
                CommandView::MulByObject {
                    object_id: params[0],
                    parent_id: params[1],
                    stack_id: None,
                    restore_id: Some(params[3]),
                },
            )
        } else if opcode == 0x66 {
            Ok(
                CommandView::MulByObject {
                    object_id: params[0],
                    parent_id: params[1],
                    stack_id: Some(params[3]),
                    restore_id: Some(params[4]),
                },
            )
        } else if opcode == BLEND {
            if params[1] > MAX_BLEND_TERMS {
                Err(DecodeError::InvalidBlendTermCount)
            } else {
                Ok(CommandView::Blend { stack_pos: params[0], terms: blend_terms(params) })
            }
        } else if is_known_opcode(opcode) {
            Ok(CommandView::Reserved { opcode })
        } else {
            Err(DecodeError::UnknownOpcode(opcode))
        }
    }
}

/// What reading one instruction off the front of a stream comes to.
pub ghost struct Fetch {
    /// The instruction, or why there is none.
    pub result: Result<CommandView, DecodeError>,
    /// How many bytes of the stream have been used up.
    pub consumed: nat,
}

/// Reads one instruction off the front of `stream`.
///
/// The opcode byte is used up as soon as it is there. The operand block is
/// used up whole or not at all: not when the opcode is unknown, and not when
/// the stream ends before the block does.
pub open spec fn fetch(stream: Seq<u8>) -> Fetch {
    if stream.len() == 0 {
        Fetch { result: Err(DecodeError::UnexpectedEndOfStream), consumed: 0 }
    } else {
        match operand_len(stream[0], stream.skip(1)) {
            Err(e) => Fetch { result: Err(e), consumed: 1 },
            Ok(n) => {
                if stream.len() < 1 + n {
                    Fetch { result: Err(DecodeError::UnexpectedEndOfStream), consumed: 1 }
                } else {
                    Fetch {
                        result: CommandView::decode(stream[0], stream.subrange(1, 1 + n as int)),
                        consumed: 1 + n,
                    }
                }
            },
        }
    }
}

/// Collects the terms of a blend's operand block.
fn collect_blend_terms(params: &[u8]) -> (terms: Vec<BlendTerm>)
    requires
        is_operand_block(BLEND, params@),
        params@[1] <= MAX_BLEND_TERMS,
    ensures
        terms@ == blend_terms(params@),
{
    let count: usize = params[1] as usize;
    let mut terms: Vec<BlendTerm> = Vec::with_capacity(4);
    let mut i: usize = 0;
    while i < count
        invariant
            i <= count,
            count == params@[1],
            count <= 4,
            params@.len() == 2 + 3 * count,
            terms@ == Seq::new(i as nat, |j: int| blend_term(params@, j)),
        decreases count - i,
    {
        let at: usize = 2 + 3 * i;
        let term = BlendTerm { stack_id: params[at], blend_id: params[at + 1], weight: params[at + 2] };
        terms.push(term);
        i = i + 1;
        assert(terms@ =~= Seq::new(i as nat, |j: int| blend_term(params@, j)));
    }
    terms
}

impl Command {
    /// Decodes an opcode and its operand block.
    ///
    /// The only block that can be refused is a blend's, when it holds more
    /// terms than a blend may combine.
    pub fn decode(opcode: u8, params: &[u8]) -> (r: Result<Command, DecodeError>)
        requires
            is_operand_block(opcode, params@),
        ensures
            match r {
                Ok(cmd) => CommandView::decode(opcode, params@) == Ok::<CommandView, DecodeError>(
                    cmd@,
                ),
                Err(e) => CommandView::decode(opcode, params@) == Err::<CommandView, DecodeError>(
                    e,
                ),
            },
    {
        let cmd = match opcode {
            0x00 => Command::Nop,
            0x01 => Command::End,
            0x03 => Command::LoadMatrix { stack_pos: params[0] },
            0x04 | 0x24 | 0x44 => Command::SetMaterial { material_id: params[0] },
            0x05 => Command::Draw { mesh_id: params[0] },
            0x06 | 0x26 | 0x46 | 0x66 => {
                let (stack_id, restore_id) = match opcode {
                    0x06 => (None, None),
                    0x26 => (Some(params[3]), None),
                    0x46 => (None, Some(params[3])),
                    _ => (Some(params[3]), Some(params[4])),
                };
                Command::MulByObject {
                    object_id: params[0],
                    parent_id: params[1],
                    stack_id,
                    restore_id,
                }
            },
            0x09 => {
                if params[1] > MAX_BLEND_TERMS {
                    return Err(DecodeError::InvalidBlendTermCount);
                }
                Command::Blend { stack_pos: params[0], terms: collect_blend_terms(params) }
            },
            _ => Command::Reserved { opcode },
        };
        Ok(cmd)
    }

    /// Reads the next instruction from `cur`: the opcode, then as many
    /// operand bytes as the opcode calls for, no more and no fewer.
    pub fn read(cur: &mut Cur) -> (r: Result<Command, DecodeError>)
        ensures
            final(cur).bytes() == old(cur).bytes(),
            final(cur).offset() == old(cur).offset() + fetch(old(cur).rest()).consumed,
            final(cur).rest() == old(cur).rest().skip(fetch(old(cur).rest()).consumed as int),
            match r {
                Ok(cmd) => fetch(old(cur).rest()).result == Ok::<CommandView, DecodeError>(cmd@),
                Err(e) => fetch(old(cur).rest()).result == Err::<CommandView, DecodeError>(e),
            },
    {
        let ghost stream = cur.rest();
        let opcode: u8 = match cur.next_u8() {
            Ok(opcode) => opcode,
            Err(e) => {
                assert(stream.skip(0) =~= stream);
                return Err(e);
            },
        };
        let num_params: usize = match cmd_size(opcode, *cur) {
            Ok(n) => n,
            Err(e) => {
                return Err(e);
            },
        };
        let params = match cur.next_n_u8s(num_params) {
            Ok(params) => params,
            Err(e) => {
                return Err(e);
            },
        };
        assert(params@ =~= stream.subrange(1, 1 + num_params));
        assert(cur.rest() =~= stream.skip(1 + num_params));
        Command::decode(opcode, params)
    }
}

} // verus!
