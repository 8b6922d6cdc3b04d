use vstd::prelude::*;
use crate::command::{blend_terms, fetch, CommandView};
use crate::error::DecodeError;
use crate::interp::{next_slot, run, RenderInterpreterState};
use crate::opcode::{fixed_operand_len, is_known_opcode, operand_len, BLEND, MAX_BLEND_TERMS};
use crate::sink::{BlendTerm, RenderOpView};

verus! {

/// Whether `stream` starts with an instruction of the language and ends
/// before that instruction's operand block does.
pub open spec fn is_truncated(stream: Seq<u8>) -> bool {
    &&& stream.len() > 0
    &&& is_known_opcode(stream[0])
    &&& match operand_len(stream[0], stream.skip(1)) {
        Ok(n) => stream.len() < 1 + n,
        Err(_) => true,
    }
}

/// An instruction whose opcode has a fixed operand length `n` takes up the
/// opcode byte and exactly `n` more, and the run goes on with the byte after
/// them as the next opcode.
pub proof fn law_fixed_length_is_consumed(stream: Seq<u8>, state: RenderInterpreterState, n: nat)
    requires
        stream.len() > 0,
        fixed_operand_len(stream[0]) == Some(n),
        stream.len() >= 1 + n,
    ensures
        fetch(stream).consumed == 1 + n,
        fetch(stream).result == CommandView::decode(stream[0], stream.subrange(1, 1 + n as int)),
        fetch(stream).result matches Ok(cmd) && (cmd != CommandView::End ==> {
            let rest = run(stream.skip(1 + n as int), state.after(cmd));
            &&& run(stream, state).requests == state.requests(cmd) + rest.requests
            &&& run(stream, state).state == rest.state
            &&& run(stream, state).outcome == rest.outcome
        }),
{
}

/// A terminator ends the run well, whatever follows it in the stream:
/// nothing is asked of the renderer and the state stays as it is.
pub proof fn law_terminator_ends_run(stream: Seq<u8>, state: RenderInterpreterState)
    requires
        stream.len() > 0,
        stream[0] == 0x01,
    ensures
        fetch(stream).consumed == 1,
        run(stream, state).outcome == Ok::<(), DecodeError>(()),
        run(stream, state).requests == Seq::<RenderOpView>::empty(),
        run(stream, state).state == state,
{
}

/// A blend of up to four terms decodes to its destination slot and its
/// terms, each made of its three bytes, in the order of the stream.
pub proof fn law_blend_terms_in_stream_order(stream: Seq<u8>)
    requires
        stream.len() >= 3,
        stream[0] == BLEND,
        stream[2] <= MAX_BLEND_TERMS,
        stream.len() >= 3 + 3 * stream[2],
    ensures
        fetch(stream).consumed == 3 + 3 * stream[2],
        fetch(stream).result matches Ok(CommandView::Blend { stack_pos, terms }) && {
            &&& stack_pos == stream[1]
            &&& terms.len() == stream[2]
            &&& forall|i: int|
                0 <= i < stream[2] ==> #[trigger] terms[i] == (BlendTerm {
                    stack_id: stream[3 + 3 * i],
                    blend_id: stream[4 + 3 * i],
                    weight: stream[5 + 3 * i],
                })
        },
{
    let n = (2 + 3 * stream[2]) as nat;
    let params = stream.subrange(1, 1 + n as int);
    assert(operand_len(BLEND, stream.skip(1)) == Ok::<nat, DecodeError>(n));
    assert(params[1] == stream[2]);
    assert(fetch(stream).result == Ok::<CommandView, DecodeError>(
        CommandView::Blend { stack_pos: params[0], terms: blend_terms(params) },
    ));
}

/// A blend moves the stack cursor to its destination and makes one request,
/// with all its terms. A blend without terms is no exception: the renderer
/// is asked to blend an empty list.
pub proof fn law_blend_is_one_request(
    state: RenderInterpreterState,
    stack_pos: u8,
    terms: Seq<BlendTerm>,
)
    ensures
        state.requests(CommandView::Blend { stack_pos, terms }) == seq![
            RenderOpView::Blend { stack_pos, terms },
        ],
        state.after(CommandView::Blend { stack_pos, terms }) == (RenderInterpreterState {
            cur_material: state.cur_material,
            cur_stack_pos: stack_pos,
        }),
{
}

/// A blend whose count is zero decodes to a blend of no terms.
pub proof fn law_blend_without_terms(stream: Seq<u8>)
    requires
        stream.len() >= 3,
        stream[0] == BLEND,
        stream[2] == 0,
    ensures
        fetch(stream).consumed == 3,
        fetch(stream).result == Ok::<CommandView, DecodeError>(
            CommandView::Blend { stack_pos: stream[1], terms: Seq::empty() },
        ),
{
    law_blend_terms_in_stream_order(stream);
    let terms = fetch(stream).result->Ok_0->Blend_terms;
    assert(terms =~= Seq::<BlendTerm>::empty());
}

/// A blend that announces more than four terms, all of them present in the
/// stream, ends the run with `InvalidBlendTermCount`, and the renderer is
/// asked nothing.
pub proof fn law_blend_count_above_limit(stream: Seq<u8>, state: RenderInterpreterState)
    requires
        stream.len() >= 3,
        stream[0] == BLEND,
        stream[2] > MAX_BLEND_TERMS,
        stream.len() >= 3 + 3 * stream[2],
    ensures
        fetch(stream).result == Err::<CommandView, DecodeError>(
            DecodeError::InvalidBlendTermCount,
        ),
        run(stream, state).outcome == Err::<(), DecodeError>(DecodeError::InvalidBlendTermCount),
        run(stream, state).requests == Seq::<RenderOpView>::empty(),
        run(stream, state).state == state,
{
    let n = (2 + 3 * stream[2]) as nat;
    assert(operand_len(BLEND, stream.skip(1)) == Ok::<nat, DecodeError>(n));
    assert(stream.subrange(1, 1 + n as int)[1] == stream[2]);
}

/// A multiply-by-object asks for the load of its restore slot, if it has
/// one, then for the multiplication, then for a store. The store goes to the
/// command's own slot, if it has one, else to the stack cursor; the cursor is
/// on that slot while the store is made and on the next one afterwards.
pub proof fn law_mul_by_object_sequence(
    state: RenderInterpreterState,
    object_id: u8,
    parent_id: u8,
    stack_id: Option<u8>,
    restore_id: Option<u8>,
)
    ensures
        ({
            let cmd = CommandView::MulByObject { object_id, parent_id, stack_id, restore_id };
            let target = match stack_id {
                Some(slot) => slot,
                None => state.cur_stack_pos,
            };
            let multiply_and_store = seq![
                RenderOpView::MulByObject { object_id },
                RenderOpView::StoreMatrix { stack_pos: target },
            ];
            &&& state.requests(cmd) == match restore_id {
                Some(slot) => seq![RenderOpView::LoadMatrix { stack_pos: slot }]
                    + multiply_and_store,
                None => multiply_and_store,
            }
            &&& state.pending(cmd).last().cur_stack_pos == target
            &&& state.after(cmd) == (RenderInterpreterState {
                cur_material: state.cur_material,
                cur_stack_pos: next_slot(target),
            })
        }),
{
}

/// The four opcodes of the multiply-by-object family differ only in which of
/// the two optional slots follow the three bytes they share.
pub proof fn law_mul_by_object_family(stream: Seq<u8>)
    requires
        stream.len() >= 6,
        stream[0] == 0x06 || stream[0] == 0x26 || stream[0] == 0x46 || stream[0] == 0x66,
    ensures
        fetch(stream).result == Ok::<CommandView, DecodeError>(
            CommandView::MulByObject {
                object_id: stream[1],
                parent_id: stream[2],
                stack_id: if stream[0] == 0x26 || stream[0] == 0x66 {
                    Some(stream[4])
                } else {
                    None
                },
                restore_id: if stream[0] == 0x46 {
                    Some(stream[4])
                } else if stream[0] == 0x66 {
                    Some(stream[5])
                } else {
                    None
                },
            },
        ),
        fetch(stream).consumed == if stream[0] == 0x06 {
            4nat
        } else if stream[0] == 0x66 {
            6nat
        } else {
            5nat
        },
{
}

/// A draw uses the material that the latest set-material named.
pub proof fn law_draw_uses_material_set(stream: Seq<u8>, state: RenderInterpreterState)
    requires
        stream.len() >= 4,
        stream[0] == 0x04 || stream[0] == 0x24 || stream[0] == 0x44,
        stream[2] == 0x05,
    ensures
        ({
            let chosen = RenderInterpreterState { cur_material: stream[1], ..state };
            let rest = run(stream.skip(4), chosen);
            &&& run(stream, state).requests == seq![
                RenderOpView::Draw { mesh_id: stream[3], material_id: stream[1] },
            ] + rest.requests
            &&& run(stream, state).state == rest.state
            &&& run(stream, state).outcome == rest.outcome
        }),
{
    let chosen = RenderInterpreterState { cur_material: stream[1], ..state };
    let after_set = stream.skip(2);
    assert(fetch(stream).consumed == 2);
    assert(fetch(stream).result == Ok::<CommandView, DecodeError>(
        CommandView::SetMaterial { material_id: stream[1] },
    ));
    assert(fetch(after_set).consumed == 2);
    assert(fetch(after_set).result == Ok::<CommandView, DecodeError>(
        CommandView::Draw { mesh_id: stream[3] },
    ));
    assert(after_set.skip(2) =~= stream.skip(4));
    reveal_with_fuel(run, 3);
    assert(run(stream, state).requests =~= seq![
        RenderOpView::Draw { mesh_id: stream[3], material_id: stream[1] },
    ] + run(stream.skip(4), chosen).requests);
}

/// A stream that ends inside an instruction's operand block ends the run
/// with `UnexpectedEndOfStream`. The renderer is asked nothing on account
/// of the unfinished instruction, and only its opcode byte is used up.
pub proof fn law_truncated_instruction(stream: Seq<u8>, state: RenderInterpreterState)
    requires
        is_truncated(stream),
    ensures
        fetch(stream).result == Err::<CommandView, DecodeError>(
            DecodeError::UnexpectedEndOfStream,
        ),
        fetch(stream).consumed == 1,
        run(stream, state).outcome == Err::<(), DecodeError>(DecodeError::UnexpectedEndOfStream),
        run(stream, state).requests == Seq::<RenderOpView>::empty(),
        run(stream, state).state == state,
{
}

/// An opcode that is not part of the language ends the run with
/// `UnknownOpcode`, which carries it. No byte after the opcode is used up and
/// nothing is asked of the renderer.
pub proof fn law_unknown_opcode(stream: Seq<u8>, state: RenderInterpreterState)
    requires
        stream.len() > 0,
        !is_known_opcode(stream[0]),
    ensures
        fetch(stream).result == Err::<CommandView, DecodeError>(
            DecodeError::UnknownOpcode(stream[0]),
        ),
        fetch(stream).consumed == 1,
        run(stream, state).outcome == Err::<(), DecodeError>(
            DecodeError::UnknownOpcode(stream[0]),
        ),
        run(stream, state).requests == Seq::<RenderOpView>::empty(),
        run(stream, state).state == state,
{
}

/// An empty stream ends the run with `UnexpectedEndOfStream`: only a
/// terminator ends a run well.
pub proof fn law_stream_needs_terminator(state: RenderInterpreterState)
    ensures
        run(Seq::<u8>::empty(), state).outcome == Err::<(), DecodeError>(
            DecodeError::UnexpectedEndOfStream,
        ),
        run(Seq::<u8>::empty(), state).requests == Seq::<RenderOpView>::empty(),
{
}

/// The run keeps one state for each request it makes.
pub proof fn law_one_state_per_request(stream: Seq<u8>, state: RenderInterpreterState)
    ensures
        run(stream, state).pending.len() == run(stream, state).requests.len(),
    decreases stream.len(),
{
    let fetched = fetch(stream);
    match fetched.result {
        Ok(cmd) => {
            if cmd != CommandView::End {
                law_one_state_per_request(stream.skip(fetched.consumed as int), state.after(cmd));
            }
        },
        Err(_) => {},
    }
}

} // verus!
