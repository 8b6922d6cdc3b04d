use vstd::prelude::*;
use crate::command::{fetch, Command, CommandView};
use crate::cur::Cur;
use crate::error::{DecodeError, RenderError};
use crate::sink::{accepted, refusal, refused_at, Exchange, RenderOpView, Sink};

verus! {

/// What the interpreter carries from one command to the next.
#[derive(Clone, Copy, Debug, PartialEq, Eq, Structural)]
pub struct RenderInterpreterState {
    /// The material that draws are made with.
    pub cur_material: u8,
    /// The stack slot that the next store without a slot of its own goes to.
    pub cur_stack_pos: u8,
}

/// The slot after `slot`. Slot numbers are bytes, and the successor of the
/// last one is slot 0.
pub open spec fn next_slot(slot: u8) -> u8 {
    if slot == u8::MAX {
        0
    } else {
        (slot + 1) as u8
    }
}

impl RenderInterpreterState {
    /// The slot that a multiply-by-object stores to.
    pub open spec fn store_target(self, stack_id: Option<u8>) -> u8 {
        match stack_id {
            Some(slot) => slot,
            None => self.cur_stack_pos,
        }
    }

    /// The requests that `cmd` makes of the renderer when it is carried out
    /// in this state, in the order in which they are made.
    pub open spec fn requests(self, cmd: CommandView) -> Seq<RenderOpView> {
        match cmd {
            CommandView::LoadMatrix { stack_pos } => seq![RenderOpView::LoadMatrix { stack_pos }],
            CommandView::Draw { mesh_id } => seq![
                RenderOpView::Draw { mesh_id, material_id: self.cur_material },
            ],
            CommandView::MulByObject { object_id, parent_id, stack_id, restore_id } => {
                let tail = seq![
                    RenderOpView::MulByObject { object_id },
                    RenderOpView::StoreMatrix { stack_pos: self.store_target(stack_id) },
                ];
                match restore_id {
                    Some(slot) => seq![RenderOpView::LoadMatrix { stack_pos: slot }] + tail,
                    None => tail,
                }
            },
            CommandView::Blend { stack_pos, terms } => seq![
                RenderOpView::Blend { stack_pos, terms },
            ],
            _ => Seq::empty(),
        }
    }

    /// The state once `cmd` has been carried out.
    pub open spec fn after(self, cmd: CommandView) -> RenderInterpreterState {
        match cmd {
            CommandView::SetMaterial { material_id } => RenderInterpreterState {
                cur_material: material_id,
                ..self
            },
            CommandView::MulByObject { object_id, parent_id, stack_id, restore_id } => {
                RenderInterpreterState {
                    cur_stack_pos: next_slot(self.store_target(stack_id)),
                    ..self
                }
            },
            CommandView::Blend { stack_pos, terms } => RenderInterpreterState {
                cur_stack_pos: stack_pos,
                ..self
            },
            _ => self,
        }
    }

    /// The state while request number `k` of `cmd` is with the renderer,
    /// which is the state that is left behind if the renderer refuses it.
    ///
    /// It is the state before the command, but for the store of a
    /// multiply-by-object: by then the stack cursor is at the slot stored to.
    pub open spec fn during(self, cmd: CommandView, k: int) -> RenderInterpreterState {
        match cmd {
            CommandView::MulByObject { object_id, parent_id, stack_id, restore_id } => {
                if k == self.requests(cmd).len() - 1 {
                    RenderInterpreterState { cur_stack_pos: self.store_target(stack_id), ..self }
                } else {
                    self
                }
            },
            _ => self,
        }
    }

    /// `during` for each request of `cmd` in turn.
    pub open spec fn pending(self, cmd: CommandView) -> Seq<RenderInterpreterState> {
        Seq::new(self.requests(cmd).len(), |k: int| self.during(cmd, k))
    }
}

/// A run of the interpreter in which the renderer refuses nothing.
pub ghost struct Run {
    /// The requests made, in order.
    pub requests: Seq<RenderOpView>,
    /// For each request, the interpreter's state while it is made.
    pub pending: Seq<RenderInterpreterState>,
    /// The state at the end.
    pub state: RenderInterpreterState,
    /// How the run ends: at a terminator, or on the first instruction that
    /// cannot be decoded.
    pub outcome: Result<(), DecodeError>,
}

/// Runs the commands of `stream` from `state` on, up to the first terminator
/// or the first instruction that cannot be decoded.
pub open spec fn run(stream: Seq<u8>, state: RenderInterpreterState) -> Run
    decreases stream.len(),
{
    let fetched = fetch(stream);
    match fetched.result {
        Err(e) => Run { requests: Seq::empty(), pending: Seq::empty(), state, outcome: Err(e) },
        Ok(CommandView::End) => Run {
            requests: Seq::empty(),
            pending: Seq::empty(),
            state,
            outcome: Ok(()),
        },
        Ok(cmd) => {
            let rest = run(stream.skip(fetched.consumed as int), state.after(cmd));
            Run {
                requests: state.requests(cmd) + rest.requests,
                pending: state.pending(cmd) + rest.pending,
                state: rest.state,
                outcome: rest.outcome,
            }
        },
    }
}

impl RenderInterpreterState {
    /// The state at the start of a run: material 0, stack cursor 0.
    pub fn new() -> (state: RenderInterpreterState)
        ensures
            state == (RenderInterpreterState { cur_material: 0, cur_stack_pos: 0 }),
    {
        RenderInterpreterState { cur_material: 0, cur_stack_pos: 0 }
    }

    /// Carries out one command: makes its requests of `sink`, in order, and
    /// moves to the state after it. A terminator asks nothing and changes
    /// nothing; to stop there is up to the caller.
    ///
    /// The first request that the renderer refuses is the last one made. The
    /// state is then the one in which that request was made, and the
    /// renderer's error is handed back as it came.
    pub fn execute<S: Sink>(&mut self, sink: &mut S, cmd: &Command) -> (r: Result<(), S::Error>)
        ensures
            match r {
                Ok(()) => {
                    &&& final(sink).history() == old(sink).history() + accepted::<S::Error>(
                        old(self).requests(cmd@),
                    )
                    &&& *final(self) == old(self).after(cmd@)
                },
                Err(e) => {
                    let k = final(sink).history().len() - old(sink).history().len() - 1;
                    &&& 0 <= k < old(self).requests(cmd@).len()
                    &&& final(sink).history() == old(sink).history() + refused_at(
                        old(self).requests(cmd@),
                        k,
                        e,
                    )
                    &&& *final(self) == old(self).during(cmd@, k)
                },
            },
    {
        let ghost before = sink.history();
        let ghost requests = self.requests(cmd@);
        match cmd {
            Command::LoadMatrix { stack_pos } => {
                let r = sink.load_matrix(*stack_pos);
                proof {
                    lemma_answered(before, sink.history(), requests, 0, r);
                }
                r
            },
            Command::SetMaterial { material_id } => {
                self.cur_material = *material_id;
                assert(sink.history() =~= before + accepted::<S::Error>(requests));
                Ok(())
            },
            Command::Draw { mesh_id } => {
                let r = sink.draw(*mesh_id, self.cur_material);
                proof {
                    lemma_answered(before, sink.history(), requests, 0, r);
                }
                r
            },
            Command::MulByObject { object_id, parent_id: _, stack_id, restore_id } => {
                let ghost loads: int = if restore_id.is_some() { 1 } else { 0 };
                assert(sink.history() =~= before + accepted::<S::Error>(requests.take(0)));
                if let Some(restore_id) = restore_id {
                    let r = sink.load_matrix(*restore_id);
                    proof {
                        lemma_answered(before, sink.history(), requests, 0, r);
                    }
                    if r.is_err() {
                        return r;
                    }
                }
                let r = sink.mul_by_object(*object_id);
                proof {
                    lemma_answered(before, sink.history(), requests, loads, r);
                }
                if r.is_err() {
                    return r;
                }
                if let Some(stack_id) = stack_id {
                    self.cur_stack_pos = *stack_id;
                }
                let r = sink.store_matrix(self.cur_stack_pos);
                proof {
                    lemma_answered(before, sink.history(), requests, loads + 1, r);
                    assert(requests.take(loads + 2) =~= requests);
                }
                if r.is_err() {
                    return r;
                }
                self.cur_stack_pos = if self.cur_stack_pos == u8::MAX {
                    0
                } else {
                    self.cur_stack_pos + 1
                };
                Ok(())
            },
            Command::Blend { stack_pos, terms } => {
                let r = sink.blend(*stack_pos, terms.as_slice());
                proof {
                    lemma_answered(before, sink.history(), requests, 0, r);
                    assert(requests.take(1) =~= requests);
                }
                if r.is_err() {
                    return r;
                }
                self.cur_stack_pos = *stack_pos;
                Ok(())
            },
            _ => {
                assert(sink.history() =~= before + accepted::<S::Error>(requests));
                Ok(())
            },
        }
    }

    /// Runs the commands of `cur` from this state on, making their requests
    /// of `sink`, until a terminator is read.
    ///
    /// A run of the stream in which nothing is refused is `run`. As long as
    /// the renderer accepts what is asked of it, this is that run: the same
    /// requests in the same order, the same end, the same state at the end.
    /// The first refusal ends it at once, with the renderer's error, after
    /// the refused request and in the state in which that request was made.
    pub fn run_commands<S: Sink>(&mut self, sink: &mut S, cur: Cur) -> (r: Result<
        (),
        RenderError<S::Error>,
    >)
        ensures
            ({
                let whole = run(cur.rest(), *old(self));
                match r {
                    Ok(()) => {
                        &&& whole.outcome == Ok::<(), DecodeError>(())
                        &&& final(sink).history() == old(sink).history() + accepted::<S::Error>(
                            whole.requests,
                        )
                        &&& *final(self) == whole.state
                    },
                    Err(RenderError::Decode(e)) => {
                        &&& whole.outcome == Err::<(), DecodeError>(e)
                        &&& final(sink).history() == old(sink).history() + accepted::<S::Error>(
                            whole.requests,
                        )
                        &&& *final(self) == whole.state
                    },
                    Err(RenderError::Renderer(e)) => {
                        let k = final(sink).history().len() - old(sink).history().len() - 1;
                        &&& 0 <= k < whole.requests.len()
                        &&& k < whole.pending.len()
                        &&& final(sink).history() == old(sink).history() + refused_at(
                            whole.requests,
                            k,
                            e,
                        )
                        &&& *final(self) == whole.pending[k]
                    },
                }
            }),
    {
        let mut cursor = cur;
        let ghost whole = run(cur.rest(), *self);
        let ghost before = sink.history();
        let ghost made: Seq<RenderOpView> = Seq::empty();
        let ghost held: Seq<RenderInterpreterState> = Seq::empty();
        assert(sink.history() =~= before + accepted::<S::Error>(made));
        assert(whole.requests =~= made + run(cursor.rest(), *self).requests);
        assert(whole.pending =~= held + run(cursor.rest(), *self).pending);
        loop
            invariant
                whole == run(cur.rest(), *old(self)),
                before == old(sink).history(),
                sink.history() == before + accepted::<S::Error>(made),
                made.len() == held.len(),
                whole.requests == made + run(cursor.rest(), *self).requests,
                whole.pending == held + run(cursor.rest(), *self).pending,
                whole.state == run(cursor.rest(), *self).state,
                whole.outcome == run(cursor.rest(), *self).outcome,
            decreases cursor.rest().len(),
        {
            let ghost stream = cursor.rest();
            let ghost state = *self;
            let cmd = match Command::read(&mut cursor) {
                Ok(cmd) => cmd,
                Err(e) => {
                    assert(whole.requests =~= made);
                    return Err(RenderError::Decode(e));
                },
            };
            if let Command::End = cmd {
                assert(whole.requests =~= made);
                return Ok(());
            }
            let ghost requests = state.requests(cmd@);
            let ghost pending = state.pending(cmd@);
            let ghost later = run(cursor.rest(), state.after(cmd@));
            assert(run(stream, state).requests == requests + later.requests);
            assert(run(stream, state).pending == pending + later.pending);
            match self.execute(sink, &cmd) {
                Ok(()) => {},
                Err(e) => {
                    proof {
                        let k = sink.history().len() - (before + accepted::<S::Error>(made)).len()
                            - 1;
                        let at = made.len() + k;
                        assert(whole.requests.take(at) =~= made + requests.take(k));
                        assert(whole.requests[at] == requests[k]);
                        assert(sink.history() =~= before + refused_at(whole.requests, at, e));
                        assert(whole.pending[at] == pending[k]);
                    }
                    return Err(RenderError::Renderer(e));
                },
            }
            proof {
                assert(sink.history() =~= before + accepted::<S::Error>(made + requests));
                assert(whole.requests =~= (made + requests) + later.requests);
                assert(whole.pending =~= (held + pending) + later.pending);
                made = made + requests;
                held = held + pending;
            }
        }
    }
}

/// One more request has been answered: if all before it were accepted, then
/// either all up to it are accepted now, or it is the one refused.
proof fn lemma_answered<E>(
    before: Seq<Exchange<E>>,
    now: Seq<Exchange<E>>,
    requests: Seq<RenderOpView>,
    k: int,
    answer: Result<(), E>,
)
    requires
        0 <= k < requests.len(),
        now == (before + accepted::<E>(requests.take(k))).push(
            Exchange { request: requests[k], refusal: refusal(answer) },
        ),
    ensures
        now.len() - before.len() - 1 == k,
        match answer {
            Ok(_) => now == before + accepted::<E>(requests.take(k + 1)),
            Err(e) => now == before + refused_at(requests, k, e),
        },
{
    match answer {
        Ok(_) => {
            assert(now =~= before + accepted::<E>(requests.take(k + 1)));
        },
        Err(e) => {
            assert(now =~= before + refused_at(requests, k, e));
        },
    }
}

/// Runs the commands of `cur` from the initial state, making their requests
/// of `sink`, until a terminator is read.
///
/// This is `RenderInterpreterState::run_commands` on a state that is made
/// for the run and dropped at its end.
pub fn run_commands<S: Sink>(cur: Cur, sink: &mut S) -> (r: Result<(), RenderError<S::Error>>)
    ensures
        ({
            let whole = run(cur.rest(), RenderInterpreterState { cur_material: 0, cur_stack_pos: 0 });
            match r {
                Ok(()) => {
                    &&& whole.outcome == Ok::<(), DecodeError>(())
                    &&& final(sink).history() == old(sink).history() + accepted::<S::Error>(
                        whole.requests,
                    )
                },
                Err(RenderError::Decode(e)) => {
                    &&& whole.outcome == Err::<(), DecodeError>(e)
                    &&& final(sink).history() == old(sink).history() + accepted::<S::Error>(
                        whole.requests,
                    )
                },
                Err(RenderError::Renderer(e)) => {
                    let k = final(sink).history().len() - old(sink).history().len() - 1;
                    &&& 0 <= k < whole.requests.len()
                    &&& final(sink).history() == old(sink).history() + refused_at(
                        whole.requests,
                        k,
                        e,
                    )
                },
            }
        }),
{
    let mut state = RenderInterpreterState::new();
    state.run_commands(sink, cur)
}

} // verus!
