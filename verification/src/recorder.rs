use vstd::prelude::*;
use vstd::slice::slice_to_vec;
use crate::cur::Cur;
use crate::error::{DecodeError, RenderError};
use crate::interp::{run, RenderInterpreterState};
use crate::sink::{accepted, BlendTerm, Exchange, RenderOp, RenderOpView, Sink};

verus! {

/// A renderer that draws nothing: it accepts every request and writes it
/// down.
#[derive(Debug)]
pub struct Recorder {
    /// The requests received, oldest first.
    pub ops: Vec<RenderOp>,
}

impl Recorder {
    /// The requests received, oldest first, as mathematical values.
    pub open spec fn requests(&self) -> Seq<RenderOpView> {
        self.ops@.map_values(|op: RenderOp| op@)
    }

    /// A recorder that has received nothing.
    pub fn new() -> (recorder: Recorder)
        ensures
            recorder.ops@ == Seq::<RenderOp>::empty(),
            recorder.history() == Seq::<Exchange<core::convert::Infallible>>::empty(),
    {
        let recorder = Recorder { ops: Vec::new() };
        assert(recorder.history() =~= Seq::<Exchange<core::convert::Infallible>>::empty());
        recorder
    }

    /// A recorder whose history is that `requests` were made and accepted
    /// holds exactly `requests`.
    proof fn lemma_accepted_all(&self, requests: Seq<RenderOpView>)
        requires
            self.history() == Seq::<Exchange<core::convert::Infallible>>::empty() + accepted::<
                core::convert::Infallible,
            >(requests),
        ensures
            self.requests() == requests,
    {
        let history = self.history();
        assert(history =~= accepted::<core::convert::Infallible>(requests));
        assert forall|i: int| 0 <= i < requests.len() implies self.requests()[i] == requests[i] by {
            assert(history[i].request == requests[i]);
        }
        assert(self.requests() =~= requests);
    }

    fn record(&mut self, op: RenderOp)
        ensures
            final(self).ops@ == old(self).ops@.push(op),
            final(self).history() == old(self).history().push(
                Exchange { request: op@, refusal: None },
            ),
    {
        self.ops.push(op);
        assert(self.history() =~= old(self).history().push(
            Exchange { request: op@, refusal: None },
        ));
    }
}

impl Sink for Recorder {
    type Error = core::convert::Infallible;

    open spec fn history(&self) -> Seq<Exchange<core::convert::Infallible>> {
        self.ops@.map_values(
            |op: RenderOp| Exchange::<core::convert::Infallible> { request: op@, refusal: None },
        )
    }

    fn load_matrix(&mut self, stack_pos: u8) -> (r: Result<(), Self::Error>)
        ensures
            r is Ok,
    {
        self.record(RenderOp::LoadMatrix { stack_pos });
        Ok(())
    }

    fn store_matrix(&mut self, stack_pos: u8) -> (r: Result<(), Self::Error>)
        ensures
            r is Ok,
    {
        self.record(RenderOp::StoreMatrix { stack_pos });
        Ok(())
    }

    fn mul_by_object(&mut self, object_id: u8) -> (r: Result<(), Self::Error>)
        ensures
            r is Ok,
    {
        self.record(RenderOp::MulByObject { object_id });
        Ok(())
    }

    fn blend(&mut self, stack_pos: u8, terms: &[BlendTerm]) -> (r: Result<(), Self::Error>)
        ensures
            r is Ok,
    {
        self.record(RenderOp::Blend { stack_pos, terms: slice_to_vec(terms) });
        Ok(())
    }

    fn draw(&mut self, mesh_id: u8, material_id: u8) -> (r: Result<(), Self::Error>)
        ensures
            r is Ok,
    {
        self.record(RenderOp::Draw { mesh_id, material_id });
        Ok(())
    }
}

/// Runs the commands of `cur` from the initial state and writes down what
/// they ask for instead of rendering it.
///
/// Since a recorder refuses nothing, this is the run of the stream itself:
/// all its requests and its own end.
pub fn record_commands(cur: Cur) -> (out: (Result<(), DecodeError>, Recorder))
    ensures
        ({
            let whole = run(cur.rest(), RenderInterpreterState { cur_material: 0, cur_stack_pos: 0 });
            &&& out.0 == whole.outcome
            &&& out.1.requests() == whole.requests
        }),
{
    let mut recorder = Recorder::new();
    let mut state = RenderInterpreterState::new();
    let r = state.run_commands(&mut recorder, cur);
    let ghost whole = run(cur.rest(), RenderInterpreterState { cur_material: 0, cur_stack_pos: 0 });
    let ghost history = recorder.history();
    match r {
        Ok(()) => {
            proof {
                recorder.lemma_accepted_all(whole.requests);
            }
            (Ok(()), recorder)
        },
        Err(RenderError::Decode(e)) => {
            proof {
                recorder.lemma_accepted_all(whole.requests);
            }
            (Err(e), recorder)
        },
        Err(RenderError::Renderer(_)) => {
            proof {
                assert(history.last().refusal is Some);
                assert(history.last().refusal is None);
            }
            vstd::pervasive::unreached()
        },
    }
}

} // verus!
