use vstd::prelude::*;

verus! {

/// The weight byte that would stand for a weight of one, if a byte could hold
/// it: a term's weight is its `weight` divided by this.
pub const WEIGHT_ONE: u16 = 256;

/// One contribution to a weighted blend of matrices.
#[derive(Clone, Copy, Debug, PartialEq, Eq, Structural)]
pub struct BlendTerm {
    /// The matrix-stack slot of the transform to blend.
    pub stack_id: u8,
    /// The blend matrix that the transform is multiplied by.
    pub blend_id: u8,
    /// The weight of the term, in units of 1/`WEIGHT_ONE`: always less than one.
    pub weight: u8,
}

/// One request made of a renderer.
#[derive(Debug, PartialEq, Eq)]
pub enum RenderOp {
    LoadMatrix { stack_pos: u8 },
    StoreMatrix { stack_pos: u8 },
    MulByObject { object_id: u8 },
    Blend { stack_pos: u8, terms: Vec<BlendTerm> },
    Draw { mesh_id: u8, material_id: u8 },
}

/// The mathematical value of a [`RenderOp`].
pub ghost enum RenderOpView {
    LoadMatrix { stack_pos: u8 },
    StoreMatrix { stack_pos: u8 },
    MulByObject { object_id: u8 },
    Blend { stack_pos: u8, terms: Seq<BlendTerm> },
    Draw { mesh_id: u8, material_id: u8 },
}

impl View for RenderOp {
    type V = RenderOpView;

    open spec fn view(&self) -> RenderOpView {
        match *self {
            RenderOp::LoadMatrix { stack_pos } => RenderOpView::LoadMatrix { stack_pos },
            RenderOp::StoreMatrix { stack_pos } => RenderOpView::StoreMatrix { stack_pos },
            RenderOp::MulByObject { object_id } => RenderOpView::MulByObject { object_id },
            RenderOp::Blend { stack_pos, terms } => RenderOpView::Blend { stack_pos, terms: terms@ },
            RenderOp::Draw { mesh_id, material_id } => RenderOpView::Draw { mesh_id, material_id },
        }
    }
}

/// A request together with the renderer's answer to it.
pub ghost struct Exchange<E> {
    pub request: RenderOpView,
    /// The error that the request was refused with, if it was refused.
    pub refusal: Option<E>,
}

/// The error in an answer, if it is a refusal.
pub open spec fn refusal<E>(answer: Result<(), E>) -> Option<E> {
    match answer {
        Ok(_) => None,
        Err(error) => Some(error),
    }
}

/// The exchanges in which each of `requests` is made in turn and accepted.
pub open spec fn accepted<E>(requests: Seq<RenderOpView>) -> Seq<Exchange<E>> {
    requests.map_values(|request: RenderOpView| Exchange::<E> { request, refusal: None })
}

/// The exchanges in which the first `k` of `requests` are accepted and the
/// next one is refused with `error`.
pub open spec fn refused_at<E>(requests: Seq<RenderOpView>, k: int, error: E) -> Seq<Exchange<E>>
    recommends
        0 <= k < requests.len(),
{
    accepted(requests.take(k)).push(Exchange { request: requests[k], refusal: Some(error) })
}

/// What the interpreter asks of a renderer. The renderer owns the matrix
/// stack, the current matrix and the model's data; the interpreter only names
/// slots and ids.
///
/// Every method may fail, and the first failure ends the run.
pub trait Sink {
    /// What a refused request is reported with.
    type Error;

    /// Every request this renderer has received so far, oldest first, each
    /// with the answer it was given.
    ///
    /// The body here only stands in for implementations that are compiled
    /// without being verified. A verified implementation has to give its own:
    /// no method below can be proved against an empty record.
    open spec fn history(&self) -> Seq<Exchange<Self::Error>> {
        Seq::empty()
    }

    /// current matrix = stack[stack_pos]
    fn load_matrix(&mut self, stack_pos: u8) -> (r: Result<(), Self::Error>)
        ensures
            final(self).history() == old(self).history().push(
                Exchange { request: RenderOpView::LoadMatrix { stack_pos }, refusal: refusal(r) },
            ),
    ;

    /// stack[stack_pos] = current matrix
    fn store_matrix(&mut self, stack_pos: u8) -> (r: Result<(), Self::Error>)
        ensures
            final(self).history() == old(self).history().push(
                Exchange { request: RenderOpView::StoreMatrix { stack_pos }, refusal: refusal(r) },
            ),
    ;

    /// current matrix = current matrix * object_matrices[object_id]
    fn mul_by_object(&mut self, object_id: u8) -> (r: Result<(), Self::Error>)
        ensures
            final(self).history() == old(self).history().push(
                Exchange { request: RenderOpView::MulByObject { object_id }, refusal: refusal(r) },
            ),
    ;

    /// Combines the terms, in the order given, into one matrix and stores it
    /// at `stack_pos`. How they are combined is the renderer's business: it
    /// alone has the blend matrices.
    fn blend(&mut self, stack_pos: u8, terms: &[BlendTerm]) -> (r: Result<(), Self::Error>)
        ensures
            final(self).history() == old(self).history().push(
                Exchange {
                    request: RenderOpView::Blend { stack_pos, terms: terms@ },
                    refusal: refusal(r),
                },
            ),
    ;

    /// Draws a mesh with a material.
    fn draw(&mut self, mesh_id: u8, material_id: u8) -> (r: Result<(), Self::Error>)
        ensures
            final(self).history() == old(self).history().push(
                Exchange { request: RenderOpView::Draw { mesh_id, material_id }, refusal: refusal(r) },
            ),
    ;
}

} // verus!
