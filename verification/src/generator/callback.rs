//! The callback that the engine calls after each generation step.

use vstd::prelude::*;

use crate::types::GenerationStepResult;

verus! {

/// Something that is told of each generation step and answers whether to stop the batch.
pub trait GenerationCallback {
    /// Whether `stop` is an answer that this callback, in its present state, may give to
    /// the step `res`.
    spec fn answers(&self, res: GenerationStepResult, stop: bool) -> bool;

    /// Whether, told of the step `res` once and answering `stop`, this callback may be left
    /// as `next`.
    spec fn told_once(&self, res: GenerationStepResult, stop: bool, next: &Self) -> bool;

    /// Handles one step; `true` stops the generation for the current batch. The answer is one
    /// that the callback, as it was before the call, gives to this step, and the callback is
    /// left as being told of this one step leaves it.
    fn execute(&mut self, res: GenerationStepResult) -> (stop: bool)
        ensures
            old(self).answers(res, stop),
            old(self).told_once(res, stop, final(self)),
    ;
}

/// Calls a step closure (std's `FnMut::call_mut`). Where the closure, as it was before the
/// call, accepts this step (its `call_requires`), the answer is one of its outputs for the
/// step (its `call_ensures`); on a step it does not accept, nothing is stated. What the
/// closure decides, and how it changes its own state, is left to the closure.
#[verifier::external_body]
fn call_step_closure<F: FnMut(GenerationStepResult) -> bool>(
    f: &mut F,
    args: GenerationStepResult,
) -> (stop: bool)
    ensures
        call_requires(*old(f), (args,)) ==> call_ensures(*old(f), (args,), stop),
{
    f(args)
}

impl<F: FnMut(GenerationStepResult) -> bool> GenerationCallback for F {
    /// A closure that accepts a step answers it with one of its outputs for that step; of a
    /// step it does not accept, any answer is possible.
    open spec fn answers(&self, res: GenerationStepResult, stop: bool) -> bool {
        call_requires(*self, (res,)) ==> call_ensures(*self, (res,), stop)
    }

    /// Verus follows a closure call by its inputs and output only, not by the state that the
    /// closure keeps; so for a closure, being told of a step once states its answer alone.
    open spec fn told_once(&self, res: GenerationStepResult, stop: bool, next: &Self) -> bool {
        self.answers(res, stop)
    }

    fn execute(&mut self, args: GenerationStepResult) -> (stop: bool) {
        call_step_closure(self, args)
    }
}

/// The callback handed to the engine for one call of `generate_batch`: either the caller's
/// callback, or none, in which case no step ever stops the generation.
pub struct GenerationCallbackBox<C> {
    pub callback: Option<C>,
}

impl<C> GenerationCallbackBox<C> {
    /// A box that never asks the engine to stop.
    pub open spec fn never_stops(&self) -> bool {
        self.callback is None
    }

    /// Boxes an optional callback.
    pub fn from(opt: Option<C>) -> (res: Self)
        ensures
            res.callback == opt,
            res.never_stops() <==> opt is None,
    {
        GenerationCallbackBox { callback: opt }
    }
}

/// Tells the boxed callback of one generation step and returns whether the generation of the
/// current batch is to stop. Without a callback the answer is always `false`, and the box is
/// left as it was; with one, the callback is told of the step once: its answer is returned,
/// and the box is left holding the callback as that one step left it.
pub fn execute_generation_callback<C: GenerationCallback>(
    f: &mut GenerationCallbackBox<C>,
    arg: GenerationStepResult,
) -> (stop: bool)
    ensures
        old(f).never_stops() ==> !stop && *final(f) == *old(f),
        final(f).never_stops() == old(f).never_stops(),
        old(f).callback matches Some(c) ==> c.answers(arg, stop),
        old(f).callback matches Some(c) ==> (final(f).callback matches Some(c2) && c.told_once(
            arg,
            stop,
            &c2,
        )),
{
    match &mut f.callback {
        None => false,
        Some(c) => c.execute(arg),
    }
}

} // verus!
