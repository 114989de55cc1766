//! Controllers: anything that reads a reactor's output and sets its input once
//! per tick, and their ordered composition.
use vstd::prelude::*;
use crate::reactor::{Input, InputView, Output, OutputView};

verus! {

/// A strategy that, once per tick, reads the output and may change the input
/// and its own state. What it does is a function of its state's view, the
/// output and the input, given by `next_input` and `next_view`.
pub trait Controller: View + Sized {
    /// What the controller keeps true of its own state from tick to tick.
    spec fn inv(&self) -> bool;

    /// The input after the turn of a controller whose state is `state`.
    spec fn next_input(state: Self::V, output: OutputView, input: InputView) -> InputView;

    /// The controller's state after its turn.
    spec fn next_view(state: Self::V, output: OutputView, input: InputView) -> Self::V;

    fn update(&mut self, output: &Output, input: &mut Input)
        requires
            old(self).inv(),
            old(input)@.wf(),
        ensures
            final(self).inv(),
            final(input)@.wf(),
            final(input)@ == Self::next_input(old(self)@, output@, old(input)@),
            final(self)@ == Self::next_view(old(self)@, output@, old(input)@),
    ;
}

/// The empty composition: it changes nothing.
impl Controller for () {
    open spec fn inv(&self) -> bool {
        true
    }

    open spec fn next_input(state: (), output: OutputView, input: InputView) -> InputView {
        input
    }

    open spec fn next_view(state: (), output: OutputView, input: InputView) -> () {
        ()
    }

    fn update(&mut self, output: &Output, input: &mut Input) {
    }
}

impl<A: Controller> Controller for (A,) {
    open spec fn inv(&self) -> bool {
        self.0.inv()
    }

    open spec fn next_input(state: (A::V,), output: OutputView, input: InputView) -> InputView {
        let i0 = input;
        let i1 = A::next_input(state.0, output, i0);
        i1
    }

    open spec fn next_view(state: (A::V,), output: OutputView, input: InputView) -> (A::V,) {
        let i0 = input;
        (A::next_view(state.0, output, i0),)
    }

    fn update(&mut self, output: &Output, input: &mut Input) {
        self.0.update(output, input);
    }
}

/// Two controllers in order: the second sees what the first set this tick.
impl<A: Controller, B: Controller> Controller for (A, B) {
    open spec fn inv(&self) -> bool {
        self.0.inv() && self.1.inv()
    }

    open spec fn next_input(state: (A::V, B::V), output: OutputView, input: InputView) -> InputView {
        let i0 = input;
        let i1 = A::next_input(state.0, output, i0);
        let i2 = B::next_input(state.1, output, i1);
        i2
    }

    open spec fn next_view(state: (A::V, B::V), output: OutputView, input: InputView) -> (A::V, B::V) {
        let i0 = input;
        let i1 = A::next_input(state.0, output, i0);
        (A::next_view(state.0, output, i0), B::next_view(state.1, output, i1))
    }

    fn update(&mut self, output: &Output, input: &mut Input) {
        self.0.update(output, input);
        self.1.update(output, input);
    }
}

/// Controllers in order, each seeing what those before it set this tick.
impl<A: Controller, B: Controller, C: Controller> Controller for (A, B, C) {
    open spec fn inv(&self) -> bool {
        self.0.inv() && self.1.inv() && self.2.inv()
    }

    open spec fn next_input(state: (A::V, B::V, C::V), output: OutputView, input: InputView) -> InputView {
        let i0 = input;
        let i1 = A::next_input(state.0, output, i0);
        let i2 = B::next_input(state.1, output, i1);
        let i3 = C::next_input(state.2, output, i2);
        i3
    }

    open spec fn next_view(state: (A::V, B::V, C::V), output: OutputView, input: InputView) -> (A::V, B::V, C::V) {
        let i0 = input;
        let i1 = A::next_input(state.0, output, i0);
        let i2 = B::next_input(state.1, output, i1);
        (A::next_view(state.0, output, i0), B::next_view(state.1, output, i1), C::next_view(state.2, output, i2))
    }

    fn update(&mut self, output: &Output, input: &mut Input) {
        self.0.update(output, input);
        self.1.update(output, input);
        self.2.update(output, input);
    }
}

/// Controllers in order, each seeing what those before it set this tick.
impl<A: Controller, B: Controller, C: Controller, D: Controller> Controller for (A, B, C, D) {
    open spec fn inv(&self) -> bool {
        self.0.inv() && self.1.inv() && self.2.inv() && self.3.inv()
    }

    open spec fn next_input(state: (A::V, B::V, C::V, D::V), output: OutputView, input: InputView) -> InputView {
        let i0 = input;
        let i1 = A::next_input(state.0, output, i0);
        let i2 = B::next_input(state.1, output, i1);
        let i3 = C::next_input(state.2, output, i2);
        let i4 = D::next_input(state.3, output, i3);
        i4
    }

    open spec fn next_view(state: (A::V, B::V, C::V, D::V), output: OutputView, input: InputView) -> (A::V, B::V, C::V, D::V) {
        let i0 = input;
        let i1 = A::next_input(state.0, output, i0);
        let i2 = B::next_input(state.1, output, i1);
        let i3 = C::next_input(state.2, output, i2);
        (A::next_view(state.0, output, i0), B::next_view(state.1, output, i1), C::next_view(state.2, output, i2), D::next_view(state.3, output, i3))
    }

    fn update(&mut self, output: &Output, input: &mut Input) {
        self.0.update(output, input);
        self.1.update(output, input);
        self.2.update(output, input);
        self.3.update(output, input);
    }
}

/// Controllers in order, each seeing what those before it set this tick.
impl<A: Controller, B: Controller, C: Controller, D: Controller, E: Controller> Controller for (A, B, C, D, E) {
    open spec fn inv(&self) -> bool {
        self.0.inv() && self.1.inv() && self.2.inv() && self.3.inv() && self.4.inv()
    }

    open spec fn next_input(state: (A::V, B::V, C::V, D::V, E::V), output: OutputView, input: InputView) -> InputView {
        let i0 = input;
        let i1 = A::next_input(state.0, output, i0);
        let i2 = B::next_input(state.1, output, i1);
        let i3 = C::next_input(state.2, output, i2);
        let i4 = D::next_input(state.3, output, i3);
        let i5 = E::next_input(state.4, output, i4);
        i5
    }

    open spec fn next_view(state: (A::V, B::V, C::V, D::V, E::V), output: OutputView, input: InputView) -> (A::V, B::V, C::V, D::V, E::V) {
        let i0 = input;
        let i1 = A::next_input(state.0, output, i0);
        let i2 = B::next_input(state.1, output, i1);
        let i3 = C::next_input(state.2, output, i2);
        let i4 = D::next_input(state.3, output, i3);
        (A::next_view(state.0, output, i0), B::next_view(state.1, output, i1), C::next_view(state.2, output, i2), D::next_view(state.3, output, i3), E::next_view(state.4, output, i4))
    }

    fn update(&mut self, output: &Output, input: &mut Input) {
        self.0.update(output, input);
        self.1.update(output, input);
        self.2.update(output, input);
        self.3.update(output, input);
        self.4.update(output, input);
    }
}

/// Controllers in order, each seeing what those before it set this tick.
impl<A: Controller, B: Controller, C: Controller, D: Controller, E: Controller, F: Controller> Controller for (A, B, C, D, E, F) {
    open spec fn inv(&self) -> bool {
        self.0.inv() && self.1.inv() && self.2.inv() && self.3.inv() && self.4.inv() && self.5.inv()
    }

    open spec fn next_input(state: (A::V, B::V, C::V, D::V, E::V, F::V), output: OutputView, input: InputView) -> InputView {
        let i0 = input;
        let i1 = A::next_input(state.0, output, i0);
        let i2 = B::next_input(state.1, output, i1);
        let i3 = C::next_input(state.2, output, i2);
        let i4 = D::next_input(state.3, output, i3);
        let i5 = E::next_input(state.4, output, i4);
        let i6 = F::next_input(state.5, output, i5);
        i6
    }

    open spec fn next_view(state: (A::V, B::V, C::V, D::V, E::V, F::V), output: OutputView, input: InputView) -> (A::V, B::V, C::V, D::V, E::V, F::V) {
        let i0 = input;
        let i1 = A::next_input(state.0, output, i0);
        let i2 = B::next_input(state.1, output, i1);
        let i3 = C::next_input(state.2, output, i2);
        let i4 = D::next_input(state.3, output, i3);
        let i5 = E::next_input(state.4, output, i4);
        (A::next_view(state.0, output, i0), B::next_view(state.1, output, i1), C::next_view(state.2, output, i2), D::next_view(state.3, output, i3), E::next_view(state.4, output, i4), F::next_view(state.5, output, i5))
    }

    fn update(&mut self, output: &Output, input: &mut Input) {
        self.0.update(output, input);
        self.1.update(output, input);
        self.2.update(output, input);
        self.3.update(output, input);
        self.4.update(output, input);
        self.5.update(output, input);
    }
}

/// The state's view and the input after one turn for each output in
/// `outputs`, first to last.
pub open spec fn run_controller<C: Controller>(state: C::V, outputs: Seq<OutputView>, input: InputView) -> (C::V, InputView)
    decreases outputs.len(),
{
    if outputs.len() == 0 {
        (state, input)
    } else {
        let (s1, i1) = run_controller::<C>(state, outputs.drop_last(), input);
        (C::next_view(s1, outputs.last(), i1), C::next_input(s1, outputs.last(), i1))
    }
}

/// A composition of `A` then `B` acts in one tick as `A`'s turn followed by
/// `B`'s turn on the same output, `B` seeing the input that `A` left.
pub proof fn lemma_composition_order<A: Controller, B: Controller>(
    a: A::V,
    b: B::V,
    output: OutputView,
    input: InputView,
)
    ensures
        run_controller::<(A, B)>((a, b), seq![output], input) == (
            (
                run_controller::<A>(a, seq![output], input).0,
                run_controller::<B>(b, seq![output], run_controller::<A>(a, seq![output], input).1).0,
            ),
            run_controller::<B>(b, seq![output], run_controller::<A>(a, seq![output], input).1).1,
        ),
{
    lemma_one_turn::<(A, B)>((a, b), output, input);
    lemma_one_turn::<A>(a, output, input);
    lemma_one_turn::<B>(b, output, A::next_input(a, output, input));
}

proof fn lemma_one_turn<C: Controller>(state: C::V, output: OutputView, input: InputView)
    ensures
        run_controller::<C>(state, seq![output], input) == (
            C::next_view(state, output, input),
            C::next_input(state, output, input),
        ),
{
    assert(seq![output].drop_last() =~= Seq::<OutputView>::empty());
    assert(run_controller::<C>(state, seq![output].drop_last(), input) == (state, input));
}

/// The empty composition leaves the input as it was, after any number of ticks.
pub proof fn lemma_empty_composition_idle(outputs: Seq<OutputView>, input: InputView)
    ensures
        run_controller::<()>((), outputs, input).1 == input,
    decreases outputs.len(),
{
    if outputs.len() > 0 {
        lemma_empty_composition_idle(outputs.drop_last(), input);
    }
}

} // verus!
