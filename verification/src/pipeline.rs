use vstd::prelude::*;

verus! {

/// One transformation from `I` to `O`.
pub trait Stage<I, O> {
    /// Tells whether the stage may be run on `input`.
    spec fn accepts(&self, input: I) -> bool;

    /// Tells whether `output` is a possible result for `input`.
    spec fn maps(&self, input: I, output: O) -> bool;

    /// Runs the stage.
    fn run(&self, input: I) -> (output: O)
        requires
            self.accepts(input),
        ensures
            self.maps(input, output),
    ;
}

/// The stage that hands its input back.
struct Identity {}

impl<T> Stage<T, T> for Identity {
    closed spec fn accepts(&self, input: T) -> bool {
        true
    }

    closed spec fn maps(&self, input: T, output: T) -> bool {
        output == input
    }

    fn run(&self, input: T) -> (output: T) {
        input
    }
}

/// A pipeline followed by a function.
#[verifier::reject_recursive_types(I)]
#[verifier::reject_recursive_types(M)]
struct Then<I: 'static, M: 'static, F> {
    first: Pipeline<I, M>,
    next: F,
}

impl<I, M, O, F: Fn(M) -> O> Stage<I, O> for Then<I, M, F> {
    closed spec fn accepts(&self, input: I) -> bool {
        forall|middle: M| #[trigger]
            self.first.maps(input, middle) ==> call_requires(self.next, (middle,))
    }

    closed spec fn maps(&self, input: I, output: O) -> bool {
        self.first.maps_through(self.next, input, output)
    }

    fn run(&self, input: I) -> (output: O) {
        let middle = self.first.execute(input);
        let output = (self.next)(middle);
        output
    }
}

/// A pipeline followed by a test that decides whether the result is kept.
#[verifier::reject_recursive_types(I)]
#[verifier::reject_recursive_types(O)]
struct Filter<I: 'static, O: 'static, F> {
    first: Pipeline<I, O>,
    predicate: F,
}

impl<I, O, F: Fn(&O) -> bool> Stage<I, Option<O>> for Filter<I, O, F> {
    closed spec fn accepts(&self, input: I) -> bool {
        forall|value: O| #[trigger]
            self.first.maps(input, value) ==> call_requires(self.predicate, (&value,))
    }

    closed spec fn maps(&self, input: I, output: Option<O>) -> bool {
        self.first.maps_if(self.predicate, input, output)
    }

    fn run(&self, input: I) -> (output: Option<O>) {
        let value = self.first.execute(input);
        let keep = (self.predicate)(&value);
        if keep {
            Some(value)
        } else {
            None
        }
    }
}

/// A chain of transformations from `TInput` to `TOutput`, built step by step
/// and run only when [`Pipeline::execute`] is called.
#[verifier::reject_recursive_types(TInput)]
#[verifier::reject_recursive_types(TOutput)]
pub struct Pipeline<TInput: 'static, TOutput: 'static> {
    transformer: Box<dyn Stage<TInput, TOutput>>,
}

impl<T> Pipeline<T, T> {
    /// Creates the pipeline that hands every input back unchanged.
    pub fn new() -> (pipeline: Self)
        ensures
            forall|input: T, output: T| pipeline.maps(input, output) <==> output == input,
    {
        let stage = Identity {  };
        Pipeline { transformer: Box::new(stage) }
    }
}

impl<TInput, TOutput> Pipeline<TInput, TOutput> {
    #[verifier::type_invariant]
    spec fn total(self) -> bool {
        forall|input: TInput| self.transformer.accepts(input)
    }

    /// Tells whether `output` is a possible result of the pipeline for
    /// `input`.
    pub closed spec fn maps(&self, input: TInput, output: TOutput) -> bool {
        self.transformer.maps(input, output)
    }

    /// Tells whether `output` is something `f` may answer to a possible
    /// result of the pipeline for `input`.
    pub open spec fn maps_through<TNext, F: Fn(TOutput) -> TNext>(
        &self,
        f: F,
        input: TInput,
        output: TNext,
    ) -> bool {
        exists|middle: TOutput| #[trigger]
            self.maps(input, middle) && call_ensures(f, (middle,), output)
    }

    /// Tells whether `output` is a possible result of the pipeline for
    /// `input`, kept if `predicate` may hold of it and dropped if it may not.
    pub open spec fn maps_if<F: Fn(&TOutput) -> bool>(
        &self,
        predicate: F,
        input: TInput,
        output: Option<TOutput>,
    ) -> bool {
        exists|value: TOutput, keep: bool| #[trigger]
            self.maps(input, value) && #[trigger] call_ensures(predicate, (&value,), keep)
                && output == (if keep {
                Some(value)
            } else {
                None
            })
    }

    /// Runs every transformation of the pipeline on `input`, in the order in
    /// which they were added.
    pub fn execute(&self, input: TInput) -> (output: TOutput)
        ensures
            self.maps(input, output),
    {
        proof {
            use_type_invariant(self);
        }
        self.transformer.run(input)
    }

    /// Appends a transformation: the new pipeline applies `f` to what this
    /// one yields. `f` has to accept whatever this pipeline can yield.
    pub fn map<TNext, F>(self, f: F) -> (pipeline: Pipeline<TInput, TNext>) where
        F: 'static + Fn(TOutput) -> TNext,
        TNext: 'static,

        requires
            forall|input: TInput, middle: TOutput| #[trigger]
                self.maps(input, middle) ==> call_requires(f, (middle,)),
        ensures
            forall|input: TInput, output: TNext|
                pipeline.maps(input, output) <==> self.maps_through(f, input, output),
    {
        let stage = Then { first: self, next: f };
        Pipeline { transformer: Box::new(stage) }
    }

    /// Appends a transformation that may give nothing: the new pipeline
    /// applies `f` to what this one yields. `f` has to accept whatever this
    /// pipeline can yield.
    pub fn and_then<TNext, F>(self, f: F) -> (pipeline: Pipeline<TInput, Option<TNext>>) where
        F: 'static + Fn(TOutput) -> Option<TNext>,
        TNext: 'static,

        requires
            forall|input: TInput, middle: TOutput| #[trigger]
                self.maps(input, middle) ==> call_requires(f, (middle,)),
        ensures
            forall|input: TInput, output: Option<TNext>|
                pipeline.maps(input, output) <==> self.maps_through(f, input, output),
    {
        self.map(f)
    }

    /// Appends a test: the new pipeline yields `Some` of what this one
    /// yields if `predicate` holds of it, and `None` otherwise. `predicate`
    /// has to accept whatever this pipeline can yield.
    pub fn filter<F>(self, predicate: F) -> (pipeline: Pipeline<TInput, Option<TOutput>>) where
        F: 'static + Fn(&TOutput) -> bool,

        requires
            forall|input: TInput, value: TOutput| #[trigger]
                self.maps(input, value) ==> call_requires(predicate, (&value,)),
        ensures
            forall|input: TInput, output: Option<TOutput>|
                pipeline.maps(input, output) <==> self.maps_if(predicate, input, output),
    {
        let stage = Filter { first: self, predicate };
        Pipeline { transformer: Box::new(stage) }
    }
}

} // verus!
