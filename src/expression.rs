use vstd::layout::size_of;
use vstd::prelude::*;

use crate::checks::{check_dimension, check_index, ExprError};
use crate::engine::{
    engine_eval, engine_parse, engine_partial, engine_unparse, error_message, parses, partial_ok,
    unparse_of, var_count_of, Compiled, Engine,
};

verus! {

/// A parsed expression over the number type `T`, held in flat form for
/// repeated evaluation by the engine that parsed it. It is never changed once
/// built: differentiation gives a new expression.
#[verifier::reject_recursive_types(T)]
pub struct Expression<'a, T> {
    engine: &'a Engine<T>,
    compiled: Compiled<T>,
}

impl<'a, T> Expression<'a, T> {
    /// The number of variables: an input vector needs at least this many
    /// entries.
    pub closed spec fn var_count(&self) -> nat {
        self.compiled.var_count()
    }

    /// The text the expression was parsed from.
    pub closed spec fn source(&self) -> Seq<char> {
        self.compiled.source()
    }

    /// The variable indices the parsed expression was differentiated along.
    pub closed spec fn path(&self) -> Seq<usize> {
        self.compiled.path()
    }

    /// The variable count is the one exmex finds in the source text: parsing
    /// sets it, and differentiation keeps both.
    pub closed spec fn wf(&self) -> bool {
        self.var_count() == var_count_of(self.source())
    }

    /// Parses `text` with `engine` into an expression. It succeeds exactly
    /// when the text is a well-formed expression; every failure is a `Parse`
    /// error carrying the parser's explanation.
    pub fn parse(engine: &'a Engine<T>, text: &str) -> (r: Result<Self, ExprError>)
        ensures
            r is Ok <==> parses(text@),
            r is Ok ==> r->Ok_0.var_count() == var_count_of(text@),
            r is Ok ==> r->Ok_0.source() == text@,
            r is Ok ==> r->Ok_0.path() == Seq::<usize>::empty(),
            r is Ok ==> r->Ok_0.wf(),
            r is Err ==> r->Err_0 is Parse,
    {
        match engine_parse(engine, text) {
            Ok(compiled) => Ok(Expression { engine, compiled }),
            Err(e) => Err(ExprError::Parse(error_message(&e))),
        }
    }

    /// The number of variables of the expression.
    pub fn variable_count(&self) -> (r: usize)
        ensures
            r == self.var_count(),
    {
        self.compiled.var_count_exec()
    }

    /// Evaluates the expression on `x`, whose entry `k` is the value of the
    /// variable at position `k`. Fails with `Dimension` exactly when `x` is
    /// shorter than the number of variables; then nothing is read from `x`.
    /// Otherwise a value comes back, which may be infinite or NaN.
    pub fn evaluate(&self, x: &[T]) -> (r: Result<T, ExprError>)
        ensures
            x@.len() < self.var_count() ==> r == Err::<T, ExprError>(
                ExprError::Dimension {
                    required: self.var_count() as usize,
                    provided: x@.len() as usize,
                },
            ),
            x@.len() >= self.var_count() ==> r is Ok,
    {
        let required = self.compiled.var_count_exec();
        match check_dimension(required, x.len()) {
            Err(e) => Err(e),
            Ok(()) => match engine_eval(self.engine, &self.compiled, x) {
                Ok(v) => Ok(v),
                // not reached: the engine fails only on a short input
                Err(_) => Err(ExprError::Dimension { required, provided: x.len() }),
            },
        }
    }

    /// The partial derivative with respect to the variable at `index`, as a
    /// new expression of the same engine and with the same variables. Fails
    /// with `Index` exactly when `index` is outside `[0, var_count)`, and
    /// otherwise with `NotDifferentiable` exactly when exmex cannot build the
    /// derivative, for example for an operator without a derivative rule.
    pub fn differentiate(&self, index: i64) -> (r: Result<Self, ExprError>)
        ensures
            !(0 <= index && index < self.var_count()) ==> r == Err::<Self, ExprError>(
                ExprError::Index { index, n_vars: self.var_count() as usize },
            ),
            (0 <= index && index < self.var_count()) ==> (r is Ok <==> partial_ok(
                size_of::<T>(),
                self.source(),
                self.path().push(index as usize),
            )),
            (0 <= index && index < self.var_count()) ==> (r is Err ==> r->Err_0 is NotDifferentiable),
            r is Ok ==> r->Ok_0.var_count() == self.var_count(),
            r is Ok ==> r->Ok_0.source() == self.source(),
            r is Ok ==> r->Ok_0.path() == self.path().push(index as usize),
            r is Ok ==> (self.wf() ==> r->Ok_0.wf()),
    {
        match check_index(index, self.compiled.var_count_exec()) {
            Err(e) => Err(e),
            Ok(var_idx) => match engine_partial(self.engine, &self.compiled, var_idx) {
                Ok(compiled) => Ok(Expression { engine: self.engine, compiled }),
                Err(e) => Err(ExprError::NotDifferentiable(error_message(&e))),
            },
        }
    }

    /// Renders the expression as text that parses back to an expression with
    /// the same values. It always succeeds, and the text depends only on the
    /// source, the derivation path and the width of `T`.
    pub fn unparse(&self) -> (r: Result<String, ExprError>)
        ensures
            r is Ok,
            r is Ok ==> r->Ok_0@ == unparse_of(size_of::<T>(), self.source(), self.path()),
    {
        match engine_unparse(self.engine, &self.compiled) {
            Ok(s) => Ok(s),
            Err(e) => Err(ExprError::Unparse(error_message(&e))),
        }
    }
}

/// Parity of number types: two expressions of any two number types that
/// come from the same text, by parsing and any differentiations, have the same
/// number of variables.
pub proof fn lemma_precision_parity<A, B>(a: &Expression<A>, b: &Expression<B>)
    requires
        a.wf(),
        b.wf(),
        a.source() == b.source(),
    ensures
        a.var_count() == b.var_count(),
{
}

} // verus!
