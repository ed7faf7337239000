use std::any::Any;
use std::fmt::Debug;
use std::marker::PhantomData;
use std::str::FromStr;

use exmex::num::Float;
use exmex::{DiffDataType, Differentiate, ExError, Express, FlatEx};
use vstd::layout::size_of;
use vstd::prelude::*;

verus! {

#[verifier::external_type_specification]
#[verifier::external_body]
pub struct ExExError(ExError);

/// Whether exmex's parser accepts `text`. Number literals read the same in
/// every float width, so this depends on the text alone.
pub uninterp spec fn parses(text: Seq<char>) -> bool;

/// The number of distinct variable names that exmex finds in `text`.
pub uninterp spec fn var_count_of(text: Seq<char>) -> nat;

/// Whether exmex can differentiate the expression of `text` with respect to
/// the variables at `path`, one after the other, with numbers of `width`
/// bytes (the derivative rules look at the values of literals).
pub uninterp spec fn partial_ok(width: nat, text: Seq<char>, path: Seq<usize>) -> bool;

/// The text exmex renders for the expression of `text` differentiated along
/// `path`, with numbers of `width` bytes (folded constants print by width).
pub uninterp spec fn unparse_of(width: nat, text: Seq<char>, path: Seq<usize>) -> Seq<char>;

/// exmex's flat, index-addressed form of an expression over `T`, with its
/// number type erased. Only the functions of this module build one, always
/// from an exmex `FlatEx<T>`, so their downcasts always succeed.
#[verifier::external_body]
#[verifier::reject_recursive_types(T)]
pub struct Flat<T> {
    flat: Box<dyn Any + Send + Sync>,
    number: PhantomData<T>,
}

/// A compiled expression: exmex's flat form with its variable count, and as a
/// model the source text and the variable indices differentiated so far.
#[verifier::reject_recursive_types(T)]
pub struct Compiled<T> {
    flat: Flat<T>,
    n_vars: usize,
    source: Ghost<Seq<char>>,
    path: Ghost<Seq<usize>>,
}

impl<T> Compiled<T> {
    /// The number of variables: an input vector needs at least this many values.
    pub closed spec fn var_count(&self) -> nat {
        self.n_vars as nat
    }

    /// The number of variables.
    pub fn var_count_exec(&self) -> (r: usize)
        ensures
            r == self.var_count(),
    {
        self.n_vars
    }

    /// The text the expression was parsed from.
    pub closed spec fn source(&self) -> Seq<char> {
        self.source@
    }

    /// The variable indices the parsed expression was differentiated along.
    pub closed spec fn path(&self) -> Seq<usize> {
        self.path@
    }
}

/// The exmex engine instantiated for the number type `T`: its parser,
/// evaluator, differentiator and unparser.
///
/// exmex asks of `T` that `<T as FromStr>::Err: Debug`, a bound that verified
/// code cannot carry. So only `Engine::new`, called where `T` is concrete,
/// names the bounded functions; verified code reaches them through the
/// engine value, with no bound on `T`.
#[verifier::external_body]
#[verifier::reject_recursive_types(T)]
pub struct Engine<T> {
    parse: fn(&str) -> Result<Compiled<T>, ExError>,
    eval: fn(&Compiled<T>, &[T]) -> Result<T, ExError>,
    partial: fn(&Compiled<T>, usize) -> Result<Compiled<T>, ExError>,
    unparse: fn(&Compiled<T>) -> Result<String, ExError>,
}

impl<T> Engine<T> {
    /// The engine for `T`, with exmex's default float operators. Meant for
    /// `f32` and `f64`: the names above assume std's reading and printing of
    /// their literals, and tell the two apart by width.
    #[verifier::external_body]
    pub fn new() -> (r: Self) where
        T: DiffDataType + Float + Send + Sync + 'static,
        <T as FromStr>::Err: Debug,
    {
        Engine {
            parse: flat_parse::<T>,
            eval: flat_eval::<T>,
            partial: flat_partial::<T>,
            unparse: flat_unparse::<T>,
        }
    }
}

/// Relies on exmex's `FlatEx::parse` and `Express::var_names`: tokenizes,
/// parses, flattens and folds literal operations of `text`, or reports why
/// the text is malformed.
#[verifier::external_body]
fn flat_parse<T>(text: &str) -> (r: Result<Compiled<T>, ExError>) where
    T: DiffDataType + Float + Send + Sync + 'static,
    <T as FromStr>::Err: Debug,
{
    FlatEx::<T>::parse(text).map(|f| Compiled {
        n_vars: f.var_names().len(),
        flat: Flat { flat: Box::new(f), number: PhantomData },
        source: Ghost(text@),
        path: Ghost(Seq::empty()),
    })
}

/// Relies on exmex's `Express::eval_relaxed`, which fails only on a slice
/// shorter than the variable count: evaluates the expression on `x`, whose
/// first entries give the variables' values in the order of their names.
#[verifier::external_body]
fn flat_eval<T>(c: &Compiled<T>, x: &[T]) -> (r: Result<T, ExError>) where
    T: DiffDataType + Float + Send + Sync + 'static,
    <T as FromStr>::Err: Debug,
{
    match c.flat.flat.downcast_ref::<FlatEx<T>>() {
        Some(f) => f.eval_relaxed(x),
        None => Err(ExError::new("expression holds another number type")),
    }
}

/// Relies on exmex's `Differentiate::partial`, applied to a copy, which fails
/// on an index out of range or an operator without a derivative rule; a
/// derivative keeps the variables of its antiderivative.
#[verifier::external_body]
fn flat_partial<T>(c: &Compiled<T>, var_idx: usize) -> (r: Result<Compiled<T>, ExError>) where
    T: DiffDataType + Float + Send + Sync + 'static,
    <T as FromStr>::Err: Debug,
{
    match c.flat.flat.downcast_ref::<FlatEx<T>>() {
        Some(f) => f.clone().partial(var_idx).map(|d| Compiled {
            n_vars: d.var_names().len(),
            flat: Flat { flat: Box::new(d), number: PhantomData },
            source: Ghost(c.source@),
            path: Ghost(c.path@.push(var_idx)),
        }),
        None => Err(ExError::new("expression holds another number type")),
    }
}

/// Relies on exmex's `Express::to_deepex` and `DeepEx::unparse`: the text of
/// the expression rebuilt from its folded nodes. `to_deepex` fails only for an
/// operator missing from exmex's table, which an expression it built never has.
#[verifier::external_body]
fn flat_unparse<T>(c: &Compiled<T>) -> (r: Result<String, ExError>) where
    T: DiffDataType + Float + Send + Sync + 'static,
    <T as FromStr>::Err: Debug,
{
    match c.flat.flat.downcast_ref::<FlatEx<T>>() {
        Some(f) => f.clone().to_deepex().map(|d| d.unparse().to_string()),
        None => Err(ExError::new("expression holds another number type")),
    }
}

/// Calls the engine's `flat_parse`. Relies on exmex's `FlatEx::parse`, whose
/// outcome depends on the text alone, and on `Express::var_names`.
#[verifier::external_body]
pub(crate) fn engine_parse<T>(e: &Engine<T>, text: &str) -> (r: Result<Compiled<T>, ExError>)
    ensures
        r is Ok <==> parses(text@),
        r is Ok ==> r->Ok_0.var_count() == var_count_of(text@),
        r is Ok ==> r->Ok_0.source() == text@,
        r is Ok ==> r->Ok_0.path() == Seq::<usize>::empty(),
{
    (e.parse)(text)
}

/// Calls the engine's `flat_eval`. Relies on exmex's `Express::eval_relaxed`,
/// which fails exactly on a slice shorter than the variable count.
#[verifier::external_body]
pub(crate) fn engine_eval<T>(e: &Engine<T>, c: &Compiled<T>, x: &[T]) -> (r: Result<T, ExError>)
    ensures
        r is Err <==> x@.len() < c.var_count(),
{
    (e.eval)(c, x)
}

/// Calls the engine's `flat_partial`. Relies on exmex's `Differentiate::partial`:
/// it fails on an index out of range, or where exmex cannot build the
/// derivative (an operator without a rule, a zero to the power zero), which
/// depends on the text, the path and the width of `T`; a derivative keeps the
/// variables of its antiderivative.
#[verifier::external_body]
pub(crate) fn engine_partial<T>(e: &Engine<T>, c: &Compiled<T>, var_idx: usize) -> (r: Result<Compiled<T>, ExError>)
    ensures
        r is Ok <==> (var_idx < c.var_count() && partial_ok(size_of::<T>(), c.source(), c.path().push(var_idx))),
        r is Ok ==> r->Ok_0.var_count() == c.var_count(),
        r is Ok ==> r->Ok_0.source() == c.source(),
        r is Ok ==> r->Ok_0.path() == c.path().push(var_idx),
{
    (e.partial)(c, var_idx)
}

/// Calls the engine's `flat_unparse`. Relies on exmex's `Express::to_deepex`,
/// which fails only for an operator missing from exmex's own table, and on
/// `DeepEx::unparse`, whose text depends on the expression and the width of `T`.
#[verifier::external_body]
pub(crate) fn engine_unparse<T>(e: &Engine<T>, c: &Compiled<T>) -> (r: Result<String, ExError>)
    ensures
        r is Ok,
        r is Ok ==> r->Ok_0@ == unparse_of(size_of::<T>(), c.source(), c.path()),
{
    (e.unparse)(c)
}

/// Relies on exmex's `ExError::msg`: the explanation the error carries.
#[verifier::external_body]
pub(crate) fn error_message(e: &ExError) -> (r: String) {
    e.msg().to_string()
}

} // verus!
