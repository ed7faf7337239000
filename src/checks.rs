use vstd::prelude::*;

verus! {

/// Why a call on an expression did not give a result.
#[derive(Debug, Clone, PartialEq, Eq)]
pub enum ExprError {
    /// The text is not a well-formed expression; holds the parser's explanation.
    Parse(String),
    /// The input vector is shorter than the number of variables.
    Dimension { required: usize, provided: usize },
    /// A derivative was asked for a variable index outside `[0, n_vars)`.
    Index { index: i64, n_vars: usize },
    /// The derivative could not be built; names the operator without a rule.
    NotDifferentiable(String),
    /// The expression holds an operator that the table does not know.
    Unparse(String),
}

/// Checks that an input vector of length `provided` covers `required` variables.
pub fn check_dimension(required: usize, provided: usize) -> (r: Result<(), ExprError>)
    ensures
        provided >= required <==> r is Ok,
        provided < required ==> r == Err::<(), ExprError>(
            ExprError::Dimension { required, provided },
        ),
{
    if provided < required {
        Err(ExprError::Dimension { required, provided })
    } else {
        Ok(())
    }
}

/// Checks that `index` names one of `n_vars` variables, and gives it as a
/// position.
pub fn check_index(index: i64, n_vars: usize) -> (r: Result<usize, ExprError>)
    ensures
        (0 <= index && index < n_vars) <==> r is Ok,
        r is Ok ==> r->Ok_0 == index,
        r is Err ==> r == Err::<usize, ExprError>(ExprError::Index { index, n_vars }),
{
    if index < 0 {
        Err(ExprError::Index { index, n_vars })
    } else if index as u64 >= n_vars as u64 {
        Err(ExprError::Index { index, n_vars })
    } else {
        Ok(index as usize)
    }
}

} // verus!
