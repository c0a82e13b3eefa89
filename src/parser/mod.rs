use vstd::prelude::*;

pub mod ast;
pub mod model;

verus! {

/// The view of a parse result: the parsed value's view and the position after it.
pub open spec fn res_view<X: View>(r: Result<(X, usize), crate::error::SyntaxError>) -> Result<
    (X::V, int),
    crate::error::SyntaxError,
> {
    match r {
        Ok((x, j)) => Ok((x@, j as int)),
        Err(e) => Err(e),
    }
}

} // verus!
