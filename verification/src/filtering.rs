use vstd::prelude::*;

verus! {

/// Shape errors of the parameters of a multivariate distribution.
#[derive(Debug, Clone, Copy, PartialEq, Eq, Structural)]
pub enum ParamError {
    /// the mean does not have the expected number of dimensions
    WrongVecLen(usize),
    /// the covariance is not a square matrix of the mean's dimension
    NotSquare,
}

/// Set-up errors of an interacting-multiple-model estimator.
#[derive(Debug, Clone, Copy, PartialEq, Eq, Structural)]
pub enum ImmError {
    /// fewer than two filters were given
    NotEnoughFilters,
    /// the filters' state vectors do not all have the same length
    DifferentFilterShapes,
}

/// Checks the shapes of the parameters of a multivariate normal distribution
/// and returns its dimension: `dim` when given, else the length of the mean.
pub fn check_parameters(dim: Option<usize>, mean_len: usize, cov_shape: (usize, usize)) -> (r: Result<usize, ParamError>)
    ensures
        ({
            let d = match dim {
                Some(d) => d,
                None => mean_len,
            };
            &&& mean_len != d ==> r == Err::<usize, ParamError>(ParamError::WrongVecLen(d))
            &&& mean_len == d && cov_shape != (d, d) ==> r == Err::<usize, ParamError>(ParamError::NotSquare)
            &&& mean_len == d && cov_shape == (d, d) ==> r == Ok::<usize, ParamError>(d)
        }),
{
    let dim = match dim {
        Some(d) => d,
        None => mean_len,
    };

    if mean_len != dim {
        return Err(ParamError::WrongVecLen(dim));
    }

    if cov_shape.0 != dim || cov_shape.1 != dim {
        return Err(ParamError::NotSquare);
    }

    Ok(dim)
}

/// Checks that an interacting-multiple-model estimator gets at least two
/// filters whose state vectors have one common length, given the lengths of
/// the filters' state vectors; returns that length.
pub fn check_filter_shapes(x_dims: &[usize]) -> (r: Result<usize, ImmError>)
    ensures
        x_dims@.len() < 2 ==> r == Err::<usize, ImmError>(ImmError::NotEnoughFilters),
        x_dims@.len() >= 2 && (forall|i: int| 0 <= i < x_dims@.len() ==> #[trigger] x_dims@[i] == x_dims@[0])
            ==> r == Ok::<usize, ImmError>(x_dims@[0]),
        x_dims@.len() >= 2 && !(forall|i: int| 0 <= i < x_dims@.len() ==> #[trigger] x_dims@[i] == x_dims@[0])
            ==> r == Err::<usize, ImmError>(ImmError::DifferentFilterShapes),
{
    if x_dims.len() < 2 {
        return Err(ImmError::NotEnoughFilters);
    }

    let x_dim = x_dims[0];
    let mut i: usize = 0;
    while i < x_dims.len()
        invariant
            0 <= i <= x_dims@.len(),
            x_dims@.len() >= 2,
            x_dim == x_dims@[0],
            forall|j: int| 0 <= j < i ==> #[trigger] x_dims@[j] == x_dim,
        decreases x_dims@.len() - i,
    {
        if x_dims[i] != x_dim {
            return Err(ImmError::DifferentFilterShapes);
        }
        i = i + 1;
    }

    Ok(x_dim)
}

} // verus!
