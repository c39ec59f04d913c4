use vstd::prelude::*;

verus! {

/// The interface of the external price-quoting service, as the engine
/// sees it: a single view answering how much of the querying
/// currency is equivalent to `amount_in` units of `token_in`.
///
/// The platform reaches the bound service asynchronously and hands the
/// answer — a quoted amount, or the failure of the request — to the
/// settlement continuation. A driver outside the library implements
/// this trait to stand in for the service; the engine itself never
/// calls it and assumes nothing about its answers.
pub trait CalleeContract {
    fn get_equivalent(&self, token_in: u64, amount_in: u128) -> Result<u128, u32>;
}

} // verus!
