use vstd::prelude::*;

verus! {

/// A computation that runs at most once: its first result is kept and handed
/// out again on later requests.
pub struct ComputeCache<T> where T: Fn() -> String {
    pub computation: T,
    pub cache: Option<String>,
}

impl<T> ComputeCache<T> where T: Fn() -> String {
    /// A cache over `computation` that has not run it yet.
    pub fn new(computation: T) -> (c: Self)
        ensures
            c.computation == computation,
            c.cache is None,
    {
        ComputeCache { computation, cache: None }
    }

    /// The computation's result: the kept one if there is one, otherwise a
    /// fresh one, which is then kept.
    pub fn get_result(&mut self) -> (r: String)
        requires
            old(self).cache is None ==> old(self).computation.requires(()),
        ensures
            final(self).computation == old(self).computation,
            old(self).cache matches Some(kept) ==> r == kept && final(self).cache == old(
                self,
            ).cache,
            old(self).cache is None ==> old(self).computation.ensures((), r) && final(self).cache
                == Some(r),
    {
        match &self.cache {
            Some(result) => result.clone(),
            None => {
                let result = (self.computation)();
                self.cache = Some(result.clone());
                result
            },
        }
    }
}

} // verus!
