use vstd::prelude::*;

use std::marker::PhantomData;

verus! {

/// A service that reads its requests as JSON text before passing them on.
#[derive(Debug)]
pub struct JsonLayer<S, Req>(pub S, pub PhantomData<Req>);

impl<S, Req> JsonLayer<S, Req> {
    pub fn new(s: S) -> (l: Self)
        ensures
            l.0 == s,
    {
        JsonLayer(s, PhantomData)
    }
}

impl<S: Clone, Req> Clone for JsonLayer<S, Req> {
    fn clone(&self) -> (r: Self)
        ensures
            cloned(self.0, r.0),
    {
        JsonLayer(self.0.clone(), PhantomData)
    }
}

} // verus!
