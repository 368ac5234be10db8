use vstd::prelude::*;

use std::marker::PhantomData;

verus! {

/// A service that answers a message with a message that goes back to its sender.
#[derive(Debug)]
pub struct MessageLayer<S, Req>(pub S, pub PhantomData<Req>);

impl<S: Clone, Req> Clone for MessageLayer<S, Req> {
    fn clone(&self) -> (r: Self)
        ensures
            cloned(self.0, r.0),
    {
        MessageLayer(self.0.clone(), PhantomData)
    }
}

} // verus!
