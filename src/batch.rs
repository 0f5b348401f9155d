use vstd::prelude::*;

verus! {

/// Handles created one per target, in the targets' order: the views of a
/// frame ring's images, or the framebuffers of its views. The driver calls
/// happen outside; the batch records what came back and, on a failure,
/// hands back what must be released.
pub struct HandleBatch {
    targets: Vec<u64>,
    created: Vec<u64>,
}

impl HandleBatch {
    #[verifier::type_invariant]
    spec fn inv(&self) -> bool {
        self.created@.len() <= self.targets@.len()
    }

    /// The handles to create one for, in order.
    pub closed spec fn targets(&self) -> Seq<u64> {
        self.targets@
    }

    /// The handles created so far, in the targets' order.
    pub closed spec fn created(&self) -> Seq<u64> {
        self.created@
    }

    /// Whether a handle has been created for every target.
    pub open spec fn complete(&self) -> bool {
        self.created().len() == self.targets().len()
    }

    /// An empty batch over `targets`.
    pub fn new(targets: Vec<u64>) -> (r: HandleBatch)
        ensures
            r.targets() == targets@,
            r.created() == Seq::<u64>::empty(),
    {
        HandleBatch { targets, created: Vec::new() }
    }

    /// The target that the next handle is created for, or `None` once every
    /// target has its handle.
    pub fn next_target(&self) -> (r: Option<u64>)
        ensures
            self.created().len() <= self.targets().len(),
            r.is_none() <==> self.complete(),
            r.is_some() ==> r.unwrap() == self.targets()[self.created().len() as int],
    {
        proof {
            use_type_invariant(self);
        }
        if self.created.len() < self.targets.len() {
            Some(self.targets[self.created.len()])
        } else {
            None
        }
    }

    /// Whether every target has its handle.
    pub fn is_complete(&self) -> (r: bool)
        ensures
            r == self.complete(),
    {
        self.created.len() == self.targets.len()
    }

    /// Records the handle created for the next target.
    pub fn record(self, handle: u64) -> (r: HandleBatch)
        requires
            !self.complete(),
        ensures
            r.targets() == self.targets(),
            r.created() == self.created().push(handle),
    {
        proof {
            use_type_invariant(&self);
        }
        let HandleBatch { targets, mut created } = self;
        created.push(handle);
        HandleBatch { targets, created }
    }

    /// Gives up the batch, handing back the handles created so far, which
    /// the caller releases.
    pub fn abandon(self) -> (r: Vec<u64>)
        ensures
            r@ == self.created(),
    {
        self.created
    }

    /// The targets and the handles created for them, one for one.
    pub fn into_parts(self) -> (r: (Vec<u64>, Vec<u64>))
        requires
            self.complete(),
        ensures
            r.0@ == self.targets(),
            r.1@ == self.created(),
            r.0@.len() == r.1@.len(),
    {
        (self.targets, self.created)
    }
}

} // verus!
