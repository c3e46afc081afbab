//! Events that the core raises towards its driver.

use vstd::prelude::*;

verus! {

/// Events raised while the core ran: a completed frame, or a fatal decode
/// error after which the core no longer advances.
#[derive(Copy, Clone, Debug, PartialEq, Eq, Structural)]
pub struct Events {
    pub render: bool,
    pub fault: bool,
}

impl Events {
    pub open spec fn none() -> Events {
        Events { render: false, fault: false }
    }

    pub open spec fn spec_union(self, o: Events) -> Events {
        Events { render: self.render || o.render, fault: self.fault || o.fault }
    }

    pub fn empty() -> (r: Events)
        ensures
            r == Events::none(),
    {
        Events { render: false, fault: false }
    }

    pub fn is_empty(&self) -> (r: bool)
        ensures
            r == (*self == Events::none()),
    {
        !self.render && !self.fault
    }

    pub fn union(&self, o: Events) -> (r: Events)
        ensures
            r == self.spec_union(o),
    {
        Events { render: self.render || o.render, fault: self.fault || o.fault }
    }
}

} // verus!
