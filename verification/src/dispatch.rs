//! What the dispatch of an input command hands back.

use vstd::prelude::*;
use crate::error::{CommandError, CommandErrorView};
use crate::input::{events_view, HostEvent, HostEventView};

verus! {

/// The result of dispatching one input command: the host events to perform,
/// in order, and what the caller is told once they have been performed.
///
/// Host input injection is not transactional, so a dispatch that fails may
/// still carry events: they were issued before the failure was found and
/// are part of what the command did.
#[derive(Debug, PartialEq, Eq)]
pub struct Dispatch {
    pub events: Vec<HostEvent>,
    pub outcome: Result<String, CommandError>,
}

/// The mathematical content of a [`Dispatch`].
pub struct DispatchView {
    pub events: Seq<HostEventView>,
    pub outcome: Result<Seq<char>, CommandErrorView>,
}

impl View for Dispatch {
    type V = DispatchView;

    open spec fn view(&self) -> DispatchView {
        DispatchView {
            events: events_view(self.events@),
            outcome: match self.outcome {
                Ok(message) => Ok(message@),
                Err(error) => Err(error@),
            },
        }
    }
}

/// A dispatch that issued no event and failed with `error`.
pub open spec fn rejected(error: CommandErrorView) -> DispatchView {
    DispatchView { events: Seq::empty(), outcome: Err(error) }
}

impl Dispatch {
    /// A dispatch that issues no event and fails with `error`.
    pub fn rejected(error: CommandError) -> (d: Dispatch)
        ensures
            d@ == rejected(error@),
    {
        let d = Dispatch { events: Vec::new(), outcome: Err(error) };
        assert(d@.events =~= Seq::empty());
        d
    }
}

} // verus!
