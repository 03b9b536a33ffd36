use vstd::prelude::*;

verus! {

/// The bookkeeping of the search for the visible bounds of a widget: how deep the walk
/// over the widget tree is, and at which depth each enclosing scrollable was met.
/// The caller keeps each scrollable's translation and viewport beside this, in the same order.
#[derive(Debug)]
pub struct ScrollTracker {
    depth: usize,
    scrollables: Vec<usize>,
}

/// What the search does at a container.
#[derive(Clone, Copy, Debug, PartialEq, Eq, Structural)]
pub enum ContainerStep {
    /// The bounds were already found: nothing more to do.
    Stop,
    /// This is the widget searched for: its bounds are its own, clipped by the viewport
    /// of the innermost enclosing scrollable when `within_scrollable` holds.
    Target { within_scrollable: bool },
    /// Go on into the container's children (the walk is one level deeper until `leave`).
    Descend,
}

impl View for ScrollTracker {
    type V = (usize, Seq<usize>);

    closed spec fn view(&self) -> (usize, Seq<usize>) {
        (self.depth, self.scrollables@)
    }
}

/// The tracker after a scrollable is met: its depth is pushed.
pub open spec fn after_scrollable(t: (usize, Seq<usize>)) -> (usize, Seq<usize>) {
    (t.0, t.1.push(t.0))
}

/// The tracker after the walk enters a container's children.
pub open spec fn after_enter(t: (usize, Seq<usize>)) -> (usize, Seq<usize>) {
    ((t.0 + 1) as usize, t.1)
}

/// The tracker after the walk leaves a container's children: one level up, and the
/// innermost scrollable is dropped when it was met at the level returned to.
pub open spec fn after_leave(t: (usize, Seq<usize>)) -> (usize, Seq<usize>) {
    let d = (t.0 - 1) as usize;
    if t.1.len() > 0 && t.1.last() == d {
        (d, t.1.drop_last())
    } else {
        (d, t.1)
    }
}

impl ScrollTracker {
    /// The tracker at the root of the widget tree.
    pub fn new() -> (t: ScrollTracker)
        ensures
            t@ == (0usize, Seq::<usize>::empty()),
    {
        ScrollTracker { depth: 0, scrollables: Vec::new() }
    }

    /// The current depth of the walk.
    pub fn depth(&self) -> (d: usize)
        ensures
            d == self@.0,
    {
        self.depth
    }

    /// Records a scrollable met at the current depth. Returns whether it lies within
    /// another scrollable (then its viewport is clipped by that one's, and its
    /// translation adds to that one's).
    pub fn scrollable(&mut self) -> (nested: bool)
        ensures
            nested == (old(self)@.1.len() > 0),
            final(self)@ == after_scrollable(old(self)@),
    {
        let nested = self.scrollables.len() > 0;
        self.scrollables.push(self.depth);
        nested
    }

    /// Decides what to do at a container, given whether the bounds are already known
    /// and whether the container is the widget searched for.
    pub fn container(&mut self, bounds_known: bool, is_target: bool) -> (step: ContainerStep)
        requires
            old(self)@.0 < usize::MAX,
        ensures
            bounds_known ==> step == ContainerStep::Stop && final(self)@ == old(self)@,
            !bounds_known && is_target ==> step == (ContainerStep::Target {
                within_scrollable: old(self)@.1.len() > 0,
            }) && final(self)@ == old(self)@,
            !bounds_known && !is_target ==> step == ContainerStep::Descend && final(self)@
                == after_enter(old(self)@),
    {
        if bounds_known {
            return ContainerStep::Stop;
        }
        if is_target {
            return ContainerStep::Target { within_scrollable: self.scrollables.len() > 0 };
        }
        self.depth = self.depth + 1;
        ContainerStep::Descend
    }

    /// Leaves the children of a container that `container` descended into. Returns
    /// whether the innermost scrollable was dropped with it.
    pub fn leave(&mut self) -> (popped: bool)
        requires
            old(self)@.0 > 0,
        ensures
            final(self)@ == after_leave(old(self)@),
            popped == (old(self)@.1.len() > 0 && old(self)@.1.last() == old(self)@.0 - 1),
    {
        self.depth = self.depth - 1;
        let n = self.scrollables.len();
        if n > 0 && self.scrollables[n - 1] == self.depth {
            self.scrollables.pop();
            true
        } else {
            false
        }
    }
}

/// Meeting a scrollable, entering its content and leaving it again gives the tracker
/// back as it was.
pub proof fn lemma_scrollable_visit_restores(t: (usize, Seq<usize>))
    requires
        t.0 < usize::MAX,
    ensures
        after_leave(after_enter(after_scrollable(t))) == t,
{
    assert(after_scrollable(t).1.drop_last() =~= t.1);
}

/// Entering and leaving a container gives the tracker back as it was, unless the
/// innermost scrollable was met at the container's own level (then it is dropped).
pub proof fn lemma_container_visit_restores(t: (usize, Seq<usize>))
    requires
        t.0 < usize::MAX,
        t.1.len() == 0 || t.1.last() != t.0,
    ensures
        after_leave(after_enter(t)) == t,
{
}

} // verus!
