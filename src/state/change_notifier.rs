//! ChangeNotifier: listeners that an owner calls whenever its state changes.
use vstd::prelude::*;

verus! {

/// An ordered list of listeners without arguments. A type with observable state
/// holds one and calls `notify` after each change.
pub struct ChangeNotifier<L> {
    listeners: Vec<L>,
}

impl<L: Fn()> ChangeNotifier<L> {
    /// The listeners, in the order in which they were added.
    pub closed spec fn listeners(&self) -> Seq<L> {
        self.listeners@
    }

    /// Every listener may be called.
    pub open spec fn listeners_ready(&self) -> bool {
        forall|i: int| 0 <= i < self.listeners().len() ==> #[trigger] self.listeners()[i].requires(())
    }

    /// Creates a notifier with no listeners.
    pub fn new() -> (r: Self)
        ensures
            r.listeners() == Seq::<L>::empty(),
            r.listeners_ready(),
    {
        ChangeNotifier { listeners: Vec::new() }
    }

    /// Adds a listener at the end of the list.
    pub fn add_listener(&mut self, listener: L)
        requires
            old(self).listeners_ready(),
            listener.requires(()),
        ensures
            final(self).listeners() == old(self).listeners().push(listener),
            final(self).listeners_ready(),
    {
        self.listeners.push(listener);
        assert forall|i: int| 0 <= i < self.listeners().len() implies #[trigger] self.listeners()[i].requires(()) by {
            if i < old(self).listeners().len() {
                assert(self.listeners()[i] == old(self).listeners()[i]);
            }
        }
    }

    /// Calls every listener, in the order in which they were added.
    pub fn notify(&self)
        requires
            self.listeners_ready(),
        ensures
            forall|i: int| 0 <= i < self.listeners().len() ==> #[trigger] self.listeners()[i].ensures((), ()),
    {
        let mut i: usize = 0;
        while i < self.listeners.len()
            invariant
                i <= self.listeners@.len(),
                self.listeners_ready(),
                forall|j: int| 0 <= j < i ==> #[trigger] self.listeners@[j].ensures((), ()),
            decreases self.listeners@.len() - i,
        {
            let listener = &self.listeners[i];
            assert(self.listeners()[i as int].requires(()));
            listener();
            i += 1;
        }
    }

    /// Removes every listener.
    pub fn clear_listeners(&mut self)
        ensures
            final(self).listeners() == Seq::<L>::empty(),
            final(self).listeners_ready(),
    {
        self.listeners.clear();
    }

    /// The number of listeners.
    pub fn listener_count(&self) -> (r: usize)
        ensures
            r == self.listeners().len(),
    {
        self.listeners.len()
    }
}

impl<L: Fn()> Default for ChangeNotifier<L> {
    fn default() -> (r: Self)
        ensures
            r.listeners() == Seq::<L>::empty(),
            r.listeners_ready(),
    {
        Self::new()
    }
}

} // verus!
