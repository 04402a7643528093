//! ValueNotifier: a value with listeners that are called whenever it changes.
use vstd::prelude::*;

verus! {

/// A value together with an ordered list of listeners. Setting or updating the
/// value calls every listener, in the order they were added, with the new value.
pub struct ValueNotifier<T, L> {
    value: T,
    listeners: Vec<L>,
}

impl<T: Clone, L: Fn(&T)> ValueNotifier<T, L> {
    /// The value currently held.
    pub closed spec fn value(&self) -> T {
        self.value
    }

    /// The listeners, in the order in which they were added.
    pub closed spec fn listeners(&self) -> Seq<L> {
        self.listeners@
    }

    /// Every listener accepts every value.
    pub open spec fn listeners_ready(&self) -> bool {
        forall|i: int, x: &T| 0 <= i < self.listeners().len() ==> #[trigger] self.listeners()[i].requires((x,))
    }

    /// Every listener has been called with `v` and has finished.
    pub open spec fn all_notified(&self, v: T) -> bool {
        forall|i: int| 0 <= i < self.listeners().len() ==> #[trigger] self.listeners()[i].ensures((&v,), ())
    }

    /// Creates a notifier holding `initial_value` and no listeners.
    pub fn new(initial_value: T) -> (r: Self)
        ensures
            r.value() == initial_value,
            r.listeners() == Seq::<L>::empty(),
            r.listeners_ready(),
    {
        ValueNotifier { value: initial_value, listeners: Vec::new() }
    }

    /// Returns a clone of the current value.
    pub fn get(&self) -> (r: T)
        ensures
            cloned(self.value(), r),
    {
        self.value.clone()
    }

    /// Replaces the value and then calls every listener with the new value.
    pub fn set(&mut self, new_value: T)
        requires
            old(self).listeners_ready(),
        ensures
            final(self).value() == new_value,
            final(self).listeners() == old(self).listeners(),
            final(self).all_notified(new_value),
    {
        self.value = new_value;
        self.notify_listeners();
    }

    /// Replaces the value by what `updater` makes of (a clone of) it, then
    /// calls every listener with the new value.
    pub fn update<F: FnOnce(T) -> T>(&mut self, updater: F)
        requires
            old(self).listeners_ready(),
            forall|v: T| updater.requires((v,)),
        ensures
            exists|v: T| cloned(old(self).value(), v) && updater.ensures((v,), final(self).value()),
            final(self).listeners() == old(self).listeners(),
            final(self).all_notified(final(self).value()),
    {
        let current = self.value.clone();
        let next = updater(current);
        self.value = next;
        assert(self.listeners_ready()) by {
            assert(self.listeners() == old(self).listeners());
        }
        assert(cloned(old(self).value(), current) && updater.ensures((current,), self.value()));
        self.notify_listeners();
    }

    /// Adds a listener at the end of the list.
    pub fn add_listener(&mut self, listener: L)
        requires
            old(self).listeners_ready(),
            forall|x: &T| listener.requires((x,)),
        ensures
            final(self).value() == old(self).value(),
            final(self).listeners() == old(self).listeners().push(listener),
            final(self).listeners_ready(),
    {
        self.listeners.push(listener);
    }

    /// Calls every listener, in order, with the current value.
    fn notify_listeners(&self)
        requires
            self.listeners_ready(),
        ensures
            self.all_notified(self.value()),
    {
        let mut i: usize = 0;
        while i < self.listeners.len()
            invariant
                i <= self.listeners@.len(),
                self.listeners_ready(),
                forall|j: int| 0 <= j < i ==> #[trigger] self.listeners@[j].ensures((&self.value,), ()),
            decreases self.listeners@.len() - i,
        {
            let listener = &self.listeners[i];
            assert(self.listeners()[i as int].requires((&self.value,)));
            listener(&self.value);
            i += 1;
        }
    }

    /// Removes every listener; the value stays.
    pub fn clear_listeners(&mut self)
        ensures
            final(self).value() == old(self).value(),
            final(self).listeners() == Seq::<L>::empty(),
            final(self).listeners_ready(),
    {
        self.listeners.clear();
    }

    /// The number of listeners.
    pub fn listener_count(&self) -> (r: usize)
        ensures
            r == self.listeners().len(),
    {
        self.listeners.len()
    }
}

} // verus!
