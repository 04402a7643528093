//! LiveData: an observable value whose observers may be handed to other threads.
use vstd::prelude::*;

verus! {

/// A value together with an ordered list of observers, which must be `Send` and
/// `Sync`. Setting or updating the value calls every observer, in the order they
/// were added, with the new value.
pub struct LiveData<T, L> {
    value: T,
    observers: Vec<L>,
}

impl<T: Clone + Send + Sync, L: Fn(&T) + Send + Sync> LiveData<T, L> {
    /// The value currently held.
    pub closed spec fn value(&self) -> T {
        self.value
    }

    /// The observers, in the order in which they were added.
    pub closed spec fn observers(&self) -> Seq<L> {
        self.observers@
    }

    /// Every observer accepts every value.
    pub open spec fn observers_ready(&self) -> bool {
        forall|i: int, x: &T| 0 <= i < self.observers().len() ==> #[trigger] self.observers()[i].requires((x,))
    }

    /// Every observer has been called with `v` and has finished.
    pub open spec fn all_notified(&self, v: T) -> bool {
        forall|i: int| 0 <= i < self.observers().len() ==> #[trigger] self.observers()[i].ensures((&v,), ())
    }

    /// Creates a LiveData holding `initial_value` and no observers.
    pub fn new(initial_value: T) -> (r: Self)
        ensures
            r.value() == initial_value,
            r.observers() == Seq::<L>::empty(),
            r.observers_ready(),
    {
        LiveData { value: initial_value, observers: Vec::new() }
    }

    /// Returns a clone of the current value.
    pub fn get(&self) -> (r: T)
        ensures
            cloned(self.value(), r),
    {
        self.value.clone()
    }

    /// Replaces the value and then calls every observer with the new value.
    pub fn set(&mut self, new_value: T)
        requires
            old(self).observers_ready(),
        ensures
            final(self).value() == new_value,
            final(self).observers() == old(self).observers(),
            final(self).all_notified(new_value),
    {
        self.value = new_value;
        self.notify();
    }

    /// Replaces the value by what `updater` makes of (a clone of) it, then
    /// calls every observer with the new value.
    pub fn update<F: FnOnce(T) -> T>(&mut self, updater: F)
        requires
            old(self).observers_ready(),
            forall|v: T| updater.requires((v,)),
        ensures
            exists|v: T| cloned(old(self).value(), v) && updater.ensures((v,), final(self).value()),
            final(self).observers() == old(self).observers(),
            final(self).all_notified(final(self).value()),
    {
        let current = self.value.clone();
        let next = updater(current);
        self.value = next;
        assert(self.observers_ready()) by {
            assert(self.observers() == old(self).observers());
        }
        assert(cloned(old(self).value(), current) && updater.ensures((current,), self.value()));
        self.notify();
    }

    /// Adds an observer at the end of the list and returns its index in it.
    pub fn observe(&mut self, observer: L) -> (r: usize)
        requires
            old(self).observers_ready(),
            forall|x: &T| observer.requires((x,)),
        ensures
            final(self).value() == old(self).value(),
            final(self).observers() == old(self).observers().push(observer),
            final(self).observers_ready(),
            r == old(self).observers().len(),
            final(self).observers()[r as int] == observer,
    {
        self.observers.push(observer);
        self.observers.len() - 1
    }

    /// Calls every observer, in order, with the current value.
    fn notify(&self)
        requires
            self.observers_ready(),
        ensures
            self.all_notified(self.value()),
    {
        let mut i: usize = 0;
        while i < self.observers.len()
            invariant
                i <= self.observers@.len(),
                self.observers_ready(),
                forall|j: int| 0 <= j < i ==> #[trigger] self.observers@[j].ensures((&self.value,), ()),
            decreases self.observers@.len() - i,
        {
            let observer = &self.observers[i];
            assert(self.observers()[i as int].requires((&self.value,)));
            observer(&self.value);
            i += 1;
        }
    }

    /// Removes every observer; the value stays.
    pub fn clear_observers(&mut self)
        ensures
            final(self).value() == old(self).value(),
            final(self).observers() == Seq::<L>::empty(),
            final(self).observers_ready(),
    {
        self.observers.clear();
    }

    /// The number of observers.
    pub fn observer_count(&self) -> (r: usize)
        ensures
            r == self.observers().len(),
    {
        self.observers.len()
    }
}

} // verus!
