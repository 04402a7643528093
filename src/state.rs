//! Observable state holders.
//!
//! - `LiveData<T, L>`: a value whose observers are called with it on each change
//! - `ValueNotifier<T, L>`: the same, for listeners that need not be thread-safe
//! - `ChangeNotifier<L>`: listeners without a value, called on `notify`
//!
//! Each holder owns its value and its listeners. A holder that several parts of
//! a program must reach is shared by the caller, for instance as
//! `Arc<Mutex<LiveData<T, L>>>`.

mod change_notifier;
mod live_data;
mod value_notifier;

pub use change_notifier::ChangeNotifier;
pub use live_data::LiveData;
pub use value_notifier::ValueNotifier;
