//! Lazy request handles. A handle defers any network access until a value
//! is demanded; the transport side performs the one fetch a handle asks
//! for and hands the parsed response back, and the handle then answers
//! every derived query from its cache.

pub mod event;
pub mod event_list;
