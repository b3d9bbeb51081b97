use vstd::prelude::*;

verus! {

/// Outcome of offering an event or a message to a component.
pub enum UpdateResult<R> {
    Handled(R),
    NotHandled,
}

impl<R> UpdateResult<R> {
    /// Whether the component consumed what it was offered.
    pub fn handled(&self) -> (b: bool)
        ensures
            b == (*self is Handled),
    {
        match self {
            UpdateResult::Handled(_) => true,
            UpdateResult::NotHandled => false,
        }
    }
}

/// What a component answers to an event: whether it consumed the event, and
/// the message it wants delivered, if any.
pub struct HandleEventResult<M> {
    pub processed: bool,
    pub message: Option<M>,
}

impl<M> HandleEventResult<M> {
    /// The event was not for this component.
    pub fn ignored() -> (r: Self)
        ensures
            !r.processed,
            r.message is None,
    {
        HandleEventResult { processed: false, message: None }
    }

    /// The event was consumed and asks for nothing further.
    pub fn consumed() -> (r: Self)
        ensures
            r.processed,
            r.message is None,
    {
        HandleEventResult { processed: true, message: None }
    }

    /// The event was consumed and asks for `message` to be delivered.
    pub fn consumed_with(message: M) -> (r: Self)
        ensures
            r.processed,
            r.message == Some(message),
    {
        HandleEventResult { processed: true, message: Some(message) }
    }
}

/// A state that messages change. A message may ask for another to follow.
pub trait UpdateState<M, MOut> {
    fn update(&mut self, message: &M) -> Option<MOut>;
}

} // verus!
