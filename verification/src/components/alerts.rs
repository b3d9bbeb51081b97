use crate::appframework::UpdateResult;
use crate::components::alert::Alert;
use crate::event_ext::{Event, EventExt};
use vstd::prelude::*;

verus! {

/// The notices that wait to be acknowledged. While there is one, every event
/// goes to the notices.
pub struct Alerts {
    alerts: Vec<Alert>,
}

impl Alerts {
    /// The waiting notices, oldest first.
    pub closed spec fn view(&self) -> Seq<Alert> {
        self.alerts@
    }

    /// No notices.
    pub fn new() -> (a: Self)
        ensures
            a@ == Seq::<Alert>::empty(),
    {
        Alerts { alerts: Vec::new() }
    }

    /// Adds a notice.
    pub fn alert(&mut self, title: String, message: String)
        ensures
            final(self)@.len() == old(self)@.len() + 1,
            final(self)@.drop_last() == old(self)@,
            final(self)@.last().title_text() == title@,
            final(self)@.last().message_text() == message@,
    {
        self.alerts.push(Alert::new(title, message));
        assert(self@.drop_last() =~= old(self)@);
    }

    /// Offers an event to the notices. Without a notice the event is not
    /// theirs. With one it is consumed, and enter acknowledges the newest
    /// notice.
    pub fn handle_event(&mut self, event: &Event) -> (r: UpdateResult<()>)
        ensures
            (r is Handled) == (old(self)@.len() > 0),
            final(self)@ == if old(self)@.len() > 0 && event.confirms() {
                old(self)@.drop_last()
            } else {
                old(self)@
            },
    {
        if self.alerts.len() == 0 {
            UpdateResult::NotHandled
        } else {
            if event.is_enter() {
                let _ = self.alerts.pop();
            }
            UpdateResult::Handled(())
        }
    }

    /// The notice that is shown: the oldest one.
    pub fn first(&self) -> (a: Option<&Alert>)
        ensures
            match a {
                Some(alert) => self@.len() > 0 && *alert == self@[0],
                None => self@.len() == 0,
            },
    {
        if self.alerts.len() > 0 {
            Some(&self.alerts[0])
        } else {
            None
        }
    }
}

impl Default for Alerts {
    fn default() -> (a: Self)
        ensures
            a@ == Seq::<Alert>::empty(),
    {
        Alerts::new()
    }
}

} // verus!
