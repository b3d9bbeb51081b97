use vstd::prelude::*;

verus! {

/// A notice that the user has to acknowledge.
pub struct Alert {
    title: String,
    message: String,
}

impl Alert {
    pub closed spec fn title_text(&self) -> Seq<char> {
        self.title@
    }

    pub closed spec fn message_text(&self) -> Seq<char> {
        self.message@
    }

    pub fn new(title: String, message: String) -> (a: Self)
        ensures
            a.title_text() == title@,
            a.message_text() == message@,
    {
        Self { title, message }
    }

    pub fn title(&self) -> (t: &str)
        ensures
            t@ == self.title_text(),
    {
        self.title.as_str()
    }

    pub fn message(&self) -> (m: &str)
        ensures
            m@ == self.message_text(),
    {
        self.message.as_str()
    }
}

} // verus!
