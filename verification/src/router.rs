use std::rc::Rc;
use vstd::prelude::*;

verus! {

/// Makes another handle to a shared value with `Rc::clone`: the new handle
/// points at the same value.
#[verifier::external_body]
fn share<P>(page: &Rc<P>) -> (shared: Rc<P>)
    ensures
        shared == *page,
{
    Rc::clone(page)
}

/// The pages that lead to the current one: a root that is never left, and
/// above it the pages that were opened from it, the current one last.
pub struct History<P> {
    root: P,
    stack: Vec<P>,
}

impl<P> History<P> {
    /// The pages from the root to the current one.
    pub closed spec fn view(&self) -> Seq<P> {
        seq![self.root] + self.stack@
    }

    pub fn new(root: P) -> (h: Self)
        ensures
            h@ == seq![root],
    {
        let h = History { root, stack: Vec::new() };
        assert(h@ =~= seq![root]);
        h
    }

    pub fn push(&mut self, page: P)
        ensures
            final(self)@ == old(self)@.push(page),
    {
        self.stack.push(page);
        assert(self@ =~= old(self)@.push(page));
    }

    /// How many pages the history holds, the root counted.
    pub fn len(&self) -> (n: usize)
        requires
            self@.len() <= usize::MAX,
        ensures
            n == self@.len(),
            n >= 1,
    {
        self.stack.len() + 1
    }

    /// Whether a page was opened above the root.
    pub fn has_previous(&self) -> (b: bool)
        ensures
            b == (self@.len() > 1),
    {
        self.stack.len() > 0
    }

    /// The current page.
    pub fn last(&self) -> (page: &P)
        ensures
            *page == self@.last(),
    {
        if self.stack.len() > 0 {
            &self.stack[self.stack.len() - 1]
        } else {
            &self.root
        }
    }

    /// Leaves the current page, unless it is the root.
    pub fn pop(&mut self)
        ensures
            final(self)@ == if old(self)@.len() > 1 {
                old(self)@.drop_last()
            } else {
                old(self)@
            },
    {
        let _ = self.stack.pop();
        proof {
            if old(self)@.len() > 1 {
                assert(self@ =~= old(self)@.drop_last());
            } else {
                assert(self@ =~= old(self)@);
            }
        }
    }
}

/// Keeps the history of pages and tells the application when the current
/// page has changed.
pub struct Router<P> where P: Clone {
    history: History<Rc<P>>,
    new_page: Option<Rc<P>>,
}

impl<P> Router<P> where P: Clone {
    /// The pages from the root to the current one.
    pub closed spec fn pages(&self) -> Seq<Rc<P>> {
        self.history@
    }

    /// The page that the application has not yet been told of, if any.
    pub closed spec fn pending(&self) -> Option<Rc<P>> {
        self.new_page
    }

    pub fn new(initial: P) -> (r: Self)
        ensures
            r.pages().len() == 1,
            *r.pages()[0] == initial,
            r.pending() is None,
    {
        Router { history: History::new(Rc::new(initial)), new_page: None }
    }

    /// Opens a page above the current one and announces it.
    pub fn push(&mut self, page: P)
        ensures
            final(self).pages().len() == old(self).pages().len() + 1,
            final(self).pages().drop_last() == old(self).pages(),
            *final(self).pages().last() == page,
            final(self).pending() == Some(final(self).pages().last()),
    {
        let page = Rc::new(page);
        self.history.push(share(&page));
        self.new_page = Some(page);
        assert(self.pages().drop_last() =~= old(self).pages());
    }

    /// Goes back to the page below the current one and announces it. On the
    /// root nothing happens.
    pub fn pop(&mut self)
        ensures
            old(self).pages().len() > 1 ==> final(self).pages() == old(self).pages().drop_last()
                && final(self).pending() == Some(final(self).pages().last()),
            old(self).pages().len() <= 1 ==> final(self).pages() == old(self).pages()
                && final(self).pending() == old(self).pending(),
    {
        if self.history.has_previous() {
            self.history.pop();
            self.new_page = Some(share(self.history.last()));
        }
    }

    /// Hands out the announced page, once.
    pub fn poll_change(&mut self) -> (page: Option<Rc<P>>)
        ensures
            page == old(self).pending(),
            final(self).pending() is None,
            final(self).pages() == old(self).pages(),
    {
        self.new_page.take()
    }

    /// Whether there is a page to go back to.
    pub fn can_go_back(&self) -> (b: bool)
        ensures
            b == (self.pages().len() > 1),
    {
        self.history.has_previous()
    }
}

} // verus!
