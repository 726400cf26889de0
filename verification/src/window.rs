//! The application window: its title and the handler of its events.
use vstd::prelude::*;

verus! {

/// A window to open, with the title it shows and the handler its events go to.
pub struct Window<H> {
    title: String,
    handler: H,
}

impl<H> Window<H> {
    /// The title.
    pub closed spec fn title_spec(&self) -> Seq<char> {
        self.title@
    }

    /// The handler.
    pub closed spec fn handler_spec(&self) -> H {
        self.handler
    }

    /// A window titled `title` whose events go to `handler`.
    pub fn new(title: &str, handler: H) -> (w: Self)
        ensures
            w.title_spec() == title@,
            w.handler_spec() == handler,
    {
        Window { title: title.to_owned(), handler }
    }

    /// The title.
    pub fn title(&self) -> (r: &str)
        ensures
            r@ == self.title_spec(),
    {
        self.title.as_str()
    }

    /// The handler, to give it an event.
    pub fn handler_mut(&mut self) -> (r: &mut H)
        ensures
            *r == old(self).handler_spec(),
            final(self).title_spec() == old(self).title_spec(),
            final(self).handler_spec() == *final(r),
    {
        &mut self.handler
    }
}

} // verus!
