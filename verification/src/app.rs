use vstd::prelude::*;

use crate::counter::{spec_click, Counter};
use crate::head::{install_app_head, spec_app_head, HeadRegistry};
use crate::response::{RenderContext, STATUS_NOT_FOUND, STATUS_OK};
use crate::router::{app_routes, lemma_app_dispatch, HandlerId};
use crate::view::{
    fallback_body, home_body, not_found_body, spec_fallback_body, spec_home_body,
    spec_not_found_body, PageBody,
};

verus! {

/// The page the router mounted: the stateful counter page with its counter,
/// the static not-found page, or the fallback shown when no route matches.
#[derive(Clone, Copy, PartialEq, Eq, Structural, Debug)]
pub enum Page {
    /// The home page and the counter it owns.
    Home(Counter),
    /// The catch-all not-found page.
    NotFound,
    /// No route matched; unreachable while the table ends in a wildcard.
    Fallback,
}

/// A mounted application: the head resources the root declared once, and the
/// page the router selected for the current path.
pub struct App {
    /// The document-head registry after the root's declarations.
    pub head: HeadRegistry,
    /// The page mounted for the current path.
    pub page: Page,
}

/// Renders the home page: its body shows the welcome heading, the greeting,
/// and the button with the counter's current value. No response is touched.
pub fn render_home(counter: &Counter) -> (v: PageBody)
    ensures
        v@ =~= spec_home_body(counter.count()),
{
    home_body(counter.current())
}

/// Renders the not-found page. If and only if a server response is present
/// (the initial render of a server-handled request), the response status is
/// set to not-found; a client-side render leaves the context untouched and
/// raises no error.
pub fn render_not_found(ctx: &mut RenderContext) -> (v: PageBody)
    requires
        old(ctx).response matches Some(r) ==> r.status == STATUS_OK,
    ensures
        v@ =~= spec_not_found_body(),
        old(ctx).is_server_initial() ==> final(ctx).is_server_initial()
            && final(ctx).spec_status() == STATUS_NOT_FOUND,
        !old(ctx).is_server_initial() ==> *final(ctx) == *old(ctx),
{
    match &mut ctx.response {
        Some(r) => {
            r.set_not_found();
        },
        None => {},
    }
    not_found_body()
}

impl App {
    /// Mounts the application for one navigation path: declares the fixed
    /// head resources once, builds the route table, and mounts the page the
    /// first matching route selects. The root path mounts the home page with
    /// a fresh counter; every other path mounts the not-found page.
    pub fn mount(path: &str) -> (app: App)
        ensures
            app.head@ =~= spec_app_head(),
            path@.len() == 0 ==> (app.page matches Page::Home(c) && c.count() == 0),
            path@.len() != 0 ==> app.page == Page::NotFound,
    {
        let mut head = HeadRegistry::new();
        install_app_head(&mut head);
        let table = app_routes();
        proof {
            lemma_app_dispatch(table, path@);
        }
        let page = match table.dispatch(path) {
            Some(HandlerId::CounterPage) => Page::Home(Counter::new()),
            Some(HandlerId::NotFoundPage) => Page::NotFound,
            None => Page::Fallback,
        };
        App { head, page }
    }

    /// Renders the mounted page under the given context. Only the not-found
    /// page on an initial server render touches the response; every other
    /// render leaves the context exactly as it was.
    pub fn render(&self, ctx: &mut RenderContext) -> (v: PageBody)
        requires
            old(ctx).response matches Some(r) ==> r.status == STATUS_OK,
        ensures
            self.page matches Page::Home(c) ==> v@ =~= spec_home_body(c.count()),
            self.page == Page::NotFound ==> v@ =~= spec_not_found_body(),
            self.page == Page::Fallback ==> v@ =~= spec_fallback_body(),
            self.page == Page::NotFound && old(ctx).is_server_initial()
                ==> final(ctx).is_server_initial()
                && final(ctx).spec_status() == STATUS_NOT_FOUND,
            !(self.page == Page::NotFound && old(ctx).is_server_initial())
                ==> *final(ctx) == *old(ctx),
    {
        match &self.page {
            Page::Home(c) => render_home(c),
            Page::NotFound => render_not_found(ctx),
            Page::Fallback => fallback_body(),
        }
    }

    /// The click handler of the home page's button: one click event on the
    /// mounted counter. Any other page has no control, so nothing changes.
    pub fn click(&mut self)
        requires
            old(self).page matches Page::Home(c) ==> c.count() < u64::MAX,
        ensures
            old(self).page matches Page::Home(c) ==> (final(self).page matches Page::Home(c2)
                && c2.count() == spec_click(c.count())),
            !(old(self).page is Home) ==> final(self).page == old(self).page,
            final(self).head == old(self).head,
    {
        match &mut self.page {
            Page::Home(c) => {
                c.click();
            },
            _ => {},
        }
    }
}

} // verus!
