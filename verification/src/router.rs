use vstd::prelude::*;

verus! {

/// A route pattern: a literal path segment, or the catch-all wildcard.
pub enum Pattern {
    /// Matches exactly one path value. The empty literal matches only the
    /// root path.
    Literal(String),
    /// Matches any path, including ones a literal also matches.
    Wildcard,
}

impl Pattern {
    /// Whether this pattern matches a navigation path.
    pub open spec fn spec_matches(&self, path: Seq<char>) -> bool {
        match self {
            Pattern::Literal(s) => path == s@,
            Pattern::Wildcard => true,
        }
    }

    /// Decides whether this pattern matches a navigation path.
    pub fn matches_path(&self, path: &str) -> (r: bool)
        ensures
            r == self.spec_matches(path@),
    {
        match self {
            Pattern::Literal(s) => {
                let p = path.to_owned();
                p == *s
            },
            Pattern::Wildcard => true,
        }
    }
}

/// The view-producing handler a route dispatches to.
#[derive(Clone, Copy, PartialEq, Eq, Structural, Debug)]
pub enum HandlerId {
    /// The stateful counter page.
    CounterPage,
    /// The static not-found page.
    NotFoundPage,
}

/// One (pattern, handler) association of the route table.
pub struct Route {
    /// The pattern a path is held against.
    pub pattern: Pattern,
    /// The handler selected when the pattern matches.
    pub handler: HandlerId,
}

/// An ordered route table, fixed at startup. Declaration order is the sole
/// precedence mechanism: the first matching route wins.
pub struct RouteTable {
    /// The routes in declaration order.
    pub routes: Vec<Route>,
}

/// The handler of the first route in declaration order whose pattern matches
/// the path, or nothing when no route matches at all.
pub open spec fn spec_first_match(routes: Seq<Route>, path: Seq<char>) -> Option<HandlerId>
    decreases routes.len(),
{
    if routes.len() == 0 {
        None
    } else if routes[0].pattern.spec_matches(path) {
        Some(routes[0].handler)
    } else {
        spec_first_match(routes.subrange(1, routes.len() as int), path)
    }
}

/// Skipping a route that does not match leaves the first match unchanged.
proof fn lemma_first_match_step(routes: Seq<Route>, path: Seq<char>, i: int)
    requires
        0 <= i < routes.len(),
        !routes[i].pattern.spec_matches(path),
    ensures
        spec_first_match(routes.subrange(i, routes.len() as int), path) == spec_first_match(
            routes.subrange(i + 1, routes.len() as int),
            path,
        ),
{
    let s = routes.subrange(i, routes.len() as int);
    assert(s[0] == routes[i]);
    assert(s.subrange(1, s.len() as int) =~= routes.subrange(i + 1, routes.len() as int));
}

impl RouteTable {
    /// Selects the first matching route in declaration order and returns its
    /// handler; returns nothing only when no route matches, in which case the
    /// caller renders its fallback.
    pub fn dispatch(&self, path: &str) -> (r: Option<HandlerId>)
        ensures
            r == spec_first_match(self.routes@, path@),
    {
        let n = self.routes.len();
        let mut i: usize = 0;
        proof {
            assert(self.routes@.subrange(0, self.routes@.len() as int) =~= self.routes@);
        }
        while i < n
            invariant
                n == self.routes.len(),
                i <= n,
                spec_first_match(self.routes@, path@) == spec_first_match(
                    self.routes@.subrange(i as int, self.routes@.len() as int),
                    path@,
                ),
            decreases n - i,
        {
            let route = &self.routes[i];
            if route.pattern.matches_path(path) {
                proof {
                    let s = self.routes@.subrange(i as int, self.routes@.len() as int);
                    assert(s[0] == self.routes@[i as int]);
                }
                return Some(route.handler);
            }
            proof {
                lemma_first_match_step(self.routes@, path@, i as int);
            }
            i = i + 1;
        }
        proof {
            assert(self.routes@.subrange(i as int, self.routes@.len() as int) =~= Seq::<
                Route,
            >::empty());
        }
        None
    }
}

/// The application's fixed route table: the root literal route to the counter
/// page, declared before the catch-all route to the not-found page.
pub open spec fn is_app_table(t: RouteTable) -> bool {
    &&& t.routes@.len() == 2
    &&& t.routes@[0].pattern matches Pattern::Literal(s) && s@ == Seq::<char>::empty()
    &&& t.routes@[0].handler == HandlerId::CounterPage
    &&& t.routes@[1].pattern == Pattern::Wildcard
    &&& t.routes@[1].handler == HandlerId::NotFoundPage
}

/// Builds the application's route table.
pub fn app_routes() -> (t: RouteTable)
    ensures
        is_app_table(t),
{
    let mut routes: Vec<Route> = Vec::new();
    routes.push(Route { pattern: Pattern::Literal(String::new()), handler: HandlerId::CounterPage });
    routes.push(Route { pattern: Pattern::Wildcard, handler: HandlerId::NotFoundPage });
    RouteTable { routes }
}

/// Law: over the application's table, dispatch is total and path-determined.
/// The root path (the empty string) selects the counter page; every other
/// path selects the not-found page, because the earlier literal route takes
/// precedence and the wildcard catches the rest.
pub proof fn lemma_app_dispatch(t: RouteTable, path: Seq<char>)
    requires
        is_app_table(t),
    ensures
        path.len() == 0 ==> spec_first_match(t.routes@, path) == Some(HandlerId::CounterPage),
        path.len() != 0 ==> spec_first_match(t.routes@, path) == Some(HandlerId::NotFoundPage),
{
    let routes = t.routes@;
    if path.len() == 0 {
        assert(path =~= Seq::<char>::empty());
        assert(routes[0].pattern.spec_matches(path));
    } else {
        assert(!routes[0].pattern.spec_matches(path));
        let tail = routes.subrange(1, routes.len() as int);
        assert(tail[0] == routes[1]);
        assert(tail[0].pattern.spec_matches(path));
        assert(spec_first_match(tail, path) == Some(HandlerId::NotFoundPage));
    }
}

} // verus!
