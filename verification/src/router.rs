//! # Router
//!
//! Trie-based HTTP route store. Each segment of a registered route becomes a
//! [`Node`] in the tree, reached through the segment string and the
//! [`HttpMethod`]. Variable segments (segments beginning with `:`) match any
//! value at that position and capture the raw string into the request's
//! variables map.

mod node;
mod router_error;

use vstd::prelude::*;

pub use node::{
    Edge,
    Node,
    VARIABLE_ROUTE_SIGN,
    add_child_result,
    attached,
    captures,
    child_added,
    child_index,
    edge_is,
    edge_is_variable,
    exact_index,
    exact_walk,
    first_exact,
    first_variable,
    fresh_chain,
    inserted,
    is_variable_part,
    lemma_exact_walk_is_walk,
    lemma_inserted_keeps,
    lemma_inserted_walk,
    new_child,
    taken,
    variable_index,
    walk,
};
pub use router_error::RouterError;

use crate::str_map::{StrMap, with_entries};
use crate::text::{
    chars_eq,
    chars_of,
    lemma_split_nonempty,
    split_by,
    split_chars,
    string_of,
    views,
};
use crate::web::{HttpMethod, MethodName};

verus! {

/// The non-empty pieces of a route, in order: the segments a lookup follows.
pub open spec fn nonempty_parts(parts: Seq<Seq<char>>) -> Seq<Seq<char>>
    decreases parts.len(),
{
    if parts.len() == 0 {
        seq![]
    } else if parts.last().len() == 0 {
        nonempty_parts(parts.drop_last())
    } else {
        nonempty_parts(parts.drop_last()).push(parts.last())
    }
}

/// The segments of `route`: its non-empty `/`-separated pieces. A route is
/// registered under them, and a lookup follows them.
pub open spec fn lookup_segments(route: Seq<char>) -> Seq<Seq<char>> {
    nonempty_parts(split_by(route, '/'))
}

/// `i` is the first edge with method `m`.
pub open spec fn first_method<H, M>(es: Seq<Edge<H, M>>, m: MethodName, i: int) -> bool {
    &&& 0 <= i < es.len()
    &&& es[i].method@ == m
    &&& forall|j: int| 0 <= j < i ==> (#[trigger] es[j]).method@ != m
}

/// The position of the first edge with method `m`, or `-1`.
pub open spec fn method_index<H, M>(es: Seq<Edge<H, M>>, m: MethodName) -> int {
    if exists|i: int| first_method(es, m, i) {
        choose|i: int| first_method(es, m, i)
    } else {
        -1
    }
}

/// # Router
///
/// Route trie used to register routes up-front and to look up the node for
/// an incoming request. Routes are kept apart per method; the route `/` is
/// held separately per method, and a not-found node answers lookups that
/// match nothing once a handler has been set on it.
pub struct Router<H, M> {
    root: Node<H, M>,
    root_method: Vec<Edge<H, M>>,
    missing_404: Node<H, M>,
}

impl<H, M> Router<H, M> {
    /// The head of the trie of all routes but `/`.
    pub closed spec fn root_node(self) -> Node<H, M> {
        self.root
    }

    /// The nodes registered for the route `/`, one per method.
    pub closed spec fn root_edges(self) -> Seq<Edge<H, M>> {
        self.root_method@
    }

    /// The node that answers requests no route matches.
    pub closed spec fn not_found_node(self) -> Node<H, M> {
        self.missing_404
    }

    /// The node that `route` under `m` resolves to, without the not-found node.
    pub open spec fn lookup(self, route: Seq<char>, m: MethodName) -> Option<Node<H, M>> {
        if route == "/"@ {
            let i = method_index(self.root_edges(), m);
            if i >= 0 {
                Some(self.root_edges()[i].node)
            } else {
                None
            }
        } else {
            walk(self.root_node(), lookup_segments(route), m)
        }
    }

    /// The node a request for `route` under `m` is answered with: the node
    /// the route resolves to, else the not-found node once it has a handler.
    pub open spec fn resolved(self, route: Seq<char>, m: MethodName) -> Option<Node<H, M>> {
        match self.lookup(route, m) {
            Some(n) => Some(n),
            None => if self.not_found_node().handler() is Some {
                Some(self.not_found_node())
            } else {
                None
            },
        }
    }

    /// The variables a lookup of `route` under `m` captures.
    pub open spec fn captured(self, route: Seq<char>, m: MethodName) -> Seq<(Seq<char>, Seq<char>)> {
        if route == "/"@ {
            seq![]
        } else {
            captures(self.root_node(), lookup_segments(route), m)
        }
    }

    /// A handler is already registered for `route` under `m`.
    pub open spec fn has_route(self, route: Seq<char>, m: MethodName) -> bool {
        if route == "/"@ {
            method_index(self.root_edges(), m) >= 0
        } else if lookup_segments(route).len() == 0 {
            false
        } else {
            taken(self.root_node(), lookup_segments(route), m)
        }
    }

    /// The handler and middleware registered exactly at `route` under `m`.
    pub open spec fn registered(self, route: Seq<char>, m: MethodName) -> Option<(H, Seq<M>)> {
        if route == "/"@ {
            let i = method_index(self.root_edges(), m);
            if i >= 0 && self.root_edges()[i].node.handler() is Some {
                Some((self.root_edges()[i].node.handler().unwrap(), self.root_edges()[i].node.layers()))
            } else {
                None
            }
        } else if lookup_segments(route).len() == 0 {
            None
        } else {
            match exact_walk(self.root_node(), lookup_segments(route), m) {
                Some(x) => if x.handler() is Some {
                    Some((x.handler().unwrap(), x.layers()))
                } else {
                    None
                },
                None => None,
            }
        }
    }

    /// `new` is `old` after a successful registration of `h` and `mw` at
    /// `route` under `m`.
    pub open spec fn added(old: Self, new: Self, route: Seq<char>, m: MethodName, h: H, mw: Seq<M>) -> bool {
        &&& new.not_found_node() == old.not_found_node()
        &&& if route == "/"@ {
            &&& new.root_node() == old.root_node()
            &&& new.root_edges().len() == old.root_edges().len() + 1
            &&& forall|j: int|
                0 <= j < old.root_edges().len() ==> #[trigger] new.root_edges()[j]
                    == old.root_edges()[j]
            &&& new.root_edges().last().method@ == m
            &&& new.root_edges().last().node.part() == "/"@
            &&& new.root_edges().last().node.kids().len() == 0
            &&& new.root_edges().last().node.handler() == Some(h)
            &&& new.root_edges().last().node.layers() == mw
        } else if lookup_segments(route).len() == 0 {
            new == old
        } else {
            &&& new.root_edges() == old.root_edges()
            &&& inserted(old.root_node(), new.root_node(), lookup_segments(route), m, h, mw)
        }
    }

    /// Creates a new router that holds no routes.
    pub fn new() -> (r: Self)
        ensures
            r.root_node().part() == "/"@,
            r.root_node().kids().len() == 0,
            r.root_node().handler() is None,
            r.root_edges().len() == 0,
            r.not_found_node().handler() is None,
            r.not_found_node().kids().len() == 0,
            forall|route: Seq<char>, m: MethodName| #[trigger] r.registered(route, m) is None,
    {
        let r = Router { root: Node::new_head(), root_method: Vec::new(), missing_404: Node::new_head() };
        assert forall|route: Seq<char>, m: MethodName| #[trigger] r.registered(route, m) is None by {
            if route != "/"@ {
                let segs = lookup_segments(route);
                if segs.len() > 0 {
                    assert(exact_index(r.root_node().kids(), segs[0], m) == -1);
                }
            }
        }
        r
    }

    /// # Set 404
    ///
    /// Sets the handler used when a request matches no route.
    pub fn set_404(&mut self, request: H)
        ensures
            final(self).not_found_node().handler() == Some(request),
            final(self).not_found_node().part() == old(self).not_found_node().part(),
            final(self).not_found_node().kids() == old(self).not_found_node().kids(),
            final(self).not_found_node().layers() == old(self).not_found_node().layers(),
            final(self).root_node() == old(self).root_node(),
            final(self).root_edges() == old(self).root_edges(),
    {
        self.missing_404.set_request_fn(Some(request));
    }

    fn find_root_method(&self, method: &HttpMethod) -> (r: Option<usize>)
        ensures
            match r {
                Some(i) => i as int == method_index(self.root_edges(), method@),
                None => method_index(self.root_edges(), method@) == -1,
            },
    {
        let mut i: usize = 0;
        while i < self.root_method.len()
            invariant
                i <= self.root_method@.len(),
                forall|j: int| 0 <= j < i ==> (#[trigger] self.root_edges()[j]).method@ != method@,
            decreases self.root_method@.len() - i,
        {
            if self.root_method[i].method.same(method) {
                assert(first_method(self.root_edges(), method@, i as int));
                let ghost k = method_index(self.root_edges(), method@);
                assert(first_method(self.root_edges(), method@, k));
                assert(k == i) by {
                    if k < i {
                        assert(self.root_edges()[k].method@ != method@);
                    } else if i < k {
                        assert(self.root_edges()[i as int].method@ != method@);
                    }
                }
                return Some(i);
            }
            i = i + 1;
        }
        assert forall|p: int| !first_method(self.root_edges(), method@, p) by {
            if first_method(self.root_edges(), method@, p) {
                assert(self.root_edges()[p].method@ != method@);
            }
        }
        None
    }

    /// # Add Route
    ///
    /// Walks the trie, inserting empty intermediate nodes as needed, and
    /// attaches `middleware` and `request_closure` at the node that
    /// corresponds to `full_route` under `method`. The route's segments are
    /// its non-empty `/`-separated pieces, the same ones a lookup follows, so
    /// `/a//b` and `/a/b/` are registered as `/a/b`.
    ///
    /// Returns `AlreadyExist`, and leaves the router unchanged, when a handler
    /// is already registered for that route and method.
    pub fn add_route(
        &mut self,
        full_route: &str,
        method: HttpMethod,
        middleware: Vec<M>,
        request_closure: H,
    ) -> (r: Result<(), RouterError>)
        ensures
            old(self).has_route(full_route@, method@) ==> r == Err::<(), RouterError>(
                RouterError::AlreadyExist,
            ) && *final(self) == *old(self),
            !old(self).has_route(full_route@, method@) ==> r is Ok && Self::added(
                *old(self),
                *final(self),
                full_route@,
                method@,
                request_closure,
                middleware@,
            ),
    {
        let route = chars_of(full_route);
        let slash = chars_of("/");
        if chars_eq(route.as_slice(), slash.as_slice()) {
            assert(full_route@ == "/"@);
            if self.find_root_method(&method).is_some() {
                assert(self.has_route(full_route@, method@));
                return Err(RouterError::AlreadyExist);
            }
            let mut node = Node::new_head();
            node.set_request_fn(Some(request_closure));
            let layers = node.middleware_mut();
            let mut middleware = middleware;
            layers.append(&mut middleware);
            self.root_method.push(Edge { method, node });
            return Ok(());
        }
        let parts = split_chars(route.as_slice(), '/');
        let segs = Self::lookup_parts(&parts);
        assert(views(segs@) == lookup_segments(full_route@));
        assert(views(segs@).skip(0) == views(segs@));
        if segs.len() == 0 {
            return Ok(());
        }
        if self.root.is_taken(&segs, 0, &method) {
            return Err(RouterError::AlreadyExist);
        }
        self.root.attach_route(&segs, 0, &method, middleware, request_closure);
        Ok(())
    }

    /// The non-empty pieces among `parts`, in order.
    fn lookup_parts(parts: &Vec<Vec<char>>) -> (r: Vec<Vec<char>>)
        ensures
            views(r@) == nonempty_parts(views(parts@)),
    {
        let mut out: Vec<Vec<char>> = Vec::new();
        let mut i: usize = 0;
        while i < parts.len()
            invariant
                i <= parts@.len(),
                views(out@) == nonempty_parts(views(parts@).take(i as int)),
            decreases parts@.len() - i,
        {
            assert(views(parts@).take(i + 1).drop_last() == views(parts@).take(i as int));
            if parts[i].len() > 0 {
                let seg = parts[i].clone();
                out.push(seg);
                assert(views(out@) == views(out@).drop_last().push(seg@));
            }
            i = i + 1;
        }
        assert(views(parts@).take(parts@.len() as int) == views(parts@));
        out
    }

    /// # Get Route
    ///
    /// Walks the trie using `full_route` and `method` and returns the node
    /// that was matched. Variable segments encountered along the way are
    /// captured into `variables`, keyed by the segment name with the leading
    /// `:` stripped.
    ///
    /// When no node matches, the not-found node is returned once a handler
    /// has been set on it, and `NotFound` otherwise.
    pub fn get_route(&self, full_route: &str, method: &HttpMethod, variables: &mut StrMap) -> (r:
        Result<&Node<H, M>, RouterError>)
        ensures
            match self.resolved(full_route@, method@) {
                Some(n) => r matches Ok(x) && *x == n,
                None => r == Err::<&Node<H, M>, RouterError>(RouterError::NotFound),
            },
            final(variables)@ == with_entries(old(variables)@, self.captured(full_route@, method@)),
    {
        let route = chars_of(full_route);
        let slash = chars_of("/");
        if chars_eq(route.as_slice(), slash.as_slice()) {
            return match self.find_root_method(method) {
                Some(i) => Ok(&self.root_method[i].node),
                None => if self.missing_404.request_fn().is_some() {
                    Ok(&self.missing_404)
                } else {
                    Err(RouterError::NotFound)
                },
            };
        }
        let parts = split_chars(route.as_slice(), '/');
        let segs = Self::lookup_parts(&parts);
        let ghost all = views(segs@);
        let mut current: &Node<H, M> = &self.root;
        let ghost mut caps: Seq<(Seq<char>, Seq<char>)> = seq![];
        let mut i: usize = 0;
        assert(all.skip(0) == all);
        assert(caps + captures(*current, all.skip(0), method@) == captures(*current, all, method@));
        while i < segs.len()
            invariant
                i <= segs@.len(),
                all == views(segs@),
                all == lookup_segments(full_route@),
                full_route@ != "/"@,
                walk(self.root_node(), all, method@) == walk(*current, all.skip(i as int), method@),
                captures(self.root_node(), all, method@) == caps + captures(
                    *current,
                    all.skip(i as int),
                    method@,
                ),
                variables@ == with_entries(old(variables)@, caps),
            decreases segs@.len() - i,
        {
            let ghost rest = all.skip(i as int);
            assert(rest[0] == segs@[i as int]@);
            assert(rest.drop_first() == all.skip(i + 1));
            let seg = string_of(segs[i].as_slice());
            match current.get_child(seg.as_str(), method) {
                None => {
                    assert(captures(*current, rest, method@) =~= Seq::<(Seq<char>, Seq<char>)>::empty());
                    assert(caps + Seq::<(Seq<char>, Seq<char>)>::empty() == caps);
                    return if self.missing_404.request_fn().is_some() {
                        Ok(&self.missing_404)
                    } else {
                        Err(RouterError::NotFound)
                    };
                },
                Some(child) => {
                    let ghost here = if is_variable_part(child.part()) {
                        seq![(child.part().drop_first(), rest[0])]
                    } else {
                        seq![]
                    };
                    let ghost caps0 = caps;
                    if child.is_variable() {
                        let mut name_chars = chars_of(child.route());
                        let tail = name_chars.split_off(1);
                        assert(tail@ == child.part().drop_first());
                        let name = string_of(tail.as_slice());
                        let value = string_of(segs[i].as_slice());
                        variables.insert(name, value);
                        proof {
                            let item = (child.part().drop_first(), rest[0]);
                            assert(caps.push(item).drop_last() == caps);
                            caps = caps.push(item);
                        }
                    }
                    assert(caps == caps0 + here);
                    assert(captures(*current, rest, method@) == here + captures(
                        *child,
                        all.skip(i + 1),
                        method@,
                    ));
                    assert(caps0 + (here + captures(*child, all.skip(i + 1), method@)) == caps
                        + captures(*child, all.skip(i + 1), method@));
                    current = child;
                },
            }
            i = i + 1;
        }
        assert(all.skip(segs@.len() as int) =~= Seq::<Seq<char>>::empty());
        assert(caps + Seq::<(Seq<char>, Seq<char>)>::empty() == caps);
        Ok(current)
    }
}


/// A route that was registered can be read back: right after a successful
/// registration of `h` and `mw` at `route` under `m`, the route holds exactly
/// that handler and middleware, a second registration of it is refused, and
/// looking the route up reaches that handler.
pub proof fn lemma_added_route_resolves<H, M>(
    old: Router<H, M>,
    new: Router<H, M>,
    route: Seq<char>,
    m: MethodName,
    h: H,
    mw: Seq<M>,
)
    requires
        Router::added(old, new, route, m, h, mw),
        !old.has_route(route, m),
        route == "/"@ || lookup_segments(route).len() > 0,
    ensures
        new.registered(route, m) == Some((h, mw)),
        new.has_route(route, m),
        new.lookup(route, m) matches Some(x) && x.handler() == Some(h) && x.layers() == mw,
{
    if route == "/"@ {
        let es = old.root_edges();
        let ns = new.root_edges();
        let last = es.len() as int;
        assert(first_method(ns, m, last)) by {
            assert forall|j: int| 0 <= j < last implies (#[trigger] ns[j]).method@ != m by {
                assert(ns[j] == es[j]);
                if es[j].method@ == m {
                    lemma_method_exists(es, m, j);
                }
            }
        }
        lemma_method_index_is(ns, m, last);
    } else {
        let segs = lookup_segments(route);
        lemma_inserted_walk(old.root_node(), new.root_node(), segs, m, h, mw);
        lemma_exact_walk_is_walk(new.root_node(), segs, m);
    }
}

/// Registering a route leaves every route registered before it in place: the
/// same handler and middleware stay registered at it, whatever its method.
pub proof fn lemma_add_keeps_routes<H, M>(
    old: Router<H, M>,
    new: Router<H, M>,
    route: Seq<char>,
    m: MethodName,
    h: H,
    mw: Seq<M>,
    route2: Seq<char>,
    m2: MethodName,
)
    requires
        Router::added(old, new, route, m, h, mw),
        !old.has_route(route, m),
        old.registered(route2, m2) is Some,
    ensures
        new.registered(route2, m2) == old.registered(route2, m2),
{
    if route2 == "/"@ {
        if route == "/"@ {
            let es = old.root_edges();
            let ns = new.root_edges();
            let k = method_index(es, m2);
            assert(first_method(es, m2, k));
            assert(first_method(ns, m2, k)) by {
                assert forall|j: int| 0 <= j < k implies (#[trigger] ns[j]).method@ != m2 by {
                    assert(ns[j] == es[j]);
                }
                assert(ns[k] == es[k]);
            }
            lemma_method_index_is(ns, m2, k);
        }
    } else if route != "/"@ && lookup_segments(route).len() > 0 {
        let segs2 = lookup_segments(route2);
        lemma_inserted_keeps(old.root_node(), new.root_node(), lookup_segments(route), m, h, mw, segs2, m2);
    }
}

/// The path segments `path` fill the route segments `pattern`: as many
/// segments, each equal to the route's or standing where the route has a
/// variable segment.
pub open spec fn fills(pattern: Seq<Seq<char>>, path: Seq<Seq<char>>) -> bool {
    &&& pattern.len() == path.len()
    &&& forall|i: int| 0 <= i < pattern.len() ==> path[i] == pattern[i] || is_variable_part(#[trigger] pattern[i])
}

/// The values `path` gives the variable segments of `pattern`, in order:
/// each variable's name without its marker, and the path segment in its place.
pub open spec fn bindings(pattern: Seq<Seq<char>>, path: Seq<Seq<char>>) -> Seq<(Seq<char>, Seq<char>)>
    decreases pattern.len(),
{
    if pattern.len() == 0 || path.len() == 0 {
        seq![]
    } else {
        (if is_variable_part(pattern[0]) {
            seq![(pattern[0].drop_first(), path[0])]
        } else {
            seq![]
        }) + bindings(pattern.drop_first(), path.drop_first())
    }
}

/// Among the children `es`, of which the only one is `e` for segment `p`
/// under `m`, a lookup of `seg` that fills `p` follows `e`.
proof fn lemma_single_child_followed<H, M>(es: Seq<Edge<H, M>>, p: Seq<char>, seg: Seq<char>, m: MethodName)
    requires
        es.len() == 1,
        es[0].method@ == m,
        es[0].node.part() == p,
        seg == p || is_variable_part(p),
    ensures
        child_index(es, seg, m) == 0,
{
    if seg == p {
        assert(first_exact(es, seg, m, 0));
        let k = exact_index(es, seg, m);
        assert(first_exact(es, seg, m, k));
    } else {
        assert forall|i: int| !first_exact(es, seg, m, i) by {
            if first_exact(es, seg, m, i) {
                assert(i == 0);
            }
        }
        assert(first_variable(es, m, 0));
        let k = variable_index(es, m);
        assert(first_variable(es, m, k));
    }
}

/// Along a freshly built chain for `segs`, a path filling `segs` reaches the
/// chain's leaf and captures the values of its variable segments.
proof fn lemma_chain_matches<H, M>(
    c: Node<H, M>,
    segs: Seq<Seq<char>>,
    path: Seq<Seq<char>>,
    m: MethodName,
    h: H,
    mw: Seq<M>,
)
    requires
        fresh_chain(c, segs, m, h, mw),
        fills(segs, path),
    ensures
        walk(c, path.drop_first(), m) matches Some(x) && x.handler() == Some(h) && x.layers() == mw,
        captures(c, path.drop_first(), m) == bindings(segs.drop_first(), path.drop_first()),
    decreases segs.len(),
{
    let tail = path.drop_first();
    if segs.len() == 1 {
        assert(tail.len() == 0);
    } else {
        let e = c.kids()[0];
        assert(fresh_chain(e.node, segs.drop_first(), m, h, mw));
        assert(e.node.part() == segs.drop_first()[0]);
        assert(segs.drop_first()[0] == segs[1]);
        assert(tail[0] == path[1]);
        assert(path[1] == segs[1] || is_variable_part(segs[1]));
        lemma_single_child_followed(c.kids(), segs[1], tail[0], m);
        assert(fills(segs.drop_first(), tail)) by {
            assert forall|i: int| 0 <= i < segs.drop_first().len() implies tail[i] == segs.drop_first()[i]
                || is_variable_part(#[trigger] segs.drop_first()[i]) by {
                assert(segs.drop_first()[i] == segs[i + 1]);
                assert(tail[i] == path[i + 1]);
            }
        }
        lemma_chain_matches(e.node, segs.drop_first(), tail, m, h, mw);
    }
}

/// A route registered on a router that held no route but `/` is reached by
/// every path that fills its segments, whatever the values in its variable
/// segments, and the lookup captures those values under the variables' names.
pub proof fn lemma_sole_route_matches<H, M>(
    old: Router<H, M>,
    new: Router<H, M>,
    route: Seq<char>,
    m: MethodName,
    h: H,
    mw: Seq<M>,
    path: Seq<char>,
)
    requires
        Router::added(old, new, route, m, h, mw),
        !old.has_route(route, m),
        route != "/"@,
        lookup_segments(route).len() > 0,
        old.root_node().kids().len() == 0,
        path != "/"@,
        fills(lookup_segments(route), lookup_segments(path)),
    ensures
        new.lookup(path, m) matches Some(x) && x.handler() == Some(h) && x.layers() == mw,
        new.captured(path, m) == bindings(lookup_segments(route), lookup_segments(path)),
{
    let segs = lookup_segments(route);
    let ps = lookup_segments(path);
    let root = new.root_node();
    assert(exact_index(old.root_node().kids(), segs[0], m) == -1);
    assert(root.kids().len() == 1);
    assert(root.kids().last() == root.kids()[0]);
    let c = root.kids()[0].node;
    assert(fresh_chain(c, segs, m, h, mw));
    lemma_single_child_followed(root.kids(), segs[0], ps[0], m);
    lemma_chain_matches(c, segs, ps, m, h, mw);
}

/// Whatever a later `add_route` returns, a route registered before it is
/// still registered with the same handler and middleware, and a lookup of
/// that route still reaches them.
pub proof fn lemma_add_route_keeps_lookups<H, M>(
    old: Router<H, M>,
    new: Router<H, M>,
    route: Seq<char>,
    m: MethodName,
    h: H,
    mw: Seq<M>,
    route0: Seq<char>,
    m0: MethodName,
)
    requires
        (old.has_route(route, m) && new == old) || (!old.has_route(route, m) && Router::added(
            old,
            new,
            route,
            m,
            h,
            mw,
        )),
        old.registered(route0, m0) is Some,
    ensures
        new.registered(route0, m0) == old.registered(route0, m0),
        new.lookup(route0, m0) matches Some(x) && x.handler() is Some && Some(
            (x.handler().unwrap(), x.layers()),
        ) == old.registered(route0, m0),
        new.resolved(route0, m0) == new.lookup(route0, m0),
{
    if !old.has_route(route, m) {
        lemma_add_keeps_routes(old, new, route, m, h, mw, route0, m0);
    }
    lemma_registered_is_found(new, route0, m0);
}

/// Once the not-found handler is set, every request is answered: a lookup
/// that matches no route resolves to the not-found node.
pub proof fn lemma_not_found_answers_all<H, M>(r: Router<H, M>, route: Seq<char>, m: MethodName)
    requires
        r.not_found_node().handler() is Some,
    ensures
        r.resolved(route, m) is Some,
        r.lookup(route, m) is None ==> r.resolved(route, m) == Some(r.not_found_node()),
{
}

/// What is registered at a route is what a lookup of that route reaches.
pub proof fn lemma_registered_is_found<H, M>(r: Router<H, M>, route: Seq<char>, m: MethodName)
    requires
        r.registered(route, m) is Some,
    ensures
        r.lookup(route, m) matches Some(x) && Some((x.handler().unwrap(), x.layers()))
            == r.registered(route, m) && x.handler() is Some,
{
    if route != "/"@ {
        lemma_exact_walk_is_walk(r.root_node(), lookup_segments(route), m);
    }
}

pub proof fn lemma_method_index_is<H, M>(es: Seq<Edge<H, M>>, m: MethodName, i: int)
    requires
        first_method(es, m, i),
    ensures
        method_index(es, m) == i,
{
    let k = method_index(es, m);
    assert(first_method(es, m, k));
    if k < i {
        assert(es[k].method@ != m);
    } else if i < k {
        assert(es[i].method@ != m);
    }
}

pub proof fn lemma_method_exists<H, M>(es: Seq<Edge<H, M>>, m: MethodName, j: int)
    requires
        0 <= j < es.len(),
        es[j].method@ == m,
    ensures
        method_index(es, m) >= 0,
    decreases j,
{
    if forall|r: int| 0 <= r < j ==> (#[trigger] es[r]).method@ != m {
        assert(first_method(es, m, j));
        lemma_method_index_is(es, m, j);
    } else {
        let r = choose|r: int| 0 <= r < j && (#[trigger] es[r]).method@ == m;
        lemma_method_exists(es, m, r);
    }
}

} // verus!
