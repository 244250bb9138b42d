//! # Node
//!
//! A single node in the router's trie. Each node owns its children, each
//! reached through a route segment and an [`HttpMethod`], along with the
//! middleware and (optional) request handler associated with this segment.
//!
//! The node is generic over the handler type `H` and the middleware type
//! `M`: the trie logic never calls them, it only stores and returns them.

use vstd::prelude::*;

use crate::router::RouterError;
use crate::text::{chars_eq, chars_of, copy_string, string_of, views};
use crate::web::{HttpMethod, MethodName};

verus! {

/// The character that marks a route segment as a variable (e.g. `/users/:id`).
pub const VARIABLE_ROUTE_SIGN: char = ':';

/// A segment is a variable when it starts with [`VARIABLE_ROUTE_SIGN`].
pub open spec fn is_variable_part(p: Seq<char>) -> bool {
    p.len() > 0 && p[0] == VARIABLE_ROUTE_SIGN
}

/// A child of a node: the method under which it was registered and the node itself.
pub struct Edge<H, M> {
    pub method: HttpMethod,
    pub node: Node<H, M>,
}

/// # Node
///
/// Trie node used by [`Router`](crate::router::Router) to represent a
/// single segment of a registered route. A node may hold several children
/// with the same segment, differentiated by [`HttpMethod`].
pub struct Node<H, M> {
    children: Vec<Edge<H, M>>,
    /// The portion of the route that is stored here (/api/**test**)
    route_part: String,
    /// The middleware that is stored at this route.
    middleware: Vec<M>,
    request_closure: Option<H>,
}

impl<H, M> Node<H, M> {
    /// The children of the node, in the order they were added.
    pub closed spec fn kids(self) -> Seq<Edge<H, M>> {
        self.children@
    }

    /// The route segment held by the node.
    pub closed spec fn part(self) -> Seq<char> {
        self.route_part@
    }

    /// The request handler attached to the node, if any.
    pub closed spec fn handler(self) -> Option<H> {
        self.request_closure
    }

    /// The middleware attached to the node.
    pub closed spec fn layers(self) -> Seq<M> {
        self.middleware@
    }
}

/// The edge leads to segment `seg` under method `m`.
pub open spec fn edge_is<H, M>(e: Edge<H, M>, seg: Seq<char>, m: MethodName) -> bool {
    e.node.part() == seg && e.method@ == m
}

/// `i` is the first child reached by exactly `seg` under `m`.
pub open spec fn first_exact<H, M>(es: Seq<Edge<H, M>>, seg: Seq<char>, m: MethodName, i: int) -> bool {
    &&& 0 <= i < es.len()
    &&& edge_is(es[i], seg, m)
    &&& forall|j: int| 0 <= j < i ==> !edge_is(#[trigger] es[j], seg, m)
}

/// The position of the first child reached by exactly `seg` under `m`, or `-1`.
pub open spec fn exact_index<H, M>(es: Seq<Edge<H, M>>, seg: Seq<char>, m: MethodName) -> int {
    if exists|i: int| first_exact(es, seg, m, i) {
        choose|i: int| first_exact(es, seg, m, i)
    } else {
        -1
    }
}

/// The edge leads, under method `m`, to a variable segment.
pub open spec fn edge_is_variable<H, M>(e: Edge<H, M>, m: MethodName) -> bool {
    e.method@ == m && is_variable_part(e.node.part())
}

/// `i` is the first variable child under `m`.
pub open spec fn first_variable<H, M>(es: Seq<Edge<H, M>>, m: MethodName, i: int) -> bool {
    &&& 0 <= i < es.len()
    &&& edge_is_variable(es[i], m)
    &&& forall|j: int| 0 <= j < i ==> !edge_is_variable(#[trigger] es[j], m)
}

/// The position of the first variable child under `m`, or `-1`.
pub open spec fn variable_index<H, M>(es: Seq<Edge<H, M>>, m: MethodName) -> int {
    if exists|i: int| first_variable(es, m, i) {
        choose|i: int| first_variable(es, m, i)
    } else {
        -1
    }
}

/// The child that a lookup of `seg` under `m` follows: the exact child when
/// there is one, otherwise a variable child, otherwise none (`-1`).
pub open spec fn child_index<H, M>(es: Seq<Edge<H, M>>, seg: Seq<char>, m: MethodName) -> int {
    let e = exact_index(es, seg, m);
    if e >= 0 {
        e
    } else {
        variable_index(es, m)
    }
}

/// The node that a lookup of the segments `segs` under `m` reaches from `n`,
/// or `None` when at some step no child can be followed.
pub open spec fn walk<H, M>(n: Node<H, M>, segs: Seq<Seq<char>>, m: MethodName) -> Option<Node<H, M>>
    decreases segs.len(),
{
    if segs.len() == 0 {
        Some(n)
    } else {
        let i = child_index(n.kids(), segs[0], m);
        if i < 0 {
            None
        } else {
            walk(n.kids()[i].node, segs.drop_first(), m)
        }
    }
}

/// The variables captured by that lookup, in order: for every variable
/// segment passed, its name (without the leading marker) and the segment of
/// the path that it matched.
pub open spec fn captures<H, M>(n: Node<H, M>, segs: Seq<Seq<char>>, m: MethodName) -> Seq<
    (Seq<char>, Seq<char>),
>
    decreases segs.len(),
{
    if segs.len() == 0 {
        seq![]
    } else {
        let i = child_index(n.kids(), segs[0], m);
        if i < 0 {
            seq![]
        } else {
            let c = n.kids()[i].node;
            let here = if is_variable_part(c.part()) {
                seq![(c.part().drop_first(), segs[0])]
            } else {
                seq![]
            };
            here + captures(c, segs.drop_first(), m)
        }
    }
}

/// The node reached by following only exact children (no variable matching).
pub open spec fn exact_walk<H, M>(n: Node<H, M>, segs: Seq<Seq<char>>, m: MethodName) -> Option<
    Node<H, M>,
>
    decreases segs.len(),
{
    if segs.len() == 0 {
        Some(n)
    } else {
        let i = exact_index(n.kids(), segs[0], m);
        if i < 0 {
            None
        } else {
            exact_walk(n.kids()[i].node, segs.drop_first(), m)
        }
    }
}

/// A handler is registered at exactly the segments `segs` under `m`.
pub open spec fn taken<H, M>(n: Node<H, M>, segs: Seq<Seq<char>>, m: MethodName) -> bool {
    exact_walk(n, segs, m) matches Some(x) && x.handler() is Some
}

/// `new` is `old` with handler `h` and middleware `mw` attached, its segment
/// and children kept.
pub open spec fn attached<H, M>(old: Node<H, M>, new: Node<H, M>, h: H, mw: Seq<M>) -> bool {
    &&& new.part() == old.part()
    &&& new.kids() == old.kids()
    &&& new.handler() == Some(h)
    &&& new.layers() == mw
}

/// `n` is a freshly built chain for `segs`: one node per segment, each with a
/// single child under `m`, ending in a leaf that holds `h` and `mw`.
pub open spec fn fresh_chain<H, M>(n: Node<H, M>, segs: Seq<Seq<char>>, m: MethodName, h: H, mw: Seq<M>) -> bool
    decreases segs.len(),
{
    &&& segs.len() > 0
    &&& n.part() == segs[0]
    &&& if segs.len() == 1 {
        &&& n.kids().len() == 0
        &&& n.handler() == Some(h)
        &&& n.layers() == mw
    } else {
        &&& n.handler() is None
        &&& n.layers().len() == 0
        &&& n.kids().len() == 1
        &&& n.kids()[0].method@ == m
        &&& fresh_chain(n.kids()[0].node, segs.drop_first(), m, h, mw)
    }
}

/// `new` is `old` after registering `h` and `mw` at the segments `segs`
/// under `m`: existing children are followed exactly and kept, missing ones
/// are created, the final node gets the handler and the middleware, and
/// nothing else changes.
pub open spec fn inserted<H, M>(
    old: Node<H, M>,
    new: Node<H, M>,
    segs: Seq<Seq<char>>,
    m: MethodName,
    h: H,
    mw: Seq<M>,
) -> bool
    decreases segs.len(),
{
    &&& segs.len() > 0
    &&& new.part() == old.part()
    &&& new.handler() == old.handler()
    &&& new.layers() == old.layers()
    &&& {
        let i = exact_index(old.kids(), segs[0], m);
        if i >= 0 {
            &&& new.kids().len() == old.kids().len()
            &&& forall|j: int|
                0 <= j < old.kids().len() && j != i ==> #[trigger] new.kids()[j] == old.kids()[j]
            &&& new.kids()[i].method == old.kids()[i].method
            &&& if segs.len() == 1 {
                attached(old.kids()[i].node, new.kids()[i].node, h, mw)
            } else {
                inserted(old.kids()[i].node, new.kids()[i].node, segs.drop_first(), m, h, mw)
            }
        } else {
            &&& new.kids().len() == old.kids().len() + 1
            &&& forall|j: int| 0 <= j < old.kids().len() ==> #[trigger] new.kids()[j] == old.kids()[j]
            &&& new.kids().last().method@ == m
            &&& fresh_chain(new.kids().last().node, segs, m, h, mw)
        }
    }
}

/// `e` is a new child for segment `p` under `m`, without children, holding
/// `req` and `mw`.
pub open spec fn new_child<H, M>(e: Edge<H, M>, p: Seq<char>, m: MethodName, mw: Seq<M>, req: Option<H>) -> bool {
    &&& e.method@ == m
    &&& e.node.part() == p
    &&& e.node.kids().len() == 0
    &&& e.node.handler() == req
    &&& e.node.layers() == mw
}

/// What [`Node::add_child`] returns for segment `p` under `m`.
pub open spec fn add_child_result<H, M>(n: Node<H, M>, p: Seq<char>, m: MethodName) -> Result<(), RouterError> {
    if p.len() == 0 {
        Err(RouterError::BadName)
    } else {
        let i = exact_index(n.kids(), p, m);
        if i >= 0 && n.kids()[i].node.handler() is Some {
            Err(RouterError::AlreadyExist)
        } else {
            Ok(())
        }
    }
}

/// `new` is `old` after a successful [`Node::add_child`] of segment `p` under
/// `m`: an existing child for `p` and `m` is replaced by the new child,
/// otherwise the new child is appended.
pub open spec fn child_added<H, M>(
    old: Node<H, M>,
    new: Node<H, M>,
    p: Seq<char>,
    m: MethodName,
    mw: Seq<M>,
    req: Option<H>,
) -> bool {
    &&& new.part() == old.part()
    &&& new.handler() == old.handler()
    &&& new.layers() == old.layers()
    &&& {
        let i = exact_index(old.kids(), p, m);
        if i >= 0 {
            &&& new.kids().len() == old.kids().len()
            &&& forall|j: int|
                0 <= j < old.kids().len() && j != i ==> #[trigger] new.kids()[j] == old.kids()[j]
            &&& new_child(new.kids()[i], p, m, mw, req)
        } else {
            &&& new.kids().len() == old.kids().len() + 1
            &&& forall|j: int| 0 <= j < old.kids().len() ==> #[trigger] new.kids()[j] == old.kids()[j]
            &&& new_child(new.kids().last(), p, m, mw, req)
        }
    }
}

pub proof fn lemma_first_exact_unique<H, M>(
    es: Seq<Edge<H, M>>,
    seg: Seq<char>,
    m: MethodName,
    i: int,
    k: int,
)
    requires
        first_exact(es, seg, m, i),
        first_exact(es, seg, m, k),
    ensures
        i == k,
{
    if i < k {
        assert(!edge_is(es[i], seg, m));
    } else if k < i {
        assert(!edge_is(es[k], seg, m));
    }
}

pub proof fn lemma_first_variable_unique<H, M>(es: Seq<Edge<H, M>>, m: MethodName, i: int, k: int)
    requires
        first_variable(es, m, i),
        first_variable(es, m, k),
    ensures
        i == k,
{
    if i < k {
        assert(!edge_is_variable(es[i], m));
    } else if k < i {
        assert(!edge_is_variable(es[k], m));
    }
}

/// The position found when `i` is first is `i` itself.
pub proof fn lemma_exact_index_is<H, M>(es: Seq<Edge<H, M>>, seg: Seq<char>, m: MethodName, i: int)
    requires
        first_exact(es, seg, m, i),
    ensures
        exact_index(es, seg, m) == i,
{
    lemma_first_exact_unique(es, seg, m, i, exact_index(es, seg, m));
}

/// When a child matches, some first match exists.
pub proof fn lemma_exact_exists<H, M>(es: Seq<Edge<H, M>>, seg: Seq<char>, m: MethodName, j: int)
    requires
        0 <= j < es.len(),
        edge_is(es[j], seg, m),
    ensures
        exact_index(es, seg, m) >= 0,
        exact_index(es, seg, m) <= j,
    decreases j,
{
    if forall|r: int| 0 <= r < j ==> !edge_is(#[trigger] es[r], seg, m) {
        assert(first_exact(es, seg, m, j));
        lemma_exact_index_is(es, seg, m, j);
    } else {
        let r = choose|r: int| 0 <= r < j && edge_is(#[trigger] es[r], seg, m);
        lemma_exact_exists(es, seg, m, r);
    }
}

/// A chain built for `segs` is walked exactly along `segs` to its leaf.
pub proof fn lemma_fresh_chain_walk<H, M>(n: Node<H, M>, segs: Seq<Seq<char>>, m: MethodName, h: H, mw: Seq<M>)
    requires
        fresh_chain(n, segs, m, h, mw),
    ensures
        exact_walk(n, segs.drop_first(), m) matches Some(x) && x.handler() == Some(h) && x.layers()
            == mw,
    decreases segs.len(),
{
    if segs.len() > 1 {
        let rest = segs.drop_first();
        assert(fresh_chain(n.kids()[0].node, rest, m, h, mw));
        assert(n.kids()[0].node.part() == rest[0]);
        assert(first_exact(n.kids(), rest[0], m, 0));
        lemma_exact_index_is(n.kids(), rest[0], m, 0);
        lemma_fresh_chain_walk(n.kids()[0].node, rest, m, h, mw);
    }
}

/// After an insertion, the exact walk along the inserted segments reaches a
/// node holding the inserted handler and middleware.
pub proof fn lemma_inserted_walk<H, M>(
    old: Node<H, M>,
    new: Node<H, M>,
    segs: Seq<Seq<char>>,
    m: MethodName,
    h: H,
    mw: Seq<M>,
)
    requires
        inserted(old, new, segs, m, h, mw),
    ensures
        exact_walk(new, segs, m) matches Some(x) && x.handler() == Some(h) && x.layers() == mw,
    decreases segs.len(),
{
    let i = exact_index(old.kids(), segs[0], m);
    if i >= 0 {
        assert(first_exact(old.kids(), segs[0], m, i));
        if segs.len() == 1 {
            assert(attached(old.kids()[i].node, new.kids()[i].node, h, mw));
        } else {
            assert(inserted(old.kids()[i].node, new.kids()[i].node, segs.drop_first(), m, h, mw));
        }
        assert(first_exact(new.kids(), segs[0], m, i)) by {
            assert forall|j: int| 0 <= j < i implies !edge_is(#[trigger] new.kids()[j], segs[0], m) by {
                assert(new.kids()[j] == old.kids()[j]);
            }
        }
        lemma_exact_index_is(new.kids(), segs[0], m, i);
        if segs.len() > 1 {
            lemma_inserted_walk(old.kids()[i].node, new.kids()[i].node, segs.drop_first(), m, h, mw);
        }
    } else {
        let last = old.kids().len() as int;
        assert(first_exact(new.kids(), segs[0], m, last)) by {
            assert forall|j: int| 0 <= j < last implies !edge_is(#[trigger] new.kids()[j], segs[0], m) by {
                assert(new.kids()[j] == old.kids()[j]);
                if edge_is(old.kids()[j], segs[0], m) {
                    lemma_exact_exists(old.kids(), segs[0], m, j);
                }
            }
        }
        lemma_exact_index_is(new.kids(), segs[0], m, last);
        lemma_fresh_chain_walk(new.kids()[last].node, segs, m, h, mw);
    }
}

/// The exact walk along non-empty segments depends only on the children.
pub proof fn lemma_exact_walk_kids<H, M>(a: Node<H, M>, b: Node<H, M>, segs: Seq<Seq<char>>, m: MethodName)
    requires
        a.kids() == b.kids(),
        segs.len() > 0,
    ensures
        exact_walk(a, segs, m) == exact_walk(b, segs, m),
{
}

/// An insertion keeps every handler that was registered before it, together
/// with its middleware, reachable along the same segments.
pub proof fn lemma_inserted_keeps<H, M>(
    old: Node<H, M>,
    new: Node<H, M>,
    segs: Seq<Seq<char>>,
    m: MethodName,
    h: H,
    mw: Seq<M>,
    segs2: Seq<Seq<char>>,
    m2: MethodName,
)
    requires
        inserted(old, new, segs, m, h, mw),
        !taken(old, segs, m),
        taken(old, segs2, m2),
    ensures
        exact_walk(new, segs2, m2) matches Some(y) && y.handler() == exact_walk(
            old,
            segs2,
            m2,
        ).unwrap().handler() && y.layers() == exact_walk(old, segs2, m2).unwrap().layers(),
    decreases segs2.len(),
{
    if segs2.len() == 0 {
        return;
    }
    let i = exact_index(old.kids(), segs[0], m);
    let k = exact_index(old.kids(), segs2[0], m2);
    assert(k >= 0);
    assert(first_exact(old.kids(), segs2[0], m2, k));
    if i >= 0 {
        assert(first_exact(old.kids(), segs[0], m, i));
        if segs.len() == 1 {
            assert(attached(old.kids()[i].node, new.kids()[i].node, h, mw));
        } else {
            assert(inserted(old.kids()[i].node, new.kids()[i].node, segs.drop_first(), m, h, mw));
        }
        assert(new.kids()[i].node.part() == old.kids()[i].node.part());
    }
    assert(first_exact(new.kids(), segs2[0], m2, k)) by {
        assert forall|j: int| 0 <= j < k implies !edge_is(#[trigger] new.kids()[j], segs2[0], m2) by {
            if i >= 0 && j == i {
                assert(!edge_is(old.kids()[j], segs2[0], m2));
            } else {
                assert(new.kids()[j] == old.kids()[j]);
            }
        }
        if !(i >= 0 && k == i) {
            assert(new.kids()[k] == old.kids()[k]);
        }
    }
    lemma_exact_index_is(new.kids(), segs2[0], m2, k);
    if i >= 0 && k == i {
        let oc = old.kids()[i].node;
        let nc = new.kids()[i].node;
        let rest = segs.drop_first();
        let rest2 = segs2.drop_first();
        if segs.len() == 1 {
            if segs2.len() == 1 {
                assert(segs2 == segs);
                assert(false);
            } else {
                lemma_exact_walk_kids(oc, nc, rest2, m2);
            }
        } else {
            if segs2.len() > 1 {
                assert(segs2[0] == segs[0]);
                assert(m2 == m);
                lemma_inserted_keeps(oc, nc, rest, m, h, mw, rest2, m2);
            }
        }
    }
}

/// A handler reached by the exact walk is also what a lookup reaches.
pub proof fn lemma_exact_walk_is_walk<H, M>(n: Node<H, M>, segs: Seq<Seq<char>>, m: MethodName)
    requires
        exact_walk(n, segs, m) is Some,
    ensures
        walk(n, segs, m) == exact_walk(n, segs, m),
    decreases segs.len(),
{
    if segs.len() > 0 {
        let i = exact_index(n.kids(), segs[0], m);
        lemma_exact_walk_is_walk(n.kids()[i].node, segs.drop_first(), m);
    }
}

impl<H, M> Node<H, M> {
    /// # Is Variable
    ///
    /// Returns true if the node's segment starts with the variable marker.
    pub fn is_variable(&self) -> (r: bool)
        ensures
            r == is_variable_part(self.part()),
    {
        let cs = chars_of(self.route_part.as_str());
        cs.len() > 0 && cs[0] == VARIABLE_ROUTE_SIGN
    }

    /// # New head
    ///
    /// Creates a new head node, with segment `/`, no children, no middleware
    /// and no handler.
    pub fn new_head() -> (r: Self)
        ensures
            r.part() == "/"@,
            r.kids().len() == 0,
            r.handler() is None,
            r.layers().len() == 0,
    {
        Node {
            children: Vec::new(),
            route_part: copy_string("/"),
            middleware: Vec::new(),
            request_closure: None,
        }
    }

    fn find_exact(&self, seg: &[char], method: &HttpMethod) -> (r: Option<usize>)
        ensures
            match r {
                Some(i) => i as int == exact_index(self.kids(), seg@, method@),
                None => exact_index(self.kids(), seg@, method@) == -1,
            },
    {
        let mut i: usize = 0;
        while i < self.children.len()
            invariant
                i <= self.children@.len(),
                forall|j: int| 0 <= j < i ==> !edge_is(#[trigger] self.kids()[j], seg@, method@),
            decreases self.children@.len() - i,
        {
            let e = &self.children[i];
            let part = chars_of(e.node.route_part.as_str());
            if chars_eq(part.as_slice(), seg) && e.method.same(method) {
                proof {
                    lemma_exact_index_is(self.kids(), seg@, method@, i as int);
                }
                return Some(i);
            }
            i = i + 1;
        }
        assert forall|p: int| !first_exact(self.kids(), seg@, method@, p) by {
            if first_exact(self.kids(), seg@, method@, p) {
                assert(!edge_is(self.kids()[p], seg@, method@));
            }
        }
        None
    }

    fn find_variable(&self, method: &HttpMethod) -> (r: Option<usize>)
        ensures
            match r {
                Some(i) => i as int == variable_index(self.kids(), method@),
                None => variable_index(self.kids(), method@) == -1,
            },
    {
        let mut i: usize = 0;
        while i < self.children.len()
            invariant
                i <= self.children@.len(),
                forall|j: int| 0 <= j < i ==> !edge_is_variable(#[trigger] self.kids()[j], method@),
            decreases self.children@.len() - i,
        {
            let e = &self.children[i];
            if e.method.same(method) && e.node.is_variable() {
                proof {
                    lemma_first_variable_unique(
                        self.kids(),
                        method@,
                        i as int,
                        variable_index(self.kids(), method@),
                    );
                }
                return Some(i);
            }
            i = i + 1;
        }
        assert forall|p: int| !first_variable(self.kids(), method@, p) by {
            if first_variable(self.kids(), method@, p) {
                assert(!edge_is_variable(self.kids()[p], method@));
            }
        }
        None
    }

    /// # Add Child
    ///
    /// Adds a new child node to this node with a given method and route part.
    /// An empty part is refused with `BadName`; a child for the same part and
    /// method that already holds a handler is refused with `AlreadyExist`;
    /// otherwise the new child replaces any child for that part and method,
    /// or is appended.
    pub fn add_child(
        &mut self,
        method: HttpMethod,
        route_part: &str,
        middleware: Vec<M>,
        request_closure: Option<H>,
    ) -> (r: Result<(), RouterError>)
        ensures
            r == add_child_result(*old(self), route_part@, method@),
            r is Err ==> *final(self) == *old(self),
            r is Ok ==> child_added(
                *old(self),
                *final(self),
                route_part@,
                method@,
                middleware@,
                request_closure,
            ),
    {
        let part = chars_of(route_part);
        if part.len() == 0 {
            return Err(RouterError::BadName);
        }
        let ghost mw = middleware@;
        let node = Node {
            children: Vec::new(),
            route_part: string_of(part.as_slice()),
            middleware,
            request_closure,
        };
        match self.find_exact(part.as_slice(), &method) {
            Some(i) => {
                if self.children[i].node.request_closure.is_some() {
                    return Err(RouterError::AlreadyExist);
                }
                self.children.remove(i);
                self.children.insert(i, Edge { method, node });
                assert(self.children@ == old(self).children@.update(i as int, self.children@[i as int]));
            },
            None => {
                self.children.push(Edge { method, node });
            },
        }
        Ok(())
    }

    /// Adds an empty child node (no middleware, no handler).
    pub fn add_empty_child(&mut self, method: HttpMethod, route_part: &str) -> (r: Result<(), RouterError>)
        ensures
            r == add_child_result(*old(self), route_part@, method@),
            r is Err ==> *final(self) == *old(self),
            r is Ok ==> child_added(
                *old(self),
                *final(self),
                route_part@,
                method@,
                Seq::<M>::empty(),
                None,
            ),
    {
        self.add_child(method, route_part, Vec::new(), None)
    }

    /// # Get Child
    ///
    /// The child reached by `route_part` under `method`. If no child holds
    /// exactly that part, a variable child under `method` is returned instead.
    pub fn get_child(&self, route_part: &str, method: &HttpMethod) -> (r: Option<&Node<H, M>>)
        ensures
            ({
                let i = child_index(self.kids(), route_part@, method@);
                if i < 0 {
                    r is None
                } else {
                    r matches Some(c) && *c == self.kids()[i].node
                }
            }),
    {
        let part = chars_of(route_part);
        match self.find_exact(part.as_slice(), method) {
            Some(i) => Some(&self.children[i].node),
            None => match self.find_variable(method) {
                Some(i) => Some(&self.children[i].node),
                None => None,
            },
        }
    }

    /// # Middleware
    ///
    /// The middleware that is associated with this node.
    pub fn middleware(&self) -> (r: &Vec<M>)
        ensures
            r@ == self.layers(),
    {
        &self.middleware
    }

    /// # Request Function
    ///
    /// The handler that should be invoked to produce a response when a
    /// request matches this node, or `None` for a purely intermediate node.
    pub fn request_fn(&self) -> (r: Option<&H>)
        ensures
            match self.handler() {
                Some(h) => r matches Some(x) && *x == h,
                None => r is None,
            },
    {
        match &self.request_closure {
            Some(c) => Some(c),
            None => None,
        }
    }

    /// # Middleware Mut
    ///
    /// A mutable reference to the middleware of the node.
    pub fn middleware_mut(&mut self) -> (r: &mut Vec<M>)
        ensures
            r@ == old(self).layers(),
            final(self).layers() == final(r)@,
            final(self).kids() == old(self).kids(),
            final(self).part() == old(self).part(),
            final(self).handler() == old(self).handler(),
    {
        &mut self.middleware
    }

    /// # Set Request Fn
    ///
    /// Sets the handler that controls how the request responds.
    pub fn set_request_fn(&mut self, request: Option<H>)
        ensures
            final(self).handler() == request,
            final(self).layers() == old(self).layers(),
            final(self).kids() == old(self).kids(),
            final(self).part() == old(self).part(),
    {
        self.request_closure = request;
    }

    /// # Route
    ///
    /// The route segment that is associated with this node.
    pub fn route(&self) -> (r: &str)
        ensures
            r@ == self.part(),
    {
        self.route_part.as_str()
    }

    /// Whether a handler is registered at exactly `segs[k..]` under `method`.
    pub(crate) fn is_taken(&self, segs: &Vec<Vec<char>>, k: usize, method: &HttpMethod) -> (r: bool)
        requires
            k <= segs@.len(),
        ensures
            r == taken(*self, views(segs@).skip(k as int), method@),
        decreases segs@.len() - k,
    {
        let ghost ss = views(segs@).skip(k as int);
        if k == segs.len() {
            return self.request_closure.is_some();
        }
        assert(ss[0] == segs@[k as int]@);
        assert(ss.drop_first() == views(segs@).skip(k + 1));
        match self.find_exact(segs[k].as_slice(), method) {
            None => false,
            Some(i) => self.children[i].node.is_taken(segs, k + 1, method),
        }
    }

    /// A fresh chain of nodes for `segs[k..]`, the last one holding the
    /// handler and the middleware.
    fn chain(segs: &Vec<Vec<char>>, k: usize, method: &HttpMethod, middleware: Vec<M>, handler: H) -> (r: Node<H, M>)
        requires
            k < segs@.len(),
        ensures
            fresh_chain(r, views(segs@).skip(k as int), method@, handler, middleware@),
        decreases segs@.len() - k,
    {
        let ghost ss = views(segs@).skip(k as int);
        assert(ss[0] == segs@[k as int]@);
        let part = string_of(segs[k].as_slice());
        if k == segs.len() - 1 {
            Node { children: Vec::new(), route_part: part, middleware, request_closure: Some(handler) }
        } else {
            assert(ss.drop_first() == views(segs@).skip(k + 1));
            let child = Node::chain(segs, k + 1, method, middleware, handler);
            let mut children: Vec<Edge<H, M>> = Vec::new();
            children.push(Edge { method: method.clone(), node: child });
            Node { children, route_part: part, middleware: Vec::new(), request_closure: None }
        }
    }

    /// Registers `handler` and `middleware` at the segments `segs[k..]` under
    /// `method`, creating the missing nodes on the way.
    pub(crate) fn attach_route(
        &mut self,
        segs: &Vec<Vec<char>>,
        k: usize,
        method: &HttpMethod,
        middleware: Vec<M>,
        handler: H,
    )
        requires
            k < segs@.len(),
            !taken(*old(self), views(segs@).skip(k as int), method@),
        ensures
            inserted(
                *old(self),
                *final(self),
                views(segs@).skip(k as int),
                method@,
                handler,
                middleware@,
            ),
        decreases segs@.len() - k,
    {
        let ghost ss = views(segs@).skip(k as int);
        assert(ss[0] == segs@[k as int]@);
        match self.find_exact(segs[k].as_slice(), method) {
            Some(i) => {
                let mut edge = self.children.remove(i);
                assert(edge == old(self).kids()[i as int]);
                if k == segs.len() - 1 {
                    edge.node.request_closure = Some(handler);
                    edge.node.middleware = middleware;
                } else {
                    assert(ss.drop_first() == views(segs@).skip(k + 1));
                    edge.node.attach_route(segs, k + 1, method, middleware, handler);
                }
                self.children.insert(i, edge);
                assert(self.children@ == old(self).children@.update(i as int, self.children@[i as int]));
            },
            None => {
                let child = Node::chain(segs, k, method, middleware, handler);
                self.children.push(Edge { method: method.clone(), node: child });
            },
        }
    }
}

} // verus!
