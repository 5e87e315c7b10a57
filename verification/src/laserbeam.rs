//! A mutable typed cursor into a single-owner tree, and the leaves a dispatch completes to.
//!
//! A [`PathMut`] holds its parent and a projection down to a child. You read or write the child
//! through [`PathMut::get_mut`], and walk back up with [`PathMut::into_parent`], holding exactly one
//! live `&mut` at a time.

use vstd::prelude::*;

verus! {

/// Re-derives a node from its parent, once to write it and once to read it. The two address the
/// same node.
pub trait Project<Parent, Node> {
    /// The node this projection addresses in `parent`. A projection that states nothing about it
    /// leaves it unknown.
    open spec fn focus(&self, parent: Parent) -> Node {
        vstd::pervasive::arbitrary()
    }

    /// `parent` with the node this projection addresses replaced by `node`, and the rest of it as
    /// it was. A projection that states nothing about it leaves it unknown.
    open spec fn put(&self, parent: Parent, node: Node) -> Parent {
        vstd::pervasive::arbitrary()
    }

    /// The node, to write: what is handed out is the focused node, whatever is written through it
    /// is the focused node of the parent afterwards, and the parent afterwards is the one it was
    /// with that node put in place.
    fn project_mut<'p>(&self, parent: &'p mut Parent) -> (r: &'p mut Node)
        ensures
            *r == self.focus(*old(parent)),
            self.focus(*final(parent)) == *final(r),
            *final(parent) == self.put(*old(parent), *final(r)),
    ;

    /// The node, to read: the focused node.
    fn project<'p>(&self, parent: &'p Parent) -> (r: &'p Node)
        ensures
            *r == self.focus(*parent),
    ;
}

/// A typed, mutable path to a `Node`: its owned `Parent` plus the projection that re-derives the
/// `Node` from that parent.
///
/// The `Parent` is private, so the only way up is [`into_parent`](PathMut::into_parent), which
/// consumes the path.
#[verifier::reject_recursive_types(Parent)]
#[verifier::reject_recursive_types(Node)]
pub struct PathMut<Node, Parent> {
    parent: Parent,
    projection: Box<dyn Project<Parent, Node>>,
}

impl<Node, Parent> PathMut<Node, Parent> {
    /// The parent this path holds.
    pub closed spec fn parent_spec(&self) -> Parent {
        self.parent
    }

    /// Builds a path from a parent and the projection that addresses the node in it.
    pub fn from_fn<Proj: Project<Parent, Node> + 'static>(parent: Parent, projection: Proj) -> (r: Self)
        ensures
            r.parent_spec() == parent,
    {
        let r = PathMut { parent, projection: Box::new(projection) };
        r
    }

    /// Builds a path from a parent and a boxed projection, which may carry data of its own, such
    /// as an index.
    pub fn from_box(parent: Parent, projection: Box<dyn Project<Parent, Node>>) -> (r: Self)
        ensures
            r.parent_spec() == parent,
    {
        let r = PathMut { parent, projection };
        r
    }

    /// The node this path focuses: what its projection addresses in its parent.
    pub closed spec fn node_spec(&self) -> Node {
        self.projection.focus(self.parent)
    }

    /// This path's parent with the focused node replaced by `node`, and the rest of it as it was.
    pub closed spec fn with_node(&self, node: Node) -> Parent {
        self.projection.put(self.parent, node)
    }

    /// The projection this path re-derives its node with.
    pub closed spec fn projection_spec(&self) -> &dyn Project<Parent, Node> {
        &*self.projection
    }

    /// A shared reference to the focused node, re-derived from the parent.
    pub fn get(&self) -> (r: &Node)
        ensures
            *r == self.node_spec(),
    {
        self.projection.project(&self.parent)
    }

    /// A mutable reference to the focused node, re-derived from the parent. What is written through
    /// it is the focused node afterwards, the parent afterwards is the one it was with that node put
    /// in place, and the path keeps its projection.
    pub fn get_mut(&mut self) -> (r: &mut Node)
        ensures
            *r == old(self).node_spec(),
            final(self).node_spec() == *final(r),
            final(self).parent_spec() == old(self).with_node(*final(r)),
            final(self).projection_spec() == old(self).projection_spec(),
    {
        self.projection.project_mut(&mut self.parent)
    }

    /// A shared reference to the parent path, without consuming this one.
    pub fn parent(&self) -> (r: &Parent)
        ensures
            *r == self.parent_spec(),
    {
        &self.parent
    }

    /// Consumes the path and returns the parent, moving one level up the tree.
    pub fn into_parent(self) -> (r: Parent)
        ensures
            r == self.parent_spec(),
    {
        let PathMut { parent, projection: _ } = self;
        parent
    }

    /// Walk up to `Target` by shared reference, naming it.
    pub fn ancestor<Target>(&self) -> (r: &Target)
        where
            Self: HasAncestor<Target>,
        ensures
            *r == self.ancestor_spec(),
    {
        HasAncestor::ancestor(self)
    }

    /// Walk up to `Target`, consuming the path, naming it.
    pub fn into_ancestor<Target>(self) -> (r: Target)
        where
            Self: IntoAncestor<Target>,
        ensures
            r == self.ancestor_spec(),
    {
        IntoAncestor::into_ancestor(self)
    }
}

/// Walk up a path to an ancestor by shared reference. Implemented for every path and for each of
/// its ancestors, to twelve levels.
pub trait HasAncestor<Target> {
    /// The ancestor this walk arrives at.
    spec fn ancestor_spec(&self) -> Target;

    fn ancestor(&self) -> (r: &Target)
        ensures
            *r == self.ancestor_spec(),
    ;
}

/// Walk up a path to an ancestor, consuming it: the mirror of [`HasAncestor`], for a handler that
/// walks up to mutate.
pub trait IntoAncestor<Target>: HasAncestor<Target> {
    fn into_ancestor(self) -> (r: Target)
        ensures
            r == self.ancestor_spec(),
    ;
}

/// Every path is its own ancestor, at depth zero.
impl<T> HasAncestor<T> for T {
    open spec fn ancestor_spec(&self) -> T {
        *self
    }

    fn ancestor(&self) -> (r: &T) {
        self
    }
}

impl<T> IntoAncestor<T> for T {
    fn into_ancestor(self) -> (r: T) {
        let r = self;
        r
    }
}

/// The ancestor 1 level up.
impl<T, N0> HasAncestor<T> for PathMut<N0, T> {
    open spec fn ancestor_spec(&self) -> T {
        self.parent_spec()
    }

    fn ancestor(&self) -> (r: &T) {
        self.parent()
    }
}

impl<T, N0> IntoAncestor<T> for PathMut<N0, T> {
    fn into_ancestor(self) -> (r: T) {

        let p0 = self;
        let p1 = p0.into_parent();
        p1
    }
}

/// The ancestor 2 levels up.
impl<T, N0, N1> HasAncestor<T> for PathMut<N0, PathMut<N1, T>> {
    open spec fn ancestor_spec(&self) -> T {
        self.parent_spec().parent_spec()
    }

    fn ancestor(&self) -> (r: &T) {
        self.parent().parent()
    }
}

impl<T, N0, N1> IntoAncestor<T> for PathMut<N0, PathMut<N1, T>> {
    fn into_ancestor(self) -> (r: T) {

        let p0 = self;
        let p1 = p0.into_parent();
        let p2 = p1.into_parent();
        p2
    }
}

/// The ancestor 3 levels up.
impl<T, N0, N1, N2> HasAncestor<T> for PathMut<N0, PathMut<N1, PathMut<N2, T>>> {
    open spec fn ancestor_spec(&self) -> T {
        self.parent_spec().parent_spec().parent_spec()
    }

    fn ancestor(&self) -> (r: &T) {
        self.parent().parent().parent()
    }
}

impl<T, N0, N1, N2> IntoAncestor<T> for PathMut<N0, PathMut<N1, PathMut<N2, T>>> {
    fn into_ancestor(self) -> (r: T) {

        let p0 = self;
        let p1 = p0.into_parent();
        let p2 = p1.into_parent();
        let p3 = p2.into_parent();
        p3
    }
}

/// The ancestor 4 levels up.
impl<T, N0, N1, N2, N3> HasAncestor<T> for PathMut<N0, PathMut<N1, PathMut<N2, PathMut<N3, T>>>> {
    open spec fn ancestor_spec(&self) -> T {
        self.parent_spec().parent_spec().parent_spec().parent_spec()
    }

    fn ancestor(&self) -> (r: &T) {
        self.parent().parent().parent().parent()
    }
}

impl<T, N0, N1, N2, N3> IntoAncestor<T> for PathMut<N0, PathMut<N1, PathMut<N2, PathMut<N3, T>>>> {
    fn into_ancestor(self) -> (r: T) {

        let p0 = self;
        let p1 = p0.into_parent();
        let p2 = p1.into_parent();
        let p3 = p2.into_parent();
        let p4 = p3.into_parent();
        p4
    }
}

/// The ancestor 5 levels up.
impl<T, N0, N1, N2, N3, N4> HasAncestor<T> for PathMut<N0, PathMut<N1, PathMut<N2, PathMut<N3, PathMut<N4, T>>>>> {
    open spec fn ancestor_spec(&self) -> T {
        self.parent_spec().parent_spec().parent_spec().parent_spec().parent_spec()
    }

    fn ancestor(&self) -> (r: &T) {
        self.parent().parent().parent().parent().parent()
    }
}

impl<T, N0, N1, N2, N3, N4> IntoAncestor<T> for PathMut<N0, PathMut<N1, PathMut<N2, PathMut<N3, PathMut<N4, T>>>>> {
    fn into_ancestor(self) -> (r: T) {

        let p0 = self;
        let p1 = p0.into_parent();
        let p2 = p1.into_parent();
        let p3 = p2.into_parent();
        let p4 = p3.into_parent();
        let p5 = p4.into_parent();
        p5
    }
}

/// The ancestor 6 levels up.
impl<T, N0, N1, N2, N3, N4, N5> HasAncestor<T> for PathMut<N0, PathMut<N1, PathMut<N2, PathMut<N3, PathMut<N4, PathMut<N5, T>>>>>> {
    open spec fn ancestor_spec(&self) -> T {
        self.parent_spec().parent_spec().parent_spec().parent_spec().parent_spec().parent_spec()
    }

    fn ancestor(&self) -> (r: &T) {
        self.parent().parent().parent().parent().parent().parent()
    }
}

impl<T, N0, N1, N2, N3, N4, N5> IntoAncestor<T> for PathMut<N0, PathMut<N1, PathMut<N2, PathMut<N3, PathMut<N4, PathMut<N5, T>>>>>> {
    fn into_ancestor(self) -> (r: T) {

        let p0 = self;
        let p1 = p0.into_parent();
        let p2 = p1.into_parent();
        let p3 = p2.into_parent();
        let p4 = p3.into_parent();
        let p5 = p4.into_parent();
        let p6 = p5.into_parent();
        p6
    }
}

/// The ancestor 7 levels up.
impl<T, N0, N1, N2, N3, N4, N5, N6> HasAncestor<T> for PathMut<N0, PathMut<N1, PathMut<N2, PathMut<N3, PathMut<N4, PathMut<N5, PathMut<N6, T>>>>>>> {
    open spec fn ancestor_spec(&self) -> T {
        self.parent_spec().parent_spec().parent_spec().parent_spec().parent_spec().parent_spec().parent_spec()
    }

    fn ancestor(&self) -> (r: &T) {
        self.parent().parent().parent().parent().parent().parent().parent()
    }
}

impl<T, N0, N1, N2, N3, N4, N5, N6> IntoAncestor<T> for PathMut<N0, PathMut<N1, PathMut<N2, PathMut<N3, PathMut<N4, PathMut<N5, PathMut<N6, T>>>>>>> {
    fn into_ancestor(self) -> (r: T) {

        let p0 = self;
        let p1 = p0.into_parent();
        let p2 = p1.into_parent();
        let p3 = p2.into_parent();
        let p4 = p3.into_parent();
        let p5 = p4.into_parent();
        let p6 = p5.into_parent();
        let p7 = p6.into_parent();
        p7
    }
}

/// The ancestor 8 levels up.
impl<T, N0, N1, N2, N3, N4, N5, N6, N7> HasAncestor<T> for PathMut<N0, PathMut<N1, PathMut<N2, PathMut<N3, PathMut<N4, PathMut<N5, PathMut<N6, PathMut<N7, T>>>>>>>> {
    open spec fn ancestor_spec(&self) -> T {
        self.parent_spec().parent_spec().parent_spec().parent_spec().parent_spec().parent_spec().parent_spec().parent_spec()
    }

    fn ancestor(&self) -> (r: &T) {
        self.parent().parent().parent().parent().parent().parent().parent().parent()
    }
}

impl<T, N0, N1, N2, N3, N4, N5, N6, N7> IntoAncestor<T> for PathMut<N0, PathMut<N1, PathMut<N2, PathMut<N3, PathMut<N4, PathMut<N5, PathMut<N6, PathMut<N7, T>>>>>>>> {
    fn into_ancestor(self) -> (r: T) {

        let p0 = self;
        let p1 = p0.into_parent();
        let p2 = p1.into_parent();
        let p3 = p2.into_parent();
        let p4 = p3.into_parent();
        let p5 = p4.into_parent();
        let p6 = p5.into_parent();
        let p7 = p6.into_parent();
        let p8 = p7.into_parent();
        p8
    }
}

/// The ancestor 9 levels up.
impl<T, N0, N1, N2, N3, N4, N5, N6, N7, N8> HasAncestor<T> for PathMut<N0, PathMut<N1, PathMut<N2, PathMut<N3, PathMut<N4, PathMut<N5, PathMut<N6, PathMut<N7, PathMut<N8, T>>>>>>>>> {
    open spec fn ancestor_spec(&self) -> T {
        self.parent_spec().parent_spec().parent_spec().parent_spec().parent_spec().parent_spec().parent_spec().parent_spec().parent_spec()
    }

    fn ancestor(&self) -> (r: &T) {
        self.parent().parent().parent().parent().parent().parent().parent().parent().parent()
    }
}

impl<T, N0, N1, N2, N3, N4, N5, N6, N7, N8> IntoAncestor<T> for PathMut<N0, PathMut<N1, PathMut<N2, PathMut<N3, PathMut<N4, PathMut<N5, PathMut<N6, PathMut<N7, PathMut<N8, T>>>>>>>>> {
    fn into_ancestor(self) -> (r: T) {

        let p0 = self;
        let p1 = p0.into_parent();
        let p2 = p1.into_parent();
        let p3 = p2.into_parent();
        let p4 = p3.into_parent();
        let p5 = p4.into_parent();
        let p6 = p5.into_parent();
        let p7 = p6.into_parent();
        let p8 = p7.into_parent();
        let p9 = p8.into_parent();
        p9
    }
}

/// The ancestor 10 levels up.
impl<T, N0, N1, N2, N3, N4, N5, N6, N7, N8, N9> HasAncestor<T> for PathMut<N0, PathMut<N1, PathMut<N2, PathMut<N3, PathMut<N4, PathMut<N5, PathMut<N6, PathMut<N7, PathMut<N8, PathMut<N9, T>>>>>>>>>> {
    open spec fn ancestor_spec(&self) -> T {
        self.parent_spec().parent_spec().parent_spec().parent_spec().parent_spec().parent_spec().parent_spec().parent_spec().parent_spec().parent_spec()
    }

    fn ancestor(&self) -> (r: &T) {
        self.parent().parent().parent().parent().parent().parent().parent().parent().parent().parent()
    }
}

impl<T, N0, N1, N2, N3, N4, N5, N6, N7, N8, N9> IntoAncestor<T> for PathMut<N0, PathMut<N1, PathMut<N2, PathMut<N3, PathMut<N4, PathMut<N5, PathMut<N6, PathMut<N7, PathMut<N8, PathMut<N9, T>>>>>>>>>> {
    fn into_ancestor(self) -> (r: T) {

        let p0 = self;
        let p1 = p0.into_parent();
        let p2 = p1.into_parent();
        let p3 = p2.into_parent();
        let p4 = p3.into_parent();
        let p5 = p4.into_parent();
        let p6 = p5.into_parent();
        let p7 = p6.into_parent();
        let p8 = p7.into_parent();
        let p9 = p8.into_parent();
        let p10 = p9.into_parent();
        p10
    }
}

/// The ancestor 11 levels up.
impl<T, N0, N1, N2, N3, N4, N5, N6, N7, N8, N9, N10> HasAncestor<T> for PathMut<N0, PathMut<N1, PathMut<N2, PathMut<N3, PathMut<N4, PathMut<N5, PathMut<N6, PathMut<N7, PathMut<N8, PathMut<N9, PathMut<N10, T>>>>>>>>>>> {
    open spec fn ancestor_spec(&self) -> T {
        self.parent_spec().parent_spec().parent_spec().parent_spec().parent_spec().parent_spec().parent_spec().parent_spec().parent_spec().parent_spec().parent_spec()
    }

    fn ancestor(&self) -> (r: &T) {
        self.parent().parent().parent().parent().parent().parent().parent().parent().parent().parent().parent()
    }
}

impl<T, N0, N1, N2, N3, N4, N5, N6, N7, N8, N9, N10> IntoAncestor<T> for PathMut<N0, PathMut<N1, PathMut<N2, PathMut<N3, PathMut<N4, PathMut<N5, PathMut<N6, PathMut<N7, PathMut<N8, PathMut<N9, PathMut<N10, T>>>>>>>>>>> {
    fn into_ancestor(self) -> (r: T) {

        let p0 = self;
        let p1 = p0.into_parent();
        let p2 = p1.into_parent();
        let p3 = p2.into_parent();
        let p4 = p3.into_parent();
        let p5 = p4.into_parent();
        let p6 = p5.into_parent();
        let p7 = p6.into_parent();
        let p8 = p7.into_parent();
        let p9 = p8.into_parent();
        let p10 = p9.into_parent();
        let p11 = p10.into_parent();
        p11
    }
}

/// The ancestor 12 levels up.
impl<T, N0, N1, N2, N3, N4, N5, N6, N7, N8, N9, N10, N11> HasAncestor<T> for PathMut<N0, PathMut<N1, PathMut<N2, PathMut<N3, PathMut<N4, PathMut<N5, PathMut<N6, PathMut<N7, PathMut<N8, PathMut<N9, PathMut<N10, PathMut<N11, T>>>>>>>>>>>> {
    open spec fn ancestor_spec(&self) -> T {
        self.parent_spec().parent_spec().parent_spec().parent_spec().parent_spec().parent_spec().parent_spec().parent_spec().parent_spec().parent_spec().parent_spec().parent_spec()
    }

    fn ancestor(&self) -> (r: &T) {
        self.parent().parent().parent().parent().parent().parent().parent().parent().parent().parent().parent().parent()
    }
}

impl<T, N0, N1, N2, N3, N4, N5, N6, N7, N8, N9, N10, N11> IntoAncestor<T> for PathMut<N0, PathMut<N1, PathMut<N2, PathMut<N3, PathMut<N4, PathMut<N5, PathMut<N6, PathMut<N7, PathMut<N8, PathMut<N9, PathMut<N10, PathMut<N11, T>>>>>>>>>>>> {
    fn into_ancestor(self) -> (r: T) {

        let p0 = self;
        let p1 = p0.into_parent();
        let p2 = p1.into_parent();
        let p3 = p2.into_parent();
        let p4 = p3.into_parent();
        let p5 = p4.into_parent();
        let p6 = p5.into_parent();
        let p7 = p6.into_parent();
        let p8 = p7.into_parent();
        let p9 = p8.into_parent();
        let p10 = p9.into_parent();
        let p11 = p10.into_parent();
        let p12 = p11.into_parent();
        p12
    }
}

/// A node's path type: the bare exclusive borrow for the root, and for a node reached through a
/// child, the node over its parent's path.
pub trait HasPath {
    type Path<'a> where Self: 'a;
}

/// Where a leave stopped: at this path, or somewhere further up.
pub enum Stop<H, U> {
    Here(H),
    Up(U),
}

/// What a completed leave hands upward once it has peeled past a child of this path.
pub trait Above {
    type Up;
}

impl<'a, R> Above for &'a mut R {
    type Up = &'a mut R;
}

impl<N, P: Above> Above for PathMut<N, P> {
    type Up = Completed<PathMut<N, P>>;
}

/// A path's stop layer: stopped here, or went above. A root path can only stop at itself, so its
/// layer is the bare path.
pub trait HasStop: Sized {
    type Stop;

    /// The path a leave that stopped at `stop` left standing here, or `None` when the leave went
    /// above this path.
    spec fn stopped_here(stop: Self::Stop) -> Option<Self>;

    /// A completed leave, as the state it leaves behind at this path: the path when the leave
    /// stopped here, and otherwise the leave itself, handed on unchanged.
    fn to_maybe_invalidated(completed: Completed<Self>) -> (r: MaybeInvalidated<Self>)
        ensures
            match Self::stopped_here(completed.stop) {
                Some(p) => r == MaybeInvalidated::NotInvalidated(p),
                None => r == MaybeInvalidated::Invalidated(completed),
            },
    ;
}

impl<N, P: Above> HasStop for PathMut<N, P> {
    type Stop = Stop<PathMut<N, P>, P::Up>;

    open spec fn stopped_here(stop: Self::Stop) -> Option<Self> {
        match stop {
            Stop::Here(path) => Some(path),
            Stop::Up(_) => None,
        }
    }

    fn to_maybe_invalidated(completed: Completed<Self>) -> (r: MaybeInvalidated<Self>) {
        match completed.stop {
            Stop::Here(path) => MaybeInvalidated::NotInvalidated(path),
            Stop::Up(rest) => MaybeInvalidated::Invalidated(Completed { stop: Stop::Up(rest) }),
        }
    }
}

impl<'a, R> HasStop for &'a mut R {
    type Stop = &'a mut R;

    open spec fn stopped_here(stop: Self::Stop) -> Option<Self> {
        Some(stop)
    }

    fn to_maybe_invalidated(completed: Completed<Self>) -> (r: MaybeInvalidated<Self>) {
        let Completed { stop } = completed;
        let r = MaybeInvalidated::NotInvalidated(stop);
        r
    }
}

/// Have we destroyed the path we need?
pub enum MaybeInvalidated<P: HasStop> {
    NotInvalidated(P),
    Invalidated(Completed<P>),
}

/// A leave, as the state it leaves behind at its origin: the origin standing when the leave
/// stopped there, and otherwise the leave itself, still to forward.
pub open spec fn fold<P: HasStop>(c: Completed<P>) -> MaybeInvalidated<P> {
    match P::stopped_here(c.stop) {
        Some(p) => MaybeInvalidated::NotInvalidated(p),
        None => MaybeInvalidated::Invalidated(c),
    }
}

/// A completed leave from origin `P`: where the peeling stopped.
pub struct Completed<P: HasStop> {
    pub stop: P::Stop,
}

impl<P: HasStop> Completed<P> {
    fn new(stop: P::Stop) -> (r: Self)
        ensures
            r.stop == stop,
    {
        Completed { stop }
    }

    pub fn into_inner(self) -> (r: P::Stop)
        ensures
            r == self.stop,
    {
        self.stop
    }

    pub fn to_maybe_invalidated(self) -> (r: MaybeInvalidated<P>)
        ensures
            r == fold(self),
    {
        P::to_maybe_invalidated(self)
    }
}

impl<N, Par: Above> Completed<PathMut<N, Par>> {
    pub fn up(above: Par::Up) -> (r: Self)
        ensures
            r.stop == Stop::<PathMut<N, Par>, Par::Up>::Up(above),
    {
        Self::new(Stop::Up(above))
    }
}


/// Complete a leave from origin `O` at this path: wrap the focus into `Completed<O>` at its
/// position on the chain from `O`. One impl per peel distance, for a focus still on the chain and
/// for a focus at the root.
pub trait CompletesTo<O: HasStop> {
    /// Where the leave stops, seen from `O`.
    spec fn completion(self) -> O::Stop;

    fn complete(self) -> (r: Completed<O>)
        ensures
            r.stop == self.completion(),
    ;
}

/// Stopping at the origin: zero peels, at every depth.
impl<N, P: Above> CompletesTo<PathMut<N, P>> for PathMut<N, P> {
    open spec fn completion(self) -> Stop<PathMut<N, P>, P::Up> {
        Stop::Here(self)
    }

    fn complete(self) -> (r: Completed<PathMut<N, P>>) {
        let r = Completed { stop: Stop::Here(self) };
        r
    }
}

/// Stopping at the root, for a leave that began there: the bare path.
impl<'a, R> CompletesTo<&'a mut R> for &'a mut R {
    open spec fn completion(self) -> &'a mut R {
        self
    }

    fn complete(self) -> (r: Completed<&'a mut R>) {
        let r = Completed { stop: self };
        r
    }
}

/// Completing 1 level above the origin, at a path.
impl<N1, N, P: Above> CompletesTo<PathMut<N1, PathMut<N, P>>> for PathMut<N, P> {
    open spec fn completion(self) -> <PathMut<N1, PathMut<N, P>> as HasStop>::Stop {
        Stop::Up(Completed { stop: Stop::Here(self) })
    }

    fn complete(self) -> (r: Completed<PathMut<N1, PathMut<N, P>>>) {
        let r = Completed { stop: Stop::Up(Completed { stop: Stop::Here(self) }) };
        r
    }
}

/// Completing 1 level above the origin, at the root.
impl<'a, R, N1> CompletesTo<PathMut<N1, &'a mut R>> for &'a mut R {
    open spec fn completion(self) -> <PathMut<N1, &'a mut R> as HasStop>::Stop {
        Stop::Up(self)
    }

    fn complete(self) -> (r: Completed<PathMut<N1, &'a mut R>>) {
        let r = Completed { stop: Stop::Up(self) };
        r
    }
}

/// Completing 2 levels above the origin, at a path.
impl<N1, N2, N, P: Above> CompletesTo<PathMut<N1, PathMut<N2, PathMut<N, P>>>> for PathMut<N, P> {
    open spec fn completion(self) -> <PathMut<N1, PathMut<N2, PathMut<N, P>>> as HasStop>::Stop {
        Stop::Up(Completed { stop: Stop::Up(Completed { stop: Stop::Here(self) }) })
    }

    fn complete(self) -> (r: Completed<PathMut<N1, PathMut<N2, PathMut<N, P>>>>) {
        let r = Completed { stop: Stop::Up(Completed { stop: Stop::Up(Completed { stop: Stop::Here(self) }) }) };
        r
    }
}

/// Completing 2 levels above the origin, at the root.
impl<'a, R, N1, N2> CompletesTo<PathMut<N1, PathMut<N2, &'a mut R>>> for &'a mut R {
    open spec fn completion(self) -> <PathMut<N1, PathMut<N2, &'a mut R>> as HasStop>::Stop {
        Stop::Up(Completed { stop: Stop::Up(self) })
    }

    fn complete(self) -> (r: Completed<PathMut<N1, PathMut<N2, &'a mut R>>>) {
        let r = Completed { stop: Stop::Up(Completed { stop: Stop::Up(self) }) };
        r
    }
}

/// Completing 3 levels above the origin, at a path.
impl<N1, N2, N3, N, P: Above> CompletesTo<PathMut<N1, PathMut<N2, PathMut<N3, PathMut<N, P>>>>> for PathMut<N, P> {
    open spec fn completion(self) -> <PathMut<N1, PathMut<N2, PathMut<N3, PathMut<N, P>>>> as HasStop>::Stop {
        Stop::Up(Completed { stop: Stop::Up(Completed { stop: Stop::Up(Completed { stop: Stop::Here(self) }) }) })
    }

    fn complete(self) -> (r: Completed<PathMut<N1, PathMut<N2, PathMut<N3, PathMut<N, P>>>>>) {
        let r = Completed { stop: Stop::Up(Completed { stop: Stop::Up(Completed { stop: Stop::Up(Completed { stop: Stop::Here(self) }) }) }) };
        r
    }
}

/// Completing 3 levels above the origin, at the root.
impl<'a, R, N1, N2, N3> CompletesTo<PathMut<N1, PathMut<N2, PathMut<N3, &'a mut R>>>> for &'a mut R {
    open spec fn completion(self) -> <PathMut<N1, PathMut<N2, PathMut<N3, &'a mut R>>> as HasStop>::Stop {
        Stop::Up(Completed { stop: Stop::Up(Completed { stop: Stop::Up(self) }) })
    }

    fn complete(self) -> (r: Completed<PathMut<N1, PathMut<N2, PathMut<N3, &'a mut R>>>>) {
        let r = Completed { stop: Stop::Up(Completed { stop: Stop::Up(Completed { stop: Stop::Up(self) }) }) };
        r
    }
}

/// Completing 4 levels above the origin, at a path.
impl<N1, N2, N3, N4, N, P: Above> CompletesTo<PathMut<N1, PathMut<N2, PathMut<N3, PathMut<N4, PathMut<N, P>>>>>> for PathMut<N, P> {
    open spec fn completion(self) -> <PathMut<N1, PathMut<N2, PathMut<N3, PathMut<N4, PathMut<N, P>>>>> as HasStop>::Stop {
        Stop::Up(Completed { stop: Stop::Up(Completed { stop: Stop::Up(Completed { stop: Stop::Up(Completed { stop: Stop::Here(self) }) }) }) })
    }

    fn complete(self) -> (r: Completed<PathMut<N1, PathMut<N2, PathMut<N3, PathMut<N4, PathMut<N, P>>>>>>) {
        let r = Completed { stop: Stop::Up(Completed { stop: Stop::Up(Completed { stop: Stop::Up(Completed { stop: Stop::Up(Completed { stop: Stop::Here(self) }) }) }) }) };
        r
    }
}

/// Completing 4 levels above the origin, at the root.
impl<'a, R, N1, N2, N3, N4> CompletesTo<PathMut<N1, PathMut<N2, PathMut<N3, PathMut<N4, &'a mut R>>>>> for &'a mut R {
    open spec fn completion(self) -> <PathMut<N1, PathMut<N2, PathMut<N3, PathMut<N4, &'a mut R>>>> as HasStop>::Stop {
        Stop::Up(Completed { stop: Stop::Up(Completed { stop: Stop::Up(Completed { stop: Stop::Up(self) }) }) })
    }

    fn complete(self) -> (r: Completed<PathMut<N1, PathMut<N2, PathMut<N3, PathMut<N4, &'a mut R>>>>>) {
        let r = Completed { stop: Stop::Up(Completed { stop: Stop::Up(Completed { stop: Stop::Up(Completed { stop: Stop::Up(self) }) }) }) };
        r
    }
}

/// Completing 5 levels above the origin, at a path.
impl<N1, N2, N3, N4, N5, N, P: Above> CompletesTo<PathMut<N1, PathMut<N2, PathMut<N3, PathMut<N4, PathMut<N5, PathMut<N, P>>>>>>> for PathMut<N, P> {
    open spec fn completion(self) -> <PathMut<N1, PathMut<N2, PathMut<N3, PathMut<N4, PathMut<N5, PathMut<N, P>>>>>> as HasStop>::Stop {
        Stop::Up(Completed { stop: Stop::Up(Completed { stop: Stop::Up(Completed { stop: Stop::Up(Completed { stop: Stop::Up(Completed { stop: Stop::Here(self) }) }) }) }) })
    }

    fn complete(self) -> (r: Completed<PathMut<N1, PathMut<N2, PathMut<N3, PathMut<N4, PathMut<N5, PathMut<N, P>>>>>>>) {
        let r = Completed { stop: Stop::Up(Completed { stop: Stop::Up(Completed { stop: Stop::Up(Completed { stop: Stop::Up(Completed { stop: Stop::Up(Completed { stop: Stop::Here(self) }) }) }) }) }) };
        r
    }
}

/// Completing 5 levels above the origin, at the root.
impl<'a, R, N1, N2, N3, N4, N5> CompletesTo<PathMut<N1, PathMut<N2, PathMut<N3, PathMut<N4, PathMut<N5, &'a mut R>>>>>> for &'a mut R {
    open spec fn completion(self) -> <PathMut<N1, PathMut<N2, PathMut<N3, PathMut<N4, PathMut<N5, &'a mut R>>>>> as HasStop>::Stop {
        Stop::Up(Completed { stop: Stop::Up(Completed { stop: Stop::Up(Completed { stop: Stop::Up(Completed { stop: Stop::Up(self) }) }) }) })
    }

    fn complete(self) -> (r: Completed<PathMut<N1, PathMut<N2, PathMut<N3, PathMut<N4, PathMut<N5, &'a mut R>>>>>>) {
        let r = Completed { stop: Stop::Up(Completed { stop: Stop::Up(Completed { stop: Stop::Up(Completed { stop: Stop::Up(Completed { stop: Stop::Up(self) }) }) }) }) };
        r
    }
}

/// Completing 6 levels above the origin, at a path.
impl<N1, N2, N3, N4, N5, N6, N, P: Above> CompletesTo<PathMut<N1, PathMut<N2, PathMut<N3, PathMut<N4, PathMut<N5, PathMut<N6, PathMut<N, P>>>>>>>> for PathMut<N, P> {
    open spec fn completion(self) -> <PathMut<N1, PathMut<N2, PathMut<N3, PathMut<N4, PathMut<N5, PathMut<N6, PathMut<N, P>>>>>>> as HasStop>::Stop {
        Stop::Up(Completed { stop: Stop::Up(Completed { stop: Stop::Up(Completed { stop: Stop::Up(Completed { stop: Stop::Up(Completed { stop: Stop::Up(Completed { stop: Stop::Here(self) }) }) }) }) }) })
    }

    fn complete(self) -> (r: Completed<PathMut<N1, PathMut<N2, PathMut<N3, PathMut<N4, PathMut<N5, PathMut<N6, PathMut<N, P>>>>>>>>) {
        let r = Completed { stop: Stop::Up(Completed { stop: Stop::Up(Completed { stop: Stop::Up(Completed { stop: Stop::Up(Completed { stop: Stop::Up(Completed { stop: Stop::Up(Completed { stop: Stop::Here(self) }) }) }) }) }) }) };
        r
    }
}

/// Completing 6 levels above the origin, at the root.
impl<'a, R, N1, N2, N3, N4, N5, N6> CompletesTo<PathMut<N1, PathMut<N2, PathMut<N3, PathMut<N4, PathMut<N5, PathMut<N6, &'a mut R>>>>>>> for &'a mut R {
    open spec fn completion(self) -> <PathMut<N1, PathMut<N2, PathMut<N3, PathMut<N4, PathMut<N5, PathMut<N6, &'a mut R>>>>>> as HasStop>::Stop {
        Stop::Up(Completed { stop: Stop::Up(Completed { stop: Stop::Up(Completed { stop: Stop::Up(Completed { stop: Stop::Up(Completed { stop: Stop::Up(self) }) }) }) }) })
    }

    fn complete(self) -> (r: Completed<PathMut<N1, PathMut<N2, PathMut<N3, PathMut<N4, PathMut<N5, PathMut<N6, &'a mut R>>>>>>>) {
        let r = Completed { stop: Stop::Up(Completed { stop: Stop::Up(Completed { stop: Stop::Up(Completed { stop: Stop::Up(Completed { stop: Stop::Up(Completed { stop: Stop::Up(self) }) }) }) }) }) };
        r
    }
}

/// Completing 7 levels above the origin, at a path.
impl<N1, N2, N3, N4, N5, N6, N7, N, P: Above> CompletesTo<PathMut<N1, PathMut<N2, PathMut<N3, PathMut<N4, PathMut<N5, PathMut<N6, PathMut<N7, PathMut<N, P>>>>>>>>> for PathMut<N, P> {
    open spec fn completion(self) -> <PathMut<N1, PathMut<N2, PathMut<N3, PathMut<N4, PathMut<N5, PathMut<N6, PathMut<N7, PathMut<N, P>>>>>>>> as HasStop>::Stop {
        Stop::Up(Completed { stop: Stop::Up(Completed { stop: Stop::Up(Completed { stop: Stop::Up(Completed { stop: Stop::Up(Completed { stop: Stop::Up(Completed { stop: Stop::Up(Completed { stop: Stop::Here(self) }) }) }) }) }) }) })
    }

    fn complete(self) -> (r: Completed<PathMut<N1, PathMut<N2, PathMut<N3, PathMut<N4, PathMut<N5, PathMut<N6, PathMut<N7, PathMut<N, P>>>>>>>>>) {
        let r = Completed { stop: Stop::Up(Completed { stop: Stop::Up(Completed { stop: Stop::Up(Completed { stop: Stop::Up(Completed { stop: Stop::Up(Completed { stop: Stop::Up(Completed { stop: Stop::Up(Completed { stop: Stop::Here(self) }) }) }) }) }) }) }) };
        r
    }
}

/// Completing 7 levels above the origin, at the root.
impl<'a, R, N1, N2, N3, N4, N5, N6, N7> CompletesTo<PathMut<N1, PathMut<N2, PathMut<N3, PathMut<N4, PathMut<N5, PathMut<N6, PathMut<N7, &'a mut R>>>>>>>> for &'a mut R {
    open spec fn completion(self) -> <PathMut<N1, PathMut<N2, PathMut<N3, PathMut<N4, PathMut<N5, PathMut<N6, PathMut<N7, &'a mut R>>>>>>> as HasStop>::Stop {
        Stop::Up(Completed { stop: Stop::Up(Completed { stop: Stop::Up(Completed { stop: Stop::Up(Completed { stop: Stop::Up(Completed { stop: Stop::Up(Completed { stop: Stop::Up(self) }) }) }) }) }) })
    }

    fn complete(self) -> (r: Completed<PathMut<N1, PathMut<N2, PathMut<N3, PathMut<N4, PathMut<N5, PathMut<N6, PathMut<N7, &'a mut R>>>>>>>>) {
        let r = Completed { stop: Stop::Up(Completed { stop: Stop::Up(Completed { stop: Stop::Up(Completed { stop: Stop::Up(Completed { stop: Stop::Up(Completed { stop: Stop::Up(Completed { stop: Stop::Up(self) }) }) }) }) }) }) };
        r
    }
}

/// Completing 8 levels above the origin, at a path.
impl<N1, N2, N3, N4, N5, N6, N7, N8, N, P: Above> CompletesTo<PathMut<N1, PathMut<N2, PathMut<N3, PathMut<N4, PathMut<N5, PathMut<N6, PathMut<N7, PathMut<N8, PathMut<N, P>>>>>>>>>> for PathMut<N, P> {
    open spec fn completion(self) -> <PathMut<N1, PathMut<N2, PathMut<N3, PathMut<N4, PathMut<N5, PathMut<N6, PathMut<N7, PathMut<N8, PathMut<N, P>>>>>>>>> as HasStop>::Stop {
        Stop::Up(Completed { stop: Stop::Up(Completed { stop: Stop::Up(Completed { stop: Stop::Up(Completed { stop: Stop::Up(Completed { stop: Stop::Up(Completed { stop: Stop::Up(Completed { stop: Stop::Up(Completed { stop: Stop::Here(self) }) }) }) }) }) }) }) })
    }

    fn complete(self) -> (r: Completed<PathMut<N1, PathMut<N2, PathMut<N3, PathMut<N4, PathMut<N5, PathMut<N6, PathMut<N7, PathMut<N8, PathMut<N, P>>>>>>>>>>) {
        let r = Completed { stop: Stop::Up(Completed { stop: Stop::Up(Completed { stop: Stop::Up(Completed { stop: Stop::Up(Completed { stop: Stop::Up(Completed { stop: Stop::Up(Completed { stop: Stop::Up(Completed { stop: Stop::Up(Completed { stop: Stop::Here(self) }) }) }) }) }) }) }) }) };
        r
    }
}

/// Completing 8 levels above the origin, at the root.
impl<'a, R, N1, N2, N3, N4, N5, N6, N7, N8> CompletesTo<PathMut<N1, PathMut<N2, PathMut<N3, PathMut<N4, PathMut<N5, PathMut<N6, PathMut<N7, PathMut<N8, &'a mut R>>>>>>>>> for &'a mut R {
    open spec fn completion(self) -> <PathMut<N1, PathMut<N2, PathMut<N3, PathMut<N4, PathMut<N5, PathMut<N6, PathMut<N7, PathMut<N8, &'a mut R>>>>>>>> as HasStop>::Stop {
        Stop::Up(Completed { stop: Stop::Up(Completed { stop: Stop::Up(Completed { stop: Stop::Up(Completed { stop: Stop::Up(Completed { stop: Stop::Up(Completed { stop: Stop::Up(Completed { stop: Stop::Up(self) }) }) }) }) }) }) })
    }

    fn complete(self) -> (r: Completed<PathMut<N1, PathMut<N2, PathMut<N3, PathMut<N4, PathMut<N5, PathMut<N6, PathMut<N7, PathMut<N8, &'a mut R>>>>>>>>>) {
        let r = Completed { stop: Stop::Up(Completed { stop: Stop::Up(Completed { stop: Stop::Up(Completed { stop: Stop::Up(Completed { stop: Stop::Up(Completed { stop: Stop::Up(Completed { stop: Stop::Up(Completed { stop: Stop::Up(self) }) }) }) }) }) }) }) };
        r
    }
}

/// Completing 9 levels above the origin, at a path.
impl<N1, N2, N3, N4, N5, N6, N7, N8, N9, N, P: Above> CompletesTo<PathMut<N1, PathMut<N2, PathMut<N3, PathMut<N4, PathMut<N5, PathMut<N6, PathMut<N7, PathMut<N8, PathMut<N9, PathMut<N, P>>>>>>>>>>> for PathMut<N, P> {
    open spec fn completion(self) -> <PathMut<N1, PathMut<N2, PathMut<N3, PathMut<N4, PathMut<N5, PathMut<N6, PathMut<N7, PathMut<N8, PathMut<N9, PathMut<N, P>>>>>>>>>> as HasStop>::Stop {
        Stop::Up(Completed { stop: Stop::Up(Completed { stop: Stop::Up(Completed { stop: Stop::Up(Completed { stop: Stop::Up(Completed { stop: Stop::Up(Completed { stop: Stop::Up(Completed { stop: Stop::Up(Completed { stop: Stop::Up(Completed { stop: Stop::Here(self) }) }) }) }) }) }) }) }) })
    }

    fn complete(self) -> (r: Completed<PathMut<N1, PathMut<N2, PathMut<N3, PathMut<N4, PathMut<N5, PathMut<N6, PathMut<N7, PathMut<N8, PathMut<N9, PathMut<N, P>>>>>>>>>>>) {
        let r = Completed { stop: Stop::Up(Completed { stop: Stop::Up(Completed { stop: Stop::Up(Completed { stop: Stop::Up(Completed { stop: Stop::Up(Completed { stop: Stop::Up(Completed { stop: Stop::Up(Completed { stop: Stop::Up(Completed { stop: Stop::Up(Completed { stop: Stop::Here(self) }) }) }) }) }) }) }) }) }) };
        r
    }
}

/// Completing 9 levels above the origin, at the root.
impl<'a, R, N1, N2, N3, N4, N5, N6, N7, N8, N9> CompletesTo<PathMut<N1, PathMut<N2, PathMut<N3, PathMut<N4, PathMut<N5, PathMut<N6, PathMut<N7, PathMut<N8, PathMut<N9, &'a mut R>>>>>>>>>> for &'a mut R {
    open spec fn completion(self) -> <PathMut<N1, PathMut<N2, PathMut<N3, PathMut<N4, PathMut<N5, PathMut<N6, PathMut<N7, PathMut<N8, PathMut<N9, &'a mut R>>>>>>>>> as HasStop>::Stop {
        Stop::Up(Completed { stop: Stop::Up(Completed { stop: Stop::Up(Completed { stop: Stop::Up(Completed { stop: Stop::Up(Completed { stop: Stop::Up(Completed { stop: Stop::Up(Completed { stop: Stop::Up(Completed { stop: Stop::Up(self) }) }) }) }) }) }) }) })
    }

    fn complete(self) -> (r: Completed<PathMut<N1, PathMut<N2, PathMut<N3, PathMut<N4, PathMut<N5, PathMut<N6, PathMut<N7, PathMut<N8, PathMut<N9, &'a mut R>>>>>>>>>>) {
        let r = Completed { stop: Stop::Up(Completed { stop: Stop::Up(Completed { stop: Stop::Up(Completed { stop: Stop::Up(Completed { stop: Stop::Up(Completed { stop: Stop::Up(Completed { stop: Stop::Up(Completed { stop: Stop::Up(Completed { stop: Stop::Up(self) }) }) }) }) }) }) }) }) };
        r
    }
}

/// Completing 10 levels above the origin, at a path.
impl<N1, N2, N3, N4, N5, N6, N7, N8, N9, N10, N, P: Above> CompletesTo<PathMut<N1, PathMut<N2, PathMut<N3, PathMut<N4, PathMut<N5, PathMut<N6, PathMut<N7, PathMut<N8, PathMut<N9, PathMut<N10, PathMut<N, P>>>>>>>>>>>> for PathMut<N, P> {
    open spec fn completion(self) -> <PathMut<N1, PathMut<N2, PathMut<N3, PathMut<N4, PathMut<N5, PathMut<N6, PathMut<N7, PathMut<N8, PathMut<N9, PathMut<N10, PathMut<N, P>>>>>>>>>>> as HasStop>::Stop {
        Stop::Up(Completed { stop: Stop::Up(Completed { stop: Stop::Up(Completed { stop: Stop::Up(Completed { stop: Stop::Up(Completed { stop: Stop::Up(Completed { stop: Stop::Up(Completed { stop: Stop::Up(Completed { stop: Stop::Up(Completed { stop: Stop::Up(Completed { stop: Stop::Here(self) }) }) }) }) }) }) }) }) }) })
    }

    fn complete(self) -> (r: Completed<PathMut<N1, PathMut<N2, PathMut<N3, PathMut<N4, PathMut<N5, PathMut<N6, PathMut<N7, PathMut<N8, PathMut<N9, PathMut<N10, PathMut<N, P>>>>>>>>>>>>) {
        let r = Completed { stop: Stop::Up(Completed { stop: Stop::Up(Completed { stop: Stop::Up(Completed { stop: Stop::Up(Completed { stop: Stop::Up(Completed { stop: Stop::Up(Completed { stop: Stop::Up(Completed { stop: Stop::Up(Completed { stop: Stop::Up(Completed { stop: Stop::Up(Completed { stop: Stop::Here(self) }) }) }) }) }) }) }) }) }) }) };
        r
    }
}

/// Completing 10 levels above the origin, at the root.
impl<'a, R, N1, N2, N3, N4, N5, N6, N7, N8, N9, N10> CompletesTo<PathMut<N1, PathMut<N2, PathMut<N3, PathMut<N4, PathMut<N5, PathMut<N6, PathMut<N7, PathMut<N8, PathMut<N9, PathMut<N10, &'a mut R>>>>>>>>>>> for &'a mut R {
    open spec fn completion(self) -> <PathMut<N1, PathMut<N2, PathMut<N3, PathMut<N4, PathMut<N5, PathMut<N6, PathMut<N7, PathMut<N8, PathMut<N9, PathMut<N10, &'a mut R>>>>>>>>>> as HasStop>::Stop {
        Stop::Up(Completed { stop: Stop::Up(Completed { stop: Stop::Up(Completed { stop: Stop::Up(Completed { stop: Stop::Up(Completed { stop: Stop::Up(Completed { stop: Stop::Up(Completed { stop: Stop::Up(Completed { stop: Stop::Up(Completed { stop: Stop::Up(self) }) }) }) }) }) }) }) }) })
    }

    fn complete(self) -> (r: Completed<PathMut<N1, PathMut<N2, PathMut<N3, PathMut<N4, PathMut<N5, PathMut<N6, PathMut<N7, PathMut<N8, PathMut<N9, PathMut<N10, &'a mut R>>>>>>>>>>>) {
        let r = Completed { stop: Stop::Up(Completed { stop: Stop::Up(Completed { stop: Stop::Up(Completed { stop: Stop::Up(Completed { stop: Stop::Up(Completed { stop: Stop::Up(Completed { stop: Stop::Up(Completed { stop: Stop::Up(Completed { stop: Stop::Up(Completed { stop: Stop::Up(self) }) }) }) }) }) }) }) }) }) };
        r
    }
}

/// Completing 11 levels above the origin, at a path.
impl<N1, N2, N3, N4, N5, N6, N7, N8, N9, N10, N11, N, P: Above> CompletesTo<PathMut<N1, PathMut<N2, PathMut<N3, PathMut<N4, PathMut<N5, PathMut<N6, PathMut<N7, PathMut<N8, PathMut<N9, PathMut<N10, PathMut<N11, PathMut<N, P>>>>>>>>>>>>> for PathMut<N, P> {
    open spec fn completion(self) -> <PathMut<N1, PathMut<N2, PathMut<N3, PathMut<N4, PathMut<N5, PathMut<N6, PathMut<N7, PathMut<N8, PathMut<N9, PathMut<N10, PathMut<N11, PathMut<N, P>>>>>>>>>>>> as HasStop>::Stop {
        Stop::Up(Completed { stop: Stop::Up(Completed { stop: Stop::Up(Completed { stop: Stop::Up(Completed { stop: Stop::Up(Completed { stop: Stop::Up(Completed { stop: Stop::Up(Completed { stop: Stop::Up(Completed { stop: Stop::Up(Completed { stop: Stop::Up(Completed { stop: Stop::Up(Completed { stop: Stop::Here(self) }) }) }) }) }) }) }) }) }) }) })
    }

    fn complete(self) -> (r: Completed<PathMut<N1, PathMut<N2, PathMut<N3, PathMut<N4, PathMut<N5, PathMut<N6, PathMut<N7, PathMut<N8, PathMut<N9, PathMut<N10, PathMut<N11, PathMut<N, P>>>>>>>>>>>>>) {
        let r = Completed { stop: Stop::Up(Completed { stop: Stop::Up(Completed { stop: Stop::Up(Completed { stop: Stop::Up(Completed { stop: Stop::Up(Completed { stop: Stop::Up(Completed { stop: Stop::Up(Completed { stop: Stop::Up(Completed { stop: Stop::Up(Completed { stop: Stop::Up(Completed { stop: Stop::Up(Completed { stop: Stop::Here(self) }) }) }) }) }) }) }) }) }) }) }) };
        r
    }
}

/// Completing 11 levels above the origin, at the root.
impl<'a, R, N1, N2, N3, N4, N5, N6, N7, N8, N9, N10, N11> CompletesTo<PathMut<N1, PathMut<N2, PathMut<N3, PathMut<N4, PathMut<N5, PathMut<N6, PathMut<N7, PathMut<N8, PathMut<N9, PathMut<N10, PathMut<N11, &'a mut R>>>>>>>>>>>> for &'a mut R {
    open spec fn completion(self) -> <PathMut<N1, PathMut<N2, PathMut<N3, PathMut<N4, PathMut<N5, PathMut<N6, PathMut<N7, PathMut<N8, PathMut<N9, PathMut<N10, PathMut<N11, &'a mut R>>>>>>>>>>> as HasStop>::Stop {
        Stop::Up(Completed { stop: Stop::Up(Completed { stop: Stop::Up(Completed { stop: Stop::Up(Completed { stop: Stop::Up(Completed { stop: Stop::Up(Completed { stop: Stop::Up(Completed { stop: Stop::Up(Completed { stop: Stop::Up(Completed { stop: Stop::Up(Completed { stop: Stop::Up(self) }) }) }) }) }) }) }) }) }) })
    }

    fn complete(self) -> (r: Completed<PathMut<N1, PathMut<N2, PathMut<N3, PathMut<N4, PathMut<N5, PathMut<N6, PathMut<N7, PathMut<N8, PathMut<N9, PathMut<N10, PathMut<N11, &'a mut R>>>>>>>>>>>>) {
        let r = Completed { stop: Stop::Up(Completed { stop: Stop::Up(Completed { stop: Stop::Up(Completed { stop: Stop::Up(Completed { stop: Stop::Up(Completed { stop: Stop::Up(Completed { stop: Stop::Up(Completed { stop: Stop::Up(Completed { stop: Stop::Up(Completed { stop: Stop::Up(Completed { stop: Stop::Up(self) }) }) }) }) }) }) }) }) }) }) };
        r
    }
}

/// Completing 12 levels above the origin, at a path.
impl<N1, N2, N3, N4, N5, N6, N7, N8, N9, N10, N11, N12, N, P: Above> CompletesTo<PathMut<N1, PathMut<N2, PathMut<N3, PathMut<N4, PathMut<N5, PathMut<N6, PathMut<N7, PathMut<N8, PathMut<N9, PathMut<N10, PathMut<N11, PathMut<N12, PathMut<N, P>>>>>>>>>>>>>> for PathMut<N, P> {
    open spec fn completion(self) -> <PathMut<N1, PathMut<N2, PathMut<N3, PathMut<N4, PathMut<N5, PathMut<N6, PathMut<N7, PathMut<N8, PathMut<N9, PathMut<N10, PathMut<N11, PathMut<N12, PathMut<N, P>>>>>>>>>>>>> as HasStop>::Stop {
        Stop::Up(Completed { stop: Stop::Up(Completed { stop: Stop::Up(Completed { stop: Stop::Up(Completed { stop: Stop::Up(Completed { stop: Stop::Up(Completed { stop: Stop::Up(Completed { stop: Stop::Up(Completed { stop: Stop::Up(Completed { stop: Stop::Up(Completed { stop: Stop::Up(Completed { stop: Stop::Up(Completed { stop: Stop::Here(self) }) }) }) }) }) }) }) }) }) }) }) })
    }

    fn complete(self) -> (r: Completed<PathMut<N1, PathMut<N2, PathMut<N3, PathMut<N4, PathMut<N5, PathMut<N6, PathMut<N7, PathMut<N8, PathMut<N9, PathMut<N10, PathMut<N11, PathMut<N12, PathMut<N, P>>>>>>>>>>>>>>) {
        let r = Completed { stop: Stop::Up(Completed { stop: Stop::Up(Completed { stop: Stop::Up(Completed { stop: Stop::Up(Completed { stop: Stop::Up(Completed { stop: Stop::Up(Completed { stop: Stop::Up(Completed { stop: Stop::Up(Completed { stop: Stop::Up(Completed { stop: Stop::Up(Completed { stop: Stop::Up(Completed { stop: Stop::Up(Completed { stop: Stop::Here(self) }) }) }) }) }) }) }) }) }) }) }) }) };
        r
    }
}

/// Completing 12 levels above the origin, at the root.
impl<'a, R, N1, N2, N3, N4, N5, N6, N7, N8, N9, N10, N11, N12> CompletesTo<PathMut<N1, PathMut<N2, PathMut<N3, PathMut<N4, PathMut<N5, PathMut<N6, PathMut<N7, PathMut<N8, PathMut<N9, PathMut<N10, PathMut<N11, PathMut<N12, &'a mut R>>>>>>>>>>>>> for &'a mut R {
    open spec fn completion(self) -> <PathMut<N1, PathMut<N2, PathMut<N3, PathMut<N4, PathMut<N5, PathMut<N6, PathMut<N7, PathMut<N8, PathMut<N9, PathMut<N10, PathMut<N11, PathMut<N12, &'a mut R>>>>>>>>>>>> as HasStop>::Stop {
        Stop::Up(Completed { stop: Stop::Up(Completed { stop: Stop::Up(Completed { stop: Stop::Up(Completed { stop: Stop::Up(Completed { stop: Stop::Up(Completed { stop: Stop::Up(Completed { stop: Stop::Up(Completed { stop: Stop::Up(Completed { stop: Stop::Up(Completed { stop: Stop::Up(Completed { stop: Stop::Up(self) }) }) }) }) }) }) }) }) }) }) })
    }

    fn complete(self) -> (r: Completed<PathMut<N1, PathMut<N2, PathMut<N3, PathMut<N4, PathMut<N5, PathMut<N6, PathMut<N7, PathMut<N8, PathMut<N9, PathMut<N10, PathMut<N11, PathMut<N12, &'a mut R>>>>>>>>>>>>>) {
        let r = Completed { stop: Stop::Up(Completed { stop: Stop::Up(Completed { stop: Stop::Up(Completed { stop: Stop::Up(Completed { stop: Stop::Up(Completed { stop: Stop::Up(Completed { stop: Stop::Up(Completed { stop: Stop::Up(Completed { stop: Stop::Up(Completed { stop: Stop::Up(Completed { stop: Stop::Up(Completed { stop: Stop::Up(self) }) }) }) }) }) }) }) }) }) }) }) };
        r
    }
}

/// What a leave leaves behind, completed again: a standing path completes where it stands, and a
/// leave that already went past it is forwarded as it is.
pub open spec fn completed_of<P: HasStop + CompletesTo<P>>(m: MaybeInvalidated<P>) -> Completed<P> {
    match m {
        MaybeInvalidated::NotInvalidated(p) => Completed { stop: p.completion() },
        MaybeInvalidated::Invalidated(c) => c,
    }
}

impl<P: HasStop + CompletesTo<P>> MaybeInvalidated<P> {
    /// The leave this state completes to: the path completing where it stands, or the leave that
    /// already went past it.
    pub fn complete(self) -> (r: Completed<P>)
        ensures
            r == completed_of(self),
    {
        match self {
            MaybeInvalidated::NotInvalidated(path) => path.complete(),
            MaybeInvalidated::Invalidated(completed) => completed,
        }
    }
}

impl<P: HasStop + CompletesTo<P>> MaybeInvalidated<P> where Completed<P>: TryIntoAncestor<P> {
    /// Descend the next child subtree with this node's path, if the path can still be built: lent
    /// from a standing state, or recovered from a leave that stopped exactly here, in which case
    /// the node stays invalidated whatever the child does. A leave that went above skips the
    /// descent and forwards.
    pub fn descend<F: FnOnce(P) -> MaybeInvalidated<P>>(self, f: F) -> (r: Self)
        requires
            forall|p: P| f.requires((p,)),
        ensures
            match self {
                MaybeInvalidated::NotInvalidated(p) => f.ensures((p,), r),
                MaybeInvalidated::Invalidated(c) => match c.reaches() {
                    Some(p) => exists|out: MaybeInvalidated<P>|
                        f.ensures((p,), out) && r == MaybeInvalidated::Invalidated(
                            #[trigger] completed_of(out),
                        ),
                    None => r == MaybeInvalidated::Invalidated(c),
                },
            },
    {
        match self {
            MaybeInvalidated::NotInvalidated(p) => f(p),
            MaybeInvalidated::Invalidated(completed) => match completed.try_into_ancestor() {
                Ok(p) => {
                    let out = f(p);
                    MaybeInvalidated::Invalidated(out.complete())
                },
                Err(completed) => MaybeInvalidated::Invalidated(completed),
            },
        }
    }
}

impl<P: HasStop> MaybeInvalidated<P> {
    /// Walk this state to `Target` by shared reference, on either branch.
    pub fn ancestor<Target>(&self) -> (r: &Target)
        where
            Self: HasAncestor<Target>,
        ensures
            *r == self.ancestor_spec(),
    {
        HasAncestor::ancestor(self)
    }

    /// Walk this state to `Target`, consuming it, on either branch.
    pub fn into_ancestor<Target>(self) -> (r: Target)
        where
            Self: IntoAncestor<Target>,
        ensures
            r == self.ancestor_spec(),
    {
        IntoAncestor::into_ancestor(self)
    }

    /// Walk this state to `Target` if it is still standing; otherwise the state comes back, ready
    /// to forward.
    pub fn try_into_ancestor<Target>(self) -> (r: Result<Target, Self>)
        where
            Self: TryIntoAncestor<Target>,
        ensures
            match self.reaches() {
                Some(t) => r == Ok::<Target, Self>(t),
                None => r == Err::<Target, Self>(self),
            },
    {
        TryIntoAncestor::try_into_ancestor(self)
    }
}

/// The state after a descent holds the root on both branches: through the standing path, or
/// through the leave that replaced it.
impl<'a, R, P> HasAncestor<&'a mut R> for MaybeInvalidated<P> where
    P: HasStop + HasAncestor<&'a mut R>,
    Completed<P>: HasAncestor<&'a mut R>,
 {
    open spec fn ancestor_spec(&self) -> &'a mut R {
        match self {
            MaybeInvalidated::NotInvalidated(path) => path.ancestor_spec(),
            MaybeInvalidated::Invalidated(completed) => completed.ancestor_spec(),
        }
    }

    fn ancestor(&self) -> (r: &&'a mut R) {
        match self {
            MaybeInvalidated::NotInvalidated(path) => HasAncestor::ancestor(path),
            MaybeInvalidated::Invalidated(completed) => HasAncestor::ancestor(completed),
        }
    }
}

impl<'a, R, P> IntoAncestor<&'a mut R> for MaybeInvalidated<P> where
    P: HasStop + IntoAncestor<&'a mut R>,
    Completed<P>: IntoAncestor<&'a mut R>,
 {
    fn into_ancestor(self) -> (r: &'a mut R) {
        match self {
            MaybeInvalidated::NotInvalidated(path) => IntoAncestor::into_ancestor(path),
            MaybeInvalidated::Invalidated(completed) => IntoAncestor::into_ancestor(completed),
        }
    }
}

/// Reach a chain ancestor that a completed leave may have destroyed.
///
/// `Ok` exactly when the leave stopped at or below the target, so the target is still standing.
/// `Err` gives the value back unchanged, so the caller can forward the leave it could not use.
pub trait TryIntoAncestor<Target>: Sized {
    /// The target, when the leave left it standing.
    spec fn reaches(self) -> Option<Target>;

    fn try_into_ancestor(self) -> (r: Result<Target, Self>)
        ensures
            match self.reaches() {
                Some(t) => r == Ok::<Target, Self>(t),
                None => r == Err::<Target, Self>(self),
            },
    ;
}

/// Distance zero: the leave reaches its own origin exactly when it stopped there.
impl<T: HasStop> TryIntoAncestor<T> for Completed<T> {
    open spec fn reaches(self) -> Option<T> {
        T::stopped_here(self.stop)
    }

    fn try_into_ancestor(self) -> (r: Result<T, Self>) {
        match self.to_maybe_invalidated() {
            MaybeInvalidated::NotInvalidated(path) => Ok(path),
            MaybeInvalidated::Invalidated(completed) => Err(completed),
        }
    }
}

/// Distance one to the root: the root is always alive.
impl<'a, R, H> TryIntoAncestor<&'a mut R> for Completed<PathMut<H, &'a mut R>> {
    open spec fn reaches(self) -> Option<&'a mut R> {
        match self.stop {
            Stop::Here(path) => Some(path.parent_spec()),
            Stop::Up(root) => Some(root),
        }
    }

    fn try_into_ancestor(self) -> (r: Result<&'a mut R, Self>) {
        match self.stop {
            Stop::Here(path) => {
                let root = path.into_parent();
                let r = Ok(root);
                r
            },
            Stop::Up(root) => {
                let r = Ok(root);
                r
            },
        }
    }
}

/// Distance one to a path: alive exactly when the leave stopped at or below it.
impl<H, N2, Q: Above> TryIntoAncestor<PathMut<N2, Q>> for Completed<PathMut<H, PathMut<N2, Q>>> {
    open spec fn reaches(self) -> Option<PathMut<N2, Q>> {
        match self.stop {
            Stop::Here(path) => Some(path.parent_spec()),
            Stop::Up(up) => up.reaches(),
        }
    }

    fn try_into_ancestor(self) -> (r: Result<PathMut<N2, Q>, Self>) {
        match self.stop {
            Stop::Here(path) => Ok(path.into_parent()),
            Stop::Up(up) => match up.try_into_ancestor() {
                Ok(p) => Ok(p),
                Err(up) => Err(Completed { stop: Stop::Up(up) }),
            },
        }
    }
}

/// Distance 12: the standing path walks up, and a leave that went above asks the leave of
/// the parent.
impl<T, M1, M2, M3, M4, M5, M6, M7, M8, M9, M10, M11, M12> TryIntoAncestor<T> for Completed<PathMut<M1, PathMut<M2, PathMut<M3, PathMut<M4, PathMut<M5, PathMut<M6, PathMut<M7, PathMut<M8, PathMut<M9, PathMut<M10, PathMut<M11, PathMut<M12, T>>>>>>>>>>>>> where
    T: Above,
    Completed<PathMut<M2, PathMut<M3, PathMut<M4, PathMut<M5, PathMut<M6, PathMut<M7, PathMut<M8, PathMut<M9, PathMut<M10, PathMut<M11, PathMut<M12, T>>>>>>>>>>>>: TryIntoAncestor<T>,
 {
    open spec fn reaches(self) -> Option<T> {
        match self.stop {
            Stop::Here(path) => Some(path.ancestor_spec()),
            Stop::Up(up) => up.reaches(),
        }
    }

    fn try_into_ancestor(self) -> (r: Result<T, Self>) {
        match self.stop {
            Stop::Here(path) => Ok(path.into_ancestor()),
            Stop::Up(up) => match up.try_into_ancestor() {
                Ok(t) => Ok(t),
                Err(up) => Err(Completed { stop: Stop::Up(up) }),
            },
        }
    }
}

/// Distance 11: the standing path walks up, and a leave that went above asks the leave of
/// the parent.
impl<T, M2, M3, M4, M5, M6, M7, M8, M9, M10, M11, M12> TryIntoAncestor<T> for Completed<PathMut<M2, PathMut<M3, PathMut<M4, PathMut<M5, PathMut<M6, PathMut<M7, PathMut<M8, PathMut<M9, PathMut<M10, PathMut<M11, PathMut<M12, T>>>>>>>>>>>> where
    T: Above,
    Completed<PathMut<M3, PathMut<M4, PathMut<M5, PathMut<M6, PathMut<M7, PathMut<M8, PathMut<M9, PathMut<M10, PathMut<M11, PathMut<M12, T>>>>>>>>>>>: TryIntoAncestor<T>,
 {
    open spec fn reaches(self) -> Option<T> {
        match self.stop {
            Stop::Here(path) => Some(path.ancestor_spec()),
            Stop::Up(up) => up.reaches(),
        }
    }

    fn try_into_ancestor(self) -> (r: Result<T, Self>) {
        match self.stop {
            Stop::Here(path) => Ok(path.into_ancestor()),
            Stop::Up(up) => match up.try_into_ancestor() {
                Ok(t) => Ok(t),
                Err(up) => Err(Completed { stop: Stop::Up(up) }),
            },
        }
    }
}

/// Distance 10: the standing path walks up, and a leave that went above asks the leave of
/// the parent.
impl<T, M3, M4, M5, M6, M7, M8, M9, M10, M11, M12> TryIntoAncestor<T> for Completed<PathMut<M3, PathMut<M4, PathMut<M5, PathMut<M6, PathMut<M7, PathMut<M8, PathMut<M9, PathMut<M10, PathMut<M11, PathMut<M12, T>>>>>>>>>>> where
    T: Above,
    Completed<PathMut<M4, PathMut<M5, PathMut<M6, PathMut<M7, PathMut<M8, PathMut<M9, PathMut<M10, PathMut<M11, PathMut<M12, T>>>>>>>>>>: TryIntoAncestor<T>,
 {
    open spec fn reaches(self) -> Option<T> {
        match self.stop {
            Stop::Here(path) => Some(path.ancestor_spec()),
            Stop::Up(up) => up.reaches(),
        }
    }

    fn try_into_ancestor(self) -> (r: Result<T, Self>) {
        match self.stop {
            Stop::Here(path) => Ok(path.into_ancestor()),
            Stop::Up(up) => match up.try_into_ancestor() {
                Ok(t) => Ok(t),
                Err(up) => Err(Completed { stop: Stop::Up(up) }),
            },
        }
    }
}

/// Distance 9: the standing path walks up, and a leave that went above asks the leave of
/// the parent.
impl<T, M4, M5, M6, M7, M8, M9, M10, M11, M12> TryIntoAncestor<T> for Completed<PathMut<M4, PathMut<M5, PathMut<M6, PathMut<M7, PathMut<M8, PathMut<M9, PathMut<M10, PathMut<M11, PathMut<M12, T>>>>>>>>>> where
    T: Above,
    Completed<PathMut<M5, PathMut<M6, PathMut<M7, PathMut<M8, PathMut<M9, PathMut<M10, PathMut<M11, PathMut<M12, T>>>>>>>>>: TryIntoAncestor<T>,
 {
    open spec fn reaches(self) -> Option<T> {
        match self.stop {
            Stop::Here(path) => Some(path.ancestor_spec()),
            Stop::Up(up) => up.reaches(),
        }
    }

    fn try_into_ancestor(self) -> (r: Result<T, Self>) {
        match self.stop {
            Stop::Here(path) => Ok(path.into_ancestor()),
            Stop::Up(up) => match up.try_into_ancestor() {
                Ok(t) => Ok(t),
                Err(up) => Err(Completed { stop: Stop::Up(up) }),
            },
        }
    }
}

/// Distance 8: the standing path walks up, and a leave that went above asks the leave of
/// the parent.
impl<T, M5, M6, M7, M8, M9, M10, M11, M12> TryIntoAncestor<T> for Completed<PathMut<M5, PathMut<M6, PathMut<M7, PathMut<M8, PathMut<M9, PathMut<M10, PathMut<M11, PathMut<M12, T>>>>>>>>> where
    T: Above,
    Completed<PathMut<M6, PathMut<M7, PathMut<M8, PathMut<M9, PathMut<M10, PathMut<M11, PathMut<M12, T>>>>>>>>: TryIntoAncestor<T>,
 {
    open spec fn reaches(self) -> Option<T> {
        match self.stop {
            Stop::Here(path) => Some(path.ancestor_spec()),
            Stop::Up(up) => up.reaches(),
        }
    }

    fn try_into_ancestor(self) -> (r: Result<T, Self>) {
        match self.stop {
            Stop::Here(path) => Ok(path.into_ancestor()),
            Stop::Up(up) => match up.try_into_ancestor() {
                Ok(t) => Ok(t),
                Err(up) => Err(Completed { stop: Stop::Up(up) }),
            },
        }
    }
}

/// Distance 7: the standing path walks up, and a leave that went above asks the leave of
/// the parent.
impl<T, M6, M7, M8, M9, M10, M11, M12> TryIntoAncestor<T> for Completed<PathMut<M6, PathMut<M7, PathMut<M8, PathMut<M9, PathMut<M10, PathMut<M11, PathMut<M12, T>>>>>>>> where
    T: Above,
    Completed<PathMut<M7, PathMut<M8, PathMut<M9, PathMut<M10, PathMut<M11, PathMut<M12, T>>>>>>>: TryIntoAncestor<T>,
 {
    open spec fn reaches(self) -> Option<T> {
        match self.stop {
            Stop::Here(path) => Some(path.ancestor_spec()),
            Stop::Up(up) => up.reaches(),
        }
    }

    fn try_into_ancestor(self) -> (r: Result<T, Self>) {
        match self.stop {
            Stop::Here(path) => Ok(path.into_ancestor()),
            Stop::Up(up) => match up.try_into_ancestor() {
                Ok(t) => Ok(t),
                Err(up) => Err(Completed { stop: Stop::Up(up) }),
            },
        }
    }
}

/// Distance 6: the standing path walks up, and a leave that went above asks the leave of
/// the parent.
impl<T, M7, M8, M9, M10, M11, M12> TryIntoAncestor<T> for Completed<PathMut<M7, PathMut<M8, PathMut<M9, PathMut<M10, PathMut<M11, PathMut<M12, T>>>>>>> where
    T: Above,
    Completed<PathMut<M8, PathMut<M9, PathMut<M10, PathMut<M11, PathMut<M12, T>>>>>>: TryIntoAncestor<T>,
 {
    open spec fn reaches(self) -> Option<T> {
        match self.stop {
            Stop::Here(path) => Some(path.ancestor_spec()),
            Stop::Up(up) => up.reaches(),
        }
    }

    fn try_into_ancestor(self) -> (r: Result<T, Self>) {
        match self.stop {
            Stop::Here(path) => Ok(path.into_ancestor()),
            Stop::Up(up) => match up.try_into_ancestor() {
                Ok(t) => Ok(t),
                Err(up) => Err(Completed { stop: Stop::Up(up) }),
            },
        }
    }
}

/// Distance 5: the standing path walks up, and a leave that went above asks the leave of
/// the parent.
impl<T, M8, M9, M10, M11, M12> TryIntoAncestor<T> for Completed<PathMut<M8, PathMut<M9, PathMut<M10, PathMut<M11, PathMut<M12, T>>>>>> where
    T: Above,
    Completed<PathMut<M9, PathMut<M10, PathMut<M11, PathMut<M12, T>>>>>: TryIntoAncestor<T>,
 {
    open spec fn reaches(self) -> Option<T> {
        match self.stop {
            Stop::Here(path) => Some(path.ancestor_spec()),
            Stop::Up(up) => up.reaches(),
        }
    }

    fn try_into_ancestor(self) -> (r: Result<T, Self>) {
        match self.stop {
            Stop::Here(path) => Ok(path.into_ancestor()),
            Stop::Up(up) => match up.try_into_ancestor() {
                Ok(t) => Ok(t),
                Err(up) => Err(Completed { stop: Stop::Up(up) }),
            },
        }
    }
}

/// Distance 4: the standing path walks up, and a leave that went above asks the leave of
/// the parent.
impl<T, M9, M10, M11, M12> TryIntoAncestor<T> for Completed<PathMut<M9, PathMut<M10, PathMut<M11, PathMut<M12, T>>>>> where
    T: Above,
    Completed<PathMut<M10, PathMut<M11, PathMut<M12, T>>>>: TryIntoAncestor<T>,
 {
    open spec fn reaches(self) -> Option<T> {
        match self.stop {
            Stop::Here(path) => Some(path.ancestor_spec()),
            Stop::Up(up) => up.reaches(),
        }
    }

    fn try_into_ancestor(self) -> (r: Result<T, Self>) {
        match self.stop {
            Stop::Here(path) => Ok(path.into_ancestor()),
            Stop::Up(up) => match up.try_into_ancestor() {
                Ok(t) => Ok(t),
                Err(up) => Err(Completed { stop: Stop::Up(up) }),
            },
        }
    }
}

/// Distance 3: the standing path walks up, and a leave that went above asks the leave of
/// the parent.
impl<T, M10, M11, M12> TryIntoAncestor<T> for Completed<PathMut<M10, PathMut<M11, PathMut<M12, T>>>> where
    T: Above,
    Completed<PathMut<M11, PathMut<M12, T>>>: TryIntoAncestor<T>,
 {
    open spec fn reaches(self) -> Option<T> {
        match self.stop {
            Stop::Here(path) => Some(path.ancestor_spec()),
            Stop::Up(up) => up.reaches(),
        }
    }

    fn try_into_ancestor(self) -> (r: Result<T, Self>) {
        match self.stop {
            Stop::Here(path) => Ok(path.into_ancestor()),
            Stop::Up(up) => match up.try_into_ancestor() {
                Ok(t) => Ok(t),
                Err(up) => Err(Completed { stop: Stop::Up(up) }),
            },
        }
    }
}

/// Distance 2: the standing path walks up, and a leave that went above asks the leave of
/// the parent.
impl<T, M11, M12> TryIntoAncestor<T> for Completed<PathMut<M11, PathMut<M12, T>>> where
    T: Above,
    Completed<PathMut<M12, T>>: TryIntoAncestor<T>,
 {
    open spec fn reaches(self) -> Option<T> {
        match self.stop {
            Stop::Here(path) => Some(path.ancestor_spec()),
            Stop::Up(up) => up.reaches(),
        }
    }

    fn try_into_ancestor(self) -> (r: Result<T, Self>) {
        match self.stop {
            Stop::Here(path) => Ok(path.into_ancestor()),
            Stop::Up(up) => match up.try_into_ancestor() {
                Ok(t) => Ok(t),
                Err(up) => Err(Completed { stop: Stop::Up(up) }),
            },
        }
    }
}

/// On the state: a standing path reaches every chain ancestor; an invalidated one asks its leave.
impl<P, T> TryIntoAncestor<T> for MaybeInvalidated<P> where
    P: HasStop + IntoAncestor<T>,
    Completed<P>: TryIntoAncestor<T>,
 {
    open spec fn reaches(self) -> Option<T> {
        match self {
            MaybeInvalidated::NotInvalidated(path) => Some(path.ancestor_spec()),
            MaybeInvalidated::Invalidated(completed) => completed.reaches(),
        }
    }

    fn try_into_ancestor(self) -> (r: Result<T, Self>) {
        match self {
            MaybeInvalidated::NotInvalidated(path) => Ok(path.into_ancestor()),
            MaybeInvalidated::Invalidated(completed) => match completed.try_into_ancestor() {
                Ok(t) => Ok(t),
                Err(completed) => Err(MaybeInvalidated::Invalidated(completed)),
            },
        }
    }
}

impl<P: HasStop> Completed<P> {
    /// Walk this leave to `Target` by shared reference, naming it.
    pub fn ancestor<Target>(&self) -> (r: &Target)
        where
            Self: HasAncestor<Target>,
        ensures
            *r == self.ancestor_spec(),
    {
        HasAncestor::ancestor(self)
    }

    /// Walk this leave to `Target`, consuming it, naming the target.
    pub fn into_ancestor<Target>(self) -> (r: Target)
        where
            Self: IntoAncestor<Target>,
        ensures
            r == self.ancestor_spec(),
    {
        IntoAncestor::into_ancestor(self)
    }

    /// Walk this leave to `Target` if the leave left it standing; otherwise the leave comes back,
    /// ready to forward.
    pub fn try_into_ancestor<Target>(self) -> (r: Result<Target, Self>)
        where
            Self: TryIntoAncestor<Target>,
        ensures
            match self.reaches() {
                Some(t) => r == Ok::<Target, Self>(t),
                None => r == Err::<Target, Self>(self),
            },
    {
        TryIntoAncestor::try_into_ancestor(self)
    }
}

/// A leave from the root holds the root.
impl<'a, R> HasAncestor<&'a mut R> for Completed<&'a mut R> {
    open spec fn ancestor_spec(&self) -> &'a mut R {
        self.stop
    }

    fn ancestor(&self) -> (r: &&'a mut R) {
        &self.stop
    }
}

impl<'a, R> IntoAncestor<&'a mut R> for Completed<&'a mut R> {
    fn into_ancestor(self) -> (r: &'a mut R) {
        self.into_inner()
    }
}

/// A leave from a path holds the root through whichever arm it stopped in: through the path it
/// left standing, or through the leave above it.
impl<'a, R, N, P> HasAncestor<&'a mut R> for Completed<PathMut<N, P>> where
    P: Above,
    PathMut<N, P>: HasAncestor<&'a mut R>,
    P::Up: HasAncestor<&'a mut R>,
 {
    open spec fn ancestor_spec(&self) -> &'a mut R {
        match self.stop {
            Stop::Here(path) => path.ancestor_spec(),
            Stop::Up(rest) => rest.ancestor_spec(),
        }
    }

    fn ancestor(&self) -> (r: &&'a mut R) {
        match &self.stop {
            Stop::Here(path) => HasAncestor::ancestor(path),
            Stop::Up(rest) => HasAncestor::ancestor(rest),
        }
    }
}

impl<'a, R, N, P> IntoAncestor<&'a mut R> for Completed<PathMut<N, P>> where
    P: Above,
    PathMut<N, P>: IntoAncestor<&'a mut R>,
    P::Up: IntoAncestor<&'a mut R>,
 {
    fn into_ancestor(self) -> (r: &'a mut R) {
        match self.stop {
            Stop::Here(path) => IntoAncestor::into_ancestor(path),
            Stop::Up(rest) => IntoAncestor::into_ancestor(rest),
        }
    }
}

/// The parent a child's path holds, standing.
fn standing_parent<N, Par: HasStop>(child: PathMut<N, Par>) -> (r: MaybeInvalidated<Par>)
    ensures
        r == MaybeInvalidated::NotInvalidated(child.parent_spec()),
{
    MaybeInvalidated::NotInvalidated(child.into_parent())
}

/// A child of the root: the `Up` payload is the bare root path.
impl<'a, N, R> Stop<PathMut<N, &'a mut R>, &'a mut R> {
    /// The child's leave, as the state it leaves behind at the parent: stopping at the child
    /// leaves the parent standing one step up.
    pub fn to_maybe_invalidated(self) -> (r: MaybeInvalidated<&'a mut R>)
        ensures
            match self {
                Stop::Here(child) => r == MaybeInvalidated::NotInvalidated(child.parent_spec()),
                Stop::Up(root) => r == MaybeInvalidated::<&'a mut R>::Invalidated(
                    Completed { stop: root },
                ),
            },
    {
        match self {
            Stop::Here(child) => standing_parent(child),
            Stop::Up(root) => MaybeInvalidated::Invalidated(Completed::from(root)),
        }
    }
}

/// A child of a path: the `Up` payload is the parent's own leave.
impl<N, N2, Q: Above> Stop<PathMut<N, PathMut<N2, Q>>, Completed<PathMut<N2, Q>>> {
    /// The child's leave, as the state it leaves behind at the parent.
    pub fn to_maybe_invalidated(self) -> (r: MaybeInvalidated<PathMut<N2, Q>>)
        ensures
            match self {
                Stop::Here(child) => r == MaybeInvalidated::NotInvalidated(child.parent_spec()),
                Stop::Up(rest) => r == MaybeInvalidated::Invalidated(rest),
            },
    {
        match self {
            Stop::Here(child) => MaybeInvalidated::NotInvalidated(child.into_parent()),
            Stop::Up(rest) => MaybeInvalidated::Invalidated(rest),
        }
    }
}

/// The bare root path a leave from the root completes to, back as a leave.
impl<'a, R> From<&'a mut R> for Completed<&'a mut R> {
    fn from(root: &'a mut R) -> (r: Self) {
        let r = Completed { stop: root };
        r
    }
}

impl<'a, R> vstd::std_specs::convert::FromSpecImpl<&'a mut R> for Completed<&'a mut R> {
    open spec fn obeys_from_spec() -> bool {
        true
    }

    open spec fn from_spec(root: &'a mut R) -> Self {
        Completed { stop: root }
    }
}

/// A leave handed back to its origin and completed again is the same leave: folding it into the
/// state it leaves at its origin, then completing that state, gives it back.
pub proof fn lemma_fold_then_complete<N, P: Above>(c: Completed<PathMut<N, P>>)
    ensures
        completed_of(fold(c)) == c,
{
}

/// At the root the same holds: a leave folded into the root's state and completed again is the
/// leave.
pub proof fn lemma_root_fold_then_complete<'a, R>(c: Completed<&'a mut R>)
    ensures
        completed_of(fold(c)) == c,
{
}

/// A leave from the root never invalidates it: whatever the leave, the root is left standing.
pub proof fn lemma_a_leave_never_invalidates_the_root<'a, R>(c: Completed<&'a mut R>)
    ensures
        fold(c) == MaybeInvalidated::<&'a mut R>::NotInvalidated(c.stop),
{
}

/// Completing a state and folding the leave back gives the state again: a standing path completes
/// where it stands and is found standing, and a leave that went above is forwarded as it was.
pub proof fn lemma_complete_then_fold<N, P: Above>(m: MaybeInvalidated<PathMut<N, P>>)
    requires
        m matches MaybeInvalidated::Invalidated(c) ==> c.stop is Up,
    ensures
        fold(completed_of(m)) == m,
{
}

/// The root is reached from a leave one level below it, wherever that leave stopped.
pub proof fn lemma_the_root_is_reached_from_one_below<'a, R, H>(c: Completed<PathMut<H, &'a mut R>>)
    ensures
        TryIntoAncestor::<&'a mut R>::reaches(c) is Some,
{
}

/// The root is reached from a leave two levels below it, wherever that leave stopped.
pub proof fn lemma_the_root_is_reached_from_two_below<'a, R, H, M>(
    c: Completed<PathMut<H, PathMut<M, &'a mut R>>>,
)
    ensures
        TryIntoAncestor::<&'a mut R>::reaches(c) is Some,
{
}

/// The root is reached from a leave three levels below it, wherever that leave stopped.
pub proof fn lemma_the_root_is_reached_from_three_below<'a, R, H1, H2, H3>(c: Completed<PathMut<H1, PathMut<H2, PathMut<H3, &'a mut R>>>>)
    ensures
        TryIntoAncestor::<&'a mut R>::reaches(c) is Some,
{
    if let Stop::Up(up) = c.stop {
        lemma_the_root_is_reached_from_two_below::<R, H2, H3>(up);
    }
}

/// The root is reached from a leave four levels below it, wherever that leave stopped.
pub proof fn lemma_the_root_is_reached_from_four_below<'a, R, H1, H2, H3, H4>(c: Completed<PathMut<H1, PathMut<H2, PathMut<H3, PathMut<H4, &'a mut R>>>>>)
    ensures
        TryIntoAncestor::<&'a mut R>::reaches(c) is Some,
{
    if let Stop::Up(up) = c.stop {
        lemma_the_root_is_reached_from_three_below::<R, H2, H3, H4>(up);
    }
}

/// The root is reached from a leave five levels below it, wherever that leave stopped.
pub proof fn lemma_the_root_is_reached_from_five_below<'a, R, H1, H2, H3, H4, H5>(c: Completed<PathMut<H1, PathMut<H2, PathMut<H3, PathMut<H4, PathMut<H5, &'a mut R>>>>>>)
    ensures
        TryIntoAncestor::<&'a mut R>::reaches(c) is Some,
{
    if let Stop::Up(up) = c.stop {
        lemma_the_root_is_reached_from_four_below::<R, H2, H3, H4, H5>(up);
    }
}

/// The root is reached from a leave six levels below it, wherever that leave stopped.
pub proof fn lemma_the_root_is_reached_from_six_below<'a, R, H1, H2, H3, H4, H5, H6>(c: Completed<PathMut<H1, PathMut<H2, PathMut<H3, PathMut<H4, PathMut<H5, PathMut<H6, &'a mut R>>>>>>>)
    ensures
        TryIntoAncestor::<&'a mut R>::reaches(c) is Some,
{
    if let Stop::Up(up) = c.stop {
        lemma_the_root_is_reached_from_five_below::<R, H2, H3, H4, H5, H6>(up);
    }
}

/// The root is reached from a leave seven levels below it, wherever that leave stopped.
pub proof fn lemma_the_root_is_reached_from_seven_below<'a, R, H1, H2, H3, H4, H5, H6, H7>(c: Completed<PathMut<H1, PathMut<H2, PathMut<H3, PathMut<H4, PathMut<H5, PathMut<H6, PathMut<H7, &'a mut R>>>>>>>>)
    ensures
        TryIntoAncestor::<&'a mut R>::reaches(c) is Some,
{
    if let Stop::Up(up) = c.stop {
        lemma_the_root_is_reached_from_six_below::<R, H2, H3, H4, H5, H6, H7>(up);
    }
}

/// The root is reached from a leave eight levels below it, wherever that leave stopped.
pub proof fn lemma_the_root_is_reached_from_eight_below<'a, R, H1, H2, H3, H4, H5, H6, H7, H8>(c: Completed<PathMut<H1, PathMut<H2, PathMut<H3, PathMut<H4, PathMut<H5, PathMut<H6, PathMut<H7, PathMut<H8, &'a mut R>>>>>>>>>)
    ensures
        TryIntoAncestor::<&'a mut R>::reaches(c) is Some,
{
    if let Stop::Up(up) = c.stop {
        lemma_the_root_is_reached_from_seven_below::<R, H2, H3, H4, H5, H6, H7, H8>(up);
    }
}

/// The root is reached from a leave nine levels below it, wherever that leave stopped.
pub proof fn lemma_the_root_is_reached_from_nine_below<'a, R, H1, H2, H3, H4, H5, H6, H7, H8, H9>(c: Completed<PathMut<H1, PathMut<H2, PathMut<H3, PathMut<H4, PathMut<H5, PathMut<H6, PathMut<H7, PathMut<H8, PathMut<H9, &'a mut R>>>>>>>>>>)
    ensures
        TryIntoAncestor::<&'a mut R>::reaches(c) is Some,
{
    if let Stop::Up(up) = c.stop {
        lemma_the_root_is_reached_from_eight_below::<R, H2, H3, H4, H5, H6, H7, H8, H9>(up);
    }
}

/// The root is reached from a leave ten levels below it, wherever that leave stopped.
pub proof fn lemma_the_root_is_reached_from_ten_below<'a, R, H1, H2, H3, H4, H5, H6, H7, H8, H9, H10>(c: Completed<PathMut<H1, PathMut<H2, PathMut<H3, PathMut<H4, PathMut<H5, PathMut<H6, PathMut<H7, PathMut<H8, PathMut<H9, PathMut<H10, &'a mut R>>>>>>>>>>>)
    ensures
        TryIntoAncestor::<&'a mut R>::reaches(c) is Some,
{
    if let Stop::Up(up) = c.stop {
        lemma_the_root_is_reached_from_nine_below::<R, H2, H3, H4, H5, H6, H7, H8, H9, H10>(up);
    }
}

/// The root is reached from a leave eleven levels below it, wherever that leave stopped.
pub proof fn lemma_the_root_is_reached_from_eleven_below<'a, R, H1, H2, H3, H4, H5, H6, H7, H8, H9, H10, H11>(c: Completed<PathMut<H1, PathMut<H2, PathMut<H3, PathMut<H4, PathMut<H5, PathMut<H6, PathMut<H7, PathMut<H8, PathMut<H9, PathMut<H10, PathMut<H11, &'a mut R>>>>>>>>>>>>)
    ensures
        TryIntoAncestor::<&'a mut R>::reaches(c) is Some,
{
    if let Stop::Up(up) = c.stop {
        lemma_the_root_is_reached_from_ten_below::<R, H2, H3, H4, H5, H6, H7, H8, H9, H10, H11>(up);
    }
}

/// The root is reached from a leave twelve levels below it, wherever that leave stopped.
pub proof fn lemma_the_root_is_reached_from_twelve_below<'a, R, H1, H2, H3, H4, H5, H6, H7, H8, H9, H10, H11, H12>(c: Completed<PathMut<H1, PathMut<H2, PathMut<H3, PathMut<H4, PathMut<H5, PathMut<H6, PathMut<H7, PathMut<H8, PathMut<H9, PathMut<H10, PathMut<H11, PathMut<H12, &'a mut R>>>>>>>>>>>>>)
    ensures
        TryIntoAncestor::<&'a mut R>::reaches(c) is Some,
{
    if let Stop::Up(up) = c.stop {
        lemma_the_root_is_reached_from_eleven_below::<R, H2, H3, H4, H5, H6, H7, H8, H9, H10, H11, H12>(up);
    }
}

/// A leave reaches its own origin exactly when it stopped there.
pub proof fn lemma_origin_reached_iff_stopped_here<N, P: Above>(c: Completed<PathMut<N, P>>)
    ensures
        (TryIntoAncestor::<PathMut<N, P>>::reaches(c) is Some) == (c.stop is Here),
{
}

} // verus!
