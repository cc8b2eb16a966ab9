//! Path command buffer with a lazily cached bounding box.
//!
//! A path is an ordered, append-only sequence of drawing commands over an
//! arbitrary point type `P`, together with an optional cached bounding box of
//! an arbitrary box type `B`.  The buffer owns everything about a path that
//! does not touch coordinate arithmetic: the five-variant command grammar
//! that backends iterate, the append discipline, the extraction of every
//! point a command references, the pointwise traversal that a transform
//! rewrites, and the cache protocol — every mutation clears the cache, and a
//! cached box is only ever valid for exactly the current command sequence.
//! Folding the extracted points into a box and applying a transform to one
//! point are coordinate arithmetic and stay with the caller, who passes the
//! computation in.

use vstd::prelude::*;

verus! {

/// A command in a 2D vector path.
///
/// Paths are composed of sequences of these commands.  Each command either
/// moves the pen position or draws a line or curve to a new position; this
/// enumeration is the wire format that rendering backends iterate.
#[derive(Debug, Clone, Copy, PartialEq)]
pub enum PathCommand<P> {
    /// Move the pen to a position without drawing.
    MoveTo(P),
    /// Draw a straight line to a position.
    LineTo(P),
    /// Draw a quadratic Bézier curve.
    QuadraticTo {
        /// Control point
        control: P,
        /// End point
        to: P,
    },
    /// Draw a cubic Bézier curve.
    CubicTo {
        /// First control point
        control1: P,
        /// Second control point
        control2: P,
        /// End point
        to: P,
    },
    /// Close the current subpath by drawing a line to the start.
    Close,
}

/// The points a single command references: one for a move or line, control
/// points then endpoint for a curve, none for a close.
pub open spec fn command_points<P>(cmd: PathCommand<P>) -> Seq<P> {
    match cmd {
        PathCommand::MoveTo(p) => seq![p],
        PathCommand::LineTo(p) => seq![p],
        PathCommand::QuadraticTo { control, to } => seq![control, to],
        PathCommand::CubicTo { control1, control2, to } => seq![control1, control2, to],
        PathCommand::Close => Seq::empty(),
    }
}

/// Every point referenced by a command sequence, in command order.
pub open spec fn points_spec<P>(cmds: Seq<PathCommand<P>>) -> Seq<P>
    decreases cmds.len(),
{
    if cmds.len() == 0 {
        Seq::empty()
    } else {
        points_spec(cmds.drop_last()) + command_points(cmds.last())
    }
}

/// Whether `after` is `before` with every referenced point rewritten by an
/// output of `f`, the command kind and point roles kept.
pub open spec fn command_mapped<P, F: Fn(P) -> P>(
    before: PathCommand<P>,
    after: PathCommand<P>,
    f: F,
) -> bool {
    match (before, after) {
        (PathCommand::MoveTo(p), PathCommand::MoveTo(q)) => call_ensures(f, (p,), q),
        (PathCommand::LineTo(p), PathCommand::LineTo(q)) => call_ensures(f, (p,), q),
        (
            PathCommand::QuadraticTo { control: c, to: t },
            PathCommand::QuadraticTo { control: c2, to: t2 },
        ) => call_ensures(f, (c,), c2) && call_ensures(f, (t,), t2),
        (
            PathCommand::CubicTo { control1: a, control2: b, to: t },
            PathCommand::CubicTo { control1: a2, control2: b2, to: t2 },
        ) => call_ensures(f, (a,), a2) && call_ensures(f, (b,), b2) && call_ensures(f, (t,), t2),
        (PathCommand::Close, PathCommand::Close) => true,
        _ => false,
    }
}

/// A 2D vector path: an ordered command buffer plus an optional cached
/// bounding box.  `bounds_for` records the command sequence the cached box
/// was computed from; the well-formedness invariant keeps the cache honest.
#[derive(Clone)]
pub struct Path<P, B> {
    pub commands: Vec<PathCommand<P>>,
    pub cached_bounds: Option<B>,
    pub bounds_for: Ghost<Seq<PathCommand<P>>>,
}

/// Equality of paths is defined purely over the command sequence; the cache
/// is an implementation-visible optimization and never part of it.
pub open spec fn path_eq_spec<P, B>(a: Path<P, B>, b: Path<P, B>) -> bool {
    a.commands@ == b.commands@
}

/// Two paths built from the same command sequence are equal even if one has
/// a populated bounding-box cache and the other does not: `path_eq_spec`
/// does not change when either path's cache fields are replaced by anything.
pub proof fn lemma_path_eq_ignores_cache<P, B>(
    a: Path<P, B>,
    b: Path<P, B>,
    cache_a: Option<B>,
    cache_b: Option<B>,
)
    ensures
        path_eq_spec(a, b) == path_eq_spec(
            (Path { cached_bounds: cache_a, bounds_for: Ghost(a.commands@), ..a }),
            (Path { cached_bounds: cache_b, bounds_for: Ghost(b.commands@), ..b }),
        ),
{
}

/// Whenever the cache holds a box, that box was computed from exactly the
/// current command sequence — never from a stale one.  Every mutating
/// operation clears the cache, which is how the invariant survives.
pub proof fn lemma_cached_box_is_current<P, B>(p: Path<P, B>)
    requires
        p.wf(),
        p.cached_bounds is Some,
    ensures
        p.bounds_for@ == p.commands@,
{
}

impl<P, B> Path<P, B> {
    /// The cache invariant: a cached box is only ever the one computed from
    /// the current command sequence.
    pub open spec fn wf(self) -> bool {
        self.cached_bounds is Some ==> self.bounds_for@ == self.commands@
    }

    /// Creates a new empty path.
    pub fn new() -> (r: Self)
        ensures
            r.commands@.len() == 0,
            r.cached_bounds is None,
            r.wf(),
    {
        Path { commands: Vec::new(), cached_bounds: None, bounds_for: Ghost(Seq::empty()) }
    }

    /// Creates a new path with preallocated capacity.
    pub fn with_capacity(capacity: usize) -> (r: Self)
        ensures
            r.commands@.len() == 0,
            r.cached_bounds is None,
            r.wf(),
    {
        Path {
            commands: Vec::with_capacity(capacity),
            cached_bounds: None,
            bounds_for: Ghost(Seq::empty()),
        }
    }

    /// Returns the number of commands in the path.
    pub fn len(&self) -> (r: usize)
        ensures
            r == self.commands@.len(),
    {
        self.commands.len()
    }

    /// Returns `true` if the path contains no commands.
    pub fn is_empty(&self) -> (r: bool)
        ensures
            r == (self.commands@.len() == 0),
    {
        self.commands.is_empty()
    }

    /// Returns an immutable slice of the path's commands, in order.
    pub fn commands(&self) -> (r: &[PathCommand<P>])
        ensures
            r@ == self.commands@,
    {
        self.commands.as_slice()
    }

    /// Returns the cached bounding box, if one is stored.
    pub fn cached_bounds(&self) -> (r: Option<B>)
        where
            B: Copy,
        ensures
            r == self.cached_bounds,
    {
        self.cached_bounds
    }

    /// Moves the pen to a position without drawing; invalidates the cache.
    pub fn move_to(&mut self, point: P)
        ensures
            final(self).commands@ == old(self).commands@.push(PathCommand::MoveTo(point)),
            final(self).cached_bounds is None,
            final(self).wf(),
    {
        self.commands.push(PathCommand::MoveTo(point));
        self.cached_bounds = None;
    }

    /// Draws a straight line to a position; invalidates the cache.
    pub fn line_to(&mut self, point: P)
        ensures
            final(self).commands@ == old(self).commands@.push(PathCommand::LineTo(point)),
            final(self).cached_bounds is None,
            final(self).wf(),
    {
        self.commands.push(PathCommand::LineTo(point));
        self.cached_bounds = None;
    }

    /// Draws a quadratic Bézier curve; invalidates the cache.
    pub fn quadratic_to(&mut self, control: P, to: P)
        ensures
            final(self).commands@ == old(self).commands@.push(
                PathCommand::QuadraticTo { control, to },
            ),
            final(self).cached_bounds is None,
            final(self).wf(),
    {
        self.commands.push(PathCommand::QuadraticTo { control, to });
        self.cached_bounds = None;
    }

    /// Draws a cubic Bézier curve; invalidates the cache.
    pub fn cubic_to(&mut self, control1: P, control2: P, to: P)
        ensures
            final(self).commands@ == old(self).commands@.push(
                PathCommand::CubicTo { control1, control2, to },
            ),
            final(self).cached_bounds is None,
            final(self).wf(),
    {
        self.commands.push(PathCommand::CubicTo { control1, control2, to });
        self.cached_bounds = None;
    }

    /// Closes the current subpath.  A close references no new point, but all
    /// appends invalidate the cache uniformly, to keep the invariant simple.
    pub fn close(&mut self)
        ensures
            final(self).commands@ == old(self).commands@.push(PathCommand::Close),
            final(self).cached_bounds is None,
            final(self).wf(),
    {
        self.commands.push(PathCommand::Close);
        self.cached_bounds = None;
    }

    /// Every point referenced by the path's commands, in command order: one
    /// point for a move or line, control points then endpoint for a curve,
    /// none for a close.  This is the point set a bounding box is folded
    /// over.
    pub fn points(&self) -> (r: Vec<P>)
        where
            P: Copy,
        ensures
            r@ == points_spec(self.commands@),
    {
        let mut r: Vec<P> = Vec::new();
        let mut i: usize = 0;
        while i < self.commands.len()
            invariant
                i <= self.commands@.len(),
                r@ == points_spec(self.commands@.take(i as int)),
            decreases self.commands@.len() - i,
        {
            match self.commands[i] {
                PathCommand::MoveTo(p) => {
                    r.push(p);
                },
                PathCommand::LineTo(p) => {
                    r.push(p);
                },
                PathCommand::QuadraticTo { control, to } => {
                    r.push(control);
                    r.push(to);
                },
                PathCommand::CubicTo { control1, control2, to } => {
                    r.push(control1);
                    r.push(control2);
                    r.push(to);
                },
                PathCommand::Close => {},
            }
            proof {
                let t = self.commands@.take(i as int + 1);
                assert(t.drop_last() =~= self.commands@.take(i as int));
                assert(t.last() == self.commands@[i as int]);
                assert(r@ =~= points_spec(t));
            }
            i = i + 1;
        }
        proof {
            assert(self.commands@.take(self.commands@.len() as int) =~= self.commands@);
        }
        r
    }

    /// Returns the bounding box of the path: the cached box when one is
    /// stored (valid, by the invariant, for exactly the current commands),
    /// otherwise the box `compute` builds from the current commands, which
    /// is then cached.  After the call the cache holds the returned box for
    /// the unchanged command sequence.
    pub fn bounding_box_with<F: FnOnce(&Vec<PathCommand<P>>) -> B>(&mut self, compute: F) -> (r: B)
        where
            B: Copy,
        requires
            old(self).wf(),
            call_requires(compute, (&old(self).commands,)),
        ensures
            final(self).commands@ == old(self).commands@,
            final(self).cached_bounds == Some(r),
            final(self).wf(),
            old(self).cached_bounds is Some ==> r == old(self).cached_bounds->0,
            old(self).cached_bounds is None ==> call_ensures(compute, (&old(self).commands,), r),
    {
        if let Some(bounds) = self.cached_bounds {
            return bounds;
        }
        let bounds = compute(&self.commands);
        self.cached_bounds = Some(bounds);
        self.bounds_for = Ghost(self.commands@);
        bounds
    }

    /// Rewrites every point held by every command in place, control points
    /// included, each through `f`, keeping every command's kind and order;
    /// invalidates the cache.
    pub fn apply_transform_with<F: Fn(P) -> P>(&mut self, f: F)
        where
            P: Copy,
        requires
            forall|p: P| call_requires(f, (p,)),
        ensures
            final(self).commands@.len() == old(self).commands@.len(),
            forall|i: int|
                0 <= i < old(self).commands@.len() ==> #[trigger] command_mapped(
                    old(self).commands@[i],
                    final(self).commands@[i],
                    f,
                ),
            final(self).cached_bounds is None,
            final(self).wf(),
    {
        let mut i: usize = 0;
        while i < self.commands.len()
            invariant
                i <= self.commands@.len(),
                self.commands@.len() == old(self).commands@.len(),
                forall|p: P| call_requires(f, (p,)),
                forall|j: int|
                    0 <= j < i ==> #[trigger] command_mapped(
                        old(self).commands@[j],
                        self.commands@[j],
                        f,
                    ),
                forall|j: int|
                    i <= j < self.commands@.len() ==> self.commands@[j] == old(self).commands@[j],
            decreases self.commands@.len() - i,
        {
            let mapped = match self.commands[i] {
                PathCommand::MoveTo(p) => PathCommand::MoveTo(f(p)),
                PathCommand::LineTo(p) => PathCommand::LineTo(f(p)),
                PathCommand::QuadraticTo { control, to } => PathCommand::QuadraticTo {
                    control: f(control),
                    to: f(to),
                },
                PathCommand::CubicTo { control1, control2, to } => PathCommand::CubicTo {
                    control1: f(control1),
                    control2: f(control2),
                    to: f(to),
                },
                PathCommand::Close => PathCommand::Close,
            };
            self.commands.set(i, mapped);
            i = i + 1;
        }
        self.cached_bounds = None;
    }
}

/// A helper for building paths with pen-position tracking.  The cursor
/// records the destination of every absolute drawing command; computing a
/// relative destination is coordinate arithmetic and is done by the caller
/// before the append.
#[derive(Clone)]
pub struct PathCursor<P, B> {
    pub path: Path<P, B>,
    pub current: P,
}

impl<P, B> PathCursor<P, B> {
    /// Creates a new cursor whose pen rests at `origin`, over an empty path.
    pub fn new(origin: P) -> (r: Self)
        ensures
            r.path.commands@.len() == 0,
            r.path.cached_bounds is None,
            r.path.wf(),
            r.current == origin,
    {
        PathCursor { path: Path::new(), current: origin }
    }

    /// Returns the current cursor position.
    pub fn position(&self) -> (r: P)
        where
            P: Copy,
        ensures
            r == self.current,
    {
        self.current
    }

    /// Moves the cursor to an absolute position.
    pub fn move_to(&mut self, point: P)
        where
            P: Copy,
        ensures
            final(self).current == point,
            final(self).path.commands@ == old(self).path.commands@.push(
                PathCommand::MoveTo(point),
            ),
            final(self).path.cached_bounds is None,
            final(self).path.wf(),
    {
        self.current = point;
        self.path.move_to(point);
    }

    /// Draws a line to an absolute position.
    pub fn line_to(&mut self, point: P)
        where
            P: Copy,
        ensures
            final(self).current == point,
            final(self).path.commands@ == old(self).path.commands@.push(
                PathCommand::LineTo(point),
            ),
            final(self).path.cached_bounds is None,
            final(self).path.wf(),
    {
        self.current = point;
        self.path.line_to(point);
    }

    /// Draws a quadratic Bézier curve to an absolute position.
    pub fn quadratic_to(&mut self, control: P, to: P)
        where
            P: Copy,
        ensures
            final(self).current == to,
            final(self).path.commands@ == old(self).path.commands@.push(
                PathCommand::QuadraticTo { control, to },
            ),
            final(self).path.cached_bounds is None,
            final(self).path.wf(),
    {
        self.current = to;
        self.path.quadratic_to(control, to);
    }

    /// Draws a cubic Bézier curve to an absolute position.
    pub fn cubic_to(&mut self, control1: P, control2: P, to: P)
        where
            P: Copy,
        ensures
            final(self).current == to,
            final(self).path.commands@ == old(self).path.commands@.push(
                PathCommand::CubicTo { control1, control2, to },
            ),
            final(self).path.cached_bounds is None,
            final(self).path.wf(),
    {
        self.current = to;
        self.path.cubic_to(control1, control2, to);
    }

    /// Closes the current subpath; the pen position is unchanged.
    pub fn close(&mut self)
        ensures
            final(self).current == old(self).current,
            final(self).path.commands@ == old(self).path.commands@.push(PathCommand::Close),
            final(self).path.cached_bounds is None,
            final(self).path.wf(),
    {
        self.path.close();
    }

    /// Consumes the cursor and returns the built path.
    pub fn into_path(self) -> (r: Path<P, B>)
        ensures
            r == self.path,
    {
        self.path
    }

    /// Returns a reference to the underlying path.
    pub fn path(&self) -> (r: &Path<P, B>)
        ensures
            *r == self.path,
    {
        &self.path
    }
}

} // verus!
