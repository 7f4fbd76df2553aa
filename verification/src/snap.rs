//! The snap solver: a pure function from a proposed rectangle, the other
//! windows, the screen and a threshold to an adjusted rectangle.
//!
//! Four stages are tried in strict priority and the first that matches
//! decides: screen corners (drags only), screen edges, sibling corners,
//! sibling edges. A corner match is never combined with an edge match.

use vstd::prelude::*;
use crate::geometry::{Rect, Vec2, PIXEL_LIMIT, REACH_LIMIT};
use crate::handle::{AxisRule, ResizeHandle, Side};

verus! {

/// Which edges of the window were carried onto a snap target.
#[derive(Clone, Copy, Debug, PartialEq, Eq, Structural)]
pub struct SnapEdges {
    pub left: bool,
    pub right: bool,
    pub top: bool,
    pub bottom: bool,
}

/// The solver's answer: the adjusted rectangle, whether any stage matched,
/// and the edges that moved onto a target.
#[derive(Clone, Copy, Debug, PartialEq, Eq, Structural)]
pub struct SnapResult {
    pub position: Vec2,
    pub size: Vec2,
    pub snapped: bool,
    pub snap_edges: SnapEdges,
}

/// The mathematical content of a [`SnapResult`].
pub struct SnapPlan {
    pub x: int,
    pub y: int,
    pub w: int,
    pub h: int,
    pub snapped: bool,
    pub edges: SnapEdges,
}

impl SnapResult {
    /// The rectangle, the verdict and the edges as plain values.
    pub open spec fn plan(self) -> SnapPlan {
        SnapPlan {
            x: self.position.x as int,
            y: self.position.y as int,
            w: self.size.x as int,
            h: self.size.y as int,
            snapped: self.snapped,
            edges: self.snap_edges,
        }
    }
}

/// Start of `r` along one axis.
pub open spec fn span_lo(r: Rect, horizontal: bool) -> int {
    if horizontal {
        r.position.x as int
    } else {
        r.position.y as int
    }
}

/// Length of `r` along one axis.
pub open spec fn span_len(r: Rect, horizontal: bool) -> int {
    if horizontal {
        r.size.x as int
    } else {
        r.size.y as int
    }
}

/// Coordinate of one edge of `r`.
pub open spec fn span_edge(r: Rect, horizontal: bool, side: Side) -> int {
    if side == Side::Low {
        span_lo(r, horizontal)
    } else {
        span_lo(r, horizontal) + span_len(r, horizontal)
    }
}

/// The horizontal side of corner `k`. Corners are numbered top-left 0,
/// top-right 1, bottom-left 2, bottom-right 3.
pub open spec fn corner_side_x(k: int) -> Side {
    if k % 2 == 0 {
        Side::Low
    } else {
        Side::High
    }
}

/// The vertical side of corner `k`.
pub open spec fn corner_side_y(k: int) -> Side {
    if k < 2 {
        Side::Low
    } else {
        Side::High
    }
}

/// The x coordinate of corner `k` of `r`.
pub open spec fn corner_x(r: Rect, k: int) -> int {
    span_edge(r, true, corner_side_x(k))
}

/// The y coordinate of corner `k` of `r`.
pub open spec fn corner_y(r: Rect, k: int) -> int {
    span_edge(r, false, corner_side_y(k))
}

/// Euclidean distance between two points is at most `t`.
pub open spec fn within_distance(ax: int, ay: int, bx: int, by: int, t: int) -> bool {
    (ax - bx) * (ax - bx) + (ay - by) * (ay - by) <= t * t
}

/// Two coordinates differ by at most `t`.
pub open spec fn edge_near(a: int, b: int, t: int) -> bool {
    -t <= a - b <= t
}

/// Two half-open intervals share a point.
pub open spec fn spans_overlap(a_lo: int, a_len: int, b_lo: int, b_len: int) -> bool {
    a_lo < b_lo + b_len && b_lo < a_lo + a_len
}

/// Start of an axis after `side` was carried to `target` under `rule`.
pub open spec fn moved_lo(rule: AxisRule, lo: int, len: int, side: Side, target: int) -> int {
    match rule {
        AxisRule::Fixed => lo,
        AxisRule::MoveLow => if side == Side::Low {
            target
        } else {
            lo
        },
        AxisRule::MoveHigh => lo,
        AxisRule::Slide => if side == Side::Low {
            target
        } else {
            target - len
        },
    }
}

/// Length of an axis after `side` was carried to `target` under `rule`:
/// a resize recomputes it from the anchored opposite edge.
pub open spec fn moved_len(rule: AxisRule, lo: int, len: int, side: Side, target: int) -> int {
    match rule {
        AxisRule::Fixed => len,
        AxisRule::MoveLow => if side == Side::Low {
            lo + len - target
        } else {
            len
        },
        AxisRule::MoveHigh => if side == Side::High {
            target - lo
        } else {
            len
        },
        AxisRule::Slide => len,
    }
}

/// The decision for one axis: which side goes where.
pub struct AxisSnap {
    pub side: Side,
    pub target: int,
}

/// The rectangle that results from the per-axis decisions.
pub open spec fn plan_from(
    cand: Rect,
    hx: AxisRule,
    hy: AxisRule,
    sx: Option<AxisSnap>,
    sy: Option<AxisSnap>,
    snapped: bool,
) -> SnapPlan {
    SnapPlan {
        x: match sx {
            Some(a) => moved_lo(hx, cand.position.x as int, cand.size.x as int, a.side, a.target),
            None => cand.position.x as int,
        },
        w: match sx {
            Some(a) => moved_len(hx, cand.position.x as int, cand.size.x as int, a.side, a.target),
            None => cand.size.x as int,
        },
        y: match sy {
            Some(a) => moved_lo(hy, cand.position.y as int, cand.size.y as int, a.side, a.target),
            None => cand.position.y as int,
        },
        h: match sy {
            Some(a) => moved_len(hy, cand.position.y as int, cand.size.y as int, a.side, a.target),
            None => cand.size.y as int,
        },
        snapped,
        edges: SnapEdges {
            left: sx matches Some(a) && a.side == Side::Low && hx.moves(Side::Low),
            right: sx matches Some(a) && a.side == Side::High && hx.moves(Side::High),
            top: sy matches Some(a) && a.side == Side::Low && hy.moves(Side::Low),
            bottom: sy matches Some(a) && a.side == Side::High && hy.moves(Side::High),
        },
    }
}

/// Pair `p` of sixteen (window corner `p / 4`, other corner `p % 4`) is a
/// corner match: the gesture holds the window corner and the two points
/// are within the threshold.
pub open spec fn corner_pair_hits(
    cand: Rect,
    hx: AxisRule,
    hy: AxisRule,
    other: Rect,
    t: int,
    p: int,
) -> bool {
    &&& hx.touches(corner_side_x(p / 4))
    &&& hy.touches(corner_side_y(p / 4))
    &&& within_distance(
        corner_x(cand, p / 4),
        corner_y(cand, p / 4),
        corner_x(other, p % 4),
        corner_y(other, p % 4),
        t,
    )
}

/// The first matching pair at or after `p`, or 16.
pub open spec fn first_corner_pair(
    cand: Rect,
    hx: AxisRule,
    hy: AxisRule,
    other: Rect,
    t: int,
    p: int,
) -> int
    decreases 16 - p,
{
    if p >= 16 || p < 0 {
        16
    } else if corner_pair_hits(cand, hx, hy, other, t, p) {
        p
    } else {
        first_corner_pair(cand, hx, hy, other, t, p + 1)
    }
}

/// The first obstacle at or after `i` with a corner match, or the number
/// of obstacles.
pub open spec fn first_corner_obstacle(
    cand: Rect,
    hx: AxisRule,
    hy: AxisRule,
    obstacles: Seq<Rect>,
    t: int,
    i: int,
) -> int
    decreases obstacles.len() - i,
{
    if i >= obstacles.len() || i < 0 {
        obstacles.len() as int
    } else if first_corner_pair(cand, hx, hy, obstacles[i], t, 0) < 16 {
        i
    } else {
        first_corner_obstacle(cand, hx, hy, obstacles, t, i + 1)
    }
}

/// The horizontal decision of a corner match with pair `p` against
/// `other`.
pub open spec fn corner_snap_x(other: Rect, p: int) -> AxisSnap {
    AxisSnap { side: corner_side_x(p / 4), target: corner_x(other, p % 4) }
}

/// The vertical decision of a corner match with pair `p` against
/// `other`.
pub open spec fn corner_snap_y(other: Rect, p: int) -> AxisSnap {
    AxisSnap { side: corner_side_y(p / 4), target: corner_y(other, p % 4) }
}

/// Screen-edge proximity on one axis: the low edge against zero first,
/// then the high edge against the screen extent.
pub open spec fn axis_screen_snap(rule: AxisRule, lo: int, len: int, extent: int, t: int) -> Option<
    AxisSnap,
> {
    if rule.moves(Side::Low) && edge_near(lo, 0, t) {
        Some(AxisSnap { side: Side::Low, target: 0 })
    } else if rule.moves(Side::High) && edge_near(lo + len, extent, t) {
        Some(AxisSnap { side: Side::High, target: extent })
    } else {
        None
    }
}

/// Sibling-edge proximity on one axis against one obstacle: only where
/// the two overlap on the other axis; the window's low edge against the
/// obstacle's high edge first, then high against low.
pub open spec fn axis_sibling_snap(
    rule: AxisRule,
    cand: Rect,
    o: Rect,
    horizontal: bool,
    t: int,
) -> Option<AxisSnap> {
    if !spans_overlap(
        span_lo(cand, !horizontal),
        span_len(cand, !horizontal),
        span_lo(o, !horizontal),
        span_len(o, !horizontal),
    ) {
        None
    } else if rule.moves(Side::Low) && edge_near(
        span_lo(cand, horizontal),
        span_edge(o, horizontal, Side::High),
        t,
    ) {
        Some(AxisSnap { side: Side::Low, target: span_edge(o, horizontal, Side::High) })
    } else if rule.moves(Side::High) && edge_near(
        span_edge(cand, horizontal, Side::High),
        span_lo(o, horizontal),
        t,
    ) {
        Some(AxisSnap { side: Side::High, target: span_lo(o, horizontal) })
    } else {
        None
    }
}

/// The first obstacle at or after `i` that gives an edge match on the
/// axis, or the number of obstacles.
pub open spec fn first_edge_obstacle(
    rule: AxisRule,
    cand: Rect,
    obstacles: Seq<Rect>,
    horizontal: bool,
    t: int,
    i: int,
) -> int
    decreases obstacles.len() - i,
{
    if i >= obstacles.len() || i < 0 {
        obstacles.len() as int
    } else if axis_sibling_snap(rule, cand, obstacles[i], horizontal, t) is Some {
        i
    } else {
        first_edge_obstacle(rule, cand, obstacles, horizontal, t, i + 1)
    }
}

/// Sibling-edge decision of one axis over all obstacles.
pub open spec fn axis_siblings_snap(
    rule: AxisRule,
    cand: Rect,
    obstacles: Seq<Rect>,
    horizontal: bool,
    t: int,
) -> Option<AxisSnap> {
    let i = first_edge_obstacle(rule, cand, obstacles, horizontal, t, 0);
    if i < obstacles.len() {
        axis_sibling_snap(rule, cand, obstacles[i], horizontal, t)
    } else {
        None
    }
}

/// The rectangle of the whole screen.
pub open spec fn screen_rect(screen: Vec2) -> Rect {
    Rect { position: Vec2 { x: 0, y: 0 }, size: screen }
}

/// What the solver returns, stage by stage.
pub open spec fn solve_snap_spec(
    cand: Rect,
    handle: ResizeHandle,
    obstacles: Seq<Rect>,
    screen: Vec2,
    t: int,
) -> SnapPlan {
    let hx = handle.horizontal_rule();
    let hy = handle.vertical_rule();
    let p1 = first_corner_pair(cand, hx, hy, screen_rect(screen), t, 0);
    if handle.is_drag() && p1 < 16 {
        plan_from(
            cand,
            hx,
            hy,
            Some(corner_snap_x(screen_rect(screen), p1)),
            Some(corner_snap_y(screen_rect(screen), p1)),
            true,
        )
    } else {
        let sx = axis_screen_snap(
            hx,
            cand.position.x as int,
            cand.size.x as int,
            screen.x as int,
            t,
        );
        let sy = axis_screen_snap(
            hy,
            cand.position.y as int,
            cand.size.y as int,
            screen.y as int,
            t,
        );
        if sx is Some || sy is Some {
            plan_from(cand, hx, hy, sx, sy, true)
        } else {
            let i3 = first_corner_obstacle(cand, hx, hy, obstacles, t, 0);
            if i3 < obstacles.len() {
                let p3 = first_corner_pair(cand, hx, hy, obstacles[i3], t, 0);
                plan_from(
                    cand,
                    hx,
                    hy,
                    Some(corner_snap_x(obstacles[i3], p3)),
                    Some(corner_snap_y(obstacles[i3], p3)),
                    true,
                )
            } else {
                let ex = axis_siblings_snap(hx, cand, obstacles, true, t);
                let ey = axis_siblings_snap(hy, cand, obstacles, false, t);
                if ex is Some || ey is Some {
                    plan_from(cand, hx, hy, ex, ey, true)
                } else {
                    plan_from(cand, hx, hy, None, None, false)
                }
            }
        }
    }
}

/// Every obstacle is a stored rectangle.
pub open spec fn obstacles_in_range(obstacles: Seq<Rect>) -> bool {
    forall|i: int| 0 <= i < obstacles.len() ==> (#[trigger] obstacles[i]).in_range()
}

/// An axis decision as executable code holds it.
#[derive(Clone, Copy, Debug, PartialEq, Eq, Structural)]
pub struct AxisChoice {
    pub side: Side,
    pub target: i32,
}

/// The mathematical content of an optional [`AxisChoice`].
pub open spec fn choice_view(c: Option<AxisChoice>) -> Option<AxisSnap> {
    match c {
        Some(a) => Some(AxisSnap { side: a.side, target: a.target as int }),
        None => None,
    }
}

proof fn lemma_square_exceeds(d: int, t: int)
    requires
        0 <= t,
        d > t || d < -t,
    ensures
        d * d > t * t,
{
    assert(d * d > t * t) by (nonlinear_arith)
        requires
            0 <= t,
            d > t || d < -t,
    ;
}

proof fn lemma_square_bounded(d: int, t: int)
    requires
        0 <= t,
        -t <= d <= t,
    ensures
        0 <= d * d <= t * t,
{
    assert(0 <= d * d <= t * t) by (nonlinear_arith)
        requires
            0 <= t,
            -t <= d <= t,
    ;
}

/// Computes [`within_distance`] without forming a square root.
pub fn points_within(ax: i32, ay: i32, bx: i32, by: i32, t: i32) -> (r: bool)
    requires
        0 <= t,
    ensures
        r == within_distance(ax as int, ay as int, bx as int, by as int, t as int),
{
    let dx: i64 = ax as i64 - bx as i64;
    let dy: i64 = ay as i64 - by as i64;
    let t64: i64 = t as i64;
    if dx > t64 || dx < -t64 {
        proof {
            lemma_square_exceeds(dx as int, t as int);
            assert((dy as int) * (dy as int) >= 0) by (nonlinear_arith);
        }
        return false;
    }
    if dy > t64 || dy < -t64 {
        proof {
            lemma_square_exceeds(dy as int, t as int);
            assert((dx as int) * (dx as int) >= 0) by (nonlinear_arith);
        }
        return false;
    }
    proof {
        lemma_square_bounded(dx as int, t as int);
        lemma_square_bounded(dy as int, t as int);
        lemma_square_bounded(t as int, i32::MAX as int);
    }
    dx * dx + dy * dy <= t64 * t64
}

fn edge_coordinate(r: &Rect, horizontal: bool, side: Side) -> (e: i32)
    requires
        r.in_reach(),
    ensures
        e == span_edge(*r, horizontal, side),
{
    let lo: i32 = if horizontal {
        r.position.x
    } else {
        r.position.y
    };
    let len: i32 = if horizontal {
        r.size.x
    } else {
        r.size.y
    };
    match side {
        Side::Low => lo,
        Side::High => lo + len,
    }
}

fn side_x_of(k: u8) -> (s: Side)
    ensures
        s == corner_side_x(k as int),
{
    if k % 2 == 0 {
        Side::Low
    } else {
        Side::High
    }
}

fn side_y_of(k: u8) -> (s: Side)
    ensures
        s == corner_side_y(k as int),
{
    if k < 2 {
        Side::Low
    } else {
        Side::High
    }
}

fn pair_hits(cand: &Rect, hx: AxisRule, hy: AxisRule, other: &Rect, t: i32, p: u8) -> (r: bool)
    requires
        cand.in_reach(),
        other.in_reach(),
        0 <= t <= PIXEL_LIMIT,
        p < 16,
    ensures
        r == corner_pair_hits(*cand, hx, hy, *other, t as int, p as int),
{
    let wc: u8 = p / 4;
    let oc: u8 = p % 4;
    let sx = side_x_of(wc);
    let sy = side_y_of(wc);
    if !hx.can_touch(sx) || !hy.can_touch(sy) {
        return false;
    }
    points_within(
        edge_coordinate(cand, true, sx),
        edge_coordinate(cand, false, sy),
        edge_coordinate(other, true, side_x_of(oc)),
        edge_coordinate(other, false, side_y_of(oc)),
        t,
    )
}

fn find_corner_pair(cand: &Rect, hx: AxisRule, hy: AxisRule, other: &Rect, t: i32) -> (p: u8)
    requires
        cand.in_reach(),
        other.in_reach(),
        0 <= t <= PIXEL_LIMIT,
    ensures
        p as int == first_corner_pair(*cand, hx, hy, *other, t as int, 0),
        p <= 16,
{
    let mut p: u8 = 0;
    while p < 16
        invariant
            p <= 16,
            cand.in_reach(),
            other.in_reach(),
            0 <= t <= PIXEL_LIMIT,
            first_corner_pair(*cand, hx, hy, *other, t as int, 0) == first_corner_pair(
                *cand,
                hx,
                hy,
                *other,
                t as int,
                p as int,
            ),
        decreases 16 - p,
    {
        if pair_hits(cand, hx, hy, other, t, p) {
            return p;
        }
        p = p + 1;
    }
    p
}

fn corner_choices(other: &Rect, p: u8) -> (c: (AxisChoice, AxisChoice))
    requires
        other.in_reach(),
        p < 16,
    ensures
        choice_view(Some(c.0)) == Some(corner_snap_x(*other, p as int)),
        choice_view(Some(c.1)) == Some(corner_snap_y(*other, p as int)),
{
    let wc: u8 = p / 4;
    let oc: u8 = p % 4;
    (
        AxisChoice { side: side_x_of(wc), target: edge_coordinate(other, true, side_x_of(oc)) },
        AxisChoice { side: side_y_of(wc), target: edge_coordinate(other, false, side_y_of(oc)) },
    )
}

fn screen_choice(rule: AxisRule, lo: i32, len: i32, extent: i32, t: i32) -> (c: Option<AxisChoice>)
    requires
        -REACH_LIMIT <= lo <= REACH_LIMIT,
        -REACH_LIMIT <= len <= REACH_LIMIT,
        0 <= extent <= PIXEL_LIMIT,
        0 <= t <= PIXEL_LIMIT,
    ensures
        choice_view(c) == axis_screen_snap(rule, lo as int, len as int, extent as int, t as int),
{
    if rule.can_move(Side::Low) && -t <= lo && lo <= t {
        Some(AxisChoice { side: Side::Low, target: 0 })
    } else if rule.can_move(Side::High) && -t <= lo + len - extent && lo + len - extent <= t {
        Some(AxisChoice { side: Side::High, target: extent })
    } else {
        None
    }
}

fn sibling_choice(rule: AxisRule, cand: &Rect, o: &Rect, horizontal: bool, t: i32) -> (c: Option<
    AxisChoice,
>)
    requires
        cand.in_reach(),
        o.in_range(),
        0 <= t <= PIXEL_LIMIT,
    ensures
        choice_view(c) == axis_sibling_snap(rule, *cand, *o, horizontal, t as int),
{
    let a_lo = edge_coordinate(cand, !horizontal, Side::Low);
    let a_hi = edge_coordinate(cand, !horizontal, Side::High);
    let b_lo = edge_coordinate(o, !horizontal, Side::Low);
    let b_hi = edge_coordinate(o, !horizontal, Side::High);
    if !(a_lo < b_hi && b_lo < a_hi) {
        return None;
    }
    let lo = edge_coordinate(cand, horizontal, Side::Low);
    let hi = edge_coordinate(cand, horizontal, Side::High);
    let o_lo = edge_coordinate(o, horizontal, Side::Low);
    let o_hi = edge_coordinate(o, horizontal, Side::High);
    if rule.can_move(Side::Low) && -t <= lo - o_hi && lo - o_hi <= t {
        Some(AxisChoice { side: Side::Low, target: o_hi })
    } else if rule.can_move(Side::High) && -t <= hi - o_lo && hi - o_lo <= t {
        Some(AxisChoice { side: Side::High, target: o_lo })
    } else {
        None
    }
}

fn siblings_choice(
    rule: AxisRule,
    cand: &Rect,
    obstacles: &Vec<Rect>,
    horizontal: bool,
    t: i32,
) -> (c: Option<AxisChoice>)
    requires
        cand.in_reach(),
        obstacles_in_range(obstacles@),
        0 <= t <= PIXEL_LIMIT,
    ensures
        choice_view(c) == axis_siblings_snap(rule, *cand, obstacles@, horizontal, t as int),
        c matches Some(a) ==> -2 * PIXEL_LIMIT <= a.target <= 2 * PIXEL_LIMIT,
{
    let mut i: usize = 0;
    while i < obstacles.len()
        invariant
            i <= obstacles.len(),
            cand.in_reach(),
            obstacles_in_range(obstacles@),
            0 <= t <= PIXEL_LIMIT,
            first_edge_obstacle(rule, *cand, obstacles@, horizontal, t as int, 0)
                == first_edge_obstacle(rule, *cand, obstacles@, horizontal, t as int, i as int),
        decreases obstacles.len() - i,
    {
        let c = sibling_choice(rule, cand, &obstacles[i], horizontal, t);
        if c.is_some() {
            return c;
        }
        i = i + 1;
    }
    None
}

fn assemble(
    cand: &Rect,
    hx: AxisRule,
    hy: AxisRule,
    sx: Option<AxisChoice>,
    sy: Option<AxisChoice>,
    snapped: bool,
) -> (r: SnapResult)
    requires
        cand.in_reach(),
        sx matches Some(a) ==> -2 * PIXEL_LIMIT <= a.target <= 2 * PIXEL_LIMIT,
        sy matches Some(a) ==> -2 * PIXEL_LIMIT <= a.target <= 2 * PIXEL_LIMIT,
    ensures
        r.plan() == plan_from(*cand, hx, hy, choice_view(sx), choice_view(sy), snapped),
{
    let mut x: i32 = cand.position.x;
    let mut w: i32 = cand.size.x;
    let mut left = false;
    let mut right = false;
    if let Some(a) = sx {
        match hx {
            AxisRule::Fixed => {},
            AxisRule::MoveLow => {
                if a.side == Side::Low {
                    w = x + w - a.target;
                    x = a.target;
                    left = true;
                }
            },
            AxisRule::MoveHigh => {
                if a.side == Side::High {
                    w = a.target - x;
                    right = true;
                }
            },
            AxisRule::Slide => {
                if a.side == Side::Low {
                    x = a.target;
                    left = true;
                } else {
                    x = a.target - w;
                    right = true;
                }
            },
        }
    }
    let mut y: i32 = cand.position.y;
    let mut h: i32 = cand.size.y;
    let mut top = false;
    let mut bottom = false;
    if let Some(a) = sy {
        match hy {
            AxisRule::Fixed => {},
            AxisRule::MoveLow => {
                if a.side == Side::Low {
                    h = y + h - a.target;
                    y = a.target;
                    top = true;
                }
            },
            AxisRule::MoveHigh => {
                if a.side == Side::High {
                    h = a.target - y;
                    bottom = true;
                }
            },
            AxisRule::Slide => {
                if a.side == Side::Low {
                    y = a.target;
                    top = true;
                } else {
                    y = a.target - h;
                    bottom = true;
                }
            },
        }
    }
    SnapResult {
        position: Vec2 { x, y },
        size: Vec2 { x: w, y: h },
        snapped,
        snap_edges: SnapEdges { left, right, top, bottom },
    }
}

/// The snap solver.
///
/// `handle` says what the gesture may move: [`ResizeHandle::DragSentinel`]
/// slides the whole rectangle, a resize handle moves only its own
/// edges and recomputes the size from the anchored opposite edge.
#[verifier::loop_isolation(false)]
pub fn solve_snap(
    candidate: Rect,
    handle: ResizeHandle,
    obstacles: &Vec<Rect>,
    screen: Vec2,
    threshold: i32,
) -> (r: SnapResult)
    requires
        candidate.in_reach(),
        obstacles_in_range(obstacles@),
        screen.is_extent(),
        0 <= threshold <= PIXEL_LIMIT,
    ensures
        r.plan() == solve_snap_spec(candidate, handle, obstacles@, screen, threshold as int),
{
    let hx = handle.rule_x();
    let hy = handle.rule_y();
    let whole = Rect { position: Vec2 { x: 0, y: 0 }, size: screen };
    if handle.marks_drag() {
        let p1 = find_corner_pair(&candidate, hx, hy, &whole, threshold);
        if p1 < 16 {
            let c = corner_choices(&whole, p1);
            return assemble(&candidate, hx, hy, Some(c.0), Some(c.1), true);
        }
    }
    let sx = screen_choice(hx, candidate.position.x, candidate.size.x, screen.x, threshold);
    let sy = screen_choice(hy, candidate.position.y, candidate.size.y, screen.y, threshold);
    if sx.is_some() || sy.is_some() {
        return assemble(&candidate, hx, hy, sx, sy, true);
    }
    let mut i: usize = 0;
    while i < obstacles.len()
        invariant
            i <= obstacles.len(),
            candidate.in_reach(),
            obstacles_in_range(obstacles@),
            0 <= threshold <= PIXEL_LIMIT,
            first_corner_obstacle(candidate, hx, hy, obstacles@, threshold as int, 0)
                == first_corner_obstacle(candidate, hx, hy, obstacles@, threshold as int, i as int),
        decreases obstacles.len() - i,
    {
        let p3 = find_corner_pair(&candidate, hx, hy, &obstacles[i], threshold);
        if p3 < 16 {
            let c = corner_choices(&obstacles[i], p3);
            return assemble(&candidate, hx, hy, Some(c.0), Some(c.1), true);
        }
        i = i + 1;
    }
    let ex = siblings_choice(hx, &candidate, obstacles, true, threshold);
    let ey = siblings_choice(hy, &candidate, obstacles, false, threshold);
    if ex.is_some() || ey.is_some() {
        return assemble(&candidate, hx, hy, ex, ey, true);
    }
    assemble(&candidate, hx, hy, None, None, false)
}

/// The solver leaves alone what the gesture does not move: a drag keeps
/// the size, a resize keeps the anchored edges, and an axis that the
/// handle does not act on stays as it is. Without a match the answer is
/// the candidate.
pub proof fn lemma_snap_respects_handle(
    cand: Rect,
    handle: ResizeHandle,
    obstacles: Seq<Rect>,
    screen: Vec2,
    t: int,
)
    ensures
        ({
            let plan = solve_snap_spec(cand, handle, obstacles, screen, t);
            let hx = handle.horizontal_rule();
            let hy = handle.vertical_rule();
            &&& hx == AxisRule::Slide ==> plan.w == cand.size.x
            &&& hx == AxisRule::MoveLow ==> plan.x + plan.w == cand.position.x + cand.size.x
            &&& hx == AxisRule::MoveHigh ==> plan.x == cand.position.x
            &&& hx == AxisRule::Fixed ==> plan.x == cand.position.x && plan.w == cand.size.x
            &&& hy == AxisRule::Slide ==> plan.h == cand.size.y
            &&& hy == AxisRule::MoveLow ==> plan.y + plan.h == cand.position.y + cand.size.y
            &&& hy == AxisRule::MoveHigh ==> plan.y == cand.position.y
            &&& hy == AxisRule::Fixed ==> plan.y == cand.position.y && plan.h == cand.size.y
            &&& !plan.snapped ==> plan == plan_from(cand, hx, hy, None, None, false)
        }),
{
}

/// A corner pair that the search returns is a match.
pub proof fn lemma_first_corner_pair_hits(
    cand: Rect,
    hx: AxisRule,
    hy: AxisRule,
    other: Rect,
    t: int,
    p: int,
)
    requires
        0 <= p,
    ensures
        first_corner_pair(cand, hx, hy, other, t, p) == 16 || (p <= first_corner_pair(
            cand,
            hx,
            hy,
            other,
            t,
            p,
        ) < 16 && corner_pair_hits(
            cand,
            hx,
            hy,
            other,
            t,
            first_corner_pair(cand, hx, hy, other, t, p),
        )),
    decreases 16 - p,
{
    if p < 16 && !corner_pair_hits(cand, hx, hy, other, t, p) {
        lemma_first_corner_pair_hits(cand, hx, hy, other, t, p + 1);
    }
}

/// An obstacle that the corner search returns has a matching pair.
pub proof fn lemma_first_corner_obstacle_hits(
    cand: Rect,
    hx: AxisRule,
    hy: AxisRule,
    obstacles: Seq<Rect>,
    t: int,
    i: int,
)
    requires
        0 <= i,
    ensures
        first_corner_obstacle(cand, hx, hy, obstacles, t, i) == obstacles.len() || (i
            <= first_corner_obstacle(cand, hx, hy, obstacles, t, i) < obstacles.len()
            && first_corner_pair(
            cand,
            hx,
            hy,
            obstacles[first_corner_obstacle(cand, hx, hy, obstacles, t, i)],
            t,
            0,
        ) < 16),
    decreases obstacles.len() - i,
{
    if i < obstacles.len() && !(first_corner_pair(cand, hx, hy, obstacles[i], t, 0) < 16) {
        lemma_first_corner_obstacle_hits(cand, hx, hy, obstacles, t, i + 1);
    }
}

/// An obstacle that the edge search returns gives an edge match.
pub proof fn lemma_first_edge_obstacle_hits(
    rule: AxisRule,
    cand: Rect,
    obstacles: Seq<Rect>,
    horizontal: bool,
    t: int,
    i: int,
)
    requires
        0 <= i,
    ensures
        first_edge_obstacle(rule, cand, obstacles, horizontal, t, i) == obstacles.len() || (i
            <= first_edge_obstacle(rule, cand, obstacles, horizontal, t, i) < obstacles.len()
            && axis_sibling_snap(
            rule,
            cand,
            obstacles[first_edge_obstacle(rule, cand, obstacles, horizontal, t, i)],
            horizontal,
            t,
        ) is Some),
    decreases obstacles.len() - i,
{
    if i < obstacles.len() && axis_sibling_snap(rule, cand, obstacles[i], horizontal, t) is None {
        lemma_first_edge_obstacle_hits(rule, cand, obstacles, horizontal, t, i + 1);
    }
}

/// An axis decision carries its side no farther than `t`.
pub open spec fn snap_in_reach(cand: Rect, horizontal: bool, a: Option<AxisSnap>, t: int) -> bool {
    a matches Some(s) ==> edge_near(span_edge(cand, horizontal, s.side), s.target, t)
}

proof fn lemma_corner_in_reach(cand: Rect, hx: AxisRule, hy: AxisRule, other: Rect, t: int, p: int)
    requires
        0 <= t,
        0 <= p < 16,
        corner_pair_hits(cand, hx, hy, other, t, p),
    ensures
        snap_in_reach(cand, true, Some(corner_snap_x(other, p)), t),
        snap_in_reach(cand, false, Some(corner_snap_y(other, p)), t),
{
    let dx = corner_x(cand, p / 4) - corner_x(other, p % 4);
    let dy = corner_y(cand, p / 4) - corner_y(other, p % 4);
    assert(-t <= dx <= t && -t <= dy <= t) by (nonlinear_arith)
        requires
            dx * dx + dy * dy <= t * t,
            0 <= t,
    ;
}

/// Snapping moves no edge farther than the threshold: each edge of the
/// answer lies within `t` of the same edge of the candidate.
pub proof fn lemma_snap_within_threshold(
    cand: Rect,
    handle: ResizeHandle,
    obstacles: Seq<Rect>,
    screen: Vec2,
    t: int,
)
    requires
        0 <= t,
    ensures
        ({
            let plan = solve_snap_spec(cand, handle, obstacles, screen, t);
            &&& edge_near(plan.x, cand.position.x as int, t)
            &&& edge_near(plan.x + plan.w, cand.position.x + cand.size.x, t)
            &&& edge_near(plan.y, cand.position.y as int, t)
            &&& edge_near(plan.y + plan.h, cand.position.y + cand.size.y, t)
        }),
{
    let hx = handle.horizontal_rule();
    let hy = handle.vertical_rule();
    let whole = screen_rect(screen);
    let p1 = first_corner_pair(cand, hx, hy, whole, t, 0);
    lemma_first_corner_pair_hits(cand, hx, hy, whole, t, 0);
    if handle.is_drag() && p1 < 16 {
        lemma_corner_in_reach(cand, hx, hy, whole, t, p1);
    } else {
        let sx = axis_screen_snap(
            hx,
            cand.position.x as int,
            cand.size.x as int,
            screen.x as int,
            t,
        );
        let sy = axis_screen_snap(
            hy,
            cand.position.y as int,
            cand.size.y as int,
            screen.y as int,
            t,
        );
        if sx is Some || sy is Some {
        } else {
            let i3 = first_corner_obstacle(cand, hx, hy, obstacles, t, 0);
            lemma_first_corner_obstacle_hits(cand, hx, hy, obstacles, t, 0);
            if i3 < obstacles.len() {
                let p3 = first_corner_pair(cand, hx, hy, obstacles[i3], t, 0);
                lemma_first_corner_pair_hits(cand, hx, hy, obstacles[i3], t, 0);
                lemma_corner_in_reach(cand, hx, hy, obstacles[i3], t, p3);
            } else {
            }
        }
    }
}

} // verus!
