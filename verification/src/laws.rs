use vstd::prelude::*;

use crate::node::Node;
use crate::rat::{
    lemma_q_le_shift, lemma_q_le_shift_into_sum, q_div, q_eq, q_lt, q_max2, q_minus, q_plus,
    q_times,
};
use crate::{
    apply_selection, first_hit, fit_scale_q, lemma_first_hit_ignores_selection,
    lemma_first_hit_properties, screen_to_world_q, selection_after_press, world_to_screen_q,
};

verus! {

/// Round-trip: for any screen point and any viewport state (positive scale),
/// converting to world coordinates and back yields exactly the same screen
/// point. The two exact conversions are true inverses.
pub proof fn lemma_world_screen_round_trip(p: (int, int), o: (int, int), s: (int, int))
    requires
        p.1 > 0,
        o.1 > 0,
        s.1 > 0,
        s.0 > 0,
    ensures
        q_eq(world_to_screen_q(screen_to_world_q(p, o, s), o, s), p),
{
    let d = q_div(p, s);
    let t = q_plus(d, o);
    let m = q_minus(t, o);
    let r = q_times(m, s);
    lemma_offset_cancels(p.0, p.1, o.0, o.1, s.0, s.1);
    assert(m.0 == ((p.0 * s.1) * o.1) * o.1);
    lemma_round_trip_monomials(p.0, p.1, o.0, o.1, s.0, s.1);
    assert(r.0 * p.1 == p.0 * r.1);
}

/// Adding and then subtracting the viewport offset cancels exactly.
proof fn lemma_offset_cancels(p0: int, p1: int, o0: int, o1: int, s0: int, s1: int)
    by (nonlinear_arith)
    ensures
        ((p0 * s1) * o1 + o0 * (p1 * s0)) * o1 - o0 * ((p1 * s0) * o1) == ((p0 * s1) * o1) * o1,
{
}

/// The remaining factors of the round trip agree up to reordering.
proof fn lemma_round_trip_monomials(p0: int, p1: int, o0: int, o1: int, s0: int, s1: int)
    ensures
        ((((p0 * s1) * o1) * o1) * s0) * p1 == p0 * ((((p1 * s0) * o1) * o1) * s1),
{
    broadcast use vstd::arithmetic::mul::lemma_mul_is_commutative, vstd::arithmetic::mul::lemma_mul_is_associative;

}

/// Round-trip, the other way: for any world point, converting to screen
/// coordinates and back yields exactly the same world point. Together with
/// `lemma_world_screen_round_trip` this shows the rendering transform and
/// the mouse-coordinate inversion agree everywhere.
pub proof fn lemma_screen_world_round_trip(w: (int, int), o: (int, int), s: (int, int))
    requires
        w.1 > 0,
        o.1 > 0,
        s.1 > 0,
        s.0 > 0,
    ensures
        q_eq(screen_to_world_q(world_to_screen_q(w, o, s), o, s), w),
{
    let u = q_times(q_minus(w, o), s);
    let d = q_div(u, s);
    let r = q_plus(d, o);
    lemma_offset_restores(w.0, w.1, o.0, o.1, s.0, s.1);
    assert(r.0 == (((w.0 * o.1) * o.1) * s.0) * s.1);
    lemma_inverse_monomials(w.0, w.1, o.0, o.1, s.0, s.1);
    assert(r.0 * w.1 == w.0 * r.1);
}

/// Subtracting and then adding the viewport offset cancels exactly.
proof fn lemma_offset_restores(w0: int, w1: int, o0: int, o1: int, s0: int, s1: int)
    ensures
        (((w0 * o1 - o0 * w1) * s0) * s1) * o1 + o0 * (((w1 * o1) * s1) * s0) == (((w0 * o1) * o1)
            * s0) * s1,
{
    broadcast use vstd::arithmetic::mul::lemma_mul_is_commutative, vstd::arithmetic::mul::lemma_mul_is_associative, vstd::arithmetic::mul::lemma_mul_is_distributive_sub_other_way;

}

/// The remaining factors of the inverse round trip agree up to reordering.
proof fn lemma_inverse_monomials(w0: int, w1: int, o0: int, o1: int, s0: int, s1: int)
    by (nonlinear_arith)
    ensures
        ((((w0 * o1) * o1) * s0) * s1) * w1 == w0 * ((((w1 * o1) * s1) * s0) * o1),
{
}

/// Containment is preserved by translation: a point inside a node's bounds
/// is, after the node moves by `(dx, dy)`, still inside the moved bounds at
/// the equally translated position. `m` is the node after the move, as
/// `move_position` produces it.
pub proof fn lemma_containment_after_move(
    n: Node,
    m: Node,
    px: (int, int),
    py: (int, int),
    dx: (int, int),
    dy: (int, int),
)
    requires
        n.wf(),
        px.1 > 0,
        py.1 > 0,
        dx.1 > 0,
        dy.1 > 0,
        m.x.q() == q_plus(n.x.q(), dx),
        m.y.q() == q_plus(n.y.q(), dy),
        m.width == n.width,
        m.height == n.height,
        n.contains_q(px, py),
    ensures
        m.contains_q(q_plus(px, dx), q_plus(py, dy)),
{
    lemma_q_le_shift(n.x.q(), px, dx);
    lemma_q_le_shift_into_sum(px, n.x.q(), n.width.q(), dx);
    lemma_q_le_shift(n.y.q(), py, dy);
    lemma_q_le_shift_into_sum(py, n.y.q(), n.height.q(), dy);
}

/// Selection exclusivity: after a left press without Shift, every node away
/// from the press point is deselected; the first node under the point is
/// selected; and with no node under the point, nothing at all is selected.
pub proof fn lemma_press_selects_exclusively(nodes: Seq<Node>, px: (int, int), py: (int, int))
    ensures
        ({
            let sel = selection_after_press(nodes, px, py, false);
            &&& (forall|i: int|
                0 <= i < nodes.len() && !nodes[i].contains_q(px, py) ==> !sel[i])
            &&& (first_hit(nodes, px, py) matches Some(k) ==> sel[k])
            &&& (first_hit(nodes, px, py) is None ==> (forall|i: int|
                0 <= i < nodes.len() ==> !sel[i]))
        }),
{
    lemma_first_hit_properties(nodes, px, py, 0);
}

/// Shift-toggle idempotence: two Shift-presses at the same point return
/// every node — selection flags included — to its original state.
pub proof fn lemma_shift_toggle_idempotent(nodes: Seq<Node>, px: (int, int), py: (int, int))
    ensures
        ({
            let once = apply_selection(nodes, selection_after_press(nodes, px, py, true));
            let twice = apply_selection(once, selection_after_press(once, px, py, true));
            twice =~= nodes
        }),
{
    let once = apply_selection(nodes, selection_after_press(nodes, px, py, true));
    let twice = apply_selection(once, selection_after_press(once, px, py, true));
    assert forall|j: int| 0 <= j < nodes.len() implies #[trigger] once[j] == (Node {
        selected: once[j].selected,
        ..nodes[j]
    }) by {
        assert(once[j] == (Node {
            selected: selection_after_press(nodes, px, py, true)[j],
            ..nodes[j]
        }));
    }
    lemma_first_hit_ignores_selection(nodes, once, px, py, 0);
    assert forall|j: int| 0 <= j < nodes.len() implies twice[j] == nodes[j] by {
        let sel1 = selection_after_press(nodes, px, py, true);
        let sel2 = selection_after_press(once, px, py, true);
        assert(once[j] == (Node { selected: sel1[j], ..nodes[j] }));
        assert(twice[j] == (Node { selected: sel2[j], ..once[j] }));
        assert(sel2[j] == nodes[j].selected);
        assert(twice[j] == (Node { selected: nodes[j].selected, ..nodes[j] }));
    }
}

/// Fit-to-content hits the window exactly on the larger axis: with the
/// chosen scale, the padded bounding box's extent on that axis times the
/// scale equals the window's extent on that axis. (The chosen scale and
/// offset are pure functions of the box and the window, so the operation is
/// deterministic by construction.)
pub proof fn lemma_fit_scale_exact(
    l: (int, int),
    t: (int, int),
    r: (int, int),
    b: (int, int),
    w: (int, int),
    h: (int, int),
)
    requires
        l.1 > 0,
        t.1 > 0,
        r.1 > 0,
        b.1 > 0,
        w.1 > 0,
        h.1 > 0,
        w.0 > 0,
        h.0 > 0,
        q_plus(q_max2(q_div(q_minus(r, l), w), q_div(q_minus(b, t), h)), (1, 5)).0 != 0,
    ensures
        ({
            let s = fit_scale_q(l, t, r, b, w, h);
            let cx = q_div(q_minus(r, l), w);
            let cy = q_div(q_minus(b, t), h);
            if q_lt(cx, cy) {
                q_eq(q_times(q_plus(q_minus(b, t), q_times((1, 5), h)), s), h)
            } else {
                q_eq(q_times(q_plus(q_minus(r, l), q_times((1, 5), w)), s), w)
            }
        }),
{
    let cx = q_div(q_minus(r, l), w);
    let cy = q_div(q_minus(b, t), h);
    crate::rat::lemma_mul_pos(b.1, t.1);
    crate::rat::lemma_mul_pos(r.1, l.1);
    if q_lt(cx, cy) {
        lemma_fit_axis_exact(q_minus(b, t), h, q_plus(cy, (1, 5)));
    } else {
        lemma_fit_axis_exact(q_minus(r, l), w, q_plus(cx, (1, 5)));
    }
}

/// On one axis: with box extent `m`, window extent `w`, and padded divisor
/// `p = m/w + 1/5`, the scale `1/p` maps the padded extent `m + w/5`
/// exactly onto `w`.
proof fn lemma_fit_axis_exact(m: (int, int), w: (int, int), p: (int, int))
    requires
        m.1 > 0,
        w.1 > 0,
        w.0 > 0,
        p == q_plus(q_div(m, w), (1, 5)),
        p.0 != 0,
    ensures
        q_eq(q_times(q_plus(m, q_times((1, 5), w)), q_div((1, 1), p)), w),
{
    let padded = q_plus(m, q_times((1, 5), w));
    let s = q_div((1, 1), p);
    assert(padded.0 == m.0 * (5 * w.1) + (1 * w.0) * m.1);
    assert(padded.1 == m.1 * (5 * w.1));
    assert(p.0 == (m.0 * w.1) * 5 + 1 * (m.1 * w.0));
    assert(p.1 == (m.1 * w.0) * 5);
    if p.0 >= 0 {
        assert(s.0 == 1 * ((m.1 * w.0) * 5));
        assert(s.1 == 1 * ((m.0 * w.1) * 5 + 1 * (m.1 * w.0)));
        lemma_fit_axis_monomials(m.0, m.1, w.0, w.1);
        assert((padded.0 * s.0) * w.1 == w.0 * (padded.1 * s.1));
    } else {
        assert(s.0 == -(1 * ((m.1 * w.0) * 5)));
        assert(s.1 == -(1 * ((m.0 * w.1) * 5 + 1 * (m.1 * w.0))));
        lemma_fit_axis_monomials(m.0, m.1, w.0, w.1);
        assert((padded.0 * s.0) * w.1 == w.0 * (padded.1 * s.1));
    }
}

/// The padded extent times the reciprocal divisor equals the window extent,
/// as one polynomial identity over the raw components.
proof fn lemma_fit_axis_monomials(m0: int, m1: int, w0: int, w1: int)
    by (nonlinear_arith)
    ensures
        ((m0 * (5 * w1) + (1 * w0) * m1) * (1 * ((m1 * w0) * 5))) * w1 == w0 * ((m1 * (5 * w1)) * (
        1 * ((m0 * w1) * 5 + 1 * (m1 * w0)))),
        ((m0 * (5 * w1) + (1 * w0) * m1) * (-(1 * ((m1 * w0) * 5)))) * w1 == w0 * ((m1 * (5 * w1))
            * (-(1 * ((m0 * w1) * 5 + 1 * (m1 * w0))))),
{
}

} // verus!
