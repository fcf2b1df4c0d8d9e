pub mod color;
pub mod laws;
pub mod node;
pub mod rat;

use vstd::prelude::*;

use crate::node::node_definition::NodeDefinition;
use crate::node::{texts_synced, Node};
use crate::rat::{q_div, q_fits, q_le, q_lt, q_max2, q_minus, q_plus, q_times, Rat};

verus! {

/// The interaction the editor is currently performing.
///
/// `MovingNodes` is declared for completeness but never entered: node
/// dragging is gated on the left-button flag, matching the interaction
/// model's asymmetry rather than papering over it.
#[derive(PartialEq, Eq, Debug, Clone, Copy, Structural)]
pub enum CurrentAction {
    Idle,
    MovingNodes,
    MovingViewport,
}

/// A pointer button, as reported by the windowing layer.
#[derive(PartialEq, Eq, Debug, Clone, Copy, Structural)]
pub enum MouseButton {
    Left,
    Right,
    Middle,
    Other(u16),
}

/// The keys the editor reacts to. The windowing layer maps its own key codes
/// to this set; anything else arrives as `Other`.
#[derive(PartialEq, Eq, Debug, Clone, Copy, Structural)]
pub enum EditorKey {
    FitView,
    Other,
}

/// Hands out process-unique ids for nodes and node definitions, replacing
/// ambient global counters with explicit, testable state.
pub struct IdAllocator {
    pub next_id: u64,
}

impl IdAllocator {
    pub fn new() -> (a: IdAllocator)
        ensures
            a.next_id == 0,
    {
        IdAllocator { next_id: 0 }
    }

    /// Returns a fresh id; ids are handed out consecutively.
    pub fn allocate(&mut self) -> (id: u64)
        requires
            old(self).next_id < u64::MAX,
        ensures
            id == old(self).next_id,
            final(self).next_id == id + 1,
    {
        let id = self.next_id;
        self.next_id = self.next_id + 1;
        id
    }
}

/// The world point a screen point `p` maps to under viewport offset `o` and
/// scale `s`: `world = screen / scale + offset`.
pub open spec fn screen_to_world_q(p: (int, int), o: (int, int), s: (int, int)) -> (int, int) {
    q_plus(q_div(p, s), o)
}

/// The screen point a world point `w` maps to: `screen = (world - offset) *
/// scale`. This is the transform the rendering path applies to every node.
pub open spec fn world_to_screen_q(w: (int, int), o: (int, int), s: (int, int)) -> (int, int) {
    q_times(q_minus(w, o), s)
}

/// The screen-to-world conversion of `p` stays representable.
pub open spec fn s2w_fits(p: (int, int), o: (int, int), s: (int, int)) -> bool {
    &&& s.0 != 0
    &&& q_fits(q_div(p, s))
    &&& q_fits(q_plus(q_div(p, s), o))
}

/// The world-to-screen conversion of `w` stays representable.
pub open spec fn w2s_fits(w: (int, int), o: (int, int), s: (int, int)) -> bool {
    &&& q_fits(q_minus(w, o))
    &&& q_fits(q_times(q_minus(w, o), s))
}

/// Every node is well formed with representable edges.
pub open spec fn nodes_wf(nodes: Seq<Node>) -> bool {
    forall|i: int| 0 <= i < nodes.len() ==> ((#[trigger] nodes[i]).wf() && nodes[i].edges_fit())
}

/// Each new node equals the old one with its base position set to
/// `(bx, by)` and its text offsets re-synchronized, except that a node whose
/// offsets would leave the representable range is left unchanged.
pub open spec fn bases_propagated(
    new_nodes: Seq<Node>,
    old_nodes: Seq<Node>,
    bx: Rat,
    by: Rat,
) -> bool {
    &&& new_nodes.len() == old_nodes.len()
    &&& forall|i: int|
        0 <= i < new_nodes.len() ==> (if old_nodes[i].base_fits(bx.q(), by.q()) {
            new_nodes[i] == (Node {
                base_x: bx,
                base_y: by,
                texts: new_nodes[i].texts,
                ..old_nodes[i]
            }) && texts_synced(
                new_nodes[i].texts@,
                old_nodes[i].texts@,
                q_minus(bx.q(), old_nodes[i].x.q()),
                q_minus(by.q(), old_nodes[i].y.q()),
            )
        } else {
            new_nodes[i] == old_nodes[i]
        })
}

/// The index of the first node (in list order) whose bounds contain the
/// world point, searching from index `i`.
pub open spec fn first_hit_from(nodes: Seq<Node>, px: (int, int), py: (int, int), i: int) -> Option<
    int,
>
    decreases nodes.len() - i,
{
    if i < 0 || i >= nodes.len() {
        None
    } else if nodes[i].contains_q(px, py) {
        Some(i)
    } else {
        first_hit_from(nodes, px, py, i + 1)
    }
}

/// The index of the first node (in list order) whose bounds contain the
/// world point.
pub open spec fn first_hit(nodes: Seq<Node>, px: (int, int), py: (int, int)) -> Option<int> {
    first_hit_from(nodes, px, py, 0)
}

/// A hit reported by `first_hit_from` is the earliest containing node at or
/// after the start index; `None` means no node from the start index on
/// contains the point.
pub proof fn lemma_first_hit_properties(nodes: Seq<Node>, px: (int, int), py: (int, int), i: int)
    requires
        0 <= i,
    ensures
        first_hit_from(nodes, px, py, i) matches Some(k) ==> (i <= k < nodes.len()
            && nodes[k].contains_q(px, py) && (forall|j: int|
            i <= j < k ==> !nodes[j].contains_q(px, py))),
        first_hit_from(nodes, px, py, i) is None ==> (forall|j: int|
            i <= j < nodes.len() ==> !nodes[j].contains_q(px, py)),
    decreases nodes.len() - i,
{
    if i < 0 || i >= nodes.len() {
    } else if nodes[i].contains_q(px, py) {
    } else {
        lemma_first_hit_properties(nodes, px, py, i + 1);
        match first_hit_from(nodes, px, py, i + 1) {
            Some(k) => {
                assert forall|j: int| i <= j < k implies !nodes[j].contains_q(px, py) by {
                    if j != i {
                        assert(!nodes[j].contains_q(px, py));
                    }
                }
            },
            None => {
                assert forall|j: int| i <= j < nodes.len() implies !nodes[j].contains_q(
                    px,
                    py,
                ) by {
                    if j != i {
                        assert(!nodes[j].contains_q(px, py));
                    }
                }
            },
        }
    }
}

/// Which node the press hits does not depend on any node's selection flag.
pub proof fn lemma_first_hit_ignores_selection(
    a: Seq<Node>,
    b: Seq<Node>,
    px: (int, int),
    py: (int, int),
    i: int,
)
    requires
        a.len() == b.len(),
        forall|j: int|
            0 <= j < a.len() ==> #[trigger] b[j] == (Node { selected: b[j].selected, ..a[j] }),
    ensures
        first_hit_from(a, px, py, i) == first_hit_from(b, px, py, i),
    decreases a.len() - i,
{
    if i < 0 || i >= a.len() {
    } else {
        assert(b[i].x == a[i].x && b[i].width == a[i].width && b[i].y == a[i].y && b[i].height
            == a[i].height);
        lemma_first_hit_ignores_selection(a, b, px, py, i + 1);
    }
}

/// The selection flags after a left press at the world point `(px, py)`.
///
/// Without Shift, exactly the nodes under the point that were already
/// selected stay selected, and the first node under the point becomes
/// selected; every node away from the point is deselected. With Shift held,
/// only the first node under the point changes, by toggling.
pub open spec fn selection_after_press(
    nodes: Seq<Node>,
    px: (int, int),
    py: (int, int),
    shift: bool,
) -> Seq<bool> {
    let hit = first_hit(nodes, px, py);
    Seq::new(
        nodes.len(),
        |i: int|
            if shift {
                if hit == Some(i) {
                    !nodes[i].selected
                } else {
                    nodes[i].selected
                }
            } else {
                nodes[i].contains_q(px, py) && (nodes[i].selected || hit == Some(i))
            },
    )
}

/// The node list with its selection flags replaced by `sel`.
pub open spec fn apply_selection(nodes: Seq<Node>, sel: Seq<bool>) -> Seq<Node> {
    Seq::new(nodes.len(), |i: int| Node { selected: sel[i], ..nodes[i] })
}

/// Whether a release at `(rx, ry)` after a press at `(px, py)` counts as a
/// click: the squared straight-line pixel distance is at most the squared
/// maximum click distance.
pub open spec fn click_within_q(
    px: (int, int),
    py: (int, int),
    rx: (int, int),
    ry: (int, int),
) -> bool {
    q_le(
        q_plus(
            q_times(q_minus(rx, px), q_minus(rx, px)),
            q_times(q_minus(ry, py), q_minus(ry, py)),
        ),
        (MAX_DISTANCE_FOR_CLICK_SQUARED as int, 1int),
    )
}

/// The squared click distance stays representable, so the classification can
/// be computed.
pub open spec fn click_measure_fits(
    px: (int, int),
    py: (int, int),
    rx: (int, int),
    ry: (int, int),
) -> bool {
    &&& q_fits(q_minus(rx, px))
    &&& q_fits(q_minus(ry, py))
    &&& q_fits(q_times(q_minus(rx, px), q_minus(rx, px)))
    &&& q_fits(q_times(q_minus(ry, py), q_minus(ry, py)))
    &&& q_fits(
        q_plus(
            q_times(q_minus(rx, px), q_minus(rx, px)),
            q_times(q_minus(ry, py), q_minus(ry, py)),
        ),
    )
}

/// The squared maximum distance, in pixels, between mouse down and mouse up
/// for the release to count as a click (the distance itself is 2 pixels).
pub const MAX_DISTANCE_FOR_CLICK_SQUARED: i64 = 4;

/// The top-level editor: the node collection, the viewport transform, and
/// the interaction state the pointer and keyboard events drive.
pub struct NodeThing {
    pub node_definitions: Vec<NodeDefinition>,
    pub nodes: Vec<Node>,
    pub mouse_down_x: Rat,
    pub mouse_down_y: Rat,
    pub left_mouse_down: bool,
    pub right_mouse_down: bool,
    pub current_action: CurrentAction,
    pub viewport_x: Rat,
    pub viewport_y: Rat,
    pub viewport_scale: Rat,
}

impl NodeThing {
    /// Well-formed editor state: all rationals are well formed, the scale is
    /// strictly positive, and every node is well formed with representable
    /// edges.
    pub open spec fn wf(self) -> bool {
        &&& self.mouse_down_x.wf()
        &&& self.mouse_down_y.wf()
        &&& self.viewport_x.wf()
        &&& self.viewport_y.wf()
        &&& self.viewport_scale.wf()
        &&& q_lt((0, 1), self.viewport_scale.q())
        &&& nodes_wf(self.nodes@)
    }

    /// An empty editor looking at the world origin at scale 1.
    pub fn new() -> (e: NodeThing)
        ensures
            e.wf(),
            e.node_definitions@ =~= Seq::<NodeDefinition>::empty(),
            e.nodes@ =~= Seq::<Node>::empty(),
            e.mouse_down_x == (Rat { num: 0, den: 1 }),
            e.mouse_down_y == (Rat { num: 0, den: 1 }),
            !e.left_mouse_down,
            !e.right_mouse_down,
            e.current_action == CurrentAction::Idle,
            e.viewport_x == (Rat { num: 0, den: 1 }),
            e.viewport_y == (Rat { num: 0, den: 1 }),
            e.viewport_scale == (Rat { num: 1, den: 1 }),
    {
        NodeThing {
            node_definitions: Vec::new(),
            nodes: Vec::new(),
            mouse_down_x: Rat::from_int(0),
            mouse_down_y: Rat::from_int(0),
            left_mouse_down: false,
            right_mouse_down: false,
            current_action: CurrentAction::Idle,
            viewport_x: Rat::from_int(0),
            viewport_y: Rat::from_int(0),
            viewport_scale: Rat::from_int(1),
        }
    }

    /// Registers a node definition.
    pub fn add_node_definition(&mut self, node_definition: NodeDefinition)
        requires
            old(self).wf(),
        ensures
            final(self).wf(),
            *final(self) == (NodeThing {
                node_definitions: final(self).node_definitions,
                ..*old(self)
            }),
            final(self).node_definitions@ =~= old(self).node_definitions@.push(node_definition),
    {
        self.node_definitions.push(node_definition);
    }

    /// Adds a node to the scene, aligning its base position with the current
    /// viewport offset.
    pub fn add_node(&mut self, node: Node)
        requires
            old(self).wf(),
            node.wf(),
            node.edges_fit(),
        ensures
            final(self).wf(),
            *final(self) == (NodeThing { nodes: final(self).nodes, ..*old(self) }),
            final(self).nodes@.len() == old(self).nodes@.len() + 1,
            forall|i: int|
                0 <= i < old(self).nodes@.len() ==> final(self).nodes@[i] == old(self).nodes@[i],
            ({
                let added = final(self).nodes@[old(self).nodes@.len() as int];
                if node.base_fits(old(self).viewport_x.q(), old(self).viewport_y.q()) {
                    added == (Node {
                        base_x: old(self).viewport_x,
                        base_y: old(self).viewport_y,
                        texts: added.texts,
                        ..node
                    }) && texts_synced(
                        added.texts@,
                        node.texts@,
                        q_minus(old(self).viewport_x.q(), node.x.q()),
                        q_minus(old(self).viewport_y.q(), node.y.q()),
                    )
                } else {
                    added == node
                }
            }),
    {
        let mut node = node;
        node.set_base_position(self.viewport_x, self.viewport_y);
        self.nodes.push(node);
    }

    /// Moves the viewport's world origin and propagates it to every node's
    /// base position, so cached text offsets stay correct without per-frame
    /// recomputation.
    pub fn set_viewport_position(&mut self, x: Rat, y: Rat)
        requires
            old(self).wf(),
            x.wf(),
            y.wf(),
        ensures
            final(self).wf(),
            *final(self) == (NodeThing {
                viewport_x: x,
                viewport_y: y,
                nodes: final(self).nodes,
                ..*old(self)
            }),
            bases_propagated(final(self).nodes@, old(self).nodes@, x, y),
    {
        self.viewport_x = x;
        self.viewport_y = y;
        let ghost nodes0 = self.nodes@;
        let mut i: usize = 0;
        while i < self.nodes.len()
            invariant
                i <= self.nodes@.len(),
                self.nodes@.len() == nodes0.len(),
                nodes_wf(nodes0),
                x.wf(),
                y.wf(),
                *self == (NodeThing {
                    viewport_x: x,
                    viewport_y: y,
                    nodes: self.nodes,
                    ..*old(self)
                }),
                nodes_wf(self.nodes@),
                forall|j: int| i <= j < nodes0.len() ==> self.nodes@[j] == nodes0[j],
                forall|j: int|
                    0 <= j < i ==> (if nodes0[j].base_fits(x.q(), y.q()) {
                        self.nodes@[j] == (Node {
                            base_x: x,
                            base_y: y,
                            texts: self.nodes@[j].texts,
                            ..nodes0[j]
                        }) && texts_synced(
                            self.nodes@[j].texts@,
                            nodes0[j].texts@,
                            q_minus(x.q(), nodes0[j].x.q()),
                            q_minus(y.q(), nodes0[j].y.q()),
                        )
                    } else {
                        self.nodes@[j] == nodes0[j]
                    }),
            decreases self.nodes@.len() - i,
        {
            self.nodes[i].set_base_position(x, y);
            i = i + 1;
        }
    }

    /// Converts window (screen) coordinates to world coordinates under the
    /// current viewport: `world = screen / scale + offset`. Returns `None`
    /// exactly when the conversion leaves the representable range.
    pub fn window_coordinates_to_world(&self, x: Rat, y: Rat) -> (r: Option<(Rat, Rat)>)
        requires
            self.wf(),
            x.wf(),
            y.wf(),
        ensures
            r matches Some(w) ==> (w.0.wf() && w.1.wf() && w.0.q() == screen_to_world_q(
                x.q(),
                self.viewport_x.q(),
                self.viewport_scale.q(),
            ) && w.1.q() == screen_to_world_q(
                y.q(),
                self.viewport_y.q(),
                self.viewport_scale.q(),
            )),
            r is Some <==> (s2w_fits(x.q(), self.viewport_x.q(), self.viewport_scale.q())
                && s2w_fits(y.q(), self.viewport_y.q(), self.viewport_scale.q())),
    {
        let sx = x.checked_div(&self.viewport_scale);
        let sy = y.checked_div(&self.viewport_scale);
        if sx.is_some() && sy.is_some() {
            let wx = sx.unwrap().checked_plus(&self.viewport_x);
            let wy = sy.unwrap().checked_plus(&self.viewport_y);
            if wx.is_some() && wy.is_some() {
                Some((wx.unwrap(), wy.unwrap()))
            } else {
                None
            }
        } else {
            None
        }
    }

    /// Converts world coordinates to window (screen) coordinates under the
    /// current viewport: `screen = (world - offset) * scale`. This is the
    /// transform the rendering path applies to every node; it is the exact
    /// inverse of `window_coordinates_to_world`. Returns `None` exactly when
    /// the conversion leaves the representable range.
    pub fn world_coordinates_to_window(&self, x: Rat, y: Rat) -> (r: Option<(Rat, Rat)>)
        requires
            self.wf(),
            x.wf(),
            y.wf(),
        ensures
            r matches Some(p) ==> (p.0.wf() && p.1.wf() && p.0.q() == world_to_screen_q(
                x.q(),
                self.viewport_x.q(),
                self.viewport_scale.q(),
            ) && p.1.q() == world_to_screen_q(
                y.q(),
                self.viewport_y.q(),
                self.viewport_scale.q(),
            )),
            r is Some <==> (w2s_fits(x.q(), self.viewport_x.q(), self.viewport_scale.q())
                && w2s_fits(y.q(), self.viewport_y.q(), self.viewport_scale.q())),
    {
        let dx = x.checked_minus(&self.viewport_x);
        let dy = y.checked_minus(&self.viewport_y);
        if dx.is_some() && dy.is_some() {
            let px = dx.unwrap().checked_times(&self.viewport_scale);
            let py = dy.unwrap().checked_times(&self.viewport_scale);
            if px.is_some() && py.is_some() {
                Some((px.unwrap(), py.unwrap()))
            } else {
                None
            }
        } else {
            None
        }
    }

    /// The indices of all nodes whose bounds contain the world point, in
    /// list order.
    pub fn nodes_inside_point(&self, x: Rat, y: Rat) -> (r: Vec<usize>)
        requires
            self.wf(),
            x.wf(),
            y.wf(),
        ensures
            forall|k: int|
                0 <= k < r@.len() ==> (r@[k] < self.nodes@.len() && self.nodes@[r@[k] as int]
                    .contains_q(x.q(), y.q())),
            forall|i: int|
                0 <= i < self.nodes@.len() && self.nodes@[i].contains_q(x.q(), y.q())
                    ==> r@.contains(i as usize),
            forall|k: int| 0 <= k < r@.len() - 1 ==> #[trigger] r@[k] < r@[k + 1],
            first_hit(self.nodes@, x.q(), y.q()) == (if r@.len() == 0 {
                Option::<int>::None
            } else {
                Some(r@[0] as int)
            }),
    {
        let mut r: Vec<usize> = Vec::new();
        let mut i: usize = 0;
        while i < self.nodes.len()
            invariant
                self.wf(),
                x.wf(),
                y.wf(),
                i <= self.nodes@.len(),
                forall|k: int|
                    0 <= k < r@.len() ==> (r@[k] < i && self.nodes@[r@[k] as int].contains_q(
                        x.q(),
                        y.q(),
                    )),
                forall|j: int|
                    0 <= j < i && self.nodes@[j].contains_q(x.q(), y.q()) ==> r@.contains(
                        j as usize,
                    ),
                forall|k: int| 0 <= k < r@.len() - 1 ==> #[trigger] r@[k] < r@[k + 1],
                first_hit(self.nodes@, x.q(), y.q()) == (if r@.len() == 0 {
                    first_hit_from(self.nodes@, x.q(), y.q(), i as int)
                } else {
                    Some(r@[0] as int)
                }),
            decreases self.nodes@.len() - i,
        {
            let ghost r0 = r@;
            if self.nodes[i].point_inside(x, y) {
                r.push(i);
                proof {
                    assert forall|j: int|
                        0 <= j <= i && self.nodes@[j].contains_q(x.q(), y.q()) implies r@.contains(
                        j as usize,
                    ) by {
                        if j == i {
                            assert(r@[r@.len() - 1] == i as usize);
                        } else {
                            let k = choose|k: int| 0 <= k < r0.len() && r0[k] == j as usize;
                            assert(r@[k] == j as usize);
                        }
                    }
                }
            }
            i = i + 1;
        }
        r
    }

    /// Both coordinates of the press point convert to representable world
    /// coordinates.
    pub open spec fn press_world_fits(self, px: (int, int), py: (int, int)) -> bool {
        &&& s2w_fits(px, self.viewport_x.q(), self.viewport_scale.q())
        &&& s2w_fits(py, self.viewport_y.q(), self.viewport_scale.q())
    }

    /// The world x of a screen x under the current viewport.
    pub open spec fn press_world_x(self, px: (int, int)) -> (int, int) {
        screen_to_world_q(px, self.viewport_x.q(), self.viewport_scale.q())
    }

    /// The world y of a screen y under the current viewport.
    pub open spec fn press_world_y(self, py: (int, int)) -> (int, int) {
        screen_to_world_q(py, self.viewport_y.q(), self.viewport_scale.q())
    }

    /// A pointer button was pressed at screen point `(x, y)`, with `shift`
    /// telling whether a Shift key is held.
    ///
    /// The press position is always recorded. A left press runs the
    /// selection logic at the press point's world coordinates (see
    /// `selection_after_press`); when that conversion leaves the
    /// representable range the selection is left untouched. A middle press
    /// starts panning the viewport.
    pub fn mouse_button_down_event(&mut self, button: MouseButton, x: Rat, y: Rat, shift: bool)
        requires
            old(self).wf(),
            x.wf(),
            y.wf(),
        ensures
            final(self).wf(),
            button == MouseButton::Left ==> (*final(self) == (NodeThing {
                mouse_down_x: x,
                mouse_down_y: y,
                left_mouse_down: true,
                nodes: final(self).nodes,
                ..*old(self)
            }) && (old(self).press_world_fits(x.q(), y.q()) ==> final(self).nodes@
                =~= apply_selection(
                old(self).nodes@,
                selection_after_press(
                    old(self).nodes@,
                    old(self).press_world_x(x.q()),
                    old(self).press_world_y(y.q()),
                    shift,
                ),
            )) && (!old(self).press_world_fits(x.q(), y.q()) ==> final(self).nodes
                == old(self).nodes)),
            button == MouseButton::Right ==> *final(self) == (NodeThing {
                mouse_down_x: x,
                mouse_down_y: y,
                right_mouse_down: true,
                ..*old(self)
            }),
            button == MouseButton::Middle ==> *final(self) == (NodeThing {
                mouse_down_x: x,
                mouse_down_y: y,
                current_action: CurrentAction::MovingViewport,
                ..*old(self)
            }),
            (button matches MouseButton::Other(_)) ==> *final(self) == (NodeThing {
                mouse_down_x: x,
                mouse_down_y: y,
                ..*old(self)
            }),
    {
        let world = self.window_coordinates_to_world(x, y);
        self.mouse_down_x = x;
        self.mouse_down_y = y;
        match button {
            MouseButton::Left => {
                self.left_mouse_down = true;
                if world.is_some() {
                    let (wx, wy) = world.unwrap();
                    let ghost state1 = *self;
                    let ghost nodes0 = self.nodes@;
                    let ghost wxq = wx.q();
                    let ghost wyq = wy.q();
                    if !shift {
                        let mut i: usize = 0;
                        while i < self.nodes.len()
                            invariant
                                i <= self.nodes@.len(),
                                self.nodes@.len() == nodes0.len(),
                                nodes_wf(nodes0),
                                nodes_wf(self.nodes@),
                                state1.wf(),
                                *self == (NodeThing { nodes: self.nodes, ..state1 }),
                                wx.wf(),
                                wy.wf(),
                                wxq == wx.q(),
                                wyq == wy.q(),
                                forall|j: int|
                                    0 <= j < i ==> self.nodes@[j] == (Node {
                                        selected: nodes0[j].selected && nodes0[j].contains_q(
                                            wxq,
                                            wyq,
                                        ),
                                        ..nodes0[j]
                                    }),
                                forall|j: int|
                                    i <= j < nodes0.len() ==> self.nodes@[j] == nodes0[j],
                            decreases self.nodes@.len() - i,
                        {
                            if !self.nodes[i].point_inside(wx, wy) {
                                self.nodes[i].selected = false;
                            }
                            i = i + 1;
                        }
                    }
                    let ghost nodes1 = self.nodes@;
                    proof {
                        assert forall|j: int| 0 <= j < nodes0.len() implies #[trigger] nodes1[j]
                            == (Node { selected: nodes1[j].selected, ..nodes0[j] }) by {
                            if !shift {
                                assert(nodes1[j] == (Node {
                                    selected: nodes0[j].selected && nodes0[j].contains_q(wxq, wyq),
                                    ..nodes0[j]
                                }));
                            }
                        }
                        lemma_first_hit_ignores_selection(nodes0, nodes1, wxq, wyq, 0);
                        lemma_first_hit_properties(nodes0, wxq, wyq, 0);
                        assert forall|j: int| 0 <= j < nodes1.len() implies ((#[trigger] nodes1[j]).wf()
                            && nodes1[j].edges_fit()) by {
                            assert(nodes1[j] == (Node { selected: nodes1[j].selected, ..nodes0[j] }));
                            assert(nodes0[j].wf() && nodes0[j].edges_fit());
                        }
                        assert(*self == (NodeThing { nodes: self.nodes, ..state1 }));
                        assert(self.wf());
                    }
                    let hovered = self.nodes_inside_point(wx, wy);
                    if hovered.len() > 0 {
                        let k = hovered[0];
                        let was = self.nodes[k].selected;
                        self.nodes[k].selected = if shift {
                            !was
                        } else {
                            true
                        };
                        proof {
                            assert forall|j: int| 0 <= j < self.nodes@.len() implies ((
                            #[trigger] self.nodes@[j]).wf() && self.nodes@[j].edges_fit()) by {
                                if j != k as int {
                                    assert(self.nodes@[j] == nodes1[j]);
                                } else {
                                    assert(self.nodes@[j] == (Node {
                                        selected: self.nodes@[j].selected,
                                        ..nodes1[j]
                                    }));
                                }
                                assert(nodes1[j].wf() && nodes1[j].edges_fit());
                            }
                            assert(*self == (NodeThing { nodes: self.nodes, ..state1 }));
                        }
                    }
                    proof {
                        let sel = selection_after_press(nodes0, wxq, wyq, shift);
                        assert forall|j: int| 0 <= j < nodes0.len() implies self.nodes@[j]
                            == apply_selection(nodes0, sel)[j] by {
                            assert(apply_selection(nodes0, sel)[j] == (Node {
                                selected: sel[j],
                                ..nodes0[j]
                            }));
                            if !shift {
                                assert(nodes1[j] == (Node {
                                    selected: nodes0[j].selected && nodes0[j].contains_q(wxq, wyq),
                                    ..nodes0[j]
                                }));
                            }
                        }
                        assert(self.nodes@ =~= apply_selection(nodes0, sel));
                    }
                }
            },
            MouseButton::Right => {
                self.right_mouse_down = true;
            },
            MouseButton::Middle => {
                self.current_action = CurrentAction::MovingViewport;
            },
            MouseButton::Other(_) => {},
        }
    }

    /// A pointer button was released at screen point `(x, y)`.
    ///
    /// Returns whether the release classifies as a click — a release within
    /// the maximum click distance of the recorded press point — or `None`
    /// when the squared distance leaves the representable range. A left or
    /// right release clears the matching button flag; a middle release ends
    /// viewport panning.
    pub fn mouse_button_up_event(&mut self, button: MouseButton, x: Rat, y: Rat) -> (was_click:
        Option<bool>)
        requires
            old(self).wf(),
            x.wf(),
            y.wf(),
        ensures
            final(self).wf(),
            was_click matches Some(b) ==> b == click_within_q(
                old(self).mouse_down_x.q(),
                old(self).mouse_down_y.q(),
                x.q(),
                y.q(),
            ),
            was_click is Some <==> click_measure_fits(
                old(self).mouse_down_x.q(),
                old(self).mouse_down_y.q(),
                x.q(),
                y.q(),
            ),
            button == MouseButton::Left ==> *final(self) == (NodeThing {
                left_mouse_down: false,
                ..*old(self)
            }),
            button == MouseButton::Right ==> *final(self) == (NodeThing {
                right_mouse_down: false,
                ..*old(self)
            }),
            button == MouseButton::Middle ==> *final(self) == (NodeThing {
                current_action: (if old(self).current_action == CurrentAction::MovingViewport {
                    CurrentAction::Idle
                } else {
                    old(self).current_action
                }),
                ..*old(self)
            }),
            (button matches MouseButton::Other(_)) ==> *final(self) == *old(self),
    {
        let was_click = self.classify_release(x, y);
        match button {
            MouseButton::Left => {
                self.left_mouse_down = false;
            },
            MouseButton::Right => {
                self.right_mouse_down = false;
            },
            MouseButton::Middle => {
                if self.current_action == CurrentAction::MovingViewport {
                    self.current_action = CurrentAction::Idle;
                }
            },
            MouseButton::Other(_) => {},
        }
        was_click
    }

    /// Classifies a release at `(x, y)` against the recorded press point:
    /// a click when the squared distance is within the squared maximum click
    /// distance, `None` when that distance leaves the representable range.
    fn classify_release(&self, x: Rat, y: Rat) -> (was_click: Option<bool>)
        requires
            self.wf(),
            x.wf(),
            y.wf(),
        ensures
            was_click matches Some(b) ==> b == click_within_q(
                self.mouse_down_x.q(),
                self.mouse_down_y.q(),
                x.q(),
                y.q(),
            ),
            was_click is Some <==> click_measure_fits(
                self.mouse_down_x.q(),
                self.mouse_down_y.q(),
                x.q(),
                y.q(),
            ),
    {
        let dx = x.checked_minus(&self.mouse_down_x);
        let dy = y.checked_minus(&self.mouse_down_y);
        if dx.is_some() && dy.is_some() {
            let dx = dx.unwrap();
            let dy = dy.unwrap();
            let sq_x = dx.checked_times(&dx);
            let sq_y = dy.checked_times(&dy);
            if sq_x.is_some() && sq_y.is_some() {
                let total = sq_x.unwrap().checked_plus(&sq_y.unwrap());
                if total.is_some() {
                    let limit = Rat::from_int(MAX_DISTANCE_FOR_CLICK_SQUARED);
                    Some(total.unwrap().le(&limit))
                } else {
                    None
                }
            } else {
                None
            }
        } else {
            None
        }
    }

    /// Panning this motion delta lands the viewport offset in the
    /// representable range.
    pub open spec fn pan_fits(self, dx: (int, int), dy: (int, int)) -> bool {
        &&& q_fits(q_div(dx, self.viewport_scale.q()))
        &&& q_fits(q_div(dy, self.viewport_scale.q()))
        &&& q_fits(q_minus(self.viewport_x.q(), q_div(dx, self.viewport_scale.q())))
        &&& q_fits(q_minus(self.viewport_y.q(), q_div(dy, self.viewport_scale.q())))
    }

    /// The motion delta converts to a representable world delta.
    pub open spec fn drag_delta_fits(self, dx: (int, int), dy: (int, int)) -> bool {
        &&& q_fits(q_div(dx, self.viewport_scale.q()))
        &&& q_fits(q_div(dy, self.viewport_scale.q()))
    }

    /// The pointer moved by the screen delta `(dx, dy)`.
    ///
    /// While panning, the viewport offset moves against the delta, converted
    /// to world units; while the left button is down, every selected node
    /// moves with the delta. A delta whose conversion leaves the
    /// representable range leaves the state unchanged (for a drag, each node
    /// is judged on its own target position).
    pub fn mouse_motion_event(&mut self, dx: Rat, dy: Rat)
        requires
            old(self).wf(),
            dx.wf(),
            dy.wf(),
        ensures
            final(self).wf(),
            old(self).current_action == CurrentAction::MovingViewport ==> ((old(self).pan_fits(
                dx.q(),
                dy.q(),
            ) ==> (*final(self) == (NodeThing {
                viewport_x: final(self).viewport_x,
                viewport_y: final(self).viewport_y,
                nodes: final(self).nodes,
                ..*old(self)
            }) && final(self).viewport_x.wf() && final(self).viewport_x.q() == q_minus(
                old(self).viewport_x.q(),
                q_div(dx.q(), old(self).viewport_scale.q()),
            ) && final(self).viewport_y.wf() && final(self).viewport_y.q() == q_minus(
                old(self).viewport_y.q(),
                q_div(dy.q(), old(self).viewport_scale.q()),
            ) && bases_propagated(
                final(self).nodes@,
                old(self).nodes@,
                final(self).viewport_x,
                final(self).viewport_y,
            ))) && (!old(self).pan_fits(dx.q(), dy.q()) ==> *final(self) == *old(self))),
            old(self).current_action != CurrentAction::MovingViewport && old(self).left_mouse_down
                ==> ((old(self).drag_delta_fits(dx.q(), dy.q()) ==> (*final(self) == (NodeThing {
                nodes: final(self).nodes,
                ..*old(self)
            }) && nodes_dragged(
                final(self).nodes@,
                old(self).nodes@,
                q_div(dx.q(), old(self).viewport_scale.q()),
                q_div(dy.q(), old(self).viewport_scale.q()),
            ))) && (!old(self).drag_delta_fits(dx.q(), dy.q()) ==> *final(self) == *old(self))),
            old(self).current_action != CurrentAction::MovingViewport && !old(
                self,
            ).left_mouse_down ==> *final(self) == *old(self),
    {
        if self.current_action == CurrentAction::MovingViewport {
            let wdx = dx.checked_div(&self.viewport_scale);
            let wdy = dy.checked_div(&self.viewport_scale);
            if wdx.is_some() && wdy.is_some() {
                let nvx = self.viewport_x.checked_minus(&wdx.unwrap());
                let nvy = self.viewport_y.checked_minus(&wdy.unwrap());
                if nvx.is_some() && nvy.is_some() {
                    self.set_viewport_position(nvx.unwrap(), nvy.unwrap());
                }
            }
            return ;
        }
        if self.left_mouse_down {
            let wdxo = dx.checked_div(&self.viewport_scale);
            let wdyo = dy.checked_div(&self.viewport_scale);
            if wdxo.is_some() && wdyo.is_some() {
                let wdx = wdxo.unwrap();
                let wdy = wdyo.unwrap();
                let ghost state0 = *self;
                let ghost nodes0 = self.nodes@;
                let mut i: usize = 0;
                while i < self.nodes.len()
                    invariant
                        i <= self.nodes@.len(),
                        self.nodes@.len() == nodes0.len(),
                        nodes0 == state0.nodes@,
                        nodes_wf(nodes0),
                        nodes_wf(self.nodes@),
                        *self == (NodeThing { nodes: self.nodes, ..state0 }),
                        wdx.wf(),
                        wdy.wf(),
                        forall|j: int| i <= j < nodes0.len() ==> self.nodes@[j] == nodes0[j],
                        forall|j: int|
                            0 <= j < i ==> (if nodes0[j].selected && nodes0[j].move_fits(
                                wdx.q(),
                                wdy.q(),
                            ) {
                                self.nodes@[j] == (Node {
                                    x: self.nodes@[j].x,
                                    y: self.nodes@[j].y,
                                    texts: self.nodes@[j].texts,
                                    ..nodes0[j]
                                }) && self.nodes@[j].x.wf() && self.nodes@[j].x.q() == q_plus(
                                    nodes0[j].x.q(),
                                    wdx.q(),
                                ) && self.nodes@[j].y.wf() && self.nodes@[j].y.q() == q_plus(
                                    nodes0[j].y.q(),
                                    wdy.q(),
                                ) && texts_synced(
                                    self.nodes@[j].texts@,
                                    nodes0[j].texts@,
                                    q_minus(nodes0[j].base_x.q(), q_plus(nodes0[j].x.q(), wdx.q())),
                                    q_minus(nodes0[j].base_y.q(), q_plus(nodes0[j].y.q(), wdy.q())),
                                )
                            } else {
                                self.nodes@[j] == nodes0[j]
                            }),
                    decreases self.nodes@.len() - i,
                {
                    if self.nodes[i].selected {
                        self.nodes[i].move_position(wdx, wdy);
                    }
                    i = i + 1;
                }
            }
        }
    }

    /// Every intermediate of the zoom computation stays representable.
    pub open spec fn wheel_fits(self, y: (int, int), mx: (int, int), my: (int, int)) -> bool {
        let s = self.viewport_scale.q();
        let f = q_times(y, (1, 10));
        let z = q_minus((1, 1), f);
        let wx = screen_to_world_q(mx, self.viewport_x.q(), s);
        let wy = screen_to_world_q(my, self.viewport_y.q(), s);
        &&& q_fits(f)
        &&& q_fits(z)
        &&& self.press_world_fits(mx, my)
        &&& q_fits(q_minus(wx, self.viewport_x.q()))
        &&& q_fits(q_times(q_minus(wx, self.viewport_x.q()), f))
        &&& q_fits(q_plus(self.viewport_x.q(), q_times(q_minus(wx, self.viewport_x.q()), f)))
        &&& q_fits(q_minus(wy, self.viewport_y.q()))
        &&& q_fits(q_times(q_minus(wy, self.viewport_y.q()), f))
        &&& q_fits(q_plus(self.viewport_y.q(), q_times(q_minus(wy, self.viewport_y.q()), f)))
        &&& q_fits(q_div(s, z))
    }

    /// A wheel event with this delta changes the viewport: the delta is not
    /// filtered out as noise, the zoom factor stays positive (the scale can
    /// never reach zero or flip sign), and the computation stays
    /// representable.
    pub open spec fn wheel_applies(self, y: (int, int), mx: (int, int), my: (int, int)) -> bool {
        &&& !wheel_is_small(y)
        &&& q_lt((0, 1), wheel_zoom_factor(y))
        &&& self.wheel_fits(y, mx, my)
    }

    /// The scroll wheel moved by `y` with the pointer at screen point
    /// `(mouse_x, mouse_y)`.
    ///
    /// Zooms toward the pointer: the offset moves so that the pointer's
    /// world point keeps its screen position, then the scale is divided by
    /// the zoom factor `1 - y/10`. Deltas smaller than the noise threshold
    /// are ignored; so are events whose zoom factor would not be positive or
    /// whose computation leaves the representable range.
    pub fn mouse_wheel_event(&mut self, y: Rat, mouse_x: Rat, mouse_y: Rat)
        requires
            old(self).wf(),
            y.wf(),
            mouse_x.wf(),
            mouse_y.wf(),
        ensures
            final(self).wf(),
            old(self).wheel_applies(y.q(), mouse_x.q(), mouse_y.q()) ==> (*final(self)
                == (NodeThing {
                viewport_x: final(self).viewport_x,
                viewport_y: final(self).viewport_y,
                viewport_scale: final(self).viewport_scale,
                nodes: final(self).nodes,
                ..*old(self)
            }) && final(self).viewport_x.wf() && final(self).viewport_x.q() == wheel_new_offset(
                old(self).viewport_x.q(),
                old(self).press_world_x(mouse_x.q()),
                y.q(),
            ) && final(self).viewport_y.wf() && final(self).viewport_y.q() == wheel_new_offset(
                old(self).viewport_y.q(),
                old(self).press_world_y(mouse_y.q()),
                y.q(),
            ) && final(self).viewport_scale.wf() && final(self).viewport_scale.q() == q_div(
                old(self).viewport_scale.q(),
                wheel_zoom_factor(y.q()),
            ) && bases_propagated(
                final(self).nodes@,
                old(self).nodes@,
                final(self).viewport_x,
                final(self).viewport_y,
            )),
            !old(self).wheel_applies(y.q(), mouse_x.q(), mouse_y.q()) ==> *final(self) == *old(
                self,
            ),
    {
        let threshold = Rat::new(1, 1000);
        let neg_threshold = Rat::new(-1, 1000);
        if y.lt(&threshold) && neg_threshold.lt(&y) {
            return ;
        }
        let tenth = Rat::new(1, 10);
        let f = match y.checked_times(&tenth) {
            Some(v) => v,
            None => { return ; },
        };
        let zoom = match Rat::from_int(1).checked_minus(&f) {
            Some(v) => v,
            None => { return ; },
        };
        if !Rat::from_int(0).lt(&zoom) {
            return ;
        }
        let world = match self.window_coordinates_to_world(mouse_x, mouse_y) {
            Some(w) => w,
            None => { return ; },
        };
        let (wx, wy) = world;
        let dist_x = match wx.checked_minus(&self.viewport_x) {
            Some(v) => v,
            None => { return ; },
        };
        let dist_y = match wy.checked_minus(&self.viewport_y) {
            Some(v) => v,
            None => { return ; },
        };
        let shift_x = match dist_x.checked_times(&f) {
            Some(v) => v,
            None => { return ; },
        };
        let shift_y = match dist_y.checked_times(&f) {
            Some(v) => v,
            None => { return ; },
        };
        let new_vx = match self.viewport_x.checked_plus(&shift_x) {
            Some(v) => v,
            None => { return ; },
        };
        let new_vy = match self.viewport_y.checked_plus(&shift_y) {
            Some(v) => v,
            None => { return ; },
        };
        let new_scale = match self.viewport_scale.checked_div(&zoom) {
            Some(v) => v,
            None => { return ; },
        };
        proof {
            crate::rat::lemma_mul_pos(
                old(self).viewport_scale.q().0,
                zoom.q().1,
            );
        }
        self.set_viewport_position(new_vx, new_vy);
        self.viewport_scale = new_scale;
    }

    /// Every intermediate of the fit computation stays representable, and
    /// the padded scale divisor is positive (so the new scale is too).
    pub open spec fn fit_fits(self, w: (int, int), h: (int, int)) -> bool {
        let l = bbox_left(self.nodes@);
        let t = bbox_top(self.nodes@);
        let r = bbox_right(self.nodes@);
        let b = bbox_bottom(self.nodes@);
        let cx = q_div(q_minus(r, l), w);
        let cy = q_div(q_minus(b, t), h);
        let p = q_plus(q_max2(cx, cy), (1, 5));
        &&& q_fits(q_minus(r, l))
        &&& q_fits(q_minus(b, t))
        &&& q_fits(cx)
        &&& q_fits(cy)
        &&& q_fits(p)
        &&& q_lt((0, 1), p)
        &&& q_fits(q_div((1, 1), p))
        &&& q_fits(q_times((1, 10), w))
        &&& q_fits(q_minus(l, q_times((1, 10), w)))
        &&& q_fits(q_times((1, 10), h))
        &&& q_fits(q_minus(t, q_times((1, 10), h)))
    }

    /// Repositions and rescales the viewport so that the union bounding box
    /// of all nodes, padded by a tenth of the window size on each side,
    /// fills the window: the scale is the reciprocal of the larger axis
    /// ratio plus the padding, and the offset starts a tenth of the window
    /// before the box's top-left corner.
    ///
    /// With no nodes, or when the computation leaves the representable
    /// range, nothing changes.
    pub fn fit_viewport_to_nodes(&mut self, window_width: Rat, window_height: Rat)
        requires
            old(self).wf(),
            window_width.wf(),
            window_height.wf(),
            q_lt((0, 1), window_width.q()),
            q_lt((0, 1), window_height.q()),
        ensures
            final(self).wf(),
            fit_outcome(*old(self), *final(self), window_width.q(), window_height.q()),
    {
        if self.nodes.len() == 0 {
            return ;
        }
        let ghost nodes = self.nodes@;
        let mut left = self.nodes[0].get_left();
        let mut top = self.nodes[0].get_top();
        let mut right = self.nodes[0].get_right();
        let mut bottom = self.nodes[0].get_bottom();
        let mut i: usize = 1;
        while i < self.nodes.len()
            invariant
                self.wf(),
                1 <= i <= self.nodes@.len(),
                nodes == self.nodes@,
                nodes.len() > 0,
                left.wf(),
                top.wf(),
                right.wf(),
                bottom.wf(),
                bbox_left_from(nodes, i as int, left.q()) == bbox_left(nodes),
                bbox_top_from(nodes, i as int, top.q()) == bbox_top(nodes),
                bbox_right_from(nodes, i as int, right.q()) == bbox_right(nodes),
                bbox_bottom_from(nodes, i as int, bottom.q()) == bbox_bottom(nodes),
            decreases self.nodes@.len() - i,
        {
            let n_left = self.nodes[i].get_left();
            if n_left.lt(&left) {
                left = n_left;
            }
            let n_top = self.nodes[i].get_top();
            if n_top.lt(&top) {
                top = n_top;
            }
            let n_right = self.nodes[i].get_right();
            if right.lt(&n_right) {
                right = n_right;
            }
            let n_bottom = self.nodes[i].get_bottom();
            if bottom.lt(&n_bottom) {
                bottom = n_bottom;
            }
            i = i + 1;
        }
        let box_w = match right.checked_minus(&left) {
            Some(v) => v,
            None => { return ; },
        };
        let box_h = match bottom.checked_minus(&top) {
            Some(v) => v,
            None => { return ; },
        };
        let conversion_x = match box_w.checked_div(&window_width) {
            Some(v) => v,
            None => { return ; },
        };
        let conversion_y = match box_h.checked_div(&window_height) {
            Some(v) => v,
            None => { return ; },
        };
        let larger = conversion_x.max_of(&conversion_y);
        let padded = match larger.checked_plus(&Rat::new(1, 5)) {
            Some(v) => v,
            None => { return ; },
        };
        if !Rat::from_int(0).lt(&padded) {
            return ;
        }
        let new_scale = match Rat::from_int(1).checked_div(&padded) {
            Some(v) => v,
            None => { return ; },
        };
        let pad_x = match Rat::new(1, 10).checked_times(&window_width) {
            Some(v) => v,
            None => { return ; },
        };
        let pad_y = match Rat::new(1, 10).checked_times(&window_height) {
            Some(v) => v,
            None => { return ; },
        };
        let offset_x = match left.checked_minus(&pad_x) {
            Some(v) => v,
            None => { return ; },
        };
        let offset_y = match top.checked_minus(&pad_y) {
            Some(v) => v,
            None => { return ; },
        };
        self.viewport_scale = new_scale;
        self.set_viewport_position(offset_x, offset_y);
    }

    /// A key was pressed. Repeats are ignored; the fit-view key fits the
    /// viewport to the nodes using the current window size; other keys do
    /// nothing.
    pub fn key_down_event(
        &mut self,
        keycode: Option<EditorKey>,
        repeated: bool,
        window_width: Rat,
        window_height: Rat,
    )
        requires
            old(self).wf(),
            window_width.wf(),
            window_height.wf(),
            q_lt((0, 1), window_width.q()),
            q_lt((0, 1), window_height.q()),
        ensures
            final(self).wf(),
            repeated ==> *final(self) == *old(self),
            !repeated && keycode == Some(EditorKey::FitView) ==> fit_outcome(
                *old(self),
                *final(self),
                window_width.q(),
                window_height.q(),
            ),
            !repeated && keycode != Some(EditorKey::FitView) ==> *final(self) == *old(self),
    {
        if repeated {
            return ;
        }
        match keycode {
            Some(EditorKey::FitView) => {
                self.fit_viewport_to_nodes(window_width, window_height);
            },
            _ => {},
        }
    }
}

/// The smallest world x over all node left edges, folded from index `i`
/// with the running minimum `acc`; the earliest minimum is kept.
pub open spec fn bbox_left_from(nodes: Seq<Node>, i: int, acc: (int, int)) -> (int, int)
    decreases nodes.len() - i,
{
    if i < 0 || i >= nodes.len() {
        acc
    } else {
        bbox_left_from(
            nodes,
            i + 1,
            if q_lt(nodes[i].x.q(), acc) {
                nodes[i].x.q()
            } else {
                acc
            },
        )
    }
}

/// The smallest world y over all node top edges, folded as `bbox_left_from`.
pub open spec fn bbox_top_from(nodes: Seq<Node>, i: int, acc: (int, int)) -> (int, int)
    decreases nodes.len() - i,
{
    if i < 0 || i >= nodes.len() {
        acc
    } else {
        bbox_top_from(
            nodes,
            i + 1,
            if q_lt(nodes[i].y.q(), acc) {
                nodes[i].y.q()
            } else {
                acc
            },
        )
    }
}

/// The largest world x over all node right edges, folded from index `i`.
pub open spec fn bbox_right_from(nodes: Seq<Node>, i: int, acc: (int, int)) -> (int, int)
    decreases nodes.len() - i,
{
    if i < 0 || i >= nodes.len() {
        acc
    } else {
        bbox_right_from(
            nodes,
            i + 1,
            if q_lt(acc, q_plus(nodes[i].x.q(), nodes[i].width.q())) {
                q_plus(nodes[i].x.q(), nodes[i].width.q())
            } else {
                acc
            },
        )
    }
}

/// The largest world y over all node bottom edges, folded from index `i`.
pub open spec fn bbox_bottom_from(nodes: Seq<Node>, i: int, acc: (int, int)) -> (int, int)
    decreases nodes.len() - i,
{
    if i < 0 || i >= nodes.len() {
        acc
    } else {
        bbox_bottom_from(
            nodes,
            i + 1,
            if q_lt(acc, q_plus(nodes[i].y.q(), nodes[i].height.q())) {
                q_plus(nodes[i].y.q(), nodes[i].height.q())
            } else {
                acc
            },
        )
    }
}

/// The left edge of the union bounding box of a nonempty node list.
pub open spec fn bbox_left(nodes: Seq<Node>) -> (int, int)
    recommends
        nodes.len() > 0,
{
    bbox_left_from(nodes, 1, nodes[0].x.q())
}

/// The top edge of the union bounding box of a nonempty node list.
pub open spec fn bbox_top(nodes: Seq<Node>) -> (int, int)
    recommends
        nodes.len() > 0,
{
    bbox_top_from(nodes, 1, nodes[0].y.q())
}

/// The right edge of the union bounding box of a nonempty node list.
pub open spec fn bbox_right(nodes: Seq<Node>) -> (int, int)
    recommends
        nodes.len() > 0,
{
    bbox_right_from(nodes, 1, q_plus(nodes[0].x.q(), nodes[0].width.q()))
}

/// The bottom edge of the union bounding box of a nonempty node list.
pub open spec fn bbox_bottom(nodes: Seq<Node>) -> (int, int)
    recommends
        nodes.len() > 0,
{
    bbox_bottom_from(nodes, 1, q_plus(nodes[0].y.q(), nodes[0].height.q()))
}

/// The scale `fit_viewport_to_nodes` chooses for the box `(l, t, r, b)` in
/// a `w` by `h` window: the reciprocal of the larger axis ratio plus a
/// fifth (a tenth of padding on each side).
pub open spec fn fit_scale_q(
    l: (int, int),
    t: (int, int),
    r: (int, int),
    b: (int, int),
    w: (int, int),
    h: (int, int),
) -> (int, int) {
    q_div((1, 1), q_plus(q_max2(q_div(q_minus(r, l), w), q_div(q_minus(b, t), h)), (1, 5)))
}

/// The x offset `fit_viewport_to_nodes` chooses: a tenth of the window
/// width before the box's left edge.
pub open spec fn fit_offset_x_q(l: (int, int), w: (int, int)) -> (int, int) {
    q_minus(l, q_times((1, 10), w))
}

/// The y offset `fit_viewport_to_nodes` chooses: a tenth of the window
/// height above the box's top edge.
pub open spec fn fit_offset_y_q(t: (int, int), h: (int, int)) -> (int, int) {
    q_minus(t, q_times((1, 10), h))
}

/// What fitting the viewport to the nodes does to the editor state: nothing
/// without nodes or when the computation leaves the representable range;
/// otherwise the exact scale and offset of `fit_scale_q`/`fit_offset_x_q`/
/// `fit_offset_y_q`, with the new offset propagated to every node's base.
pub open spec fn fit_outcome(
    pre: NodeThing,
    post: NodeThing,
    w: (int, int),
    h: (int, int),
) -> bool {
    if pre.nodes@.len() == 0 {
        post == pre
    } else if pre.fit_fits(w, h) {
        let l = bbox_left(pre.nodes@);
        let t = bbox_top(pre.nodes@);
        let r = bbox_right(pre.nodes@);
        let b = bbox_bottom(pre.nodes@);
        &&& post == (NodeThing {
            viewport_x: post.viewport_x,
            viewport_y: post.viewport_y,
            viewport_scale: post.viewport_scale,
            nodes: post.nodes,
            ..pre
        })
        &&& post.viewport_x.wf()
        &&& post.viewport_x.q() == fit_offset_x_q(l, w)
        &&& post.viewport_y.wf()
        &&& post.viewport_y.q() == fit_offset_y_q(t, h)
        &&& post.viewport_scale.wf()
        &&& post.viewport_scale.q() == fit_scale_q(l, t, r, b, w, h)
        &&& bases_propagated(post.nodes@, pre.nodes@, post.viewport_x, post.viewport_y)
    } else {
        post == pre
    }
}

/// The zoom factor a wheel delta `y` applies to the viewport scale:
/// `1 - y/10`.
pub open spec fn wheel_zoom_factor(y: (int, int)) -> (int, int) {
    q_minus((1, 1), q_times(y, (1, 10)))
}

/// The viewport offset after zooming with the anchor's world coordinate `w`:
/// the offset moves a tenth of the wheel delta of the way toward the anchor.
pub open spec fn wheel_new_offset(v: (int, int), w: (int, int), y: (int, int)) -> (int, int) {
    q_plus(v, q_times(q_minus(w, v), q_times(y, (1, 10))))
}

/// A wheel delta below the noise threshold (magnitude under a thousandth)
/// is ignored.
pub open spec fn wheel_is_small(y: (int, int)) -> bool {
    q_lt(y, (1, 1000)) && q_lt((-1, 1000), y)
}

/// Each new node equals the old one moved by the world delta `(wdx, wdy)`
/// with its text offsets re-synchronized — for the selected nodes whose
/// moved position stays representable. Unselected nodes, and selected nodes
/// whose move would leave the representable range, are unchanged.
pub open spec fn nodes_dragged(
    new_nodes: Seq<Node>,
    old_nodes: Seq<Node>,
    wdx: (int, int),
    wdy: (int, int),
) -> bool {
    &&& new_nodes.len() == old_nodes.len()
    &&& forall|i: int|
        0 <= i < new_nodes.len() ==> (if old_nodes[i].selected && old_nodes[i].move_fits(
            wdx,
            wdy,
        ) {
            new_nodes[i] == (Node {
                x: new_nodes[i].x,
                y: new_nodes[i].y,
                texts: new_nodes[i].texts,
                ..old_nodes[i]
            }) && new_nodes[i].x.wf() && new_nodes[i].x.q() == q_plus(old_nodes[i].x.q(), wdx)
                && new_nodes[i].y.wf() && new_nodes[i].y.q() == q_plus(old_nodes[i].y.q(), wdy)
                && texts_synced(
                new_nodes[i].texts@,
                old_nodes[i].texts@,
                q_minus(old_nodes[i].base_x.q(), q_plus(old_nodes[i].x.q(), wdx)),
                q_minus(old_nodes[i].base_y.q(), q_plus(old_nodes[i].y.q(), wdy)),
            )
        } else {
            new_nodes[i] == old_nodes[i]
        })
}

} // verus!
