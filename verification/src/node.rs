use vstd::prelude::*;

pub mod data_model;
pub mod node_definition;
pub mod node_error;
pub mod socket;
pub mod text;

use crate::color::{spec_black, spec_white, Color};
use crate::node::node_definition::NodeDefinition;
use crate::node::socket::{NodeSocket, SocketDirection};
use crate::node::text::Text;
use crate::rat::{q_fits, q_le, q_lt, q_max2, q_minus, q_plus, Rat};
use vstd::string::StringExecFns;

verus! {

/// Default width of a node, in world units.
pub const NODE_WIDTH: i64 = 400;

/// Base height of a node's body, before edge padding and sockets.
pub const NODE_HEIGHT: i64 = 200;

/// Height of the title bar drawn at the top of a node.
pub const NODE_TITLE_BAR_HEIGHT: i64 = 48;

/// Extra height added per socket.
pub const NODE_SOCKET_HEIGHT: i64 = 32;

/// Fixed padding added below a node's content.
pub const NODE_EDGE_PADDING: i64 = 30;

/// Stroke width of the selection outline.
pub const NODE_OUTLINE_WIDTH: i64 = 2;

/// Corner rounding of the selection outline.
pub const NODE_OUTLINE_ROUNDING: i64 = 4;

/// A node-local axis-aligned rectangle.
#[derive(Clone, Copy, Debug, PartialEq, Eq, Structural)]
pub struct Rect {
    pub x: Rat,
    pub y: Rat,
    pub w: Rat,
    pub h: Rat,
}

/// A render-ready description of one drawing primitive. The rendering layer
/// turns these into GPU resources; the library only computes them, so the
/// cache contents are plain data with exact contracts.
#[derive(Debug, PartialEq, Eq, Structural)]
pub enum MeshSpec {
    FilledRectangle { rect: Rect, color: Color },
    StrokedRoundedRectangle { rect: Rect, line_width: Rat, rounding: Rat, color: Color },
}

/// Each entry of `new_texts` equals the corresponding entry of `old_texts`
/// with its base offset set to the rational value `(off_x, off_y)`.
pub open spec fn texts_synced(
    new_texts: Seq<Text>,
    old_texts: Seq<Text>,
    off_x: (int, int),
    off_y: (int, int),
) -> bool {
    &&& new_texts.len() == old_texts.len()
    &&& forall|i: int|
        0 <= i < new_texts.len() ==> (new_texts[i] == (Text {
            base_x: new_texts[i].base_x,
            base_y: new_texts[i].base_y,
            ..old_texts[i]
        }) && new_texts[i].base_x.wf() && new_texts[i].base_y.wf() && new_texts[i].base_x.q()
            == off_x && new_texts[i].base_y.q() == off_y)
}

/// The background fill color of every node.
pub open spec fn spec_background_color() -> Color {
    Color { r: 100, g: 100, b: 100, a: 1000 }
}

/// A positioned, sized, selectable visual entity. Coordinates are world-space
/// exact rationals; `base_x`/`base_y` hold the viewport's world origin, which
/// the editor propagates so that rendering can offset every node by
/// `base - position` without recomputing primitives.
///
/// Socket entries pair the socket definition with the id of a connected node,
/// when one exists (connections are never made by the current interactions).
pub struct Node {
    pub node_id: u64,
    pub node_definition_id: Option<u64>,
    pub name: String,
    pub identifier: String,
    pub description: String,
    pub color: Color,
    pub inputs: Vec<(NodeSocket, Option<u64>)>,
    pub outputs: Vec<(NodeSocket, Option<u64>)>,
    pub base_x: Rat,
    pub base_y: Rat,
    pub x: Rat,
    pub y: Rat,
    pub width: Rat,
    pub height: Rat,
    pub selected: bool,
    /// Pre-made primitives for drawing this node, rebuilt after size or
    /// content changes.
    pub meshes: Vec<MeshSpec>,
    pub texts: Vec<Text>,
    pub outline: Option<MeshSpec>,
}

impl Node {
    /// Total number of sockets.
    pub open spec fn socket_count(self) -> int {
        self.inputs@.len() as int + self.outputs@.len() as int
    }

    /// The least height that fits the node's content, in whole world units.
    pub open spec fn min_height_units(self) -> int {
        NODE_HEIGHT + NODE_EDGE_PADDING + NODE_SOCKET_HEIGHT * self.socket_count()
    }

    /// Well-formed: rational fields have positive denominators, the size is
    /// positive, texts are well formed, and the socket count is bounded so
    /// that height arithmetic stays within the machine range.
    pub open spec fn wf(self) -> bool {
        &&& self.base_x.wf()
        &&& self.base_y.wf()
        &&& self.x.wf()
        &&& self.y.wf()
        &&& self.width.wf()
        &&& self.height.wf()
        &&& q_lt((0, 1), self.width.q())
        &&& q_lt((0, 1), self.height.q())
        &&& self.socket_count() <= 0x1_0000_0000
        &&& (forall|i: int| 0 <= i < self.texts@.len() ==> self.texts@[i].wf())
    }

    /// The node's right and bottom edges are representable, so containment
    /// tests and bounding-box queries can be computed exactly.
    pub open spec fn edges_fit(self) -> bool {
        &&& q_fits(q_plus(self.x.q(), self.width.q()))
        &&& q_fits(q_plus(self.y.q(), self.height.q()))
    }

    /// Axis-aligned containment of a world point, bounds inclusive on all
    /// four edges.
    pub open spec fn contains_q(self, px: (int, int), py: (int, int)) -> bool {
        &&& q_le(self.x.q(), px)
        &&& q_le(px, q_plus(self.x.q(), self.width.q()))
        &&& q_le(self.y.q(), py)
        &&& q_le(py, q_plus(self.y.q(), self.height.q()))
    }

    /// The cached background rectangle this node's geometry calls for.
    pub open spec fn background_mesh(self) -> MeshSpec {
        MeshSpec::FilledRectangle {
            rect: Rect {
                x: Rat { num: 0, den: 1 },
                y: Rat { num: 0, den: 1 },
                w: self.width,
                h: self.height,
            },
            color: spec_background_color(),
        }
    }

    /// The cached title-bar rectangle this node's geometry calls for.
    pub open spec fn title_bar_mesh(self) -> MeshSpec {
        MeshSpec::FilledRectangle {
            rect: Rect {
                x: Rat { num: 0, den: 1 },
                y: Rat { num: 0, den: 1 },
                w: self.width,
                h: Rat { num: NODE_TITLE_BAR_HEIGHT, den: 1 },
            },
            color: self.color,
        }
    }

    /// The cached selection outline this node's geometry calls for.
    pub open spec fn outline_mesh(self) -> MeshSpec {
        MeshSpec::StrokedRoundedRectangle {
            rect: Rect {
                x: Rat { num: 0, den: 1 },
                y: Rat { num: 0, den: 1 },
                w: self.width,
                h: self.height,
            },
            line_width: Rat { num: NODE_OUTLINE_WIDTH, den: 1 },
            rounding: Rat { num: NODE_OUTLINE_ROUNDING, den: 1 },
            color: spec_white(),
        }
    }

    /// The cached title text this node's geometry calls for: the node's name
    /// in the title font, bounded by the node's width, offset so that it
    /// renders at the node's position.
    pub open spec fn is_title_text(self, t: Text) -> bool {
        &&& t.content == self.name
        &&& (t.font matches Some(f) && f@ == "Roboto"@)
        &&& t.size == (Rat { num: 32, den: 1 })
        &&& t.color == spec_black()
        &&& t.bounds_x == self.width
        &&& t.bounds_y is None
        &&& t.base_x == self.x
        &&& t.base_y == self.y
        &&& t.x == (Rat { num: 10, den: 1 })
        &&& t.y == (Rat { num: 10, den: 1 })
    }

    /// A fresh node with the given identity and appearance, placed at the
    /// world origin with the default size and an empty primitive cache.
    pub fn new(
        node_id: u64,
        name: String,
        identifier: String,
        description: String,
        color: Color,
    ) -> (n: Node)
        ensures
            n.node_id == node_id,
            n.node_definition_id is None,
            n.name == name,
            n.identifier == identifier,
            n.description == description,
            n.color == color,
            n.inputs@ =~= Seq::<(NodeSocket, Option<u64>)>::empty(),
            n.outputs@ =~= Seq::<(NodeSocket, Option<u64>)>::empty(),
            n.base_x == (Rat { num: 0, den: 1 }),
            n.base_y == (Rat { num: 0, den: 1 }),
            n.x == (Rat { num: 0, den: 1 }),
            n.y == (Rat { num: 0, den: 1 }),
            n.width == (Rat { num: NODE_WIDTH, den: 1 }),
            n.height == (Rat { num: (NODE_HEIGHT + NODE_EDGE_PADDING) as i64, den: 1 }),
            !n.selected,
            n.meshes@ =~= Seq::<MeshSpec>::empty(),
            n.texts@ =~= Seq::<Text>::empty(),
            n.outline is None,
            n.wf(),
            n.edges_fit(),
    {
        Node {
            node_id,
            node_definition_id: None,
            name,
            identifier,
            description,
            color,
            inputs: Vec::new(),
            outputs: Vec::new(),
            base_x: Rat::from_int(0),
            base_y: Rat::from_int(0),
            x: Rat::from_int(0),
            y: Rat::from_int(0),
            width: Rat::from_int(NODE_WIDTH),
            height: Rat::from_int(NODE_HEIGHT + NODE_EDGE_PADDING),
            selected: false,
            meshes: Vec::new(),
            texts: Vec::new(),
            outline: None,
        }
    }

    /// Inclusive axis-aligned containment test against this node's bounds.
    pub fn point_inside(&self, x: Rat, y: Rat) -> (r: bool)
        requires
            self.wf(),
            self.edges_fit(),
            x.wf(),
            y.wf(),
        ensures
            r == self.contains_q(x.q(), y.q()),
    {
        let right = self.x.checked_plus(&self.width).unwrap();
        let bottom = self.y.checked_plus(&self.height).unwrap();
        self.x.le(&x) && x.le(&right) && self.y.le(&y) && y.le(&bottom)
    }

    /// The node's bounds in its own local space (origin at the top-left).
    pub fn get_bounds(&self) -> (r: Rect)
        ensures
            r == (Rect {
                x: Rat { num: 0, den: 1 },
                y: Rat { num: 0, den: 1 },
                w: self.width,
                h: self.height,
            }),
    {
        Rect { x: Rat::from_int(0), y: Rat::from_int(0), w: self.width, h: self.height }
    }

    /// The least height that fits the title bar, edge padding and sockets.
    pub fn get_min_height(&self) -> (r: Rat)
        requires
            self.wf(),
        ensures
            r.wf(),
            r.q() == (self.min_height_units(), 1int),
    {
        let ni: i64 = self.inputs.len() as i64;
        let no: i64 = self.outputs.len() as i64;
        Rat::from_int(NODE_HEIGHT + NODE_EDGE_PADDING + NODE_SOCKET_HEIGHT * (ni + no))
    }

    /// The world x of the node's left edge.
    pub fn get_left(&self) -> (r: Rat)
        ensures
            r == self.x,
    {
        self.x
    }

    /// The world y of the node's top edge.
    pub fn get_top(&self) -> (r: Rat)
        ensures
            r == self.y,
    {
        self.y
    }

    /// The world x of the node's right edge.
    pub fn get_right(&self) -> (r: Rat)
        requires
            self.wf(),
            self.edges_fit(),
        ensures
            r.wf(),
            r.q() == q_plus(self.x.q(), self.width.q()),
    {
        self.x.checked_plus(&self.width).unwrap()
    }

    /// The world y of the node's bottom edge.
    pub fn get_bottom(&self) -> (r: Rat)
        requires
            self.wf(),
            self.edges_fit(),
        ensures
            r.wf(),
            r.q() == q_plus(self.y.q(), self.height.q()),
    {
        self.y.checked_plus(&self.height).unwrap()
    }

    /// Drops the cached draw primitives; they are rebuilt on the next
    /// `generate_mesh`.
    pub fn invalidate_mesh(&mut self)
        ensures
            *final(self) == (Node {
                meshes: final(self).meshes,
                texts: final(self).texts,
                outline: None,
                ..*old(self)
            }),
            final(self).meshes@ =~= Seq::<MeshSpec>::empty(),
            final(self).texts@ =~= Seq::<Text>::empty(),
    {
        self.meshes.clear();
        self.texts.clear();
        self.outline = None;
    }

    /// Appends a socket to the list matching its direction. The caller is
    /// expected to recompute the node's size afterwards; until then the
    /// height may be below the new minimum.
    pub fn create_socket(&mut self, socket: NodeSocket)
        requires
            old(self).wf(),
            old(self).socket_count() < 0x1_0000_0000,
        ensures
            final(self).wf(),
            socket.direction == SocketDirection::Input ==> (*final(self) == (Node {
                inputs: final(self).inputs,
                ..*old(self)
            }) && final(self).inputs@ =~= old(self).inputs@.push(
                (socket, Option::<u64>::None),
            )),
            socket.direction == SocketDirection::Output ==> (*final(self) == (Node {
                outputs: final(self).outputs,
                ..*old(self)
            }) && final(self).outputs@ =~= old(self).outputs@.push(
                (socket, Option::<u64>::None),
            )),
    {
        match socket.direction() {
            SocketDirection::Input => self.inputs.push((socket, None)),
            SocketDirection::Output => self.outputs.push((socket, None)),
        }
    }

    /// A placement at `(px, py)` keeps the node's edges and its text offsets
    /// representable.
    pub open spec fn place_fits(self, px: (int, int), py: (int, int)) -> bool {
        &&& q_fits(q_plus(px, self.width.q()))
        &&& q_fits(q_plus(py, self.height.q()))
        &&& q_fits(q_minus(self.base_x.q(), px))
        &&& q_fits(q_minus(self.base_y.q(), py))
    }

    /// A move by `(dx, dy)` lands on representable coordinates.
    pub open spec fn move_fits(self, dx: (int, int), dy: (int, int)) -> bool {
        &&& q_fits(q_plus(self.x.q(), dx))
        &&& q_fits(q_plus(self.y.q(), dy))
        &&& self.place_fits(q_plus(self.x.q(), dx), q_plus(self.y.q(), dy))
    }

    /// A base position `(bx, by)` keeps the text offsets representable.
    pub open spec fn base_fits(self, bx: (int, int), by: (int, int)) -> bool {
        &&& q_fits(q_minus(bx, self.x.q()))
        &&& q_fits(q_minus(by, self.y.q()))
    }

    /// The width a size request `w` is clamped to.
    pub open spec fn clamped_width(self, w: (int, int)) -> (int, int) {
        q_max2((NODE_WIDTH as int, 1int), w)
    }

    /// The height a size request `h` is clamped to.
    pub open spec fn clamped_height(self, h: (int, int)) -> (int, int) {
        q_max2((self.min_height_units(), 1int), h)
    }

    /// A resize to the clamped `(w, h)` keeps the node's edges representable.
    pub open spec fn size_fits(self, w: (int, int), h: (int, int)) -> bool {
        &&& q_fits(q_plus(self.x.q(), self.clamped_width(w)))
        &&& q_fits(q_plus(self.y.q(), self.clamped_height(h)))
    }

    /// Re-synchronizes every cached text's base offset with
    /// `base position - node position`.
    fn recompute_text_offsets(&mut self)
        requires
            old(self).wf(),
            q_fits(q_minus(old(self).base_x.q(), old(self).x.q())),
            q_fits(q_minus(old(self).base_y.q(), old(self).y.q())),
        ensures
            final(self).wf(),
            *final(self) == (Node { texts: final(self).texts, ..*old(self) }),
            texts_synced(
                final(self).texts@,
                old(self).texts@,
                q_minus(old(self).base_x.q(), old(self).x.q()),
                q_minus(old(self).base_y.q(), old(self).y.q()),
            ),
    {
        let ox = self.base_x.checked_minus(&self.x).unwrap();
        let oy = self.base_y.checked_minus(&self.y).unwrap();
        let mut i: usize = 0;
        while i < self.texts.len()
            invariant
                i <= self.texts@.len(),
                self.texts@.len() == old(self).texts@.len(),
                *self == (Node { texts: self.texts, ..*old(self) }),
                ox.wf(),
                oy.wf(),
                ox.q() == q_minus(old(self).base_x.q(), old(self).x.q()),
                oy.q() == q_minus(old(self).base_y.q(), old(self).y.q()),
                forall|j: int|
                    0 <= j < i ==> (self.texts@[j] == (Text {
                        base_x: ox,
                        base_y: oy,
                        ..old(self).texts@[j]
                    })),
                forall|j: int| i <= j < self.texts@.len() ==> self.texts@[j] == old(self).texts@[j],
            decreases self.texts@.len() - i,
        {
            self.texts[i].set_base_position(ox, oy);
            i = i + 1;
        }
        assert forall|j: int| 0 <= j < self.texts@.len() implies self.texts@[j].wf() by {
            assert(old(self).texts@[j].wf());
        }
    }

    /// Commits the position `(nx, ny)` when it fits, synchronizing text
    /// offsets; reports whether it did.
    fn try_place(&mut self, nx: Rat, ny: Rat) -> (ok: bool)
        requires
            old(self).wf(),
            nx.wf(),
            ny.wf(),
        ensures
            final(self).wf(),
            ok == old(self).place_fits(nx.q(), ny.q()),
            ok ==> (*final(self) == (Node {
                x: nx,
                y: ny,
                texts: final(self).texts,
                ..*old(self)
            }) && texts_synced(
                final(self).texts@,
                old(self).texts@,
                q_minus(old(self).base_x.q(), nx.q()),
                q_minus(old(self).base_y.q(), ny.q()),
            ) && final(self).edges_fit()),
            !ok ==> *final(self) == *old(self),
    {
        let right = nx.checked_plus(&self.width);
        let bottom = ny.checked_plus(&self.height);
        let off_x = self.base_x.checked_minus(&nx);
        let off_y = self.base_y.checked_minus(&ny);
        if right.is_some() && bottom.is_some() && off_x.is_some() && off_y.is_some() {
            self.x = nx;
            self.y = ny;
            self.recompute_text_offsets();
            true
        } else {
            false
        }
    }

    /// Moves the node by a world-space delta and re-synchronizes the cached
    /// text offsets. A move whose result would leave the representable
    /// coordinate range leaves the node unchanged.
    pub fn move_position(&mut self, dx: Rat, dy: Rat)
        requires
            old(self).wf(),
            old(self).edges_fit(),
            dx.wf(),
            dy.wf(),
        ensures
            final(self).wf(),
            final(self).edges_fit(),
            old(self).move_fits(dx.q(), dy.q()) ==> (*final(self) == (Node {
                x: final(self).x,
                y: final(self).y,
                texts: final(self).texts,
                ..*old(self)
            }) && final(self).x.wf() && final(self).x.q() == q_plus(old(self).x.q(), dx.q())
                && final(self).y.wf() && final(self).y.q() == q_plus(old(self).y.q(), dy.q())
                && texts_synced(
                final(self).texts@,
                old(self).texts@,
                q_minus(old(self).base_x.q(), q_plus(old(self).x.q(), dx.q())),
                q_minus(old(self).base_y.q(), q_plus(old(self).y.q(), dy.q())),
            )),
            !old(self).move_fits(dx.q(), dy.q()) ==> *final(self) == *old(self),
    {
        let nxo = self.x.checked_plus(&dx);
        let nyo = self.y.checked_plus(&dy);
        if nxo.is_some() && nyo.is_some() {
            let nx = nxo.unwrap();
            let ny = nyo.unwrap();
            self.try_place(nx, ny);
        }
    }

    /// Places the node at a world position and re-synchronizes the cached
    /// text offsets. A position outside the representable coordinate range
    /// leaves the node unchanged.
    pub fn set_position(&mut self, x: Rat, y: Rat)
        requires
            old(self).wf(),
            old(self).edges_fit(),
            x.wf(),
            y.wf(),
        ensures
            final(self).wf(),
            final(self).edges_fit(),
            old(self).place_fits(x.q(), y.q()) ==> (*final(self) == (Node {
                x,
                y,
                texts: final(self).texts,
                ..*old(self)
            }) && texts_synced(
                final(self).texts@,
                old(self).texts@,
                q_minus(old(self).base_x.q(), x.q()),
                q_minus(old(self).base_y.q(), y.q()),
            )),
            !old(self).place_fits(x.q(), y.q()) ==> *final(self) == *old(self),
    {
        self.try_place(x, y);
    }

    /// Stores the viewport's world origin and re-synchronizes the cached
    /// text offsets. A base position whose offsets would leave the
    /// representable range leaves the node unchanged.
    pub fn set_base_position(&mut self, base_x: Rat, base_y: Rat)
        requires
            old(self).wf(),
            old(self).edges_fit(),
            base_x.wf(),
            base_y.wf(),
        ensures
            final(self).wf(),
            final(self).edges_fit(),
            old(self).base_fits(base_x.q(), base_y.q()) ==> (*final(self) == (Node {
                base_x,
                base_y,
                texts: final(self).texts,
                ..*old(self)
            }) && texts_synced(
                final(self).texts@,
                old(self).texts@,
                q_minus(base_x.q(), old(self).x.q()),
                q_minus(base_y.q(), old(self).y.q()),
            )),
            !old(self).base_fits(base_x.q(), base_y.q()) ==> *final(self) == *old(self),
    {
        let off_x = base_x.checked_minus(&self.x);
        let off_y = base_y.checked_minus(&self.y);
        if off_x.is_some() && off_y.is_some() {
            self.base_x = base_x;
            self.base_y = base_y;
            self.recompute_text_offsets();
        }
    }

    /// Lazily materializes the cached draw primitives: the background and
    /// title-bar rectangles with the title text when the cache is empty, and
    /// the selection outline when it is missing.
    pub fn generate_mesh(&mut self)
        requires
            old(self).wf(),
        ensures
            final(self).wf(),
            *final(self) == (Node {
                meshes: final(self).meshes,
                texts: final(self).texts,
                outline: final(self).outline,
                ..*old(self)
            }),
            old(self).meshes@.len() < 1 && old(self).texts@.len() < 1 ==> (final(self).meshes@
                =~= seq![old(self).background_mesh(), old(self).title_bar_mesh()]
                && final(self).texts@.len() == 1
                && old(self).is_title_text(final(self).texts@[0])),
            !(old(self).meshes@.len() < 1 && old(self).texts@.len() < 1) ==> (final(self).meshes
                == old(self).meshes && final(self).texts == old(self).texts),
            old(self).outline is None ==> final(self).outline == Some(old(self).outline_mesh()),
            old(self).outline is Some ==> final(self).outline == old(self).outline,
    {
        if self.meshes.len() < 1 && self.texts.len() < 1 {
            let background = MeshSpec::FilledRectangle {
                rect: self.get_bounds(),
                color: Color::new(100, 100, 100, 1000),
            };
            self.meshes.push(background);
            let title_bar = MeshSpec::FilledRectangle {
                rect: Rect {
                    x: Rat::from_int(0),
                    y: Rat::from_int(0),
                    w: self.width,
                    h: Rat::from_int(NODE_TITLE_BAR_HEIGHT),
                },
                color: self.color,
            };
            self.meshes.push(title_bar);
            let title = Text::new(
                self.name.clone(),
                Some(String::from_str("Roboto")),
                Rat::from_int(32),
                Color::black(),
                self.width,
                None,
            ).with_base_position(self.x, self.y).with_position(
                Rat::from_int(10),
                Rat::from_int(10),
            );
            self.texts.push(title);
        }
        if self.outline.is_none() {
            let outline = MeshSpec::StrokedRoundedRectangle {
                rect: self.get_bounds(),
                line_width: Rat::from_int(NODE_OUTLINE_WIDTH),
                rounding: Rat::from_int(NODE_OUTLINE_ROUNDING),
                color: Color::white(),
            };
            self.outline = Some(outline);
        }
    }

    /// Resizes the node: the width is clamped to the default width, the
    /// height to the least height that fits the content, and the primitive
    /// cache is rebuilt unconditionally. A clamped size whose edges would
    /// leave the representable range leaves the node unchanged.
    pub fn set_size(&mut self, width: Rat, height: Rat)
        requires
            old(self).wf(),
            old(self).edges_fit(),
            width.wf(),
            height.wf(),
        ensures
            final(self).wf(),
            final(self).edges_fit(),
            old(self).size_fits(width.q(), height.q()) ==> (*final(self) == (Node {
                width: final(self).width,
                height: final(self).height,
                meshes: final(self).meshes,
                texts: final(self).texts,
                outline: final(self).outline,
                ..*old(self)
            }) && final(self).width.wf() && final(self).width.q() == old(self).clamped_width(
                width.q(),
            ) && final(self).height.wf() && final(self).height.q() == old(self).clamped_height(
                height.q(),
            ) && q_le((NODE_WIDTH as int, 1int), final(self).width.q()) && q_le(
                (old(self).min_height_units(), 1int),
                final(self).height.q(),
            ) && final(self).meshes@ =~= seq![
                final(self).background_mesh(),
                final(self).title_bar_mesh(),
            ] && final(self).texts@.len() == 1 && final(self).is_title_text(final(self).texts@[0])
                && final(self).outline == Some(final(self).outline_mesh())),
            !old(self).size_fits(width.q(), height.q()) ==> *final(self) == *old(self),
    {
        let min_w = Rat::from_int(NODE_WIDTH);
        let new_w = min_w.max_of(&width);
        let min_h = self.get_min_height();
        let new_h = min_h.max_of(&height);
        let right = self.x.checked_plus(&new_w);
        let bottom = self.y.checked_plus(&new_h);
        if right.is_some() && bottom.is_some() {
            self.width = new_w;
            self.height = new_h;
            self.invalidate_mesh();
            self.generate_mesh();
        }
    }

    /// Places and resizes the node in one step, with the same clamping as
    /// `set_size`, and rebuilds the primitive cache. A result outside the
    /// representable range leaves the node unchanged.
    pub fn set_position_and_size(&mut self, x: Rat, y: Rat, width: Rat, height: Rat)
        requires
            old(self).wf(),
            old(self).edges_fit(),
            x.wf(),
            y.wf(),
            width.wf(),
            height.wf(),
        ensures
            final(self).wf(),
            final(self).edges_fit(),
            old(self).place_size_fits(x.q(), y.q(), width.q(), height.q()) ==> (*final(self)
                == (Node {
                x,
                y,
                width: final(self).width,
                height: final(self).height,
                meshes: final(self).meshes,
                texts: final(self).texts,
                outline: final(self).outline,
                ..*old(self)
            }) && final(self).width.wf() && final(self).width.q() == old(self).clamped_width(
                width.q(),
            ) && final(self).height.wf() && final(self).height.q() == old(self).clamped_height(
                height.q(),
            ) && q_le((NODE_WIDTH as int, 1int), final(self).width.q()) && q_le(
                (old(self).min_height_units(), 1int),
                final(self).height.q(),
            ) && final(self).meshes@ =~= seq![
                final(self).background_mesh(),
                final(self).title_bar_mesh(),
            ] && final(self).texts@.len() == 1 && final(self).is_title_text(final(self).texts@[0])
                && final(self).outline == Some(final(self).outline_mesh())),
            !old(self).place_size_fits(x.q(), y.q(), width.q(), height.q()) ==> *final(self)
                == *old(self),
    {
        let min_w = Rat::from_int(NODE_WIDTH);
        let new_w = min_w.max_of(&width);
        let min_h = self.get_min_height();
        let new_h = min_h.max_of(&height);
        let right = x.checked_plus(&new_w);
        let bottom = y.checked_plus(&new_h);
        if right.is_some() && bottom.is_some() {
            self.x = x;
            self.y = y;
            self.width = new_w;
            self.height = new_h;
            self.invalidate_mesh();
            self.generate_mesh();
        }
    }

    /// A combined placement and resize stays representable.
    pub open spec fn place_size_fits(
        self,
        px: (int, int),
        py: (int, int),
        w: (int, int),
        h: (int, int),
    ) -> bool {
        &&& q_fits(q_plus(px, self.clamped_width(w)))
        &&& q_fits(q_plus(py, self.clamped_height(h)))
    }

    /// Resets the size to the default width and the least height that fits
    /// the current sockets, rebuilding the primitive cache.
    fn recompute_size(&mut self)
        requires
            old(self).wf(),
            old(self).edges_fit(),
            old(self).size_fits(
                (NODE_WIDTH as int, 1int),
                (old(self).min_height_units(), 1int),
            ),
        ensures
            final(self).wf(),
            final(self).edges_fit(),
            *final(self) == (Node {
                width: final(self).width,
                height: final(self).height,
                meshes: final(self).meshes,
                texts: final(self).texts,
                outline: final(self).outline,
                ..*old(self)
            }),
            final(self).width.q() == (NODE_WIDTH as int, 1int),
            final(self).height.q() == (old(self).min_height_units(), 1int),
            final(self).meshes@ =~= seq![
                final(self).background_mesh(),
                final(self).title_bar_mesh(),
            ],
            final(self).texts@.len() == 1 && final(self).is_title_text(final(self).texts@[0]),
            final(self).outline == Some(final(self).outline_mesh()),
    {
        let h = self.get_min_height();
        self.set_size(Rat::from_int(NODE_WIDTH), h);
    }

    /// Creates a node from a definition: the definition's identity and
    /// appearance are copied, each socket definition is instantiated in
    /// order, and the size is recomputed from the socket count.
    pub fn new_from_definition(node_id: u64, definition: &NodeDefinition) -> (n: Node)
        requires
            definition.wf(),
        ensures
            n.wf(),
            n.edges_fit(),
            n.node_id == node_id,
            n.node_definition_id == Some(definition.node_definition_id),
            n.name == definition.name,
            n.identifier == definition.identifier,
            n.description == definition.description,
            n.color == definition.color,
            n.inputs@ =~= definition.input_sockets@.map_values(
                |s: NodeSocket| (s, Option::<u64>::None),
            ),
            n.outputs@ =~= definition.output_sockets@.map_values(
                |s: NodeSocket| (s, Option::<u64>::None),
            ),
            n.base_x == (Rat { num: 0, den: 1 }),
            n.base_y == (Rat { num: 0, den: 1 }),
            n.x == (Rat { num: 0, den: 1 }),
            n.y == (Rat { num: 0, den: 1 }),
            n.width.q() == (NODE_WIDTH as int, 1int),
            n.height.q() == (n.min_height_units(), 1int),
            !n.selected,
            n.meshes@ =~= seq![n.background_mesh(), n.title_bar_mesh()],
            n.texts@.len() == 1 && n.is_title_text(n.texts@[0]),
            n.outline == Some(n.outline_mesh()),
    {
        let mut node = Node::new(
            node_id,
            definition.name.clone(),
            definition.identifier.clone(),
            definition.description.clone(),
            definition.color,
        );
        node.node_definition_id = Some(definition.node_definition_id);
        let ghost node0 = node;
        let mut i: usize = 0;
        while i < definition.input_sockets.len()
            invariant
                definition.wf(),
                i <= definition.input_sockets@.len(),
                node.wf(),
                node == (Node { inputs: node.inputs, ..node0 }),
                node.inputs@.len() == i,
                node.outputs@.len() == 0,
                node.inputs@ =~= definition.input_sockets@.take(i as int).map_values(
                    |s: NodeSocket| (s, Option::<u64>::None),
                ),
            decreases definition.input_sockets@.len() - i,
        {
            proof {
                assert(definition.input_sockets@.take(i as int + 1) =~= definition.input_sockets@
                    .take(i as int).push(definition.input_sockets@[i as int]));
            }
            node.create_socket(definition.input_sockets[i].clone());
            i = i + 1;
        }
        proof {
            assert(definition.input_sockets@.take(definition.input_sockets@.len() as int)
                =~= definition.input_sockets@);
        }
        let ghost node1 = node;
        let mut j: usize = 0;
        while j < definition.output_sockets.len()
            invariant
                definition.wf(),
                j <= definition.output_sockets@.len(),
                node.wf(),
                node == (Node { outputs: node.outputs, ..node1 }),
                node.inputs@.len() == definition.input_sockets@.len(),
                node.outputs@.len() == j,
                node.outputs@ =~= definition.output_sockets@.take(j as int).map_values(
                    |s: NodeSocket| (s, Option::<u64>::None),
                ),
            decreases definition.output_sockets@.len() - j,
        {
            proof {
                assert(definition.output_sockets@.take(j as int + 1) =~= definition.output_sockets@
                    .take(j as int).push(definition.output_sockets@[j as int]));
            }
            node.create_socket(definition.output_sockets[j].clone());
            j = j + 1;
        }
        proof {
            assert(definition.output_sockets@.take(definition.output_sockets@.len() as int)
                =~= definition.output_sockets@);
        }
        node.recompute_size();
        node
    }
}

impl PartialEq for Node {
    /// Node identity: two nodes are equal exactly when they carry the same
    /// id, not when their contents coincide.
    fn eq(&self, other: &Self) -> (r: bool) {
        self.node_id == other.node_id
    }
}

impl vstd::std_specs::cmp::PartialEqSpecImpl for Node {
    open spec fn obeys_eq_spec() -> bool {
        true
    }

    open spec fn eq_spec(&self, other: &Node) -> bool {
        self.node_id == other.node_id
    }
}

impl Eq for Node {

}

} // verus!
