use node_thing::color::Color;
use node_thing::node::data_model::DataType;
use node_thing::node::node_definition::NodeDefinition;
use node_thing::node::node_error::NodeError;
use node_thing::node::socket::{NodeSocket, SocketDirection};
use node_thing::node::Node;
use node_thing::rat::Rat;
use node_thing::{IdAllocator, MouseButton, NodeThing};

fn r(v: i64) -> Rat {
    Rat::from_int(v)
}

fn plain_node(id: u64) -> Node {
    Node::new(
        id,
        String::from("n"),
        String::from("n"),
        String::from(""),
        Color::white(),
    )
}

#[test]
fn round_trip_screen_world_screen() {
    let mut editor = NodeThing::new();
    editor.set_viewport_position(r(5), r(7));
    editor.viewport_scale = Rat::new(2, 1);
    let (wx, wy) = editor.window_coordinates_to_world(r(100), r(50)).unwrap();
    assert!(wx.eqv(&r(55)));
    assert!(wy.eqv(&r(32)));
    let (sx, sy) = editor.world_coordinates_to_window(wx, wy).unwrap();
    assert!(sx.eqv(&r(100)));
    assert!(sy.eqv(&r(50)));
}

#[test]
fn containment_moves_with_node() {
    let mut node = plain_node(0);
    node.set_position(r(10), r(20));
    assert!(node.point_inside(r(13), r(25)));
    node.move_position(r(3), r(-4));
    assert!(node.point_inside(r(16), r(21)));
}

#[test]
fn set_size_clamps_to_minimum() {
    let mut node = plain_node(0);
    node.create_socket(NodeSocket::new(
        String::from("a"),
        String::from("a"),
        SocketDirection::Input,
        DataType::Integer,
    ));
    node.create_socket(NodeSocket::new(
        String::from("b"),
        String::from("b"),
        SocketDirection::Input,
        DataType::Float,
    ));
    node.create_socket(NodeSocket::new(
        String::from("c"),
        String::from("c"),
        SocketDirection::Output,
        DataType::Boolean,
    ));
    node.set_size(r(100), r(50));
    assert!(node.width.eqv(&r(400)));
    assert!(node.height.eqv(&r(230 + 32 * 3)));
    node.set_size(r(500), r(1000));
    assert!(node.width.eqv(&r(500)));
    assert!(node.height.eqv(&r(1000)));
}

#[test]
fn click_selects_exclusively() {
    let mut editor = NodeThing::new();
    let mut a = plain_node(0);
    a.set_position(r(0), r(0));
    let mut b = plain_node(1);
    b.set_position(r(1000), r(0));
    b.selected = true;
    let mut c = plain_node(2);
    c.set_position(r(2000), r(0));
    c.selected = true;
    editor.add_node(a);
    editor.add_node(b);
    editor.add_node(c);
    editor.mouse_button_down_event(MouseButton::Left, r(50), r(50), false);
    assert!(editor.nodes[0].selected);
    assert!(!editor.nodes[1].selected);
    assert!(!editor.nodes[2].selected);
}

#[test]
fn click_on_empty_space_deselects_all() {
    let mut editor = NodeThing::new();
    let mut a = plain_node(0);
    a.selected = true;
    let mut b = plain_node(1);
    b.set_position(r(1000), r(0));
    b.selected = true;
    editor.add_node(a);
    editor.add_node(b);
    editor.mouse_button_down_event(MouseButton::Left, r(5000), r(5000), false);
    assert!(!editor.nodes[0].selected);
    assert!(!editor.nodes[1].selected);
}

#[test]
fn shift_click_twice_restores_selection() {
    let mut editor = NodeThing::new();
    let mut a = plain_node(0);
    a.selected = true;
    editor.add_node(a);
    editor.add_node(plain_node(1));
    editor.mouse_button_down_event(MouseButton::Left, r(50), r(50), true);
    assert!(!editor.nodes[0].selected);
    editor.mouse_button_down_event(MouseButton::Left, r(50), r(50), true);
    assert!(editor.nodes[0].selected);
    assert!(!editor.nodes[1].selected);
}

#[test]
fn fit_to_content_scenario() {
    let mut editor = NodeThing::new();
    let a = plain_node(0);
    let mut b = plain_node(1);
    b.set_position(r(600), r(0));
    editor.add_node(a);
    editor.add_node(b);
    editor.fit_viewport_to_nodes(r(800), r(600));
    // box is 1000 by 230; the larger axis ratio is 1000/800, so the scale is
    // 1 / (1000/800 + 1/5) = 20/29, and the offsets sit a tenth of the
    // window before the box corner.
    assert!(editor.viewport_scale.eqv(&Rat::new(20, 29)));
    assert!(editor.viewport_x.eqv(&r(-80)));
    assert!(editor.viewport_y.eqv(&r(-60)));
}

#[test]
fn fit_to_content_is_deterministic_and_exact_on_one_axis() {
    let mut editor = NodeThing::new();
    editor.add_node(plain_node(0));
    let mut b = plain_node(1);
    b.set_position(r(600), r(0));
    editor.add_node(b);
    editor.fit_viewport_to_nodes(r(800), r(600));
    let first_scale = editor.viewport_scale;
    let first_x = editor.viewport_x;
    editor.fit_viewport_to_nodes(r(800), r(600));
    assert_eq!(editor.viewport_scale, first_scale);
    assert_eq!(editor.viewport_x, first_x);
    // padded box width 1000 + 2 * 80 = 1160 fills the 800 px window exactly
    let padded = r(1160);
    let on_screen = padded.checked_times(&editor.viewport_scale).unwrap();
    assert!(on_screen.eqv(&r(800)));
}

#[test]
fn middle_drag_pans_viewport() {
    let mut editor = NodeThing::new();
    editor.viewport_scale = Rat::new(2, 1);
    editor.mouse_button_down_event(MouseButton::Middle, r(0), r(0), false);
    editor.mouse_motion_event(r(10), r(5));
    assert!(editor.viewport_x.eqv(&r(-5)));
    assert!(editor.viewport_y.eqv(&Rat::new(-5, 2)));
    editor.mouse_button_up_event(MouseButton::Middle, r(10), r(5));
    editor.mouse_motion_event(r(10), r(5));
    assert!(editor.viewport_x.eqv(&r(-5)));
}

#[test]
fn left_drag_moves_selected_nodes() {
    let mut editor = NodeThing::new();
    editor.viewport_scale = Rat::new(2, 1);
    let mut a = plain_node(0);
    a.selected = true;
    let b = plain_node(1);
    editor.add_node(a);
    editor.add_node(b);
    editor.mouse_button_down_event(MouseButton::Left, r(50), r(50), false);
    editor.mouse_motion_event(r(10), r(6));
    assert!(editor.nodes[0].x.eqv(&r(5)));
    assert!(editor.nodes[0].y.eqv(&r(3)));
    assert!(editor.nodes[1].x.eqv(&r(0)));
}

#[test]
fn wheel_zooms_toward_pointer() {
    let mut editor = NodeThing::new();
    editor.mouse_wheel_event(r(1), r(100), r(100));
    assert!(editor.viewport_x.eqv(&r(10)));
    assert!(editor.viewport_y.eqv(&r(10)));
    assert!(editor.viewport_scale.eqv(&Rat::new(10, 9)));
}

#[test]
fn wheel_ignores_noise_and_degenerate_zoom() {
    let mut editor = NodeThing::new();
    editor.mouse_wheel_event(Rat::new(1, 2000), r(0), r(0));
    assert!(editor.viewport_scale.eqv(&r(1)));
    // a delta of 20 would give zoom factor 1 - 2 = -1; the event is ignored
    editor.mouse_wheel_event(r(20), r(0), r(0));
    assert!(editor.viewport_scale.eqv(&r(1)));
}

#[test]
fn release_classifies_clicks_by_distance() {
    let mut editor = NodeThing::new();
    editor.mouse_button_down_event(MouseButton::Left, r(10), r(10), false);
    let near = editor.mouse_button_up_event(MouseButton::Left, r(11), r(11));
    assert_eq!(near, Some(true));
    editor.mouse_button_down_event(MouseButton::Left, r(10), r(10), false);
    let far = editor.mouse_button_up_event(MouseButton::Left, r(20), r(10));
    assert_eq!(far, Some(false));
    assert!(!editor.left_mouse_down);
}

#[test]
fn wrong_direction_socket_is_rejected() {
    let mut def = NodeDefinition::new(
        0,
        String::from("d"),
        String::from(""),
        String::from("d"),
        Color::red(),
    );
    let out = NodeSocket::new(
        String::from("o"),
        String::from("o"),
        SocketDirection::Output,
        DataType::String,
    );
    match def.add_input_socket(out) {
        Err(NodeError::WrongDirection(m)) => {
            assert_eq!(m, "Got output socket in add_input_socket");
        }
        _ => panic!("expected a WrongDirection error"),
    }
    let inp = NodeSocket::new(
        String::from("i"),
        String::from("i"),
        SocketDirection::Input,
        DataType::Integer,
    );
    assert!(def.add_input_socket(inp).is_ok());
    assert_eq!(def.iterate_input_sockets().len(), 1);
}

#[test]
fn create_node_copies_sockets_and_sizes() {
    let mut def = NodeDefinition::new(
        7,
        String::from("d"),
        String::from(""),
        String::from("d"),
        Color::red(),
    );
    for label in ["a", "b"].iter() {
        def.add_input_socket(NodeSocket::new(
            String::from(*label),
            String::from(*label),
            SocketDirection::Input,
            DataType::Integer,
        ))
        .unwrap();
    }
    def.add_output_socket(NodeSocket::new(
        String::from("c"),
        String::from("c"),
        SocketDirection::Output,
        DataType::Float,
    ))
    .unwrap();
    let node = def.create_node(42);
    assert_eq!(node.node_id, 42);
    assert_eq!(node.node_definition_id, Some(7));
    assert_eq!(node.inputs.len(), 2);
    assert_eq!(node.outputs.len(), 1);
    assert!(node.width.eqv(&r(400)));
    assert!(node.height.eqv(&r(230 + 32 * 3)));
    assert!(!node.selected);
}

#[test]
fn text_offsets_follow_moves() {
    let mut node = plain_node(0);
    node.generate_mesh();
    assert_eq!(node.meshes.len(), 2);
    assert!(node.outline.is_some());
    assert_eq!(node.texts.len(), 1);
    node.move_position(r(5), r(7));
    assert!(node.texts[0].base_x.eqv(&r(-5)));
    assert!(node.texts[0].base_y.eqv(&r(-7)));
}

#[test]
fn node_equality_is_identity() {
    let a = plain_node(3);
    let mut b = plain_node(3);
    b.set_position(r(100), r(100));
    let c = plain_node(4);
    assert!(a == b);
    assert!(a != c);
}

#[test]
fn data_types_have_fixed_names_and_colors() {
    assert_eq!(DataType::Integer.get_type_name(), "Integer");
    assert_eq!(DataType::Boolean.get_type_name(), "Boolean");
    assert_eq!(
        DataType::Float.get_type_color(),
        Color::new(300, 780, 860, 1000)
    );
    assert_eq!(
        DataType::String.get_type_color(),
        Color::new(920, 830, 360, 1000)
    );
}

#[test]
fn id_allocator_hands_out_consecutive_ids() {
    let mut ids = IdAllocator::new();
    assert_eq!(ids.allocate(), 0);
    assert_eq!(ids.allocate(), 1);
    assert_eq!(ids.allocate(), 2);
}
