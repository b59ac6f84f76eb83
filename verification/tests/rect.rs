use spspf_graphics::{
    Capability, Color, Drawable, MatrixMode, Rect, RenderCommand, Scalar, ShapeError, Topology,
    Vec2, Vec3, Vertex, VertexFormat,
};

fn num(value: f32) -> Scalar {
    Scalar::from_bits(value.to_bits())
}

fn red() -> Color {
    Color::new(255, 0, 0, 255)
}

fn sample() -> Rect {
    Rect::new(
        Vec3::new(num(0.0), num(0.0), num(0.0)),
        Vec2::new(num(10.0), num(20.0)),
        red(),
    )
}

#[test]
fn new_rect_holds_the_four_corners() {
    let rect = Rect::new(
        Vec3::new(num(3.0), num(4.0), num(5.0)),
        Vec2::new(num(10.0), num(20.0)),
        Color::new(1, 2, 3, 4),
    );
    let packed = 0x0403_0201;
    assert_eq!(
        rect.vertices(),
        [
            Vertex::flat(packed, num(0.0), num(0.0)),
            Vertex::flat(packed, num(10.0), num(0.0)),
            Vertex::flat(packed, num(0.0), num(20.0)),
            Vertex::flat(packed, num(10.0), num(20.0)),
        ]
    );
    assert_eq!(rect.indices(), [0, 1, 2, 2, 1, 3]);
    assert_eq!(rect.get_color(), Color::new(1, 2, 3, 4));
}

#[test]
fn generate_vertices_gives_each_corner_the_packed_color() {
    let vertices = Rect::generate_vertices(Vec2::new(num(1.5), num(-2.5)), red());
    for vertex in vertices.iter() {
        assert_eq!(vertex.color, 0xFF00_00FF);
        assert_eq!(vertex.u, num(0.0));
        assert_eq!(vertex.v, num(0.0));
        assert_eq!(vertex.z, num(-1.0));
    }
    assert_eq!((vertices[0].x, vertices[0].y), (num(0.0), num(0.0)));
    assert_eq!((vertices[1].x, vertices[1].y), (num(1.5), num(0.0)));
    assert_eq!((vertices[2].x, vertices[2].y), (num(0.0), num(-2.5)));
    assert_eq!((vertices[3].x, vertices[3].y), (num(1.5), num(-2.5)));
}

#[test]
fn new_rect_is_unturned_and_placed() {
    let mut rect = Rect::new(
        Vec3::new(num(3.0), num(4.0), num(5.0)),
        Vec2::new(num(10.0), num(20.0)),
        red(),
    );
    assert_eq!(rect.get_pos(), Vec3::new(num(3.0), num(4.0), num(5.0)));
    assert_eq!(rect.get_size(), Ok(Vec2::new(num(10.0), num(20.0))));
    assert_eq!(rect.get_rot(), Ok(num(0.0)));
}

#[test]
fn set_size_rebuilds_the_vertex_buffer() {
    let mut rect = sample();
    assert_eq!(rect.set_size(Vec2::new(num(7.0), num(9.0))), Ok(()));
    assert_eq!(rect.get_size(), Ok(Vec2::new(num(7.0), num(9.0))));
    let vertices = rect.vertices();
    assert_eq!(vertices.len(), 4);
    assert_eq!(
        vertices,
        [
            Vertex::flat(0xFF00_00FF, num(0.0), num(0.0)),
            Vertex::flat(0xFF00_00FF, num(7.0), num(0.0)),
            Vertex::flat(0xFF00_00FF, num(0.0), num(9.0)),
            Vertex::flat(0xFF00_00FF, num(7.0), num(9.0)),
        ]
    );
    assert_eq!(rect.indices(), [0, 1, 2, 2, 1, 3]);
}

#[test]
fn set_color_rebuilds_the_vertex_buffer() {
    let mut rect = sample();
    rect.set_color(Color::new(0, 0, 255, 255));
    assert_eq!(rect.get_color(), Color::new(0, 0, 255, 255));
    for vertex in rect.vertices().iter() {
        assert_eq!(vertex.color, 0xFFFF_0000);
    }
    assert_eq!(rect.vertices()[3].x, num(10.0));
    assert_eq!(rect.vertices()[3].y, num(20.0));
}

#[test]
fn set_pos_and_set_rot_leave_the_buffers_alone() {
    let mut rect = sample();
    let vertices = rect.vertices();
    let indices = rect.indices();
    rect.set_pos(Vec3::new(num(100.0), num(50.0), num(2.0)));
    assert_eq!(rect.set_rot(num(1.25)), Ok(()));
    assert_eq!(rect.vertices(), vertices);
    assert_eq!(rect.indices(), indices);
    assert_eq!(rect.get_pos(), Vec3::new(num(100.0), num(50.0), num(2.0)));
    assert_eq!(rect.get_size(), Ok(Vec2::new(num(10.0), num(20.0))));
}

#[test]
fn rotation_set_is_rotation_read() {
    let mut rect = sample();
    for degrees in [0.0f32, 90.0, -45.0, 720.5, 1.0e-3] {
        let radians = num(degrees.to_radians());
        assert_eq!(rect.set_rot(radians), Ok(()));
        assert_eq!(rect.get_rot(), Ok(radians));
        let read = f32::from_bits(rect.get_rot().unwrap().to_bits()).to_degrees();
        assert!((read - degrees).abs() <= degrees.abs() * 1.0e-6);
    }
}

#[test]
fn rect_has_no_scale() {
    let mut rect = sample();
    assert_eq!(rect.get_scale(), Err(ShapeError::Unsupported));
    assert_eq!(rect.set_scale(Vec2::new(num(2.0), num(2.0))), Err(ShapeError::Unsupported));
    assert_eq!(rect.get_size(), Ok(Vec2::new(num(10.0), num(20.0))));
    assert_eq!(rect.vertices()[3], Vertex::flat(0xFF00_00FF, num(10.0), num(20.0)));
}

#[test]
fn rect_draw_pushes_translates_rotates_flushes_submits_pops() {
    let mut rect = sample();
    let call = rect.draw();
    assert_eq!(
        call.commands,
        vec![
            RenderCommand::SetRenderState { capability: Capability::Texture2D, enabled: false },
            RenderCommand::MatrixMode(MatrixMode::Model),
            RenderCommand::PushTransform,
            RenderCommand::Translate(Vec3::new(num(0.0), num(0.0), num(-1.0))),
            RenderCommand::RotateZ(num(0.0)),
            RenderCommand::FlushCache,
            RenderCommand::Submit {
                topology: Topology::Triangles,
                format: VertexFormat {
                    texture_32bitf: true,
                    color_8888: true,
                    vertex_32bitf: true,
                    index_16bit: true,
                    transform_3d: true,
                },
                count: 6,
            },
            RenderCommand::PopTransform,
        ]
    );
    assert_eq!(call.indices, Some(vec![0, 1, 2, 2, 1, 3]));
    assert_eq!(call.vertices, rect.vertices().to_vec());
}

#[test]
fn rect_draw_uses_position_and_rotation_but_not_depth() {
    let mut rect = sample();
    rect.set_pos(Vec3::new(num(30.0), num(40.0), num(9.0)));
    assert_eq!(rect.set_rot(num(0.5)), Ok(()));
    let call = rect.draw();
    assert_eq!(call.commands[3], RenderCommand::Translate(Vec3::new(num(30.0), num(40.0), num(-1.0))));
    assert_eq!(call.commands[4], RenderCommand::RotateZ(num(0.5)));
}

#[test]
fn rect_draw_twice_submits_the_same() {
    let mut rect = sample();
    let first = rect.draw();
    let second = rect.draw();
    assert_eq!(first, second);
    assert_eq!(rect.vertices().to_vec(), first.vertices);
}

#[test]
fn rect_indices_stay_inside_the_vertex_buffer() {
    let mut rect = sample();
    let call = rect.draw();
    let indices = call.indices.unwrap();
    assert_eq!(indices.len(), 6);
    for index in indices {
        assert!((index as usize) < call.vertices.len());
    }
}

#[test]
fn rect_clone_is_equal_in_every_part() {
    let mut rect = sample();
    rect.set_pos(Vec3::new(num(1.0), num(2.0), num(3.0)));
    let mut copy = rect.clone();
    assert_eq!(copy.get_pos(), rect.get_pos());
    assert_eq!(copy.vertices(), rect.vertices());
    assert_eq!(copy.draw(), rect.draw());
}
