use spspf_graphics::{wire_words, Color, Scalar, Vec2, Vec3, Vertex, NEG_ONE_BITS, VERTEX_WORDS, ZERO_BITS};

fn num(value: f32) -> Scalar {
    Scalar::from_bits(value.to_bits())
}

#[test]
fn constants_are_the_bits_of_zero_and_minus_one() {
    assert_eq!(ZERO_BITS, 0.0f32.to_bits());
    assert_eq!(NEG_ONE_BITS, (-1.0f32).to_bits());
}

#[test]
fn scalar_keeps_its_bits() {
    let value = 12.5f32;
    let scalar = Scalar::from_bits(value.to_bits());
    assert_eq!(scalar.bits, 0x4148_0000);
    assert_eq!(scalar.to_bits(), 0x4148_0000);
    assert_eq!(f32::from_bits(scalar.to_bits()), 12.5);
}

#[test]
fn scalars_compare_by_bits() {
    assert_ne!(num(0.0), num(-0.0));
    assert_eq!(num(f32::NAN), num(f32::NAN));
    assert_eq!(num(3.0), num(3.0));
}

#[test]
fn vectors_hold_their_components() {
    let v2 = Vec2::new(num(1.0), num(2.0));
    assert_eq!(v2.x, num(1.0));
    assert_eq!(v2.y, num(2.0));
    let v3 = Vec3::new(num(1.0), num(2.0), num(3.0));
    assert_eq!(v3, Vec3 { x: num(1.0), y: num(2.0), z: num(3.0) });
}

#[test]
fn color_packs_alpha_blue_green_red() {
    assert_eq!(Color::new(0x11, 0x22, 0x33, 0x44).as_abgr(), 0x4433_2211);
    assert_eq!(Color::new(255, 0, 0, 255).as_abgr(), 0xFF00_00FF);
    assert_eq!(Color::new(0, 0, 255, 255).as_abgr(), 0xFFFF_0000);
    assert_eq!(Color::new(0, 255, 0, 0).as_abgr(), 0x0000_FF00);
    assert_eq!(Color::new(0, 0, 0, 0).as_abgr(), 0);
    assert_eq!(Color::new(255, 255, 255, 255).as_abgr(), 0xFFFF_FFFF);
}

#[test]
fn flat_vertex_lies_on_the_near_plane() {
    let vertex = Vertex::flat(0xFF00_00FF, num(10.0), num(20.0));
    assert_eq!(vertex.u, num(0.0));
    assert_eq!(vertex.v, num(0.0));
    assert_eq!(vertex.color, 0xFF00_00FF);
    assert_eq!(vertex.x, num(10.0));
    assert_eq!(vertex.y, num(20.0));
    assert_eq!(vertex.z, num(-1.0));
}

#[test]
fn untextured_vertex_lies_where_its_point_lies() {
    let vertex = Vertex::untextured(0xFFFF_0000, Vec3::new(num(1.0), num(2.0), num(3.0)));
    assert_eq!(vertex.u, num(0.0));
    assert_eq!(vertex.v, num(0.0));
    assert_eq!(vertex.color, 0xFFFF_0000);
    assert_eq!((vertex.x, vertex.y, vertex.z), (num(1.0), num(2.0), num(3.0)));
    assert_eq!(
        Vertex::untextured(7, Vec3::new(num(4.0), num(5.0), num(-1.0))),
        Vertex::flat(7, num(4.0), num(5.0))
    );
}

#[test]
fn vertex_words_are_in_wire_order() {
    let vertex = Vertex {
        u: num(1.0),
        v: num(2.0),
        color: 0xAABB_CCDD,
        x: num(3.0),
        y: num(4.0),
        z: num(5.0),
    };
    assert_eq!(
        vertex.words(),
        [
            1.0f32.to_bits(),
            2.0f32.to_bits(),
            0xAABB_CCDD,
            3.0f32.to_bits(),
            4.0f32.to_bits(),
            5.0f32.to_bits()
        ]
    );
}

#[test]
fn default_vertex_is_all_zero() {
    assert_eq!(Vertex::default().words(), [0, 0, 0, 0, 0, 0]);
}

#[test]
fn wire_words_lay_vertices_out_without_gaps() {
    let first = Vertex::flat(7, num(1.0), num(2.0));
    let second = Vertex::flat(9, num(3.0), num(4.0));
    let words = wire_words(&[first, second]);
    assert_eq!(words.len(), 2 * VERTEX_WORDS);
    assert_eq!(&words[0..6], &first.words());
    assert_eq!(&words[6..12], &second.words());
    assert_eq!(words[2], 7);
    assert_eq!(words[8], 9);
    assert_eq!(words[11], (-1.0f32).to_bits());
}

#[test]
fn wire_words_of_no_vertices_are_empty() {
    assert_eq!(wire_words(&[]), Vec::<u32>::new());
}
