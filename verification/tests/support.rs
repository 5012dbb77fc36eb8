use lights::app::{FrameClock, Key, LoopEvent, should_stop};
use lights::assets::cubemap_face_size;
use lights::mesh::{diffuse_texture_names, interleave, Mesh, MeshVertex};
use lights::obj::to_buffer_index;
use lights::oops;
use lights::result::Oops;
use lights::vertex::Vertex;

fn bits(vals: &[f32]) -> Vec<u32> {
    vals.iter().map(|v| v.to_bits()).collect()
}

#[test]
fn interleave_groups_coordinates() {
    let positions = bits(&[1.0, 2.0, 3.0, 4.0, 5.0, 6.0]);
    let normals = bits(&[0.0, 0.0, 1.0, 0.0, 1.0, 0.0]);
    let texcoords = bits(&[0.25, 0.75, 0.5, 0.5]);
    let verts = interleave(&positions, &normals, &texcoords);
    assert_eq!(verts.len(), 2);
    assert_eq!(verts[0].position, [1.0f32.to_bits(), 2.0f32.to_bits(), 3.0f32.to_bits()]);
    assert_eq!(verts[1].normal, [0.0f32.to_bits(), 1.0f32.to_bits(), 0.0f32.to_bits()]);
    assert_eq!(verts[1].texture, [0.5f32.to_bits(), 0.5f32.to_bits()]);
}

#[test]
fn interleave_pads_missing_attributes_with_zero() {
    let positions = bits(&[1.0, 2.0, 3.0, 4.0, 5.0, 6.0]);
    let normals = bits(&[9.0]);
    let texcoords = bits(&[]);
    let verts = interleave(&positions, &normals, &texcoords);
    assert_eq!(verts[0].normal, [9.0f32.to_bits(), 0, 0]);
    assert_eq!(verts[0].texture, [0, 0]);
    assert_eq!(verts[1].normal, [0, 0, 0]);
    assert_eq!(f32::from_bits(0), 0.0);
}

#[test]
fn interleave_ignores_a_trailing_partial_position() {
    let positions = bits(&[1.0, 2.0, 3.0, 4.0]);
    let verts = interleave(&positions, &bits(&[]), &bits(&[]));
    assert_eq!(verts.len(), 1);
}

#[test]
fn a_mesh_keeps_its_indices_and_material() {
    let positions = bits(&[0.0, 0.0, 0.0]);
    let m = Mesh::from_arrays(&positions, &bits(&[]), &bits(&[]), vec![0, 0, 0], Some(2));
    assert_eq!(m.vertices.len(), 1);
    assert_eq!(m.indices, vec![0u32, 0, 0]);
    assert_eq!(m.material_id, Some(2));
    let expected = MeshVertex { position: [0, 0, 0], normal: [0, 0, 0], texture: [0, 0] };
    assert_eq!(m.vertices[0], expected);
}

#[test]
fn empty_texture_names_are_dropped() {
    let names = vec!["spot.png".to_owned(), String::new(), "hide.jpg".to_owned(), String::new()];
    let kept = diffuse_texture_names(&names);
    assert_eq!(kept, vec!["spot.png".to_owned(), "hide.jpg".to_owned()]);
}

#[test]
fn vertices_come_three_coordinates_at_a_time() {
    let coords = bits(&[1.0, 2.0, 3.0, -1.0, -2.0, -3.0]);
    let vs = Vertex::many(coords);
    assert_eq!(vs.len(), 2);
    assert_eq!(vs[0].coords(), [1.0f32.to_bits(), 2.0f32.to_bits(), 3.0f32.to_bits()]);
    assert_eq!(vs[1].coords(), [(-1.0f32).to_bits(), (-2.0f32).to_bits(), (-3.0f32).to_bits()]);
    let v = Vertex::new(7, 8, 9);
    assert_eq!(v.coords(), [7, 8, 9]);
}

#[test]
fn buffer_indices_are_zero_based() {
    assert_eq!(to_buffer_index(1), 0);
    assert_eq!(to_buffer_index(0), 0xffff);
    assert_eq!(to_buffer_index(65535), 65534);
}

#[test]
fn cubemap_faces_must_share_one_square_size() {
    assert_eq!(cubemap_face_size(&vec![(512, 512); 6]), Some(512));
    assert_eq!(cubemap_face_size(&vec![(512, 512), (256, 256)]), None);
    assert_eq!(cubemap_face_size(&vec![(512, 256)]), None);
    assert_eq!(cubemap_face_size(&vec![]), Some(0));
    assert_eq!(cubemap_face_size(&vec![(0, 0), (128, 128)]), Some(128));
}

#[test]
fn the_loop_stops_on_close_or_escape() {
    assert!(should_stop(&LoopEvent::Closed));
    assert!(should_stop(&LoopEvent::KeyPressed(Key::Escape)));
    assert!(!should_stop(&LoopEvent::KeyPressed(Key::W)));
    assert!(!should_stop(&LoopEvent::MouseMoved(10, 20)));
    assert!(!should_stop(&LoopEvent::Other));
}

#[test]
fn the_frame_clock_hands_out_time_and_delta() {
    let mut clock = FrameClock::new();
    assert_eq!(clock.tick(0), (0, 0));
    assert_eq!(clock.tick(16_000), (16_000, 16_000));
    assert_eq!(clock.tick(33_000), (33_000, 17_000));
    assert_eq!(clock.tick(33_000), (33_000, 0));
}

#[test]
fn an_oops_keeps_its_message_and_cause() {
    let e = oops("failed to create shader program", std::fmt::Error);
    assert_eq!(e.message(), "failed to create shader program");
    assert!(e.guru_info().is_some());
    assert_eq!(e.display_message(), "Oops: failed to create shader program");
}

#[test]
fn an_oops_from_debug_keeps_the_debug_text() {
    let e = Oops::from_debug("failed to draw a frame", (1, 2));
    assert_eq!(e.message(), "failed to draw a frame");
    let info = e.guru_info().unwrap();
    assert!(info.contains('1') && info.contains('2'));
}

#[test]
fn an_oops_without_any_cause_has_no_guru_info() {
    let e = Oops::from_debug("plain", ());
    assert_eq!(e.guru_info().unwrap(), "()");
}
