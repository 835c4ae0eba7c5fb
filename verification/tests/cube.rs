use stereo_pbr::cube::{indices, upload, vertices};
use stereo_pbr::factory::{Factory, Resource};
use stereo_pbr::handle::Buffer;
use stereo_pbr::mesh::IndexBuffer;

fn positions() -> Vec<[f32; 3]> {
    vertices().iter().map(|v| v.pos.map(f32::from_bits)).collect()
}

fn sub(a: [f32; 3], b: [f32; 3]) -> [f32; 3] {
    [a[0] - b[0], a[1] - b[1], a[2] - b[2]]
}

fn cross(a: [f32; 3], b: [f32; 3]) -> [f32; 3] {
    [a[1] * b[2] - a[2] * b[1], a[2] * b[0] - a[0] * b[2], a[0] * b[1] - a[1] * b[0]]
}

fn dot(a: [f32; 3], b: [f32; 3]) -> f32 {
    a[0] * b[0] + a[1] * b[1] + a[2] * b[2]
}

#[test]
fn box_has_the_eight_corners() {
    let mut found = positions();
    assert_eq!(found.len(), 8);
    let mut expected = Vec::new();
    for x in [-10.0f32, 10.0] {
        for y in [-10.0f32, 10.0] {
            for z in [-10.0f32, 10.0] {
                expected.push([x, y, z]);
            }
        }
    }
    let key = |p: &[f32; 3]| (p[0] as i32, p[1] as i32, p[2] as i32);
    found.sort_by_key(key);
    expected.sort_by_key(key);
    assert_eq!(found, expected);
}

#[test]
fn box_vertices_in_order() {
    assert_eq!(
        positions(),
        vec![
            [-10.0, -10.0, 10.0],
            [-10.0, 10.0, 10.0],
            [-10.0, -10.0, -10.0],
            [-10.0, 10.0, -10.0],
            [10.0, -10.0, 10.0],
            [10.0, 10.0, 10.0],
            [10.0, -10.0, -10.0],
            [10.0, 10.0, -10.0],
        ]
    );
}

#[test]
fn box_has_twelve_triangles() {
    let i = indices();
    assert_eq!(i.len(), 36);
    assert!(i.iter().all(|&k| k < 8));
    assert_eq!(
        i,
        [
            0, 2, 1, 2, 6, 3, 6, 4, 7, 4, 0, 5, 2, 0, 6, 7, 5, 3, 2, 3, 1, 6, 7, 3, 4, 5, 7, 0, 1, 5,
            0, 4, 6, 5, 1, 3
        ]
    );
}

#[test]
fn box_triangles_face_inward() {
    let p = positions();
    let mut centre = [0.0f32; 3];
    for v in &p {
        for a in 0..3 {
            centre[a] += v[a] / 8.0;
        }
    }
    assert_eq!(centre, [0.0, 0.0, 0.0]);
    let i = indices();
    for t in 0..12 {
        let a = p[i[3 * t] as usize];
        let b = p[i[3 * t + 1] as usize];
        let c = p[i[3 * t + 2] as usize];
        let normal = cross(sub(b, a), sub(c, a));
        assert_eq!(dot(normal, sub(centre, a)), 4000.0, "triangle {}", t);
    }
}

#[test]
fn box_walls_are_covered_twice_each() {
    let p = positions();
    let i = indices();
    let mut walls = [0; 6];
    for t in 0..12 {
        let corners = [i[3 * t], i[3 * t + 1], i[3 * t + 2]].map(|k| p[k as usize]);
        for axis in 0..3 {
            if corners.iter().all(|c| c[axis] == corners[0][axis]) {
                walls[2 * axis + usize::from(corners[0][axis] > 0.0)] += 1;
            }
        }
    }
    assert_eq!(walls, [2; 6]);
}

#[test]
fn box_upload_asks_for_vertices_and_indices() {
    let mut f = Factory::new();
    f.create(Resource::External);
    let mesh = upload(&mut f);
    assert_eq!(f.len(), 3);
    assert_eq!(f.get(1), Some(Resource::BoxVertices(vertices())));
    assert_eq!(f.get(2), Some(Resource::BoxIndices(indices())));
    assert_eq!(mesh.buf, Buffer { id: 1 });
    assert_eq!(mesh.slice.start, 0);
    assert_eq!(mesh.slice.end, 36);
    assert_eq!(mesh.slice.base_vertex, 0);
    assert_eq!(mesh.slice.instances, None);
    assert_eq!(mesh.slice.buffer, IndexBuffer::Index32(Buffer { id: 2 }));
}
