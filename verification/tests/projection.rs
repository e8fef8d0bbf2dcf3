use rps_simulator::Projection;

/// Apply the column-major 4x4 matrix to the screen point `(x, y, 0, 1)` and
/// return the clip-space `(x, y)`.
fn apply(p: &Projection, x: f32, y: f32) -> (f32, f32) {
    let m: Vec<f32> = p.data.iter().map(|b| f32::from_bits(*b)).collect();
    (
        m[0] * x + m[4] * y + m[12],
        m[1] * x + m[5] * y + m[13],
    )
}

#[test]
fn projection_maps_corners() {
    let p = Projection::new(800, 600);
    assert_eq!(apply(&p, 0.0, 0.0), (-1.0, 1.0));
    assert_eq!(apply(&p, 800.0, 600.0), (1.0, -1.0));

    let q = Projection::new(1024, 768);
    assert_eq!(apply(&q, 0.0, 0.0), (-1.0, 1.0));
    assert_eq!(apply(&q, 1024.0, 768.0), (1.0, -1.0));
}

#[test]
fn projection_entries_exact() {
    let p = Projection::new(800, 600);
    let (w, h) = (800.0f32, 600.0f32);
    // scale entries: 2/(r-l) and 2/(t-b) with l = t = 0
    assert_eq!(p.data[0], (2.0f32 / (w - 0.0)).to_bits());
    assert_eq!(p.data[5], (2.0f32 / (0.0 - h)).to_bits());
    // translation entries: -(r+l)/(r-l) and -(t+b)/(t-b)
    assert_eq!(p.data[12], (-(w + 0.0) / (w - 0.0)).to_bits());
    assert_eq!(p.data[13], (-(0.0 + h) / (0.0 - h)).to_bits());
    // fixed entries
    assert_eq!(p.data[10], 1.0f32.to_bits());
    assert_eq!(p.data[15], 1.0f32.to_bits());
    assert_eq!(p.data[1], 0);
    assert_eq!(p.data[4], 0);
}

#[test]
fn projection_resize_recomputes() {
    let mut p = Projection::new(800, 600);
    p.resize(400, 300);
    assert_eq!(p.width, 400);
    assert_eq!(p.height, 300);
    assert_eq!(p.data[0], (2.0f32 / 400.0).to_bits());
    assert_eq!(apply(&p, 400.0, 300.0), (1.0, -1.0));
}

#[test]
fn projection_bytes_layout() {
    let p = Projection::new(2, 2);
    let bytes = p.bytes();
    assert_eq!(bytes.len(), 64);
    // entry 0 is 2/2 = 1.0f32 = 0x3f800000, little-endian
    assert_eq!(&bytes[0..4], &[0x00, 0x00, 0x80, 0x3f]);
    // entry 5 is 2/(0-2) = -1.0f32 = 0xbf800000
    assert_eq!(&bytes[20..24], &[0x00, 0x00, 0x80, 0xbf]);
    // entry 12 is -(2+0)/(2-0) = -1.0f32
    assert_eq!(&bytes[48..52], &[0x00, 0x00, 0x80, 0xbf]);
}
