use tilegrid::texture::prepare_texture;

fn crc32(data: &[u8]) -> u32 {
    let mut crc: u32 = 0xFFFF_FFFF;
    for &byte in data {
        crc ^= byte as u32;
        for _ in 0..8 {
            if crc & 1 != 0 {
                crc = (crc >> 1) ^ 0xEDB8_8320;
            } else {
                crc >>= 1;
            }
        }
    }
    !crc
}

fn adler32(data: &[u8]) -> u32 {
    let mut a: u32 = 1;
    let mut b: u32 = 0;
    for &byte in data {
        a = (a + byte as u32) % 65521;
        b = (b + a) % 65521;
    }
    (b << 16) | a
}

fn chunk(kind: &[u8; 4], payload: &[u8]) -> Vec<u8> {
    let mut out = Vec::new();
    out.extend_from_slice(&(payload.len() as u32).to_be_bytes());
    out.extend_from_slice(kind);
    out.extend_from_slice(payload);
    let mut crc_input = Vec::new();
    crc_input.extend_from_slice(kind);
    crc_input.extend_from_slice(payload);
    out.extend_from_slice(&crc32(&crc_input).to_be_bytes());
    out
}

/// A minimal PNG: RGBA8, stored (uncompressed) deflate block.
fn png_rgba(width: u32, height: u32, pixels: &[u8]) -> Vec<u8> {
    assert_eq!(pixels.len(), (width * height * 4) as usize);
    let stride = (width * 4) as usize;
    let mut raw = Vec::new();
    for row in 0..height as usize {
        raw.push(0u8);
        raw.extend_from_slice(&pixels[row * stride..(row + 1) * stride]);
    }
    let mut z = vec![0x78, 0x01, 0x01];
    z.extend_from_slice(&(raw.len() as u16).to_le_bytes());
    z.extend_from_slice(&(!(raw.len() as u16)).to_le_bytes());
    z.extend_from_slice(&raw);
    z.extend_from_slice(&adler32(&raw).to_be_bytes());
    let mut ihdr = Vec::new();
    ihdr.extend_from_slice(&width.to_be_bytes());
    ihdr.extend_from_slice(&height.to_be_bytes());
    ihdr.extend_from_slice(&[8, 6, 0, 0, 0]);
    let mut png = vec![0x89, b'P', b'N', b'G', 0x0D, 0x0A, 0x1A, 0x0A];
    png.extend_from_slice(&chunk(b"IHDR", &ihdr));
    png.extend_from_slice(&chunk(b"IDAT", &z));
    png.extend_from_slice(&chunk(b"IEND", &[]));
    png
}

#[test]
fn prepare_texture_flips_rows_bottom_up() {
    let red = [255u8, 0, 0, 255];
    let blue = [0u8, 0, 255, 255];
    let mut pixels = Vec::new();
    pixels.extend_from_slice(&red);
    pixels.extend_from_slice(&blue);
    let bytes = png_rgba(1, 2, &pixels);
    let img = prepare_texture(&bytes).expect("the stream is a well-formed image");
    assert_eq!(img.width, 1);
    assert_eq!(img.height, 2);
    assert_eq!(&img.pixels[0..4], &blue);
    assert_eq!(&img.pixels[4..8], &red);
}

#[test]
fn prepare_texture_keeps_a_single_row_unchanged() {
    let green = [0u8, 255, 0, 255];
    let bytes = png_rgba(1, 1, &green);
    let img = prepare_texture(&bytes).expect("the stream is a well-formed image");
    assert_eq!(img.width, 1);
    assert_eq!(img.height, 1);
    assert_eq!(&img.pixels[..], &green);
}

#[test]
fn prepare_texture_flips_wide_rows() {
    let mut pixels = Vec::new();
    for p in 0..6u8 {
        pixels.extend_from_slice(&[p, p, p, 255]);
    }
    // 2 pixels per row, 3 rows: rows (0,1), (2,3), (4,5) come back reversed.
    let bytes = png_rgba(2, 3, &pixels);
    let img = prepare_texture(&bytes).expect("the stream is a well-formed image");
    assert_eq!(img.width, 2);
    assert_eq!(img.height, 3);
    let row: Vec<u8> = img.pixels[0..8].iter().step_by(4).copied().collect();
    assert_eq!(row, vec![4, 5]);
    let top: Vec<u8> = img.pixels[16..24].iter().step_by(4).copied().collect();
    assert_eq!(top, vec![0, 1]);
}

#[test]
fn prepare_texture_rejects_malformed_bytes() {
    let bytes = b"not an image".to_vec();
    assert!(prepare_texture(&bytes).is_err());
}
