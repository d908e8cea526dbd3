use raspi_proxy::cloud::refresh_frame;
use raspi_proxy::frame::{
    decode_frame, frame_config_decode, frame_config_encode, plane_size, status_size, DecodeError,
    ProcessedFrames,
};

fn frame(config: Vec<u8>, planes: &[Vec<u8>], rgb: &[u8]) -> Vec<u8> {
    let mut f = vec![0u8; 16];
    f.extend_from_slice(&config);
    let deep: usize = planes.iter().map(|p| p.len()).sum();
    f.extend_from_slice(&(deep as i32).to_le_bytes());
    f.extend_from_slice(&(rgb.len() as i32).to_le_bytes());
    for p in planes {
        f.extend_from_slice(p);
    }
    f.extend_from_slice(rgb);
    f
}

#[test]
fn config_encoding_is_little_endian() {
    assert_eq!(frame_config_encode(1, 0, 255, 0, 2, 7, 1, 0, 0), vec![1, 0, 255, 0, 2, 7, 1, 0, 0, 0, 0, 0]);
    assert_eq!(frame_config_encode(0, 0, 0, 0, 0, 0, 0, 0, -2)[8..], [0xfe, 0xff, 0xff, 0xff]);
    assert_eq!(frame_config_encode(0, 0, 0, 0, 0, 0, 0, 0, 0x01020304)[8..], [4, 3, 2, 1]);
}

#[test]
fn config_round_trip() {
    let bytes = frame_config_encode(1, 2, 3, 4, 5, 6, 7, 8, -123456);
    let c = frame_config_decode(&bytes).unwrap();
    assert_eq!(c.trigger_mode, 1);
    assert_eq!(c.rgb_res, 8);
    assert_eq!(c.expose_time, -123456);
    assert!(frame_config_decode(&bytes[..11]).is_err());
}

#[test]
fn plane_and_status_sizes() {
    assert_eq!(plane_size(0), 153600);
    assert_eq!(plane_size(1), 76800);
    assert_eq!(plane_size(2), 38400);
    assert_eq!(plane_size(40), 0);
    assert_eq!(status_size(0), 9600 * 16);
    assert_eq!(status_size(1), 9600 * 2);
    assert_eq!(status_size(2), 9600 * 8);
    assert_eq!(status_size(3), 9600);
    assert_eq!(status_size(200), 9600);
}

#[test]
fn short_frame_is_rejected_and_slot_kept() {
    assert_eq!(decode_frame(&[0u8; 27]).err(), Some(DecodeError::TooShort));
    assert_eq!(decode_frame(&[]).err(), Some(DecodeError::TooShort));
    assert_eq!(decode_frame(&[0u8; 30]).err(), Some(DecodeError::PayloadTooShort));
    let mut slot = ProcessedFrames::empty();
    slot.depth = Some(vec![7u16; 76800]);
    assert_eq!(refresh_frame(&mut slot, &[0u8; 20]), Err(DecodeError::TooShort));
    assert_eq!(slot.depth.as_ref().unwrap()[0], 7);
}

#[test]
fn wide_and_narrow_planes() {
    let mut depth = Vec::new();
    for _ in 0..76800 {
        depth.extend_from_slice(&[0x34, 0x12]);
    }
    let ir = vec![200u8; 76800];
    let cfg = frame_config_encode(1, 0, 255, 1, 3, 7, 0, 0, 0);
    let f = frame(cfg, &[depth, ir, vec![5u8; 9600]], &[]);
    let p = decode_frame(&f).unwrap();
    let d = p.depth.unwrap();
    assert_eq!(d.len(), 76800);
    assert!(d.iter().all(|&v| v == 0x1234));
    assert!(p.ir.unwrap().iter().all(|&v| v == 200));
    let s = p.status.unwrap();
    assert_eq!(s[9599], 5);
    assert_eq!(s[9600], 0);
    assert!(p.rgb.is_none());
}

#[test]
fn narrow_plane_shorter_than_grid_is_zero_filled() {
    let cfg = frame_config_encode(1, 2, 255, 0, 3, 7, 0, 0, 0);
    let f = frame(cfg, &[vec![9u8; 38400]], &[]);
    let p = decode_frame(&f).unwrap();
    let d = p.depth.unwrap();
    assert_eq!(d[38399], 9);
    assert_eq!(d[38400], 0);
    assert!(p.ir.is_none());
    assert!(p.status.is_none());
}

#[test]
fn color_plane_shapes() {
    let cfg = frame_config_encode(1, 0, 255, 0, 0, 7, 0, 0, 0);
    let planes = [vec![0u8; 153600], vec![0u8; 153600], vec![0u8; 153600]];
    let exact = decode_frame(&frame(cfg.clone(), &planes, &vec![1u8; 921600])).unwrap();
    let c = exact.rgb.unwrap();
    assert_eq!((c.rows, c.cols, c.data.len()), (480, 640, 921600));
    let short = decode_frame(&frame(cfg.clone(), &planes, &vec![1u8; 1000])).unwrap();
    assert!(short.rgb.is_none());
    let long = decode_frame(&frame(cfg, &planes, &vec![1u8; 921601]));
    assert_eq!(long.err(), Some(DecodeError::ColorShape));
}

#[test]
fn invalid_jpeg_drops_color_plane() {
    let cfg = frame_config_encode(1, 0, 255, 0, 0, 7, 1, 0, 0);
    let planes = [vec![0u8; 153600], vec![0u8; 153600], vec![0u8; 153600]];
    let p = decode_frame(&frame(cfg, &planes, &vec![1u8; 921600])).unwrap();
    assert!(p.rgb.is_none());
    assert!(p.depth.is_some());
}

#[test]
fn jpeg_color_plane_is_decoded() {
    let img = image::RgbImage::from_pixel(800, 600, image::Rgb([10, 20, 30]));
    let mut jpeg = Vec::new();
    image::codecs::jpeg::JpegEncoder::new(&mut jpeg).encode_image(&img).unwrap();
    let cfg = frame_config_encode(1, 0, 255, 0, 0, 7, 1, 1, 0);
    let planes = [vec![0u8; 153600], vec![0u8; 153600], vec![0u8; 153600]];
    let p = decode_frame(&frame(cfg, &planes, &jpeg)).unwrap();
    let c = p.rgb.unwrap();
    assert_eq!((c.rows, c.cols, c.data.len()), (600, 800, 1440000));
    assert!((c.data[0] as i32 - 10).abs() <= 3);
}

#[test]
fn decoding_twice_gives_same_planes() {
    let cfg = frame_config_encode(1, 1, 255, 0, 2, 7, 0, 0, 0);
    let depth: Vec<u8> = (0..76800u32).map(|i| (i % 251) as u8).collect();
    let f = frame(cfg, &[depth, vec![3u8; 153600], vec![1u8; 76800]], &vec![4u8; 921600]);
    let a = decode_frame(&f).unwrap();
    let b = decode_frame(&f).unwrap();
    assert_eq!(a.depth, b.depth);
    assert_eq!(a.ir, b.ir);
    assert_eq!(a.status, b.status);
    assert_eq!(a.rgb.unwrap().data, b.rgb.unwrap().data);
}
