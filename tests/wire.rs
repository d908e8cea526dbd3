use raspi_proxy::wire::{encode_response, respond, Point};

#[test]
fn no_cloud_is_error_tag() {
    assert_eq!(encode_response(&None), vec![0, 0, 0, 0]);
    assert_eq!(respond(2, &None), Some(vec![0, 0, 0, 0]));
}

#[test]
fn cloud_layout() {
    let pts: Vec<Point> = vec![(1, -1, 1050, 10, 20, 255), (0, 0, 0, 0, 0, 0)];
    let b = encode_response(&Some(pts));
    assert_eq!(b.len(), 8 + 24 * 2);
    assert_eq!(b[..8], [1, 0, 0, 0, 2, 0, 0, 0]);
    assert_eq!(b[8..32], [1, 0, 0, 0, 0xff, 0xff, 0xff, 0xff, 0x1a, 0x04, 0, 0, 10, 0, 0, 0, 20, 0, 0, 0, 255, 0, 0, 0]);
    assert!(b[32..].iter().all(|&x| x == 0));
}

#[test]
fn empty_cloud() {
    assert_eq!(encode_response(&Some(vec![])), vec![1, 0, 0, 0, 0, 0, 0, 0]);
}

#[test]
fn other_request_bytes_end_the_connection() {
    assert_eq!(respond(0, &None), None);
    assert_eq!(respond(3, &Some(vec![])), None);
}
