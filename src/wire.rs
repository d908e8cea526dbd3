//! Framing of point clouds for streaming clients.
use vstd::prelude::*;
use crate::frame::i32_le_bytes;

verus! {

/// A point: millimeter coordinates, then red, green and blue.
pub type Point = (i32, i32, i32, u8, u8, u8);

pub type PointArr = Vec<Point>;

/// The byte a client sends when it is ready for the next cloud.
pub const READY_SIGNAL: u8 = 2;
/// Message tag of a response with no cloud.
pub const TAG_ERROR: i32 = 0;
/// Message tag of a response that carries a cloud.
pub const TAG_POINT_CLOUD: i32 = 1;

/// The 24 bytes of a point: six little-endian 32-bit integers.
pub open spec fn point_bytes(p: Point) -> Seq<u8> {
    i32_le_bytes(p.0) + i32_le_bytes(p.1) + i32_le_bytes(p.2) + i32_le_bytes(p.3 as i32)
        + i32_le_bytes(p.4 as i32) + i32_le_bytes(p.5 as i32)
}

/// The bytes of a sequence of points, in order.
pub open spec fn points_bytes(s: Seq<Point>) -> Seq<u8>
    decreases s.len(),
{
    if s.len() == 0 {
        seq![]
    } else {
        points_bytes(s.drop_last()) + point_bytes(s.last())
    }
}

/// A response: the cloud tag, the count and the points, or the error tag alone.
pub open spec fn response_bytes(points: Option<Seq<Point>>) -> Seq<u8> {
    match points {
        Some(s) => i32_le_bytes(TAG_POINT_CLOUD) + i32_le_bytes(s.len() as i32) + points_bytes(s),
        None => i32_le_bytes(TAG_ERROR),
    }
}

pub open spec fn cloud_view(points: Option<PointArr>) -> Option<Seq<Point>> {
    match points {
        Some(v) => Some(v@),
        None => None,
    }
}

fn push_i32_le(out: &mut Vec<u8>, v: i32)
    ensures
        final(out)@ == old(out)@ + i32_le_bytes(v),
{
    let u = v as u32;
    out.push((u % 256) as u8);
    out.push(((u / 256) % 256) as u8);
    out.push(((u / 65536) % 256) as u8);
    out.push((u / 16777216) as u8);
    assert(final(out)@ =~= old(out)@ + i32_le_bytes(v));
}

/// Frames the response to one ready signal.
pub fn encode_response(points: &Option<PointArr>) -> (r: Vec<u8>)
    requires
        points matches Some(v) ==> v@.len() <= i32::MAX,
    ensures
        r@ == response_bytes(cloud_view(*points)),
{
    let mut bytes: Vec<u8> = Vec::new();
    match points {
        Some(v) => {
            push_i32_le(&mut bytes, TAG_POINT_CLOUD);
            push_i32_le(&mut bytes, v.len() as i32);
            let ghost head = bytes@;
            let mut i: usize = 0;
            while i < v.len()
                invariant
                    i <= v@.len(),
                    bytes@ == head + points_bytes(v@.take(i as int)),
                decreases v@.len() - i,
            {
                let p = v[i];
                assert(v@.take(i + 1).drop_last() =~= v@.take(i as int));
                push_i32_le(&mut bytes, p.0);
                push_i32_le(&mut bytes, p.1);
                push_i32_le(&mut bytes, p.2);
                push_i32_le(&mut bytes, p.3 as i32);
                push_i32_le(&mut bytes, p.4 as i32);
                push_i32_le(&mut bytes, p.5 as i32);
                i = i + 1;
                assert(bytes@ =~= head + points_bytes(v@.take(i as int)));
            }
            assert(v@.take(v@.len() as int) =~= v@);
        },
        None => {
            push_i32_le(&mut bytes, TAG_ERROR);
        },
    }
    bytes
}

/// Answers one request byte: the framed response to a ready signal, or `None` for any other
/// byte, which ends the connection.
pub fn respond(request: u8, points: &Option<PointArr>) -> (r: Option<Vec<u8>>)
    requires
        points matches Some(v) ==> v@.len() <= i32::MAX,
    ensures
        request != READY_SIGNAL <==> r is None,
        r matches Some(b) ==> b@ == response_bytes(cloud_view(*points)),
{
    if request != READY_SIGNAL {
        return None;
    }
    Some(encode_response(points))
}

proof fn lemma_points_bytes_len(s: Seq<Point>)
    ensures
        points_bytes(s).len() == 24 * s.len(),
    decreases s.len(),
{
    if s.len() > 0 {
        lemma_points_bytes_len(s.drop_last());
    }
}

/// A cloud of `n` points is framed in `8 + 24 n` bytes: tag 1, then `n`, then the points;
/// no cloud is framed as the four zero bytes of tag 0.
pub proof fn lemma_response_layout(points: Option<Seq<Point>>)
    ensures
        points is None ==> response_bytes(points) == seq![0u8, 0u8, 0u8, 0u8],
        points matches Some(s) ==> {
            &&& response_bytes(points).len() == 8 + 24 * s.len()
            &&& response_bytes(points).subrange(0, 4) == seq![1u8, 0u8, 0u8, 0u8]
            &&& response_bytes(points).subrange(4, 8) == i32_le_bytes(s.len() as i32)
        },
{
    match points {
        Some(s) => {
            lemma_points_bytes_len(s);
            let r = response_bytes(points);
            assert(r.subrange(0, 4) =~= seq![1u8, 0u8, 0u8, 0u8]);
            assert(r.subrange(4, 8) =~= i32_le_bytes(s.len() as i32));
        },
        None => {
            assert(response_bytes(points) =~= seq![0u8, 0u8, 0u8, 0u8]);
        },
    }
}

} // verus!
