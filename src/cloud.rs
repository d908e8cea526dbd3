//! Temporal smoothing of the depth and status planes, and selection of the pixels that
//! become points of the cloud.
use vstd::prelude::*;
use crate::frame::{
    color_view, decode_error, decode_frame, decodes_to, plane_view, ColorPlane, DecodeError, ProcessedFrames,
    PLANE_COLS, PLANE_LEN, PLANE_ROWS,
};

verus! {

/// Fixed bias, in millimeters, added to every smoothed depth before projection.
pub const DEPTH_BIAS: u32 = 50;

/// A depth-plane cell chosen to become a point: the indices it is projected from, the
/// biased smoothed depth, and its color.
#[derive(Debug, Clone, Copy, PartialEq, Eq, Structural)]
pub struct PixelSample {
    pub x: usize,
    pub y: usize,
    pub depth: u32,
    pub r: u8,
    pub g: u8,
    pub b: u8,
}

/// Running averages of the depth plane and of the inverted status plane.
pub struct PrevFrames {
    pub depth: Vec<u16>,
    pub status: Vec<u16>,
}

/// Depth blended half and half with its previous value.
pub open spec fn smooth_depth(prev: Seq<u16>, cur: Seq<u16>) -> Seq<u16> {
    Seq::new(prev.len(), |i: int| ((prev[i] + cur[i]) / 2) as u16)
}

/// Status inverted (`2 - s`) and blended half and half with its previous value; the sum is
/// taken modulo 2^16, as 16-bit cells hold it.
pub open spec fn smooth_status(prev: Seq<u16>, cur: Seq<u16>) -> Seq<u16> {
    Seq::new(prev.len(), |i: int| (((prev[i] + 2 - cur[i]) % 65536) / 2) as u16)
}

/// Color-plane coordinate of a depth-plane cell: offsets of 30 and 22, then a scale of 1.75,
/// rounded down; `None` where it falls outside 480 rows or 640 columns.
pub open spec fn color_coord(x: int, y: int) -> Option<(int, int)> {
    let cx = (x + 30) * 7 / 4;
    let cy = (y + 22) * 7 / 4;
    if cx < 480 && cy < 640 {
        Some((cx, cy))
    } else {
        None
    }
}

/// Color of a depth-plane cell, white where it maps outside the color plane.
pub open spec fn pixel_color(rgb: (int, int, Seq<u8>), x: int, y: int) -> (u8, u8, u8) {
    match color_coord(x, y) {
        Some((cx, cy)) => {
            let base = (cx * rgb.1 + cy) * 3;
            (rgb.2[base], rgb.2[base + 1], rgb.2[base + 2])
        },
        None => (255, 255, 255),
    }
}

/// The sample that step `i` of the walk over the plane yields: cell (i / 240, i % 320),
/// where that cell lies in the plane and its smoothed status is zero.
pub open spec fn sample_at(
    status: Seq<u16>,
    depth: Seq<u16>,
    rgb: (int, int, Seq<u8>),
    i: int,
) -> Option<PixelSample> {
    let x = i / 240;
    let y = i % 320;
    if x < 240 && status[x * 320 + y] == 0 {
        let c = pixel_color(rgb, x, y);
        Some(
            PixelSample {
                x: x as usize,
                y: y as usize,
                depth: (depth[x * 320 + y] + DEPTH_BIAS) as u32,
                r: c.0,
                g: c.1,
                b: c.2,
            },
        )
    } else {
        None
    }
}

/// The samples of the first `n` steps of the walk, in order.
pub open spec fn samples_upto(
    status: Seq<u16>,
    depth: Seq<u16>,
    rgb: (int, int, Seq<u8>),
    n: nat,
) -> Seq<PixelSample>
    decreases n,
{
    if n == 0 {
        seq![]
    } else {
        let s = samples_upto(status, depth, rgb, (n - 1) as nat);
        match sample_at(status, depth, rgb, n - 1) {
            Some(p) => s.push(p),
            None => s,
        }
    }
}

/// Maps a depth-plane cell to its color-plane coordinate.
pub fn scale_shift_rgb_xy(x: usize, y: usize) -> (r: Option<(usize, usize)>)
    ensures
        match r {
            Some((cx, cy)) => color_coord(x as int, y as int) == Some((cx as int, cy as int)),
            None => color_coord(x as int, y as int) is None,
        },
{
    if x >= 480 || y >= 640 {
        return None;
    }
    let cx = (x + 30) * 7 / 4;
    let cy = (y + 22) * 7 / 4;
    if cy >= 640 {
        return None;
    }
    if cx >= 480 {
        return None;
    }
    Some((cx, cy))
}

impl PrevFrames {
    pub open spec fn wf(&self) -> bool {
        self.depth@.len() == PLANE_LEN && self.status@.len() == PLANE_LEN
    }
}

impl Default for PrevFrames {
    /// Zero depth and zero status everywhere.
    fn default() -> (r: Self)
        ensures
            r.wf(),
            forall|k: int| 0 <= k < PLANE_LEN ==> r.depth@[k] == 0 && r.status@[k] == 0,
    {
        let mut depth: Vec<u16> = Vec::with_capacity(PLANE_LEN);
        let mut status: Vec<u16> = Vec::with_capacity(PLANE_LEN);
        let mut i: usize = 0;
        while i < PLANE_LEN
            invariant
                i <= PLANE_LEN,
                depth@.len() == i,
                status@.len() == i,
                forall|k: int| 0 <= k < i ==> depth@[k] == 0 && status@[k] == 0,
            decreases PLANE_LEN - i,
        {
            depth.push(0);
            status.push(0);
            i = i + 1;
        }
        PrevFrames { depth, status }
    }
}

fn smooth_depth_into(prev: &mut Vec<u16>, cur: &Vec<u16>)
    requires
        old(prev)@.len() == cur@.len(),
    ensures
        final(prev)@ == smooth_depth(old(prev)@, cur@),
{
    let ghost before = prev@;
    let n = prev.len();
    let mut i: usize = 0;
    while i < n
        invariant
            n == before.len(),
            n == cur@.len(),
            i <= n,
            prev@.len() == n,
            forall|k: int| 0 <= k < i ==> prev@[k] == ((before[k] + cur@[k]) / 2) as u16,
            forall|k: int| i <= k < n ==> prev@[k] == before[k],
        decreases n - i,
    {
        let v = ((prev[i] as u32 + cur[i] as u32) / 2) as u16;
        prev.set(i, v);
        i = i + 1;
    }
    assert(prev@ =~= smooth_depth(before, cur@));
}

fn smooth_status_into(prev: &mut Vec<u16>, cur: &Vec<u16>)
    requires
        old(prev)@.len() == cur@.len(),
    ensures
        final(prev)@ == smooth_status(old(prev)@, cur@),
{
    let ghost before = prev@;
    let n = prev.len();
    let mut i: usize = 0;
    while i < n
        invariant
            n == before.len(),
            n == cur@.len(),
            i <= n,
            prev@.len() == n,
            forall|k: int|
                0 <= k < i ==> prev@[k] == (((before[k] + 2 - cur@[k]) % 65536) / 2) as u16,
            forall|k: int| i <= k < n ==> prev@[k] == before[k],
        decreases n - i,
    {
        let p = prev[i];
        let c = cur[i];
        let v = (((p as u32 + 2 + 65536 - c as u32) % 65536) / 2) as u16;
        assert((p as u32 + 2 + 65536 - c as u32) % 65536 == (p + 2 - c) % 65536);
        prev.set(i, v);
        i = i + 1;
    }
    assert(prev@ =~= smooth_status(before, cur@));
}

/// The sample of step `i` of the walk over the plane.
fn sample_cell(status: &Vec<u16>, depth: &Vec<u16>, rgb: &ColorPlane, i: usize) -> (r: Option<
    PixelSample,
>)
    requires
        status@.len() == PLANE_LEN,
        depth@.len() == PLANE_LEN,
        rgb.wf(),
    ensures
        r == sample_at(status@, depth@, (rgb.rows as int, rgb.cols as int, rgb.data@), i as int),
{
    let x = i / 240;
    let y = i % 320;
    if x >= PLANE_ROWS {
        return None;
    }
    assert(x * 320 + y < 76800) by (nonlinear_arith)
        requires
            x < 240,
            y < 320,
    ;
    let at = x * PLANE_COLS + y;
    if status[at] != 0 {
        return None;
    }
    let (r, g, b) = match scale_shift_rgb_xy(x, y) {
        Some((cx, cy)) => {
            assert((cx * rgb.cols + cy) * 3 + 2 < rgb.rows * rgb.cols * 3) by (nonlinear_arith)
                requires
                    cx < 480,
                    cy < 640,
                    480 <= rgb.rows,
                    640 <= rgb.cols,
            ;
            let base = (cx * rgb.cols + cy) * 3;
            (rgb.data[base], rgb.data[base + 1], rgb.data[base + 2])
        },
        None => (255, 255, 255),
    };
    Some(PixelSample { x, y, depth: depth[at] as u32 + DEPTH_BIAS, r, g, b })
}

impl PrevFrames {
    /// Blends the frame's depth and status planes into the running averages, then, where the
    /// frame has both a status and a color plane, selects the cells whose smoothed status is
    /// zero, walking the plane in order.
    pub fn sample_points(&mut self, frames: &ProcessedFrames) -> (r: Option<Vec<PixelSample>>)
        requires
            old(self).wf(),
            frames.wf(),
        ensures
            final(self).wf(),
            final(self).depth@ == match plane_view(frames.depth) {
                Some(d) => smooth_depth(old(self).depth@, d),
                None => old(self).depth@,
            },
            final(self).status@ == match plane_view(frames.status) {
                Some(s) => smooth_status(old(self).status@, s),
                None => old(self).status@,
            },
            r is Some <==> (frames.status is Some && frames.rgb is Some),
            r matches Some(v) ==> v@ == samples_upto(
                final(self).status@,
                final(self).depth@,
                color_view(frames.rgb)->Some_0,
                PLANE_LEN as nat,
            ),
    {
        if let Some(depth) = &frames.depth {
            smooth_depth_into(&mut self.depth, depth);
        }
        if let Some(status) = &frames.status {
            smooth_status_into(&mut self.status, status);
        }
        if frames.status.is_none() {
            return None;
        }
        let rgb = match &frames.rgb {
            Some(c) => c,
            None => return None,
        };
        let ghost rv = color_view(frames.rgb)->Some_0;
        let mut points: Vec<PixelSample> = Vec::new();
        let mut i: usize = 0;
        while i < PLANE_LEN
            invariant
                i <= PLANE_LEN,
                self.wf(),
                rgb.wf(),
                rv == (rgb.rows as int, rgb.cols as int, rgb.data@),
                points@ == samples_upto(self.status@, self.depth@, rv, i as nat),
            decreases PLANE_LEN - i,
        {
            let s = sample_cell(&self.status, &self.depth, rgb, i);
            assert(samples_upto(self.status@, self.depth@, rv, (i + 1) as nat) == match sample_at(
                self.status@,
                self.depth@,
                rv,
                i as int,
            ) {
                Some(p) => samples_upto(self.status@, self.depth@, rv, i as nat).push(p),
                None => samples_upto(self.status@, self.depth@, rv, i as nat),
            });
            if let Some(p) = s {
                points.push(p);
            }
            i = i + 1;
        }
        Some(points)
    }
}

/// Decodes a raw frame into the current-frame slot; on failure the slot keeps its frame.
pub fn refresh_frame(current: &mut ProcessedFrames, raw: &[u8]) -> (r: Result<(), DecodeError>)
    ensures
        r matches Err(e) ==> decode_error(raw@) == Some(e) && *final(current) == *old(current),
        r is Ok ==> decode_error(raw@) is None && decodes_to(raw@, *final(current)),
{
    match decode_frame(raw) {
        Ok(p) => {
            *current = p;
            Ok(())
        },
        Err(e) => Err(e),
    }
}

/// Smoothing a depth plane with an identical one leaves it unchanged.
pub proof fn lemma_smooth_depth_fixpoint(p: Seq<u16>)
    ensures
        smooth_depth(p, p) == p,
{
    assert(smooth_depth(p, p) =~= p);
}

} // verus!
