//! Decoding of the camera's raw frame format.
use vstd::prelude::*;
use vstd::slice::{slice_subrange, slice_to_vec};

verus! {

/// Rows of a depth, IR or status plane.
pub const PLANE_ROWS: usize = 240;
/// Columns of a depth, IR or status plane.
pub const PLANE_COLS: usize = 320;
/// Cells of a depth, IR or status plane.
pub const PLANE_LEN: usize = 76800;
/// Frame id and timestamp that open every raw frame.
pub const HEADER_LEN: usize = 16;
/// Encoded size of a `FrameConfig`.
pub const CONFIG_LEN: usize = 12;
/// Where the payload starts: after the header and the configuration.
pub const PAYLOAD_START: usize = 28;
/// Where the depth data starts: after the two declared-size fields of the payload.
pub const PLANES_START: usize = 36;

/// How a raw frame was encoded.
#[derive(Debug, Clone, Copy, PartialEq, Eq, Structural)]
pub struct FrameConfig {
    pub trigger_mode: u8,
    pub deep_mode: u8,
    pub deep_shift: u8,
    pub ir_mode: u8,
    pub status_mode: u8,
    pub status_mask: u8,
    pub rgb_mode: u8,
    pub rgb_res: u8,
    pub expose_time: i32,
}

/// The byte ranges of the payload's sub-images.
pub struct FramePayload {
    pub depth_img: Option<Vec<u8>>,
    pub ir_img: Option<Vec<u8>>,
    pub status_img: Option<Vec<u8>>,
    pub rgb_img: Option<Vec<u8>>,
}

/// A decoded color plane: `rows * cols` pixels of three 8-bit channels, row-major.
pub struct ColorPlane {
    pub rows: usize,
    pub cols: usize,
    pub data: Vec<u8>,
}

/// The planes decoded from one raw frame.
pub struct ProcessedFrames {
    pub depth: Option<Vec<u16>>,
    pub ir: Option<Vec<u16>>,
    pub status: Option<Vec<u16>>,
    pub rgb: Option<ColorPlane>,
}

/// Why a raw frame could not be decoded.
#[derive(Debug, Clone, Copy, PartialEq, Eq, Structural)]
pub enum DecodeError {
    /// Shorter than the header and the configuration.
    TooShort,
    /// The payload cannot hold its two declared-size fields.
    PayloadTooShort,
    /// The color data is longer than the color plane it must fill.
    ColorShape,
}

/// Messages between the frame source and its consumers.
pub enum FrameMessage {
    RawFrame(Vec<u8>),
    DecodedFrame(ProcessedFrames),
    Shutdown,
}

/// Result of decoding JPEG data to packed 8-bit RGB, if the data is an image.
pub uninterp spec fn jpeg_rgb_of(data: Seq<u8>) -> Option<Seq<u8>>;

pub open spec fn bytes_view(o: Option<Vec<u8>>) -> Option<Seq<u8>> {
    match o {
        Some(v) => Some(v@),
        None => None,
    }
}

pub open spec fn plane_view(o: Option<Vec<u16>>) -> Option<Seq<u16>> {
    match o {
        Some(v) => Some(v@),
        None => None,
    }
}

/// A color plane as (rows, cols, bytes).
pub open spec fn color_view(o: Option<ColorPlane>) -> Option<(int, int, Seq<u8>)> {
    match o {
        Some(c) => Some((c.rows as int, c.cols as int, c.data@)),
        None => None,
    }
}

impl ColorPlane {
    /// One of the two shapes the camera produces, fully filled.
    pub open spec fn wf(&self) -> bool {
        ((self.rows == 480 && self.cols == 640) || (self.rows == 600 && self.cols == 800))
            && self.data@.len() == self.rows * self.cols * 3
    }
}

impl ProcessedFrames {
    /// Every plane present has the shape the camera produces.
    pub open spec fn wf(&self) -> bool {
        (self.depth matches Some(d) ==> d@.len() == PLANE_LEN)
        && (self.ir matches Some(d) ==> d@.len() == PLANE_LEN)
        && (self.status matches Some(d) ==> d@.len() == PLANE_LEN)
        && (self.rgb matches Some(c) ==> c.wf())
    }

    /// A frame with no plane at all.
    pub fn empty() -> (r: ProcessedFrames)
        ensures
            r.depth is None,
            r.ir is None,
            r.status is None,
            r.rgb is None,
            r.wf(),
    {
        ProcessedFrames { depth: None, ir: None, status: None, rgb: None }
    }
}

/// Little-endian value of four bytes.
pub open spec fn u32_le(b0: u8, b1: u8, b2: u8, b3: u8) -> int {
    b0 as int + 256 * (b1 as int) + 65536 * (b2 as int) + 16777216 * (b3 as int)
}

/// The four little-endian bytes of a 32-bit signed integer.
pub open spec fn i32_le_bytes(v: i32) -> Seq<u8> {
    let u = v as u32;
    seq![(u % 256) as u8, ((u / 256) % 256) as u8, ((u / 65536) % 256) as u8, (u / 16777216) as u8]
}

/// The twelve bytes that encode a configuration.
pub open spec fn config_bytes(c: FrameConfig) -> Seq<u8> {
    seq![c.trigger_mode, c.deep_mode, c.deep_shift, c.ir_mode, c.status_mode, c.status_mask,
        c.rgb_mode, c.rgb_res] + i32_le_bytes(c.expose_time)
}

/// The configuration encoded at `at` in `b`.
pub open spec fn config_at(b: Seq<u8>, at: int) -> FrameConfig {
    FrameConfig {
        trigger_mode: b[at],
        deep_mode: b[at + 1],
        deep_shift: b[at + 2],
        ir_mode: b[at + 3],
        status_mode: b[at + 4],
        status_mask: b[at + 5],
        rgb_mode: b[at + 6],
        rgb_res: b[at + 7],
        expose_time: u32_le(b[at + 8], b[at + 9], b[at + 10], b[at + 11]) as i32,
    }
}

/// Byte size of a depth or IR image: 16 bits per pixel shifted right by the mode.
pub open spec fn plane_bytes(mode: u8) -> int {
    if mode < 18 {
        (153600usize >> (mode as usize)) as int
    } else {
        0
    }
}

/// Packing density of the status image, in eighths of a byte per pixel.
pub open spec fn status_density(mode: u8) -> int {
    if mode == 0 {
        16
    } else if mode == 1 {
        2
    } else if mode == 2 {
        8
    } else {
        1
    }
}

/// Byte size of a status image.
pub open spec fn status_bytes(mode: u8) -> int {
    9600 * status_density(mode)
}

/// How many bytes a sub-image of `size` takes when `avail` bytes are left.
pub open spec fn taken(avail: int, size: int) -> int {
    if size > 0 && avail >= size {
        size
    } else {
        0
    }
}

pub open spec fn depth_len(f: Seq<u8>) -> int {
    taken(f.len() - PLANES_START, plane_bytes(config_at(f, 16).deep_mode))
}

pub open spec fn ir_start(f: Seq<u8>) -> int {
    PLANES_START + depth_len(f)
}

pub open spec fn ir_len(f: Seq<u8>) -> int {
    taken(f.len() - ir_start(f), plane_bytes(config_at(f, 16).ir_mode))
}

pub open spec fn status_start(f: Seq<u8>) -> int {
    ir_start(f) + ir_len(f)
}

pub open spec fn status_len(f: Seq<u8>) -> int {
    taken(f.len() - status_start(f), status_bytes(config_at(f, 16).status_mode))
}

pub open spec fn rgb_start(f: Seq<u8>) -> int {
    status_start(f) + status_len(f)
}

/// A 16-bit value from its low and high byte.
pub open spec fn u16_le(lo: u8, hi: u8) -> u16 {
    (hi as int * 256 + lo as int) as u16
}

/// Cell `i` of a plane read from `seg`: two little-endian bytes per cell when `wide`,
/// else one byte; zero past the end of the bytes.
pub open spec fn plane_cell(seg: Seq<u8>, wide: bool, i: int) -> u16 {
    if wide {
        if 2 * i + 1 < seg.len() {
            u16_le(seg[2 * i], seg[2 * i + 1])
        } else {
            0
        }
    } else if i < seg.len() {
        seg[i] as u16
    } else {
        0
    }
}

pub open spec fn plane_of(seg: Seq<u8>, wide: bool) -> Seq<u16> {
    Seq::new(PLANE_LEN as nat, |i: int| plane_cell(seg, wide, i))
}

/// The bytes of the depth image, if the payload holds one.
pub open spec fn depth_bytes(f: Seq<u8>) -> Option<Seq<u8>> {
    if depth_len(f) > 0 {
        Some(f.subrange(PLANES_START as int, ir_start(f)))
    } else {
        None
    }
}

pub open spec fn ir_bytes(f: Seq<u8>) -> Option<Seq<u8>> {
    if ir_len(f) > 0 {
        Some(f.subrange(ir_start(f), status_start(f)))
    } else {
        None
    }
}

pub open spec fn status_img_bytes(f: Seq<u8>) -> Option<Seq<u8>> {
    if status_len(f) > 0 {
        Some(f.subrange(status_start(f), rgb_start(f)))
    } else {
        None
    }
}

pub open spec fn decoded_depth(f: Seq<u8>) -> Option<Seq<u16>> {
    match depth_bytes(f) {
        Some(seg) => Some(plane_of(seg, config_at(f, 16).deep_mode == 0)),
        None => None,
    }
}

pub open spec fn decoded_ir(f: Seq<u8>) -> Option<Seq<u16>> {
    match ir_bytes(f) {
        Some(seg) => Some(plane_of(seg, config_at(f, 16).ir_mode == 0)),
        None => None,
    }
}

/// The status image is read one byte per pixel, whatever its mode.
pub open spec fn decoded_status(f: Seq<u8>) -> Option<Seq<u16>> {
    match status_img_bytes(f) {
        Some(seg) => Some(plane_of(seg, false)),
        None => None,
    }
}

/// The bytes left for the color image.
pub open spec fn rgb_bytes(f: Seq<u8>) -> Seq<u8> {
    f.subrange(rgb_start(f), f.len() as int)
}

/// Packed RGB bytes of the color image: decoded from JPEG in color mode 1, raw otherwise.
pub open spec fn rgb_source(f: Seq<u8>) -> Option<Seq<u8>> {
    if rgb_bytes(f).len() == 0 {
        None
    } else if config_at(f, 16).rgb_mode == 1 {
        jpeg_rgb_of(rgb_bytes(f))
    } else {
        Some(rgb_bytes(f))
    }
}

/// Shape of the color plane: 600x800 for JPEG with a nonzero resolution selector, else 480x640.
pub open spec fn rgb_dims(c: FrameConfig) -> (int, int) {
    if c.rgb_mode == 1 && c.rgb_res != 0 {
        (600, 800)
    } else {
        (480, 640)
    }
}

pub open spec fn rgb_need(f: Seq<u8>) -> int {
    rgb_dims(config_at(f, 16)).0 * rgb_dims(config_at(f, 16)).1 * 3
}

/// The color data overfills its plane, which fails the decode.
pub open spec fn rgb_oversized(f: Seq<u8>) -> bool {
    rgb_source(f) matches Some(d) && d.len() > rgb_need(f)
}

pub open spec fn decoded_rgb(f: Seq<u8>) -> Option<(int, int, Seq<u8>)> {
    match rgb_source(f) {
        Some(d) => if d.len() == rgb_need(f) {
            Some((rgb_dims(config_at(f, 16)).0, rgb_dims(config_at(f, 16)).1, d))
        } else {
            None
        },
        None => None,
    }
}

/// The error, if any, that decoding `f` gives.
pub open spec fn decode_error(f: Seq<u8>) -> Option<DecodeError> {
    if f.len() < PAYLOAD_START {
        Some(DecodeError::TooShort)
    } else if f.len() < PLANES_START {
        Some(DecodeError::PayloadTooShort)
    } else if rgb_oversized(f) {
        Some(DecodeError::ColorShape)
    } else {
        None
    }
}

/// `r` holds exactly the planes that `f` decodes to.
pub open spec fn decodes_to(f: Seq<u8>, r: ProcessedFrames) -> bool {
    &&& plane_view(r.depth) == decoded_depth(f)
    &&& plane_view(r.ir) == decoded_ir(f)
    &&& plane_view(r.status) == decoded_status(f)
    &&& color_view(r.rgb) == decoded_rgb(f)
    &&& r.wf()
}

/// Relies on image::load_from_memory, DynamicImage::to_rgb8 and ImageBuffer::into_raw:
/// the packed RGB bytes of the image, or `None` where the data is not one.
#[verifier::external_body]
fn decode_jpeg(jpeg_data: &[u8]) -> (r: Option<Vec<u8>>)
    ensures
        bytes_view(r) == jpeg_rgb_of(jpeg_data@),
{
    match image::load_from_memory(jpeg_data) {
        Ok(img) => Some(img.to_rgb8().into_raw()),
        Err(_) => None,
    }
}

fn read_config(b: &[u8], at: usize) -> (c: FrameConfig)
    requires
        at + CONFIG_LEN <= b.len(),
    ensures
        c == config_at(b@, at as int),
{
    let b0 = b[at + 8] as u32;
    let b1 = b[at + 9] as u32;
    let b2 = b[at + 10] as u32;
    let b3 = b[at + 11] as u32;
    let u: u32 = b0 + 256 * b1 + 65536 * b2 + 16777216 * b3;
    FrameConfig {
        trigger_mode: b[at],
        deep_mode: b[at + 1],
        deep_shift: b[at + 2],
        ir_mode: b[at + 3],
        status_mode: b[at + 4],
        status_mask: b[at + 5],
        rgb_mode: b[at + 6],
        rgb_res: b[at + 7],
        expose_time: #[verifier::truncate] (u as i32),
    }
}

/// Decodes a configuration from its twelve bytes.
pub fn frame_config_decode(frame_config: &[u8]) -> (r: Result<FrameConfig, DecodeError>)
    ensures
        frame_config@.len() < CONFIG_LEN <==> r is Err,
        r matches Ok(c) ==> c == config_at(frame_config@, 0),
{
    if frame_config.len() < CONFIG_LEN {
        return Err(DecodeError::TooShort);
    }
    Ok(read_config(frame_config, 0))
}

/// Encodes a configuration as the camera expects it.
pub fn frame_config_encode(
    trigger_mode: u8,
    deep_mode: u8,
    deep_shift: u8,
    ir_mode: u8,
    status_mode: u8,
    status_mask: u8,
    rgb_mode: u8,
    rgb_res: u8,
    expose_time: i32,
) -> (r: Vec<u8>)
    ensures
        r@ == config_bytes(
            FrameConfig {
                trigger_mode,
                deep_mode,
                deep_shift,
                ir_mode,
                status_mode,
                status_mask,
                rgb_mode,
                rgb_res,
                expose_time,
            },
        ),
{
    let mut result: Vec<u8> = Vec::with_capacity(12);
    result.push(trigger_mode);
    result.push(deep_mode);
    result.push(deep_shift);
    result.push(ir_mode);
    result.push(status_mode);
    result.push(status_mask);
    result.push(rgb_mode);
    result.push(rgb_res);
    let u = expose_time as u32;
    result.push((u % 256) as u8);
    result.push(((u / 256) % 256) as u8);
    result.push(((u / 65536) % 256) as u8);
    result.push((u / 16777216) as u8);
    result
}

/// Byte size of a depth or IR image in the given mode.
pub fn plane_size(mode: u8) -> (r: usize)
    ensures
        r as int == plane_bytes(mode),
        r <= 153600,
{
    if mode < 18 {
        let m = mode as usize;
        assert((153600usize >> m) <= 153600usize) by (bit_vector);
        153600usize >> m
    } else {
        0
    }
}

/// Byte size of a status image in the given mode.
pub fn status_size(mode: u8) -> (r: usize)
    ensures
        r as int == status_bytes(mode),
{
    9600 * match mode {
        0 => 16,
        1 => 2,
        2 => 8,
        _ => 1,
    }
}

/// Copies `len` bytes at `start`, where the sub-image fits.
fn take_image(frame: &[u8], start: usize, size: usize) -> (r: Option<Vec<u8>>)
    requires
        start <= frame@.len(),
    ensures
        bytes_view(r) == (if taken(frame@.len() - start, size as int) > 0 {
            Some(frame@.subrange(start as int, start + size))
        } else {
            None
        }),
{
    if size > 0 && frame.len() - start >= size {
        Some(slice_to_vec(slice_subrange(frame, start, start + size)))
    } else {
        None
    }
}

/// Slices the payload of a raw frame into its sub-images, in the fixed order depth, IR,
/// status, then color; the color image is decoded from JPEG in color mode 1.
fn frame_payload_decode(frame_data: &[u8], config: &FrameConfig) -> (r: Result<FramePayload, DecodeError>)
    requires
        frame_data@.len() >= PAYLOAD_START,
        *config == config_at(frame_data@, 16),
    ensures
        r is Err <==> frame_data@.len() < PLANES_START,
        r is Err ==> r == Err::<FramePayload, DecodeError>(DecodeError::PayloadTooShort),
        r matches Ok(p) ==> {
            &&& bytes_view(p.depth_img) == depth_bytes(frame_data@)
            &&& bytes_view(p.ir_img) == ir_bytes(frame_data@)
            &&& bytes_view(p.status_img) == status_img_bytes(frame_data@)
            &&& bytes_view(p.rgb_img) == rgb_source(frame_data@)
        },
{
    if frame_data.len() < PLANES_START {
        return Err(DecodeError::PayloadTooShort);
    }
    let f = Ghost(frame_data@);
    let mut at: usize = PLANES_START;

    let depth_size = plane_size(config.deep_mode);
    let depth_img = take_image(frame_data, at, depth_size);
    if depth_img.is_some() {
        at = at + depth_size;
    }
    assert(at == ir_start(f@));

    let ir_size = plane_size(config.ir_mode);
    let ir_img = take_image(frame_data, at, ir_size);
    if ir_img.is_some() {
        at = at + ir_size;
    }
    assert(at == status_start(f@));

    let status_size = status_size(config.status_mode);
    let status_img = take_image(frame_data, at, status_size);
    if status_img.is_some() {
        at = at + status_size;
    }
    assert(at == rgb_start(f@));

    let rest = slice_subrange(frame_data, at, frame_data.len());
    assert(rest@ == rgb_bytes(f@));
    let rgb_img = if rest.len() > 0 {
        if config.rgb_mode == 1 {
            decode_jpeg(rest)
        } else {
            Some(slice_to_vec(rest))
        }
    } else {
        None
    };

    Ok(FramePayload { depth_img, ir_img, status_img, rgb_img })
}

/// Reads a 240x320 plane from its bytes, row-major.
fn build_plane(seg: &Vec<u8>, wide: bool) -> (r: Vec<u16>)
    ensures
        r@ == plane_of(seg@, wide),
{
    let mut out: Vec<u16> = Vec::with_capacity(PLANE_LEN);
    let mut i: usize = 0;
    while i < PLANE_LEN
        invariant
            i <= PLANE_LEN,
            out@.len() == i,
            forall|k: int| 0 <= k < i ==> out@[k] == plane_cell(seg@, wide, k),
        decreases PLANE_LEN - i,
    {
        let v: u16 = if wide {
            if 2 * i + 1 < seg.len() {
                let lo = seg[2 * i];
                let hi = seg[2 * i + 1];
                hi as u16 * 256 + lo as u16
            } else {
                0
            }
        } else if i < seg.len() {
            seg[i] as u16
        } else {
            0
        };
        out.push(v);
        i = i + 1;
    }
    assert(out@ =~= plane_of(seg@, wide));
    out
}

fn build_plane_opt(seg: Option<Vec<u8>>, wide: bool) -> (r: Option<Vec<u16>>)
    ensures
        plane_view(r) == match bytes_view(seg) {
            Some(s) => Some(plane_of(s, wide)),
            None => None,
        },
        r matches Some(p) ==> p@.len() == PLANE_LEN,
{
    match seg {
        Some(s) => Some(build_plane(&s, wide)),
        None => None,
    }
}

/// Decodes a raw frame: a 16-byte header, a 12-byte configuration, then the payload.
pub fn decode_frame(frame_data: &[u8]) -> (r: Result<ProcessedFrames, DecodeError>)
    ensures
        r is Err <==> decode_error(frame_data@) is Some,
        r matches Err(e) ==> decode_error(frame_data@) == Some(e),
        r matches Ok(p) ==> decodes_to(frame_data@, p),
{
    if frame_data.len() < PAYLOAD_START {
        return Err(DecodeError::TooShort);
    }
    let config = read_config(frame_data, HEADER_LEN);
    let payload = match frame_payload_decode(frame_data, &config) {
        Ok(p) => p,
        Err(e) => return Err(e),
    };
    let depth = build_plane_opt(payload.depth_img, config.deep_mode == 0);
    let ir = build_plane_opt(payload.ir_img, config.ir_mode == 0);
    let status = build_plane_opt(payload.status_img, false);

    let rgb = match payload.rgb_img {
        Some(data) => {
            let (rows, cols): (usize, usize) = if config.rgb_mode == 1 && config.rgb_res != 0 {
                (600, 800)
            } else {
                (480, 640)
            };
            let need: usize = rows * cols * 3;
            if data.len() >= need {
                if data.len() > need {
                    return Err(DecodeError::ColorShape);
                }
                Some(ColorPlane { rows, cols, data })
            } else {
                None
            }
        },
        None => None,
    };
    Ok(ProcessedFrames { depth, ir, status, rgb })
}

/// Decoding is deterministic: two results that both decode the same raw frame hold the
/// same planes.
pub proof fn lemma_decode_deterministic(f: Seq<u8>, a: ProcessedFrames, b: ProcessedFrames)
    requires
        decodes_to(f, a),
        decodes_to(f, b),
    ensures
        plane_view(a.depth) == plane_view(b.depth),
        plane_view(a.ir) == plane_view(b.ir),
        plane_view(a.status) == plane_view(b.status),
        color_view(a.rgb) == color_view(b.rgb),
{
}

proof fn lemma_u32_bytes(u: u32)
    ensures
        u32_le((u % 256) as u8, ((u / 256) % 256) as u8, ((u / 65536) % 256) as u8,
            (u / 16777216) as u8) == u as int,
{
}

/// Decoding the encoding of a configuration gives that configuration back.
pub proof fn lemma_config_round_trip(c: FrameConfig)
    ensures
        config_at(config_bytes(c), 0) == c,
{
    let u = c.expose_time as u32;
    lemma_u32_bytes(u);
    let b = config_bytes(c);
    assert(u32_le(b[8], b[9], b[10], b[11]) == u as int);
    let e = c.expose_time;
    assert(((e as u32) as i32) == e) by (bit_vector);
}

} // verus!
