//! The tile-based precipitation engine: slippy-map projection, catalog
//! entries, the window query pipeline and its trusted edges.

use vstd::prelude::*;
use vstd::arithmetic::power2::{pow2, lemma2_to64, lemma_pow2_strictly_increases, lemma_pow2_unfold};
use base64::Engine as _;
use crate::cache::{CacheEntry, CacheKey, TileCache, spec_entry_matches, spec_fifo_push, spec_lookup};
use crate::palette::{classify_grid, spec_prefix_classified, spec_weight_sum, GRID_BYTES, GRID_PIXELS};
use crate::EngineError;

verus! {

/// A slippy-map tile address at a fixed zoom level: one 256 x 256 pixel
/// cell of the quad-tree tiling scheme.
#[derive(Clone, Copy, Debug, PartialEq, Eq, Structural)]
pub struct Tile {
    pub zoom: usize,
    pub x: usize,
    pub y: usize,
}

/// Horizontal tile index of a longitude given in micro-degrees:
/// floor((lon + 180) / 360 * 2^zoom), computed over exact integers.
pub open spec fn spec_tile_x(zoom: nat, lon_micro: int) -> int {
    ((lon_micro + 180_000_000) * pow2(zoom)) / 360_000_000
}

/// Vertical tile index of a Web Mercator fraction scaled by 2^32:
/// floor(fraction * 2^zoom). The fraction is
/// (1 - asinh(tan(lat)) / pi) / 2, supplied by the caller in fixed point.
pub open spec fn spec_tile_y(zoom: nat, merc_scaled: int) -> int {
    (merc_scaled * pow2(zoom)) / 0x1_0000_0000
}

impl Tile {
    /// Project a coordinate onto its tile address. The longitude comes in
    /// micro-degrees; the latitude comes as its Web Mercator vertical
    /// fraction scaled by 2^32 and truncated, which makes the projection
    /// exact integer arithmetic.
    pub fn from_projection(zoom: usize, lon_micro: i64, merc_scaled: u64) -> (t: Tile)
        requires
            zoom <= 30,
            -180_000_000 <= lon_micro <= 180_000_000,
            merc_scaled <= 0x1_0000_0000,
        ensures
            t.zoom == zoom,
            t.x == spec_tile_x(zoom as nat, lon_micro as int),
            t.y == spec_tile_y(zoom as nat, merc_scaled as int),
    {
        proof {
            lemma2_to64();
        }
        let mut n: u64 = 1;
        let mut i: usize = 0;
        while i < zoom
            invariant
                i <= zoom,
                zoom <= 30,
                n == pow2(i as nat),
                n <= 0x4000_0000,
            decreases zoom - i,
        {
            proof {
                lemma2_to64();
                if (i + 1) < 30 {
                    lemma_pow2_strictly_increases((i + 1) as nat, 30nat);
                }
                lemma_pow2_unfold((i + 1) as nat);
            }
            n = n * 2;
            i = i + 1;
        }
        let shifted: u64 = (lon_micro + 180_000_000) as u64;
        assert(shifted * n <= 360_000_000 * 0x4000_0000) by (nonlinear_arith)
            requires
                shifted <= 360_000_000,
                n <= 0x4000_0000,
        ;
        let x64: u64 = (shifted * n) / 360_000_000;
        assert(merc_scaled * n <= 0x1_0000_0000 * 0x4000_0000) by (nonlinear_arith)
            requires
                merc_scaled <= 0x1_0000_0000,
                n <= 0x4000_0000,
        ;
        let y64: u64 = (merc_scaled * n) / 0x1_0000_0000;
        assert(x64 as int == spec_tile_x(zoom as nat, lon_micro as int));
        assert(y64 as int == spec_tile_y(zoom as nat, merc_scaled as int));
        assert(x64 <= 0x4000_0000 * 2 && y64 <= 0x4000_0000 * 2) by (nonlinear_arith)
            requires
                x64 == (shifted * n) / 360_000_000,
                y64 == (merc_scaled * n) / 0x1_0000_0000,
                shifted <= 360_000_000,
                merc_scaled <= 0x1_0000_0000,
                n <= 0x4000_0000,
        ;
        Tile { zoom, x: x64 as usize, y: y64 as usize }
    }
}

/// Coordinate projection is deterministic and pure: two tile addresses
/// derived from the same zoom, longitude and Mercator fraction are equal.
pub proof fn lemma_projection_deterministic(
    a: Tile,
    b: Tile,
    zoom: usize,
    lon_micro: i64,
    merc_scaled: u64,
)
    requires
        a.zoom == zoom,
        b.zoom == zoom,
        a.x == spec_tile_x(zoom as nat, lon_micro as int),
        b.x == spec_tile_x(zoom as nat, lon_micro as int),
        a.y == spec_tile_y(zoom as nat, merc_scaled as int),
        b.y == spec_tile_y(zoom as nat, merc_scaled as int),
    ensures
        a == b,
{
}

/// A geographic area of interest with its walkability threshold. Angles
/// are held in micro-degrees and the threshold in micro-mm/h, so that the
/// engine's arithmetic stays exact.
pub struct AreaCode {
    pub offices: String,
    pub class10s: String,
    pub pops: Option<usize>,
    pub area_name: String,
    /// Longitude in micro-degrees.
    pub longitude_micro: i64,
    /// Latitude in micro-degrees.
    pub latitude_micro: i64,
    /// Precipitation threshold in micro-mm/h for the walking decision.
    pub precipitation_micro: u64,
}

impl Clone for AreaCode {
    fn clone(&self) -> (r: Self)
        ensures
            r.offices@ == self.offices@,
            r.class10s@ == self.class10s@,
            r.pops == self.pops,
            r.area_name@ == self.area_name@,
            r.longitude_micro == self.longitude_micro,
            r.latitude_micro == self.latitude_micro,
            r.precipitation_micro == self.precipitation_micro,
    {
        AreaCode {
            offices: self.offices.clone(),
            class10s: self.class10s.clone(),
            pops: self.pops,
            area_name: self.area_name.clone(),
            longitude_micro: self.longitude_micro,
            latitude_micro: self.latitude_micro,
            precipitation_micro: self.precipitation_micro,
        }
    }
}

/// One published forecast snapshot from the service's catalog. The valid
/// time token has the compact `YYYYMMDDHHMMSS` form and names a UTC
/// instant; `elements` is not part of the slice's identity.
pub struct CatalogEntry {
    pub basetime: String,
    pub validtime: String,
    pub member: String,
    pub elements: Vec<String>,
}

impl Clone for CatalogEntry {
    fn clone(&self) -> (r: Self)
        ensures
            r.basetime@ == self.basetime@,
            r.validtime@ == self.validtime@,
            r.member@ == self.member@,
            r.elements.deep_view() == self.elements.deep_view(),
    {
        CatalogEntry {
            basetime: self.basetime.clone(),
            validtime: self.validtime.clone(),
            member: self.member.clone(),
            elements: self.elements.clone(),
        }
    }
}

impl CatalogEntry {
    /// The cache identity of this snapshot.
    pub fn key(&self) -> (k: CacheKey)
        ensures
            k.basetime@ == self.basetime@,
            k.validtime@ == self.validtime@,
            k.member@ == self.member@,
    {
        CacheKey {
            basetime: self.basetime.clone(),
            validtime: self.validtime.clone(),
            member: self.member.clone(),
        }
    }

    /// The UTC epoch second this snapshot is valid for, if its token
    /// parses.
    pub fn validtime_epoch(&self) -> (r: Option<i64>)
        ensures
            r is Some <==> spec_epoch_of(self.validtime@) is Some,
            r matches Some(v) ==> spec_epoch_of(self.validtime@) == Some(v as int),
    {
        parse_validtime(self.validtime.as_str())
    }
}

/// The UTC epoch second named by a compact `YYYYMMDDHHMMSS` token, or
/// `None` when the token does not parse; a function of the token alone.
pub uninterp spec fn spec_epoch_of(s: Seq<char>) -> Option<int>;

/// Relies on chrono's `DateTime::parse_from_str` with format
/// `%Y%m%d%H%M%S%z` (the token suffixed with `+0000`) and on
/// `DateTime::timestamp`.
#[verifier::external_body]
fn parse_validtime(s: &str) -> (r: Option<i64>)
    ensures
        r is Some <==> spec_epoch_of(s@) is Some,
        r matches Some(v) ==> spec_epoch_of(s@) == Some(v as int),
{
    let padded = format!("{}{}", s, "+0000");
    match chrono::DateTime::parse_from_str(&padded, "%Y%m%d%H%M%S%z") {
        Ok(t) => Some(t.timestamp()),
        Err(_) => None,
    }
}

/// The decoded form of an image byte stream: width, height and tightly
/// packed RGBA bytes, or `None` when the bytes are not a decodable image;
/// a function of the bytes alone.
pub uninterp spec fn spec_decoded_rgba(bytes: Seq<u8>) -> Option<(nat, nat, Seq<u8>)>;

/// Relies on `image::load_from_memory` (format guessed from the bytes),
/// `DynamicImage::to_rgba8` and `ImageBuffer::into_raw`; the RGBA buffer
/// holds exactly width * height * 4 bytes.
#[verifier::external_body]
fn decode_rgba(bytes: &[u8]) -> (r: Option<(u32, u32, Vec<u8>)>)
    ensures
        r is Some <==> spec_decoded_rgba(bytes@) is Some,
        r matches Some(t) ==> spec_decoded_rgba(bytes@) == Some((t.0 as nat, t.1 as nat, t.2@)),
        r matches Some(t) ==> t.2@.len() == t.0 as nat * t.1 as nat * 4,
{
    match image::load_from_memory(bytes) {
        Ok(img) => {
            let rgba = img.to_rgba8();
            let w = rgba.width();
            let h = rgba.height();
            Some((w, h, rgba.into_raw()))
        },
        Err(_) => None,
    }
}

/// The PNG encoding of the 32 x 32 nearest-neighbour thumbnail of a full
/// RGBA tile, or `None` when encoding fails; a function of the pixel
/// bytes alone.
pub uninterp spec fn spec_thumbnail_png(px: Seq<u8>) -> Option<Seq<u8>>;

/// Relies on image's `RgbaImage::from_raw`, `DynamicImage::resize`
/// (32 x 32, nearest filter) and `write_to` in PNG format.
#[verifier::external_body]
fn encode_thumbnail(px: &Vec<u8>) -> (r: Option<Vec<u8>>)
    requires
        px@.len() == GRID_BYTES,
    ensures
        r is Some <==> spec_thumbnail_png(px@) is Some,
        r matches Some(d) ==> spec_thumbnail_png(px@) == Some(d@),
{
    let buf = match image::RgbaImage::from_raw(256, 256, px.clone()) {
        Some(b) => b,
        None => return None,
    };
    let img = image::DynamicImage::ImageRgba8(buf);
    let small = img.resize(32, 32, image::imageops::FilterType::Nearest);
    let mut data: Vec<u8> = Vec::new();
    match small.write_to(&mut std::io::Cursor::new(&mut data), image::ImageOutputFormat::Png) {
        Ok(()) => Some(data),
        Err(_) => None,
    }
}

/// The standard padded base64 alphabet encoding of a byte sequence; a
/// function of the bytes alone.
pub uninterp spec fn spec_base64(bytes: Seq<u8>) -> Seq<char>;

/// Relies on base64's `STANDARD` engine `encode`: four output characters
/// for every started group of three input bytes, padded.
#[verifier::external_body]
fn base64_encode(bytes: &Vec<u8>) -> (r: String)
    ensures
        r@ == spec_base64(bytes@),
        r@.len() == 4 * ((bytes@.len() + 2) / 3),
{
    base64::engine::general_purpose::STANDARD.encode(bytes)
}

/// Relies on chrono's `DateTime::from_timestamp`, `with_timezone` with the
/// machine's local zone and `format("%H:%M")`. The clock reading depends
/// on the machine's time zone, so only the shape of the result is stated:
/// five characters, or empty for an unrepresentable instant.
#[verifier::external_body]
fn format_local_hhmm(epoch: i64) -> (r: String)
    ensures
        r@.len() == 5 || r@.len() == 0,
{
    match chrono::DateTime::<chrono::Utc>::from_timestamp(epoch, 0) {
        Some(t) => t.with_timezone(&chrono::Local).format("%H:%M").to_string(),
        None => String::new(),
    }
}

/// A validated aggregation window: a half-open interval [begin, end) of
/// UTC epoch seconds, with `begin` already advanced to the current
/// instant where needed.
#[derive(Clone, Copy, Debug, PartialEq, Eq, Structural)]
pub struct Window {
    pub begin: i64,
    pub end: i64,
}

impl Window {
    /// Validate a requested window against the current instant. A window
    /// whose end is at or before `now` has already elapsed: out-of-window,
    /// and nothing is to be fetched for it. A begin in the past is
    /// advanced to `now` so that no past slice is fetched retroactively.
    pub fn validate(begin: i64, end: i64, now: i64) -> (r: Result<Window, EngineError>)
        ensures
            r is Err <==> now >= end,
            r matches Err(e) ==> e == EngineError::OutOfWindow,
            r matches Ok(w) ==> w.end == end && w.begin == (if now > begin { now } else { begin }),
    {
        if now >= end {
            Err(EngineError::OutOfWindow)
        } else if now > begin {
            Ok(Window { begin: now, end })
        } else {
            Ok(Window { begin, end })
        }
    }
}

/// Absolute difference of two instants.
pub open spec fn spec_abs_diff(a: int, b: int) -> int {
    if a >= b {
        a - b
    } else {
        b - a
    }
}

/// `a` is the anchor index for `target`: its valid time has the minimum
/// absolute difference, and ties are broken by the first occurrence in
/// catalog order.
pub open spec fn spec_is_anchor(eps: Seq<int>, target: int, a: int) -> bool {
    &&& 0 <= a < eps.len()
    &&& forall|i: int|
        0 <= i < eps.len() ==> spec_abs_diff(eps[a], target) <= spec_abs_diff(
            #[trigger] eps[i],
            target,
        )
    &&& forall|i: int|
        0 <= i < a ==> spec_abs_diff(#[trigger] eps[i], target) > spec_abs_diff(eps[a], target)
}

/// First index among `[0, n)` whose valid time is nearest `target`.
pub open spec fn spec_anchor_upto(eps: Seq<int>, target: int, n: int) -> int
    decreases n,
{
    if n <= 1 {
        0
    } else {
        let prev = spec_anchor_upto(eps, target, n - 1);
        if spec_abs_diff(eps[n - 1], target) < spec_abs_diff(eps[prev], target) {
            n - 1
        } else {
            prev
        }
    }
}

/// The anchor index of a whole catalog.
pub open spec fn spec_anchor(eps: Seq<int>, target: int) -> int {
    spec_anchor_upto(eps, target, eps.len() as int)
}

proof fn lemma_anchor_upto_is_nearest(eps: Seq<int>, target: int, n: int)
    requires
        1 <= n <= eps.len(),
    ensures
        ({
            let a = spec_anchor_upto(eps, target, n);
            &&& 0 <= a < n
            &&& forall|i: int|
                0 <= i < n ==> spec_abs_diff(eps[a], target) <= spec_abs_diff(
                    #[trigger] eps[i],
                    target,
                )
            &&& forall|i: int|
                0 <= i < a ==> spec_abs_diff(#[trigger] eps[i], target) > spec_abs_diff(
                    eps[a],
                    target,
                )
        }),
    decreases n,
{
    if n > 1 {
        lemma_anchor_upto_is_nearest(eps, target, n - 1);
    }
}

/// Nearest-match law: the selected anchor minimizes the absolute time
/// difference to the window begin, with ties broken by the first
/// occurrence in catalog order.
pub proof fn lemma_anchor_is_nearest(eps: Seq<int>, target: int)
    requires
        eps.len() >= 1,
    ensures
        spec_is_anchor(eps, target, spec_anchor(eps, target)),
{
    lemma_anchor_upto_is_nearest(eps, target, eps.len() as int);
}

/// The three identity fields and the element list agree.
pub open spec fn spec_entry_views_eq(a: CatalogEntry, b: CatalogEntry) -> bool {
    &&& a.basetime@ == b.basetime@
    &&& a.validtime@ == b.validtime@
    &&& a.member@ == b.member@
    &&& a.elements.deep_view() == b.elements.deep_view()
}

/// What happened to one slice when its fetched body was supplied.
#[derive(Clone, Copy, Debug, PartialEq, Eq, Structural)]
pub enum SliceOutcome {
    /// The body decoded as a 256 x 256 image and every pixel classified.
    Decoded,
    /// No body arrived (network failure, timeout or bad status).
    NoBody,
    /// The body did not decode as a 256 x 256 image.
    DecodeFailed,
    /// The image decoded but a pixel lies outside the palette: a service
    /// contract violation, recoverable per slice but worth surfacing.
    UnexpectedColor,
}

/// View of a fetched body.
pub open spec fn spec_body_view(body: Option<Vec<u8>>) -> Option<Seq<u8>> {
    match body {
        Some(b) => Some(b@),
        None => None,
    }
}

/// The precipitation weight sum a body yields: defined exactly when the
/// body decodes as a 256 x 256 image whose pixels all classify.
pub open spec fn spec_slice_precip(b: Option<Seq<u8>>) -> Option<int> {
    match b {
        None => None,
        Some(bytes) => match spec_decoded_rgba(bytes) {
            None => None,
            Some(t) => if t.0 == 256 && t.1 == 256 && spec_prefix_classified(
                t.2,
                GRID_PIXELS as int,
            ) {
                Some(spec_weight_sum(t.2, GRID_PIXELS as int))
            } else {
                None
            },
        },
    }
}

/// Thumbnail string for a successfully classified tile: the base64 of its
/// encoded thumbnail, or empty when encoding fails.
pub open spec fn spec_thumb_string(px: Seq<u8>) -> Seq<char> {
    match spec_thumbnail_png(px) {
        Some(d) => spec_base64(d),
        None => Seq::<char>::empty(),
    }
}

/// The thumbnail a body yields: empty unless the slice classified.
pub open spec fn spec_slice_thumb(b: Option<Seq<u8>>) -> Seq<char> {
    match b {
        None => Seq::<char>::empty(),
        Some(bytes) => match spec_decoded_rgba(bytes) {
            None => Seq::<char>::empty(),
            Some(t) => if t.0 == 256 && t.1 == 256 && spec_prefix_classified(
                t.2,
                GRID_PIXELS as int,
            ) {
                spec_thumb_string(t.2)
            } else {
                Seq::<char>::empty()
            },
        },
    }
}

/// The outcome note a body yields.
pub open spec fn spec_slice_note(b: Option<Seq<u8>>) -> SliceOutcome {
    match b {
        None => SliceOutcome::NoBody,
        Some(bytes) => match spec_decoded_rgba(bytes) {
            None => SliceOutcome::DecodeFailed,
            Some(t) => if t.0 != 256 || t.1 != 256 {
                SliceOutcome::DecodeFailed
            } else if !spec_prefix_classified(t.2, GRID_PIXELS as int) {
                SliceOutcome::UnexpectedColor
            } else {
                SliceOutcome::Decoded
            },
        },
    }
}

/// An executable `Option<u32>` equals a specification `Option<int>`.
pub open spec fn spec_opt_u32_is(v: Option<u32>, w: Option<int>) -> bool {
    match (v, w) {
        (Some(a), Some(b)) => a as int == b,
        (None, None) => true,
        _ => false,
    }
}

/// Peak precipitation over resolved slices: the maximum weight sum among
/// slices that produced one, `None` when every slice failed.
pub open spec fn spec_peak(s: Seq<CacheEntry>) -> Option<int>
    decreases s.len(),
{
    if s.len() == 0 {
        None
    } else {
        let rest = spec_peak(s.drop_last());
        match (rest, s.last().precipitation) {
            (None, None) => None,
            (None, Some(p)) => Some(p as int),
            (Some(m), None) => Some(m),
            (Some(m), Some(p)) => if p as int > m {
                Some(p as int)
            } else {
                Some(m)
            },
        }
    }
}

fn make_thumbnail(px: &Vec<u8>) -> (r: String)
    requires
        px@.len() == GRID_BYTES,
    ensures
        r@ == spec_thumb_string(px@),
{
    match encode_thumbnail(px) {
        Some(d) => base64_encode(&d),
        None => String::new(),
    }
}

fn abs_diff_i64(a: i64, b: i64) -> (d: i128)
    ensures
        d == spec_abs_diff(a as int, b as int),
{
    let x = a as i128;
    let y = b as i128;
    if x >= y {
        x - y
    } else {
        y - x
    }
}

/// The aggregated answer for one window: the peak precipitation weight sum
/// (`None` only when every selected slice failed), and parallel display
/// time / thumbnail sequences, one pair per selected slice.
pub struct TileResult {
    /// Peak weight sum over the window; mean mm/h is this over 65536.
    pub precipitation: Option<u32>,
    /// Base64 thumbnails, one per slice, empty string for a failed slice.
    pub images: Vec<String>,
    /// Local "HH:MM" display times, parallel to `images`.
    pub times: Vec<String>,
}

impl TileResult {
    /// An empty result: no data, no slices.
    pub fn new() -> (r: TileResult)
        ensures
            r.precipitation is None,
            r.images@ == Seq::<String>::empty(),
            r.times@ == Seq::<String>::empty(),
    {
        TileResult { precipitation: None, images: Vec::new(), times: Vec::new() }
    }
}

/// One window aggregation in progress: the selected candidate slices, how
/// far resolution has come, and the results gathered so far. The caller
/// alternates `try_cache` / `supply` until `done`, then calls `finish`.
pub struct WindowQuery {
    window: Window,
    candidates: Vec<CatalogEntry>,
    epochs: Vec<i64>,
    pos: usize,
    results: Vec<CacheEntry>,
}

impl WindowQuery {
    pub closed spec fn spec_window(&self) -> Window {
        self.window
    }

    pub closed spec fn spec_candidates(&self) -> Seq<CatalogEntry> {
        self.candidates@
    }

    pub closed spec fn spec_epochs(&self) -> Seq<i64> {
        self.epochs@
    }

    pub closed spec fn spec_pos(&self) -> int {
        self.pos as int
    }

    pub closed spec fn spec_results(&self) -> Seq<CacheEntry> {
        self.results@
    }

    /// Candidates and their epochs run in parallel; resolution has one
    /// result per resolved candidate.
    pub open spec fn inv(&self) -> bool {
        &&& self.spec_epochs().len() == self.spec_candidates().len()
        &&& 0 <= self.spec_pos() <= self.spec_candidates().len()
        &&& self.spec_results().len() == self.spec_pos()
        &&& forall|i: int|
            0 <= i < self.spec_candidates().len() ==> spec_epoch_of(
                (#[trigger] self.spec_candidates()[i]).validtime@,
            ) == Some(self.spec_epochs()[i] as int)
    }

    /// Every candidate has been resolved.
    pub open spec fn spec_done(&self) -> bool {
        self.spec_pos() == self.spec_candidates().len()
    }

    /// Whether every candidate has been resolved.
    pub fn done(&self) -> (r: bool)
        ensures
            r == self.spec_done(),
    {
        self.pos == self.candidates.len()
    }

    /// Number of selected candidate slices.
    pub fn candidates_len(&self) -> (n: usize)
        ensures
            n == self.spec_candidates().len(),
    {
        self.candidates.len()
    }

    /// The candidate slice to resolve next.
    pub fn current(&self) -> (e: CatalogEntry)
        requires
            !self.spec_done(),
            self.inv(),
        ensures
            spec_entry_views_eq(e, self.spec_candidates()[self.spec_pos()]),
    {
        self.candidates[self.pos].clone()
    }

    /// Select the candidate slices for a validated window. The anchor is
    /// the entry whose valid time is nearest the window begin (ties to
    /// the first occurrence); from there the catalog is scanned backward,
    /// taking entries until one lies past the window end.
    pub fn start(window: Window, catalog: &Vec<CatalogEntry>) -> (r: Result<
        WindowQuery,
        EngineError,
    >)
        requires
            catalog@.len() >= 1,
        ensures
            r is Err <==> exists|i: int|
                0 <= i < catalog@.len() && spec_epoch_of(
                    (#[trigger] catalog@[i]).validtime@,
                ) is None,
            r matches Err(e) ==> e == EngineError::CatalogTime,
            r matches Ok(q) ==> q.inv() && q.spec_window() == window && q.spec_pos() == 0
                && q.spec_results() == Seq::<CacheEntry>::empty() && ({
                let eps = Seq::new(
                    catalog@.len(),
                    |i: int| spec_epoch_of(catalog@[i].validtime@)->Some_0,
                );
                let a = spec_anchor(eps, window.begin as int);
                let k = q.spec_candidates().len() as int;
                &&& k <= a + 1
                &&& forall|j: int|
                    0 <= j < k ==> spec_entry_views_eq(
                        #[trigger] q.spec_candidates()[j],
                        catalog@[a - j],
                    )
                &&& forall|j: int| 0 <= j < k ==> #[trigger] eps[a - j] <= window.end as int
                &&& (k == a + 1 || eps[a - k] > window.end as int)
                &&& forall|j: int| 0 <= j < k ==> (#[trigger] q.spec_epochs()[j]) as int == eps[a
                    - j]
            }),
    {
        let n = catalog.len();
        let ghost eps = Seq::new(
            catalog@.len(),
            |i: int| spec_epoch_of(catalog@[i].validtime@)->Some_0,
        );
        // Parse every valid time; any failure is a catalog error.
        let mut eps_vec: Vec<i64> = Vec::new();
        let mut i: usize = 0;
        while i < n
            invariant
                n == catalog@.len(),
                i <= n,
                eps_vec@.len() == i,
                forall|j: int|
                    0 <= j < i ==> spec_epoch_of((#[trigger] catalog@[j]).validtime@) == Some(
                        eps_vec@[j] as int,
                    ),
            decreases n - i,
        {
            match catalog[i].validtime_epoch() {
                Some(v) => {
                    eps_vec.push(v);
                },
                None => {
                    return Err(EngineError::CatalogTime);
                },
            }
            i = i + 1;
        }
        assert(forall|j: int| 0 <= j < n ==> eps[j] == eps_vec@[j] as int);
        // Nearest match: anchor at the minimum absolute time difference.
        let t = window.begin;
        let mut best_i: usize = 0;
        let mut best_d: i128 = abs_diff_i64(eps_vec[0], t);
        let mut i2: usize = 1;
        while i2 < n
            invariant
                n == catalog@.len(),
                n == eps_vec@.len(),
                1 <= i2 <= n,
                best_i < i2,
                forall|j: int| 0 <= j < n ==> eps[j] == eps_vec@[j] as int,
                best_i == spec_anchor_upto(eps, t as int, i2 as int),
                best_d == spec_abs_diff(eps[best_i as int], t as int),
            decreases n - i2,
        {
            let d = abs_diff_i64(eps_vec[i2], t);
            if d < best_d {
                best_i = i2;
                best_d = d;
            }
            i2 = i2 + 1;
        }
        let anchor = best_i;
        assert(anchor == spec_anchor(eps, t as int));
        // Backward scan from the anchor toward earlier entries.
        let mut cands: Vec<CatalogEntry> = Vec::new();
        let mut ep_list: Vec<i64> = Vec::new();
        let mut cur: usize = anchor;
        loop
            invariant_except_break
                n == catalog@.len(),
                n == eps_vec@.len(),
                anchor < n,
                cur <= anchor,
                forall|j: int| 0 <= j < n ==> eps[j] == eps_vec@[j] as int,
                cands@.len() == anchor - cur,
                ep_list@.len() == cands@.len(),
                forall|j: int|
                    0 <= j < cands@.len() ==> spec_entry_views_eq(
                        #[trigger] cands@[j],
                        catalog@[anchor - j],
                    ),
                forall|j: int| 0 <= j < cands@.len() ==> #[trigger] eps[anchor - j] <= window.end as int,
                forall|j: int| 0 <= j < cands@.len() ==> (#[trigger] ep_list@[j]) as int == eps[
                    anchor - j],
            ensures
                cands@.len() <= anchor + 1,
                ep_list@.len() == cands@.len(),
                forall|j: int|
                    0 <= j < cands@.len() ==> spec_entry_views_eq(
                        #[trigger] cands@[j],
                        catalog@[anchor - j],
                    ),
                forall|j: int| 0 <= j < cands@.len() ==> #[trigger] eps[anchor - j] <= window.end as int,
                cands@.len() == anchor + 1 || eps[anchor - cands@.len()] > window.end as int,
                forall|j: int| 0 <= j < cands@.len() ==> (#[trigger] ep_list@[j]) as int == eps[
                    anchor - j],
            decreases cur + 1,
        {
            if eps_vec[cur] > window.end {
                break;
            }
            cands.push(catalog[cur].clone());
            ep_list.push(eps_vec[cur]);
            if cur == 0 {
                break;
            }
            cur = cur - 1;
        }
        let q = WindowQuery {
            window,
            candidates: cands,
            epochs: ep_list,
            pos: 0,
            results: Vec::new(),
        };
        Ok(q)
    }

    /// Resolve the next candidate from the cache alone. A hit requires a
    /// cached entry under the same key whose precipitation is present; a
    /// cached failure is not a hit, so the slice will be fetched again.
    /// The cache itself is left untouched: reads never affect eviction.
    pub fn try_cache(&mut self, cache: &TileCache) -> (hit: bool)
        requires
            old(self).inv(),
            !old(self).spec_done(),
        ensures
            final(self).inv(),
            final(self).spec_window() == old(self).spec_window(),
            final(self).spec_candidates() == old(self).spec_candidates(),
            final(self).spec_epochs() == old(self).spec_epochs(),
            ({
                let cur = old(self).spec_candidates()[old(self).spec_pos()];
                let found = spec_lookup(cache@, cur.basetime@, cur.validtime@, cur.member@);
                &&& hit == (found matches Some(e) && e.precipitation is Some)
                &&& (hit ==> final(self).spec_pos() == old(self).spec_pos() + 1
                    && final(self).spec_results() == old(self).spec_results().push(found->Some_0))
                &&& (!hit ==> final(self).spec_pos() == old(self).spec_pos()
                    && final(self).spec_results() == old(self).spec_results())
            }),
    {
        let n = self.candidates.len();
        assert(self.pos < n);
        let k = self.candidates[self.pos].key();
        match cache.lookup(&k) {
            Some(e) => {
                if e.precipitation.is_some() {
                    self.results.push(e);
                    self.pos = self.pos + 1;
                    true
                } else {
                    false
                }
            },
            None => false,
        }
    }

    /// Resolve the next candidate from a fetched body (or its absence).
    /// The body is decoded and classified; the resulting entry always
    /// goes into the cache, success or failure, evicting FIFO-style.
    pub fn supply(&mut self, cache: &mut TileCache, body: Option<Vec<u8>>) -> (note: SliceOutcome)
        requires
            old(self).inv(),
            !old(self).spec_done(),
            old(cache).inv(),
        ensures
            final(self).inv(),
            final(cache).inv(),
            final(self).spec_window() == old(self).spec_window(),
            final(self).spec_candidates() == old(self).spec_candidates(),
            final(self).spec_epochs() == old(self).spec_epochs(),
            final(self).spec_pos() == old(self).spec_pos() + 1,
            ({
                let cur = old(self).spec_candidates()[old(self).spec_pos()];
                let b = spec_body_view(body);
                let e = final(self).spec_results().last();
                &&& final(self).spec_results() == old(self).spec_results().push(e)
                &&& spec_entry_matches(e, cur.basetime@, cur.validtime@, cur.member@)
                &&& spec_opt_u32_is(e.precipitation, spec_slice_precip(b))
                &&& e.thumbnail@ == spec_slice_thumb(b)
                &&& final(cache)@ == spec_fifo_push(old(cache)@, e)
                &&& note == spec_slice_note(b)
            }),
    {
        let n = self.candidates.len();
        assert(self.pos < n);
        let k = self.candidates[self.pos].key();
        let mut precip: Option<u32> = None;
        let mut thumb: String = String::new();
        let note: SliceOutcome;
        match &body {
            None => {
                note = SliceOutcome::NoBody;
            },
            Some(bytes) => {
                match decode_rgba(bytes.as_slice()) {
                    None => {
                        note = SliceOutcome::DecodeFailed;
                    },
                    Some(t) => {
                        if t.0 != 256 || t.1 != 256 {
                            note = SliceOutcome::DecodeFailed;
                        } else {
                            assert(t.2@.len() == GRID_BYTES);
                            match classify_grid(t.2.as_slice()) {
                                Ok(sum) => {
                                    precip = Some(sum);
                                    thumb = make_thumbnail(&t.2);
                                    note = SliceOutcome::Decoded;
                                },
                                Err(_) => {
                                    note = SliceOutcome::UnexpectedColor;
                                },
                            }
                        }
                    },
                }
            },
        }
        let entry = CacheEntry { key: k, precipitation: precip, thumbnail: thumb };
        self.results.push(entry.clone());
        cache.push(entry);
        self.pos = self.pos + 1;
        note
    }

    /// Assemble the window's answer once every candidate is resolved: the
    /// peak precipitation over the slices that produced one (`None` only
    /// when every slice failed), and the parallel display time and
    /// thumbnail sequences, one pair per candidate.
    pub fn finish(self) -> (r: TileResult)
        requires
            self.inv(),
            self.spec_done(),
        ensures
            r.times@.len() == self.spec_results().len(),
            r.images@.len() == self.spec_results().len(),
            forall|i: int|
                0 <= i < self.spec_results().len() ==> (#[trigger] r.images@[i])@
                    == self.spec_results()[i].thumbnail@,
            forall|i: int|
                0 <= i < r.times@.len() ==> ((#[trigger] r.times@[i])@.len() == 5 || r.times@[i]@.len()
                    == 0),
            spec_opt_u32_is(r.precipitation, spec_peak(self.spec_results())),
            (r.precipitation is None <==> (forall|i: int|
                0 <= i < self.spec_results().len() ==> (#[trigger] self.spec_results()[i]).precipitation is None)),
    {
        let n = self.results.len();
        let mut best: Option<u32> = None;
        let mut times: Vec<String> = Vec::new();
        let mut images: Vec<String> = Vec::new();
        let mut i: usize = 0;
        assert(self.spec_results().subrange(0, 0) =~= Seq::<CacheEntry>::empty());
        while i < n
            invariant
                self.inv(),
                self.spec_done(),
                n == self.spec_results().len(),
                i <= n,
                times@.len() == i,
                images@.len() == i,
                forall|j: int|
                    0 <= j < i ==> (#[trigger] images@[j])@ == self.spec_results()[j].thumbnail@,
                forall|j: int|
                    0 <= j < i ==> ((#[trigger] times@[j])@.len() == 5 || times@[j]@.len() == 0),
                spec_opt_u32_is(best, spec_peak(self.spec_results().subrange(0, i as int))),
                (best is None <==> (forall|j: int|
                    0 <= j < i ==> (#[trigger] self.spec_results()[j]).precipitation is None)),
            decreases n - i,
        {
            let e = &self.results[i];
            best = match (best, e.precipitation) {
                (None, None) => None,
                (None, Some(p)) => Some(p),
                (Some(m), None) => Some(m),
                (Some(m), Some(p)) => if p > m {
                    Some(p)
                } else {
                    Some(m)
                },
            };
            times.push(format_local_hhmm(self.epochs[i]));
            images.push(e.thumbnail.clone());
            proof {
                let pre = self.spec_results().subrange(0, i as int);
                let post = self.spec_results().subrange(0, i + 1);
                assert(post.drop_last() =~= pre);
                assert(post.last() == self.spec_results()[i as int]);
            }
            i = i + 1;
        }
        assert(self.spec_results().subrange(0, n as int) =~= self.spec_results());
        TileResult { precipitation: best, images, times }
    }
}

} // verus!
