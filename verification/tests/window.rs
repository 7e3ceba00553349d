use sunnyday::cache::{CacheEntry, CacheKey, TileCache};
use sunnyday::jma::{CatalogEntry, SliceOutcome, TileResult, Window, WindowQuery};
use sunnyday::EngineError;

/// Epoch second of 2023-01-01 00:00:00 UTC.
const BASE: i64 = 1672531200;

fn token(hour: usize) -> String {
    format!("202301010{}0000", hour)
}

fn entry(hour: usize) -> CatalogEntry {
    CatalogEntry {
        basetime: String::from("20230101000000"),
        validtime: token(hour),
        member: String::from("none"),
        elements: vec![],
    }
}

fn epoch(hour: usize) -> i64 {
    BASE + (hour as i64) * 3600
}

fn png_of(color: [u8; 4]) -> Vec<u8> {
    let img = image::RgbaImage::from_fn(256, 256, |_, _| image::Rgba(color));
    let dynimg = image::DynamicImage::ImageRgba8(img);
    let mut data = Vec::new();
    dynimg
        .write_to(&mut std::io::Cursor::new(&mut data), image::ImageOutputFormat::Png)
        .unwrap();
    data
}

fn drain_failing(q: &mut WindowQuery, cache: &mut TileCache) {
    while !q.done() {
        if !q.try_cache(cache) {
            q.supply(cache, None);
        }
    }
}

#[test]
fn out_of_window_test() {
    // A window whose end equals or precedes the current instant always
    // fails out-of-window, before anything is fetched.
    assert_eq!(Window::validate(10, 20, 20), Err(EngineError::OutOfWindow));
    assert_eq!(Window::validate(10, 20, 25), Err(EngineError::OutOfWindow));
    let w = Window::validate(10, 20, 5).unwrap();
    assert_eq!(w.begin, 10);
    assert_eq!(w.end, 20);
}

#[test]
fn window_begin_advanced_test() {
    // A begin in the past is advanced to the current instant.
    let w = Window::validate(10, 20, 15).unwrap();
    assert_eq!(w.begin, 15);
    assert_eq!(w.end, 20);
}

#[test]
fn catalog_time_error_test() {
    let mut catalog = vec![entry(1)];
    catalog[0].validtime = String::from("garbage");
    let w = Window::validate(epoch(1), epoch(2), BASE).unwrap();
    assert_eq!(
        WindowQuery::start(w, &catalog).map(|_| ()),
        Err(EngineError::CatalogTime)
    );
}

#[test]
fn anchor_nearest_test() {
    // Anchor at hour 2 (nearest the begin), backward scan collects hours
    // 2, 1, 0 in that order.
    let catalog = vec![entry(0), entry(1), entry(2), entry(3)];
    let w = Window::validate(epoch(2) + 100, epoch(2) + 1800, BASE).unwrap();
    let q = WindowQuery::start(w, &catalog).unwrap();
    assert_eq!(q.candidates_len(), 3);
    assert_eq!(q.current().validtime, token(2));
}

#[test]
fn anchor_tie_first_test() {
    // Exactly midway between hours 0 and 1: the tie goes to the first
    // occurrence in catalog order.
    let catalog = vec![entry(0), entry(1)];
    let w = Window::validate(epoch(0) + 1800, epoch(1) + 1800, BASE).unwrap();
    let q = WindowQuery::start(w, &catalog).unwrap();
    assert_eq!(q.current().validtime, token(0));
    assert_eq!(q.candidates_len(), 1);
}

#[test]
fn backward_scan_stops_test() {
    // The scan from the anchor toward index 0 stops at the first entry
    // past the window end, even when earlier entries would fit.
    let catalog = vec![entry(5), entry(0), entry(2)];
    let w = Window::validate(epoch(2) + 100, epoch(2) + 1800, BASE).unwrap();
    let q = WindowQuery::start(w, &catalog).unwrap();
    assert_eq!(q.candidates_len(), 2);
    assert_eq!(q.current().validtime, token(2));
}

#[test]
fn backward_scan_skips_later_entries_test() {
    // Entries later than the anchor are never examined, even inside the
    // window: the scan runs backward only.
    let catalog = vec![entry(0), entry(1), entry(2), entry(3)];
    let w = Window::validate(epoch(1) + 100, epoch(3) + 1800, BASE).unwrap();
    let q = WindowQuery::start(w, &catalog).unwrap();
    assert_eq!(q.candidates_len(), 2);
    assert_eq!(q.current().validtime, token(1));
}

#[test]
fn total_failure_test() {
    // Every candidate slice fails: the peak is absent, but the time and
    // thumbnail series still hold one (empty) pair per candidate.
    let catalog = vec![entry(0), entry(1), entry(2)];
    let w = Window::validate(epoch(2) + 100, epoch(2) + 1800, BASE).unwrap();
    let mut q = WindowQuery::start(w, &catalog).unwrap();
    let mut cache = TileCache::new();
    let n = q.candidates_len();
    drain_failing(&mut q, &mut cache);
    let r: TileResult = q.finish();
    assert_eq!(r.precipitation, None);
    assert_eq!(r.times.len(), n);
    assert_eq!(r.images.len(), n);
    for img in &r.images {
        assert!(img.is_empty());
    }
}

#[test]
fn parallel_series_test() {
    // times and thumbnails are always equal-length parallel sequences.
    let catalog = vec![entry(0), entry(1), entry(2)];
    let w = Window::validate(epoch(2) + 100, epoch(2) + 1800, BASE).unwrap();
    let mut q = WindowQuery::start(w, &catalog).unwrap();
    let mut cache = TileCache::new();
    while !q.done() {
        if !q.try_cache(&cache) {
            q.supply(&mut cache, Some(png_of([0, 0, 0, 0])));
        }
    }
    let r = q.finish();
    assert_eq!(r.times.len(), r.images.len());
    assert_eq!(r.times.len(), 3);
    for t in &r.times {
        assert_eq!(t.len(), 5);
    }
    for img in &r.images {
        assert!(!img.is_empty());
        assert_eq!(img.len() % 4, 0);
    }
    assert_eq!(r.precipitation, Some(0));
}

#[test]
fn cache_hit_short_circuit_test() {
    // Resolving the same key twice, where the first resolution produced a
    // value: the second run is served from the cache alone, and the
    // caller never has to supply a body.
    let catalog = vec![entry(1)];
    let mut cache = TileCache::new();
    let w = Window::validate(epoch(1), epoch(1) + 1800, BASE).unwrap();
    let mut q1 = WindowQuery::start(w, &catalog).unwrap();
    assert!(!q1.try_cache(&cache));
    q1.supply(&mut cache, Some(png_of([180, 0, 104, 255])));
    let r1 = q1.finish();
    assert_eq!(r1.precipitation, Some(100 * 65536));

    let mut q2 = WindowQuery::start(w, &catalog).unwrap();
    assert!(q2.try_cache(&cache));
    assert!(q2.done());
    let r2 = q2.finish();
    assert_eq!(r2.precipitation, r1.precipitation);
    assert_eq!(r2.images, r1.images);
    assert_eq!(cache.len(), 1);
}

#[test]
fn cache_seeded_entry_test() {
    // A pre-seeded cache entry with a value is a hit as it stands.
    let catalog = vec![entry(1)];
    let mut cache = TileCache::new();
    cache.push(CacheEntry {
        key: CacheKey {
            basetime: String::from("20230101000000"),
            validtime: token(1),
            member: String::from("none"),
        },
        precipitation: Some(42),
        thumbnail: String::from("thumb"),
    });
    let w = Window::validate(epoch(1), epoch(1) + 1800, BASE).unwrap();
    let mut q = WindowQuery::start(w, &catalog).unwrap();
    assert!(q.try_cache(&cache));
    let r = q.finish();
    assert_eq!(r.precipitation, Some(42));
    assert_eq!(r.images, vec![String::from("thumb")]);
}

#[test]
fn cached_failure_retried_test() {
    // A cached failure is no hit: the slice is fetched again, and the
    // retry pushes a second entry for the same key.
    let catalog = vec![entry(1)];
    let mut cache = TileCache::new();
    cache.push(CacheEntry {
        key: CacheKey {
            basetime: String::from("20230101000000"),
            validtime: token(1),
            member: String::from("none"),
        },
        precipitation: None,
        thumbnail: String::new(),
    });
    let w = Window::validate(epoch(1), epoch(1) + 1800, BASE).unwrap();
    let mut q = WindowQuery::start(w, &catalog).unwrap();
    assert!(!q.try_cache(&cache));
    let note = q.supply(&mut cache, Some(png_of([255, 40, 0, 255])));
    assert_eq!(note, SliceOutcome::Decoded);
    assert_eq!(cache.len(), 2);
    let r = q.finish();
    assert_eq!(r.precipitation, Some(80 * 65536));
}

#[test]
fn peak_is_maximum_test() {
    // The peak is the maximum over slices that produced a value; failed
    // slices are excluded but keep their series position.
    let catalog = vec![entry(0), entry(1), entry(2)];
    let w = Window::validate(epoch(2) + 100, epoch(2) + 1800, BASE).unwrap();
    let mut q = WindowQuery::start(w, &catalog).unwrap();
    let mut cache = TileCache::new();
    assert!(!q.try_cache(&cache));
    q.supply(&mut cache, Some(png_of([160, 210, 255, 255])));
    assert!(!q.try_cache(&cache));
    q.supply(&mut cache, None);
    assert!(!q.try_cache(&cache));
    q.supply(&mut cache, Some(png_of([242, 242, 255, 255])));
    let r = q.finish();
    assert_eq!(r.precipitation, Some(5 * 65536));
    assert_eq!(r.times.len(), 3);
    assert!(r.images[1].is_empty());
}

#[test]
fn supply_outcome_notes_test() {
    let catalog = vec![entry(0), entry(1), entry(2), entry(3)];
    let w = Window::validate(epoch(3) + 100, epoch(3) + 1800, BASE).unwrap();
    let mut q = WindowQuery::start(w, &catalog).unwrap();
    let mut cache = TileCache::new();
    assert_eq!(q.supply(&mut cache, None), SliceOutcome::NoBody);
    assert_eq!(
        q.supply(&mut cache, Some(vec![1, 2, 3])),
        SliceOutcome::DecodeFailed
    );
    // A decodable image of the wrong size also counts as a failed decode.
    let small = {
        let img = image::RgbaImage::from_fn(10, 10, |_, _| image::Rgba([0, 0, 0, 0]));
        let mut data = Vec::new();
        image::DynamicImage::ImageRgba8(img)
            .write_to(&mut std::io::Cursor::new(&mut data), image::ImageOutputFormat::Png)
            .unwrap();
        data
    };
    assert_eq!(q.supply(&mut cache, Some(small)), SliceOutcome::DecodeFailed);
    // A pixel outside the palette is a loud classification failure.
    let bad = {
        let img = image::RgbaImage::from_fn(256, 256, |x, y| {
            if x == 0 && y == 0 {
                image::Rgba([9, 9, 9, 9])
            } else {
                image::Rgba([0, 0, 0, 0])
            }
        });
        let mut data = Vec::new();
        image::DynamicImage::ImageRgba8(img)
            .write_to(&mut std::io::Cursor::new(&mut data), image::ImageOutputFormat::Png)
            .unwrap();
        data
    };
    assert_eq!(q.supply(&mut cache, Some(bad)), SliceOutcome::UnexpectedColor);
    let r = q.finish();
    assert_eq!(r.precipitation, None);
    assert_eq!(r.times.len(), 4);
}
