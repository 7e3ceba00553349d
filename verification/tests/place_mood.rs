use sunnyday::jma::TileResult;
use sunnyday::mood::{GetMood, Mood};
use sunnyday::place::{Place, Places, RecentPlace, Shop};
use sunnyday::utils::{PartOfDay, PointOfDay};

fn sample_places() -> Places {
    Places {
        area_code: None,
        parking: vec![
            Place {
                name: String::from("riverside"),
                shop: vec![String::from("bakery")],
                walking: true,
                parking: true,
            },
            Place {
                name: String::from("hilltop"),
                shop: vec![],
                walking: true,
                parking: false,
            },
            Place {
                name: String::from("arcade"),
                shop: vec![String::from("noodles"), String::from("bakery")],
                walking: false,
                parking: true,
            },
            Place {
                name: String::from("pier"),
                shop: vec![String::from("kiosk")],
                walking: false,
                parking: false,
            },
        ],
        shop: vec![
            Shop { name: String::from("bakery"), food: true },
            Shop { name: String::from("noodles"), food: true },
            Shop { name: String::from("kiosk"), food: false },
        ],
    }
}

fn mood(food: Option<bool>, walking: Option<bool>, parking: Option<bool>) -> Mood {
    Mood { food, walking, parking, part_of_day: None, forecast: None }
}

#[test]
fn pick_test() {
    let places = sample_places();
    let test_param = vec![Some(true), Some(false), None];
    for food in test_param.clone() {
        for walking in test_param.clone() {
            for parking in test_param.clone() {
                let m = mood(food, walking, parking);
                let available = places.pickup(&m);
                for a in available {
                    match walking {
                        Some(w) => assert_eq!(a.walking, w),
                        None => (),
                    }
                    match parking {
                        Some(p) => assert_eq!(a.parking, p),
                        None => (),
                    }
                    match food {
                        Some(f) => {
                            let mut res = false;
                            for s in a.shop {
                                if places.shop.iter().any(|x| x.name == s && x.food == f) {
                                    res = true;
                                    break;
                                }
                            }
                            assert!(res);
                        },
                        None => (),
                    }
                }
            }
        }
    }
}

#[test]
fn pickup_keeps_order_test() {
    let places = sample_places();
    let names: Vec<String> =
        places.pickup(&mood(None, None, None)).into_iter().map(|p| p.name).collect();
    assert_eq!(names, vec!["riverside", "hilltop", "arcade", "pier"]);

    let names: Vec<String> =
        places.pickup(&mood(Some(true), None, None)).into_iter().map(|p| p.name).collect();
    assert_eq!(names, vec!["riverside", "arcade"]);

    let names: Vec<String> =
        places.pickup(&mood(Some(false), Some(false), None)).into_iter().map(|p| p.name).collect();
    assert_eq!(names, vec!["pier"]);
}

#[test]
fn recent_rotation_test() {
    // The rotation drops the oldest suggestion once the list reaches the
    // configured length: pushing eight names with rotation seven keeps
    // the latest six.
    let mut recent = RecentPlace::new();
    for i in 0..8 {
        recent.today_place(&format!("place{}", i), PartOfDay::Morning);
    }
    let kept = recent.get_places(PartOfDay::Morning);
    assert_eq!(kept.len(), 6);
    assert_eq!(kept[0], "place2");
    assert_eq!(kept[5], "place7");
    assert!(recent.get_places(PartOfDay::Afternoon).is_empty());
}

#[test]
fn recent_check_test() {
    let mut recent = RecentPlace::new();
    recent.today_place("riverside", PartOfDay::Morning);
    assert!(recent.check("riverside", PartOfDay::Morning));
    assert!(!recent.check("riverside", PartOfDay::Afternoon));
    assert!(!recent.check("hilltop", PartOfDay::Morning));
}

#[test]
fn first_unvisited_test() {
    let places = sample_places();
    let mut recent = RecentPlace::new();
    recent.today_place("riverside", PartOfDay::Morning);
    let available = places.pickup(&mood(None, None, None));
    let next = recent.first_unvisited(&available, PartOfDay::Morning);
    assert_eq!(next, Some(String::from("hilltop")));

    for p in &available {
        recent.today_place(&p.name, PartOfDay::Morning);
    }
    assert_eq!(recent.first_unvisited(&available, PartOfDay::Morning), None);
}

#[test]
fn mood_from_flags_test() {
    let m = Mood::from_flags(true, false, false, true, false, false);
    assert_eq!(m.food, Some(true));
    assert_eq!(m.walking, Some(false));
    assert_eq!(m.parking, None);

    // A negative flag wins over a positive one.
    let m = Mood::from_flags(true, true, false, false, false, false);
    assert_eq!(m.food, Some(false));
}

#[test]
fn mood_from_query_test() {
    let g = GetMood { food: Some(true), parking: None, walking: Some(false), weather: None };
    let m = Mood::from(g);
    assert_eq!(m.food, Some(true));
    assert_eq!(m.walking, Some(false));
    assert_eq!(m.parking, None);
    assert!(m.part_of_day.is_none());
}

#[test]
fn mood_to_string_test() {
    let mut m = Mood::new();
    assert_eq!(m.to_string(), "Food: -, Walking: -, Parking: -");
    m.food = Some(true);
    m.parking = Some(false);
    assert_eq!(m.to_string(), "Food: yes, Walking: -, Parking: no");
}

#[test]
fn apply_precipitation_test() {
    // Threshold of 1.0 mm/h in micro units; the peak weight sum 65536
    // means exactly 1.0 mm/h, which does not exceed it.
    let threshold: u64 = 1_000_000;
    let result = |sum: Option<u32>| TileResult { precipitation: sum, images: vec![], times: vec![] };

    let mut m = Mood::new();
    m.set_part_of_day(PartOfDay::Morning);
    assert_eq!(m.apply_precipitation(Some(result(Some(65536))), threshold), Some(65536));
    assert_eq!(m.walking, Some(true));
    assert!(m.forecast.is_some());

    let mut m = Mood::new();
    m.set_part_of_day(PartOfDay::Morning);
    assert_eq!(m.apply_precipitation(Some(result(Some(65537))), threshold), Some(65537));
    assert_eq!(m.walking, Some(false));

    // A failed aggregation clears the walking preference.
    let mut m = Mood::new();
    m.walking = Some(true);
    m.set_part_of_day(PartOfDay::Afternoon);
    assert_eq!(m.apply_precipitation(Some(result(None)), threshold), None);
    assert_eq!(m.walking, None);
    assert!(m.forecast.is_none());

    // Without a part of day, nothing changes.
    let mut m = Mood::new();
    m.walking = Some(true);
    assert_eq!(m.apply_precipitation(Some(result(Some(9))), threshold), None);
    assert_eq!(m.walking, Some(true));
}

#[test]
fn apply_probability_test() {
    let mut m = Mood::new();
    m.set_part_of_day(PartOfDay::Morning);
    assert_eq!(m.apply_probability(Some(20), Some(50), None), Some(20));
    assert_eq!(m.walking, Some(false));

    let mut m = Mood::new();
    m.set_part_of_day(PartOfDay::Afternoon);
    assert_eq!(m.apply_probability(Some(20), Some(5), None), Some(5));
    assert_eq!(m.walking, Some(true));

    // An explicit area limit replaces the default of ten percent.
    let mut m = Mood::new();
    m.set_part_of_day(PartOfDay::Morning);
    assert_eq!(m.apply_probability(Some(20), None, Some(30)), Some(20));
    assert_eq!(m.walking, Some(true));

    // A missing reading clears the walking preference.
    let mut m = Mood::new();
    m.walking = Some(false);
    m.set_part_of_day(PartOfDay::Morning);
    assert_eq!(m.apply_probability(None, Some(5), None), None);
    assert_eq!(m.walking, None);
}

#[test]
fn part_of_day_test() {
    assert_eq!(PartOfDay::Morning.begin(), PointOfDay::Dawn);
    assert_eq!(PartOfDay::Morning.end(), PointOfDay::Noon);
    assert_eq!(PartOfDay::Afternoon.begin(), PointOfDay::Noon);
    assert_eq!(PartOfDay::Afternoon.end(), PointOfDay::Dusk);
    assert_eq!(PointOfDay::Dawn.value(), 6);
    assert_eq!(PointOfDay::Noon.value(), 12);
    assert_eq!(PointOfDay::Dusk.value(), 18);
    assert_eq!(PartOfDay::Morning.to_string(), "Morning");
    assert_eq!(PartOfDay::Afternoon.to_string(), "Afternoon");
}
