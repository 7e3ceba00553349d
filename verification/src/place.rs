//! Favorite places: the static place/shop catalog with its mood filter,
//! and the recency rotation that avoids repeating suggestions.

use vstd::prelude::*;
use vstd::string::StringExecFns;
use crate::jma::AreaCode;
use crate::mood::Mood;
use crate::utils::PartOfDay;

verus! {

/// Default number of suggestions kept per part of day.
pub const DEFAULT_ROTATION_DAYS: usize = 7;

/// One place that can be suggested.
pub struct Place {
    pub name: String,
    pub shop: Vec<String>,
    pub walking: bool,
    pub parking: bool,
}

/// The mathematical content of a place.
pub ghost struct PlaceView {
    pub name: Seq<char>,
    pub shop: Seq<Seq<char>>,
    pub walking: bool,
    pub parking: bool,
}

impl View for Place {
    type V = PlaceView;

    open spec fn view(&self) -> PlaceView {
        PlaceView {
            name: self.name@,
            shop: self.shop.deep_view(),
            walking: self.walking,
            parking: self.parking,
        }
    }
}

impl Clone for Place {
    fn clone(&self) -> (r: Self)
        ensures
            r@ == self@,
    {
        Place {
            name: self.name.clone(),
            shop: self.shop.clone(),
            walking: self.walking,
            parking: self.parking,
        }
    }
}

/// One shop that places may point at.
pub struct Shop {
    pub name: String,
    pub food: bool,
}

impl Clone for Shop {
    fn clone(&self) -> (r: Self)
        ensures
            r.name@ == self.name@,
            r.food == self.food,
    {
        Shop { name: self.name.clone(), food: self.food }
    }
}

/// The place database: an optional area of interest, the places with
/// parking, and the shops they may point at.
pub struct Places {
    pub area_code: Option<AreaCode>,
    pub parking: Vec<Place>,
    pub shop: Vec<Shop>,
}

/// The views of a sequence of places.
pub open spec fn spec_places_view(s: Seq<Place>) -> Seq<PlaceView> {
    s.map_values(|p: Place| p@)
}

/// Some shop under this name has the wanted food property.
pub open spec fn spec_shop_matches(shops: Seq<Shop>, name: Seq<char>, f: bool) -> bool {
    exists|j: int|
        0 <= j < shops.len() && (#[trigger] shops[j]).name@ == name && shops[j].food == f
}

/// The food preference holds of a place: open preference, or some of the
/// place's shops matches it.
pub open spec fn spec_food_ok(shops: Seq<Shop>, p: PlaceView, food: Option<bool>) -> bool {
    match food {
        None => true,
        Some(f) => exists|k: int|
            0 <= k < p.shop.len() && spec_shop_matches(shops, #[trigger] p.shop[k], f),
    }
}

/// An open preference accepts anything; a set one must be met exactly.
pub open spec fn spec_pref_ok(v: bool, pref: Option<bool>) -> bool {
    match pref {
        Some(b) => v == b,
        None => true,
    }
}

/// A place satisfies the mood's three preferences.
pub open spec fn spec_place_matches(
    shops: Seq<Shop>,
    p: PlaceView,
    food: Option<bool>,
    walking: Option<bool>,
    parking: Option<bool>,
) -> bool {
    spec_food_ok(shops, p, food) && spec_pref_ok(p.walking, walking) && spec_pref_ok(
        p.parking,
        parking,
    )
}

/// The matching places, in catalog order.
pub open spec fn spec_pickup(
    shops: Seq<Shop>,
    parking: Seq<PlaceView>,
    food: Option<bool>,
    walking: Option<bool>,
    park: Option<bool>,
) -> Seq<PlaceView>
    decreases parking.len(),
{
    if parking.len() == 0 {
        Seq::<PlaceView>::empty()
    } else {
        let rest = spec_pickup(shops, parking.drop_last(), food, walking, park);
        if spec_place_matches(shops, parking.last(), food, walking, park) {
            rest.push(parking.last())
        } else {
            rest
        }
    }
}

impl Places {
    /// Whether some shop of this name has the wanted food property.
    fn shop_matches(&self, name: &String, f: bool) -> (r: bool)
        ensures
            r == spec_shop_matches(self.shop@, name@, f),
    {
        let n = self.shop.len();
        let mut j: usize = 0;
        while j < n
            invariant
                n == self.shop@.len(),
                j <= n,
                forall|i: int|
                    0 <= i < j ==> !((#[trigger] self.shop@[i]).name@ == name@ && self.shop@[i].food
                        == f),
            decreases n - j,
        {
            if self.shop[j].name == *name && self.shop[j].food == f {
                return true;
            }
            j = j + 1;
        }
        false
    }

    /// Whether some of the place's shops has the wanted food property.
    fn place_food_ok(&self, p: &Place, f: bool) -> (r: bool)
        ensures
            r == spec_food_ok(self.shop@, p@, Some(f)),
    {
        let n = p.shop.len();
        let mut k: usize = 0;
        while k < n
            invariant
                n == p.shop@.len(),
                k <= n,
                forall|i: int|
                    0 <= i < k ==> !spec_shop_matches(self.shop@, #[trigger] p@.shop[i], f),
            decreases n - k,
        {
            if self.shop_matches(&p.shop[k], f) {
                assert(p@.shop[k as int] == p.shop@[k as int]@);
                assert(spec_food_ok(self.shop@, p@, Some(f))) by {
                    assert(0 <= k < p@.shop.len() && spec_shop_matches(
                        self.shop@,
                        p@.shop[k as int],
                        f,
                    ));
                }
                return true;
            }
            assert(p@.shop[k as int] == p.shop@[k as int]@);
            k = k + 1;
        }
        assert(p@.shop.len() == n);
        false
    }

    /// Whether a place satisfies the mood's three preferences.
    fn place_matches(&self, p: &Place, mood: &Mood) -> (r: bool)
        ensures
            r == spec_place_matches(self.shop@, p@, mood.food, mood.walking, mood.parking),
    {
        let food_ok: bool = match mood.food {
            None => true,
            Some(f) => self.place_food_ok(p, f),
        };
        let walking_ok: bool = match mood.walking {
            Some(b) => p.walking == b,
            None => true,
        };
        let parking_ok: bool = match mood.parking {
            Some(b) => p.parking == b,
            None => true,
        };
        food_ok && walking_ok && parking_ok
    }

    /// Pick the places that fit the mood, keeping catalog order.
    pub fn pickup(&self, mood: &Mood) -> (r: Vec<Place>)
        ensures
            spec_places_view(r@) == spec_pickup(
                self.shop@,
                spec_places_view(self.parking@),
                mood.food,
                mood.walking,
                mood.parking,
            ),
    {
        let n = self.parking.len();
        let mut places: Vec<Place> = Vec::new();
        let mut i: usize = 0;
        assert(spec_places_view(self.parking@.subrange(0, 0)) =~= Seq::<PlaceView>::empty());
        assert(spec_places_view(places@) =~= Seq::<PlaceView>::empty());
        while i < n
            invariant
                n == self.parking@.len(),
                i <= n,
                spec_places_view(places@) == spec_pickup(
                    self.shop@,
                    spec_places_view(self.parking@.subrange(0, i as int)),
                    mood.food,
                    mood.walking,
                    mood.parking,
                ),
            decreases n - i,
        {
            let ghost pre = spec_places_view(self.parking@.subrange(0, i as int));
            let ghost post = spec_places_view(self.parking@.subrange(0, i + 1));
            proof {
                assert(post.drop_last() =~= pre);
                assert(post.last() == self.parking@[i as int]@);
            }
            if self.place_matches(&self.parking[i], mood) {
                places.push(self.parking[i].clone());
                proof {
                    assert(spec_places_view(places@) =~= spec_places_view(
                        places@.drop_last(),
                    ).push(places@.last()@));
                }
            }
            i = i + 1;
        }
        assert(self.parking@.subrange(0, n as int) =~= self.parking@);
        places
    }
}

/// History of suggested places per part of day, rotated so that recent
/// suggestions are not repeated.
pub struct RecentPlace {
    pub rotation_days: Option<usize>,
    pub morning: Vec<String>,
    pub afternoon: Vec<String>,
}

/// Whether a name occurs in a list of names.
pub open spec fn spec_contains(l: Seq<Seq<char>>, x: Seq<char>) -> bool {
    exists|i: int| 0 <= i < l.len() && l[i] == x
}

impl RecentPlace {
    /// The name list kept for one part of the day.
    pub open spec fn spec_list(&self, part: PartOfDay) -> Seq<Seq<char>> {
        match part {
            PartOfDay::Morning => self.morning.deep_view(),
            PartOfDay::Afternoon => self.afternoon.deep_view(),
        }
    }

    /// A fresh history with the default rotation and no entries.
    pub fn new() -> (r: RecentPlace)
        ensures
            r.rotation_days == Some(DEFAULT_ROTATION_DAYS),
            r.spec_list(PartOfDay::Morning) == Seq::<Seq<char>>::empty(),
            r.spec_list(PartOfDay::Afternoon) == Seq::<Seq<char>>::empty(),
    {
        let r = RecentPlace {
            rotation_days: Some(DEFAULT_ROTATION_DAYS),
            morning: Vec::new(),
            afternoon: Vec::new(),
        };
        proof {
            assert(r.morning.deep_view() =~= Seq::<Seq<char>>::empty());
            assert(r.afternoon.deep_view() =~= Seq::<Seq<char>>::empty());
        }
        r
    }

    /// Whether this place was suggested recently for that part of day.
    pub fn check(&mut self, place: &str, part: PartOfDay) -> (r: bool)
        ensures
            *final(self) == *old(self),
            r == spec_contains(old(self).spec_list(part), place@),
    {
        let target = String::from_str(place);
        let list = match part {
            PartOfDay::Morning => &self.morning,
            PartOfDay::Afternoon => &self.afternoon,
        };
        let ghost glist = old(self).spec_list(part);
        assert(glist == list.deep_view());
        let n = list.len();
        let mut i: usize = 0;
        while i < n
            invariant
                n == list@.len(),
                glist == list.deep_view(),
                glist == old(self).spec_list(part),
                *self == *old(self),
                target@ == place@,
                i <= n,
                forall|j: int| 0 <= j < i ==> glist[j] != place@,
            decreases n - i,
        {
            assert(glist[i as int] == list@[i as int]@);
            if list[i] == target {
                assert(spec_contains(glist, place@)) by {
                    assert(0 <= i < glist.len() && glist[i as int] == place@);
                }
                return true;
            }
            i = i + 1;
        }
        assert(glist.len() == n);
        false
    }

    /// Record today's suggestion for that part of day, dropping the
    /// oldest entry once the list has reached the rotation length.
    pub fn today_place(&mut self, place: &str, part: PartOfDay)
        ensures
            final(self).rotation_days == old(self).rotation_days,
            ({
                let pushed = old(self).spec_list(part).push(place@);
                let rotated = match old(self).rotation_days {
                    Some(d) => if pushed.len() >= d {
                        pushed.drop_first()
                    } else {
                        pushed
                    },
                    None => pushed,
                };
                final(self).spec_list(part) == rotated
            }),
            final(self).spec_list(
                match part {
                    PartOfDay::Morning => PartOfDay::Afternoon,
                    PartOfDay::Afternoon => PartOfDay::Morning,
                },
            ) == old(self).spec_list(
                match part {
                    PartOfDay::Morning => PartOfDay::Afternoon,
                    PartOfDay::Afternoon => PartOfDay::Morning,
                },
            ),
    {
        let owned = String::from_str(place);
        let rot = self.rotation_days;
        let list = match part {
            PartOfDay::Morning => &mut self.morning,
            PartOfDay::Afternoon => &mut self.afternoon,
        };
        list.push(owned);
        match rot {
            Some(d) => {
                if list.len() >= d {
                    list.remove(0);
                }
            },
            None => {},
        }
        proof {
            let pushed = old(self).spec_list(part).push(place@);
            assert(self.spec_list(part) =~= (match old(self).rotation_days {
                Some(d) => if pushed.len() >= d {
                    pushed.drop_first()
                } else {
                    pushed
                },
                None => pushed,
            }));
        }
    }

    /// A copy of the names kept for that part of day.
    pub fn get_places(&self, part: PartOfDay) -> (r: Vec<String>)
        ensures
            r.deep_view() == self.spec_list(part),
    {
        match part {
            PartOfDay::Morning => self.morning.clone(),
            PartOfDay::Afternoon => self.afternoon.clone(),
        }
    }

    /// The first candidate place not suggested recently for that part of
    /// day, by name; `None` when every candidate was suggested recently.
    pub fn first_unvisited(&mut self, candidates: &Vec<Place>, part: PartOfDay) -> (r: Option<
        String,
    >)
        ensures
            *final(self) == *old(self),
            ({
                let list = old(self).spec_list(part);
                &&& (r is None <==> forall|i: int|
                    0 <= i < candidates@.len() ==> spec_contains(
                        list,
                        (#[trigger] candidates@[i]).name@,
                    ))
                &&& (r matches Some(name) ==> exists|i: int|
                    0 <= i < candidates@.len() && !spec_contains(
                        list,
                        (#[trigger] candidates@[i]).name@,
                    ) && name@ == candidates@[i].name@ && (forall|j: int|
                        0 <= j < i ==> spec_contains(list, (#[trigger] candidates@[j]).name@)))
            }),
    {
        let n = candidates.len();
        let mut i: usize = 0;
        while i < n
            invariant
                n == candidates@.len(),
                i <= n,
                *self == *old(self),
                forall|j: int|
                    0 <= j < i ==> spec_contains(
                        old(self).spec_list(part),
                        (#[trigger] candidates@[j]).name@,
                    ),
            decreases n - i,
        {
            if !self.check(candidates[i].name.as_str(), part) {
                return Some(candidates[i].name.clone());
            }
            i = i + 1;
        }
        None
    }
}

} // verus!
