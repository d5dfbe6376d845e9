//! The grammar of the paths: which place a path names, and whether the
//! segment after a collection is an id or a name.

use vstd::prelude::*;
use vstd::string::*;
use crate::records::Kind;

verus! {

/// The two services. The meals service holds dishes and meals; the diets
/// service holds diets.
#[derive(Clone, Copy, Debug, PartialEq, Eq, Structural)]
pub enum Service {
    Meals,
    Diets,
}

/// What the segment after a collection selects.
#[derive(Debug, PartialEq, Eq)]
pub enum Selector {
    /// The record with this id.
    Id(i32),
    /// A number too large to be the id of any record.
    Beyond,
    /// The record of this name.
    Name(String),
}

/// The mathematical value of a [`Selector`].
pub enum SelectorView {
    Id(i32),
    Beyond,
    Name(Seq<char>),
}

impl View for Selector {
    type V = SelectorView;

    open spec fn view(&self) -> SelectorView {
        match self {
            Selector::Id(id) => SelectorView::Id(*id),
            Selector::Beyond => SelectorView::Beyond,
            Selector::Name(name) => SelectorView::Name(name@),
        }
    }
}

/// Whether a character is one of the ten digits.
pub open spec fn is_digit(c: char) -> bool {
    '0' <= c <= '9'
}

/// Whether a segment is a number: one digit or more, and nothing else.
pub open spec fn is_numeric(segment: Seq<char>) -> bool {
    segment.len() > 0 && forall|i: int| 0 <= i < segment.len() ==> is_digit(#[trigger] segment[i])
}

/// The number that a sequence of digits writes in base ten.
pub open spec fn decimal(digits: Seq<char>) -> nat
    decreases digits.len(),
{
    if digits.len() == 0 {
        0
    } else {
        (decimal(digits.drop_last()) * 10 + (digits.last() as u32 - '0' as u32)) as nat
    }
}

/// What a segment selects: a numeric segment is an id, or lies beyond all
/// ids where it exceeds their range; every other segment is a name.
pub open spec fn selector_of(segment: Seq<char>) -> SelectorView {
    if is_numeric(segment) {
        if decimal(segment) <= i32::MAX {
            SelectorView::Id(decimal(segment) as i32)
        } else {
            SelectorView::Beyond
        }
    } else {
        SelectorView::Name(segment)
    }
}

proof fn lemma_decimal_grows(digits: Seq<char>, i: int)
    requires
        0 <= i < digits.len(),
        is_digit(digits[i]),
    ensures
        decimal(digits.take(i + 1)) == decimal(digits.take(i)) * 10 + (digits[i] as u32 - '0' as u32),
        decimal(digits.take(i + 1)) >= decimal(digits.take(i)),
{
    assert(digits.take(i + 1).drop_last() =~= digits.take(i));
}

/// Tells what a segment selects.
pub fn classify_segment(segment: &str) -> (selector: Selector)
    ensures
        selector@ == selector_of(segment@),
{
    if !segment.is_ascii() {
        return Selector::Name(segment.to_owned());
    }
    let n: usize = segment.unicode_len();
    if n == 0 {
        return Selector::Name(segment.to_owned());
    }
    let mut value: i64 = 0;
    let mut beyond: bool = false;
    let mut i: usize = 0;
    while i < n
        invariant
            i <= n,
            n == segment@.len(),
            segment.is_ascii(),
            forall|j: int| 0 <= j < i ==> is_digit(#[trigger] segment@[j]),
            beyond ==> decimal(segment@.take(i as int)) > i32::MAX,
            !beyond ==> value == decimal(segment@.take(i as int)) && value <= i32::MAX,
        decreases n - i,
    {
        let b: u8 = segment.get_ascii(i);
        if b < 48 || b > 57 {
            assert(!is_digit(segment@[i as int]));
            return Selector::Name(segment.to_owned());
        }
        proof {
            lemma_decimal_grows(segment@, i as int);
        }
        if !beyond {
            value = value * 10 + (b - 48) as i64;
            if value > 2147483647 {
                beyond = true;
            }
        }
        i += 1;
    }
    assert(segment@.take(n as int) =~= segment@);
    if beyond {
        Selector::Beyond
    } else {
        Selector::Id(value as i32)
    }
}

/// What a path names.
#[derive(Debug, PartialEq, Eq)]
pub enum Place {
    /// The root of the service.
    Root,
    /// The collection of all the records of a kind.
    Collection(Kind),
    /// One record of a kind.
    Item(Kind, Selector),
    /// Nothing that the service has.
    Nowhere,
}

/// The mathematical value of a [`Place`].
pub enum PlaceView {
    Root,
    Collection(Kind),
    Item(Kind, SelectorView),
    Nowhere,
}

impl View for Place {
    type V = PlaceView;

    open spec fn view(&self) -> PlaceView {
        match self {
            Place::Root => PlaceView::Root,
            Place::Collection(kind) => PlaceView::Collection(*kind),
            Place::Item(kind, selector) => PlaceView::Item(*kind, selector@),
            Place::Nowhere => PlaceView::Nowhere,
        }
    }
}

/// The path of the collection of a kind.
pub open spec fn collection_path(kind: Kind) -> Seq<char> {
    match kind {
        Kind::Dish => "/dishes"@,
        Kind::Meal => "/meals"@,
        Kind::Diet => "/diets"@,
    }
}

/// How a path lies under a prefix.
pub enum Under<T> {
    /// The path does not begin with the prefix, or goes on without a slash.
    Apart,
    /// The path is the prefix.
    Same,
    /// The path is the prefix, a slash, and this rest, which may be empty
    /// and may hold further slashes.
    Below(T),
}

/// How `path` lies under `prefix`.
pub open spec fn under(path: Seq<char>, prefix: Seq<char>) -> Under<Seq<char>> {
    if path.len() < prefix.len() || path.subrange(0, prefix.len() as int) != prefix {
        Under::Apart
    } else if path.len() == prefix.len() {
        Under::Same
    } else if path[prefix.len() as int] == '/' {
        Under::Below(path.subrange(prefix.len() as int + 1, path.len() as int))
    } else {
        Under::Apart
    }
}

/// The place that a path names among the records of one kind, if it names one.
pub open spec fn place_among(kind: Kind, path: Seq<char>) -> Option<PlaceView> {
    match under(path, collection_path(kind)) {
        Under::Apart => None,
        Under::Same => Some(PlaceView::Collection(kind)),
        Under::Below(rest) => Some(PlaceView::Item(kind, selector_of(rest))),
    }
}

/// The place that a path names in a service.
pub open spec fn place_of(service: Service, path: Seq<char>) -> PlaceView {
    if path =~= seq!['/'] {
        PlaceView::Root
    } else {
        match service {
            Service::Meals => match place_among(Kind::Dish, path) {
                Some(place) => place,
                None => match place_among(Kind::Meal, path) {
                    Some(place) => place,
                    None => PlaceView::Nowhere,
                },
            },
            Service::Diets => match place_among(Kind::Diet, path) {
                Some(place) => place,
                None => PlaceView::Nowhere,
            },
        }
    }
}

fn split_under<'a>(path: &'a str, prefix: &str) -> (r: Under<&'a str>)
    ensures
        match under(path@, prefix@) {
            Under::Apart => r is Apart,
            Under::Same => r is Same,
            Under::Below(rest) => r matches Under::Below(given) && given@ == rest,
        },
{
    let n: usize = path.unicode_len();
    let k: usize = prefix.unicode_len();
    if n < k {
        return Under::Apart;
    }
    let mut i: usize = 0;
    while i < k
        invariant
            i <= k <= n,
            n == path@.len(),
            k == prefix@.len(),
            forall|j: int| 0 <= j < i ==> path@[j] == prefix@[j],
        decreases k - i,
    {
        if path.get_char(i) != prefix.get_char(i) {
            assert(path@.subrange(0, k as int)[i as int] != prefix@[i as int]);
            return Under::Apart;
        }
        i += 1;
    }
    assert(path@.subrange(0, k as int) =~= prefix@);
    if n == k {
        Under::Same
    } else if path.get_char(k) == '/' {
        Under::Below(path.substring_char(k + 1, n))
    } else {
        Under::Apart
    }
}

fn locate_among(kind: Kind, path: &str) -> (r: Option<Place>)
    ensures
        match place_among(kind, path@) {
            Some(place) => r matches Some(given) && given@ == place,
            None => r is None,
        },
{
    let prefix = match kind {
        Kind::Dish => "/dishes",
        Kind::Meal => "/meals",
        Kind::Diet => "/diets",
    };
    match split_under(path, prefix) {
        Under::Apart => None,
        Under::Same => Some(Place::Collection(kind)),
        Under::Below(rest) => Some(Place::Item(kind, classify_segment(rest))),
    }
}

/// Finds the place that a path names in a service.
pub fn locate(service: Service, path: &str) -> (place: Place)
    ensures
        place@ == place_of(service, path@),
{
    if path.unicode_len() == 1 && path.get_char(0) == '/' {
        return Place::Root;
    }
    match service {
        Service::Meals => match locate_among(Kind::Dish, path) {
            Some(place) => place,
            None => match locate_among(Kind::Meal, path) {
                Some(place) => place,
                None => Place::Nowhere,
            },
        },
        Service::Diets => match locate_among(Kind::Diet, path) {
            Some(place) => place,
            None => Place::Nowhere,
        },
    }
}

} // verus!
