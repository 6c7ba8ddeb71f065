use crate::text::{join, joined, views};
use vstd::prelude::*;

verus! {

/// The key of the track's title.
pub const TITLE_KEY: &'static str = "xesam:title";

/// The key of the track's artists.
pub const ARTIST_KEY: &'static str = "xesam:artist";

/// The key of the track's album.
pub const ALBUM_KEY: &'static str = "xesam:album";

/// The key of the address of the track's artwork.
pub const ART_URL_KEY: &'static str = "mpris:artUrl";

/// A dynamically typed value of the player's property bag.
#[derive(Debug)]
pub enum Value {
    Bool(bool),
    Int(i64),
    UInt(u64),
    Str(String),
    ObjectPath(String),
    Array(Vec<Value>),
    /// A value wrapped once more in a variant.
    Variant(Box<Value>),
    /// Any other kind of value (a float, a dictionary, a structure, ...).
    Other,
}

/// The text a value holds, looking through one variant wrapper.
pub open spec fn as_text(v: Value) -> Option<Seq<char>> {
    match v {
        Value::Str(s) => Some(s@),
        Value::Variant(inner) => match *inner {
            Value::Str(s) => Some(s@),
            _ => None,
        },
        _ => None,
    }
}

/// The items of an array value, looking through one variant wrapper.
pub open spec fn as_items(v: Value) -> Option<Seq<Value>> {
    match v {
        Value::Array(items) => Some(items@),
        Value::Variant(inner) => match *inner {
            Value::Array(items) => Some(items@),
            _ => None,
        },
        _ => None,
    }
}

/// The texts among `items`, in order; the other items are left out.
pub open spec fn texts_in(items: Seq<Value>) -> Seq<Seq<char>>
    decreases items.len(),
{
    if items.len() == 0 {
        Seq::empty()
    } else {
        match as_text(items.last()) {
            Some(s) => texts_in(items.drop_last()).push(s),
            None => texts_in(items.drop_last()),
        }
    }
}

/// The value of the first entry with the given key.
pub open spec fn find(entries: Seq<(String, Value)>, key: Seq<char>) -> Option<Value>
    decreases entries.len(),
{
    if entries.len() == 0 {
        None
    } else if entries[0].0@ == key {
        Some(entries[0].1)
    } else {
        find(entries.subrange(1, entries.len() as int), key)
    }
}

proof fn lemma_find_first(entries: Seq<(String, Value)>, i: int, key: Seq<char>)
    requires
        0 <= i <= entries.len(),
        forall|j: int| 0 <= j < i ==> (#[trigger] entries[j]).0@ != key,
    ensures
        i < entries.len() && entries[i].0@ == key ==> find(entries, key) == Some(entries[i].1),
        i == entries.len() ==> find(entries, key) is None,
    decreases i,
{
    if i > 0 {
        let rest = entries.subrange(1, entries.len() as int);
        assert forall|j: int| 0 <= j < i - 1 implies (#[trigger] rest[j]).0@ != key by {
            assert(rest[j] == entries[j + 1]);
        }
        lemma_find_first(rest, i - 1, key);
    }
}

proof fn lemma_find_push(entries: Seq<(String, Value)>, e: (String, Value), key: Seq<char>)
    ensures
        find(entries.push(e), key) == (match find(entries, key) {
            Some(v) => Some(v),
            None => if e.0@ == key {
                Some(e.1)
            } else {
                None
            },
        }),
    decreases entries.len(),
{
    let pushed = entries.push(e);
    if entries.len() > 0 {
        let rest = entries.subrange(1, entries.len() as int);
        assert(pushed[0] == entries[0]);
        assert(pushed.subrange(1, pushed.len() as int) =~= rest.push(e));
        lemma_find_push(rest, e, key);
    } else {
        assert(pushed[0] == e);
        assert(pushed.subrange(1, pushed.len() as int) =~= Seq::<(String, Value)>::empty());
        assert(find(Seq::<(String, Value)>::empty(), key) is None);
    }
}

proof fn lemma_find_update(entries: Seq<(String, Value)>, i: int, e: (String, Value), key: Seq<char>)
    requires
        0 <= i < entries.len(),
        entries[i].0@ == e.0@,
        forall|j: int| 0 <= j < i ==> (#[trigger] entries[j]).0@ != e.0@,
    ensures
        find(entries.update(i, e), key) == if key == e.0@ {
            Some(e.1)
        } else {
            find(entries, key)
        },
    decreases i,
{
    let updated = entries.update(i, e);
    let rest = entries.subrange(1, entries.len() as int);
    if i == 0 {
        assert(updated.subrange(1, updated.len() as int) =~= rest);
    } else {
        assert(updated.subrange(1, updated.len() as int) =~= rest.update(i - 1, e));
        assert forall|j: int| 0 <= j < i - 1 implies (#[trigger] rest[j]).0@ != e.0@ by {
            assert(rest[j] == entries[j + 1]);
        }
        assert(entries[0].0@ != e.0@);
        lemma_find_update(rest, i - 1, e, key);
    }
}

/// The player's property bag: values keyed by name.
pub struct PropertyMap {
    entries: Vec<(String, Value)>,
}

impl View for PropertyMap {
    type V = Map<Seq<char>, Value>;

    closed spec fn view(&self) -> Map<Seq<char>, Value> {
        Map::new(
            |k: Seq<char>| find(self.entries@, k) is Some,
            |k: Seq<char>| find(self.entries@, k)->Some_0,
        )
    }
}

impl PropertyMap {
    /// An empty property bag.
    pub fn new() -> (r: PropertyMap)
        ensures
            r@ == Map::<Seq<char>, Value>::empty(),
    {
        let r = PropertyMap { entries: Vec::new() };
        assert(r@ =~= Map::<Seq<char>, Value>::empty());
        r
    }

    /// Where the first entry with the given key stands.
    fn position(&self, key: &str) -> (r: Option<usize>)
        ensures
            match r {
                Some(i) => i < self.entries@.len() && self.entries@[i as int].0@ == key@ && forall|
                    j: int,
                | 0 <= j < i ==> (#[trigger] self.entries@[j]).0@ != key@,
                None => forall|j: int|
                    0 <= j < self.entries@.len() ==> (#[trigger] self.entries@[j]).0@ != key@,
            },
    {
        let mut i: usize = 0;
        while i < self.entries.len()
            invariant
                i <= self.entries@.len(),
                forall|j: int| 0 <= j < i ==> (#[trigger] self.entries@[j]).0@ != key@,
            decreases self.entries@.len() - i,
        {
            if crate::text::str_eq(self.entries[i].0.as_str(), key) {
                return Some(i);
            }
            i += 1;
        }
        None
    }

    /// Sets the value of `key`, replacing the value it had.
    pub fn insert(&mut self, key: String, value: Value)
        ensures
            final(self)@ == old(self)@.insert(key@, value),
    {
        let ghost k = key@;
        let ghost e = (key, value);
        match self.position(key.as_str()) {
            Some(i) => {
                proof {
                    assert forall|q: Seq<char>| true implies find(
                        self.entries@.update(i as int, e),
                        q,
                    ) == if q == k {
                        Some(value)
                    } else {
                        find(self.entries@, q)
                    } by {
                        lemma_find_update(self.entries@, i as int, e, q);
                    }
                }
                self.entries.set(i, (key, value));
            },
            None => {
                proof {
                    assert forall|q: Seq<char>| true implies find(self.entries@.push(e), q) == if q
                        == k {
                        Some(value)
                    } else {
                        find(self.entries@, q)
                    } by {
                        lemma_find_push(self.entries@, e, q);
                        if q == k {
                            lemma_find_first(self.entries@, self.entries@.len() as int, q);
                        }
                    }
                }
                self.entries.push((key, value));
            },
        }
        assert(self@ =~= old(self)@.insert(k, value));
    }

    /// The value of `key`, if the bag holds one.
    pub fn get(&self, key: &str) -> (r: Option<&Value>)
        ensures
            match r {
                Some(v) => self@.contains_key(key@) && self@[key@] == *v,
                None => !self@.contains_key(key@),
            },
    {
        match self.position(key) {
            Some(i) => {
                proof {
                    lemma_find_first(self.entries@, i as int, key@);
                }
                Some(&self.entries[i].1)
            },
            None => {
                proof {
                    lemma_find_first(self.entries@, self.entries@.len() as int, key@);
                }
                None
            },
        }
    }
}

/// What the player says of the track it is playing.
#[derive(Clone, Debug)]
pub struct Metadata {
    pub title: String,
    pub artists: Vec<String>,
    pub album: String,
    pub artwork: String,
}

/// Why a property bag could not be read as [`Metadata`].
#[derive(Clone, Debug)]
pub enum MetadataError {
    /// The key is absent, or its value is not of the expected shape.
    MissingKey(String),
    /// The key's value is not of the expected shape; kept for callers that tell the two apart.
    InvalidValueType(String),
}

/// The text under `key`, if the bag holds a text there.
pub open spec fn text_field(m: Map<Seq<char>, Value>, key: Seq<char>) -> Option<Seq<char>> {
    if m.contains_key(key) {
        as_text(m[key])
    } else {
        None
    }
}

/// The texts in the array under `key`, if the bag holds an array there.
pub open spec fn list_field(m: Map<Seq<char>, Value>, key: Seq<char>) -> Option<Seq<Seq<char>>> {
    if m.contains_key(key) {
        match as_items(m[key]) {
            Some(items) => Some(texts_in(items)),
            None => None,
        }
    } else {
        None
    }
}

/// The first of the four keys, in the order title, artists, album, artwork,
/// whose value is missing or of the wrong shape.
pub open spec fn first_missing_key(m: Map<Seq<char>, Value>) -> Option<Seq<char>> {
    if text_field(m, TITLE_KEY@) is None {
        Some(TITLE_KEY@)
    } else if list_field(m, ARTIST_KEY@) is None {
        Some(ARTIST_KEY@)
    } else if text_field(m, ALBUM_KEY@) is None {
        Some(ALBUM_KEY@)
    } else if text_field(m, ART_URL_KEY@) is None {
        Some(ART_URL_KEY@)
    } else {
        None
    }
}

/// The metadata that a bag holds: each field is what the bag holds under its key.
pub open spec fn describes(m: Map<Seq<char>, Value>, md: Metadata) -> bool {
    &&& text_field(m, TITLE_KEY@) == Some(md.title@)
    &&& list_field(m, ARTIST_KEY@) == Some(views(md.artists@))
    &&& text_field(m, ALBUM_KEY@) == Some(md.album@)
    &&& text_field(m, ART_URL_KEY@) == Some(md.artwork@)
}

/// What a decode of the bag returns: the metadata, or the key that failed it.
pub open spec fn decode_result(m: Map<Seq<char>, Value>, r: Result<Metadata, MetadataError>) -> bool {
    match r {
        Ok(md) => first_missing_key(m) is None && describes(m, md),
        Err(MetadataError::MissingKey(k)) => first_missing_key(m) == Some(k@),
        Err(MetadataError::InvalidValueType(_)) => false,
    }
}

/// The text a value holds, looking through one variant wrapper.
fn text_of(v: &Value) -> (r: Option<String>)
    ensures
        match r {
            Some(s) => as_text(*v) == Some(s@),
            None => as_text(*v) is None,
        },
{
    match v {
        Value::Str(s) => Some(s.clone()),
        Value::Variant(inner) => match &**inner {
            Value::Str(s) => Some(s.clone()),
            _ => None,
        },
        _ => None,
    }
}

/// The items of an array value, looking through one variant wrapper.
fn items_of(v: &Value) -> (r: Option<&Vec<Value>>)
    ensures
        match r {
            Some(items) => as_items(*v) == Some(items@),
            None => as_items(*v) is None,
        },
{
    match v {
        Value::Array(items) => Some(items),
        Value::Variant(inner) => match &**inner {
            Value::Array(items) => Some(items),
            _ => None,
        },
        _ => None,
    }
}

/// The text under `key`; `MissingKey(key)` where there is none.
fn get_string(map: &PropertyMap, key: &str) -> (r: Result<String, MetadataError>)
    ensures
        match r {
            Ok(s) => text_field(map@, key@) == Some(s@),
            Err(MetadataError::MissingKey(k)) => text_field(map@, key@) is None && k@ == key@,
            Err(MetadataError::InvalidValueType(_)) => false,
        },
{
    match map.get(key) {
        Some(v) => match text_of(v) {
            Some(s) => Ok(s),
            None => Err(MetadataError::MissingKey(String::from_str(key))),
        },
        None => Err(MetadataError::MissingKey(String::from_str(key))),
    }
}

/// The texts in the array under `key`, other items left out; `MissingKey(key)`
/// where there is no array.
fn get_string_vec(map: &PropertyMap, key: &str) -> (r: Result<Vec<String>, MetadataError>)
    ensures
        match r {
            Ok(v) => list_field(map@, key@) == Some(views(v@)),
            Err(MetadataError::MissingKey(k)) => list_field(map@, key@) is None && k@ == key@,
            Err(MetadataError::InvalidValueType(_)) => false,
        },
{
    let items = match map.get(key) {
        Some(v) => match items_of(v) {
            Some(items) => items,
            None => {
                return Err(MetadataError::MissingKey(String::from_str(key)));
            },
        },
        None => {
            return Err(MetadataError::MissingKey(String::from_str(key)));
        },
    };
    let mut out: Vec<String> = Vec::new();
    let mut k: usize = 0;
    while k < items.len()
        invariant
            k <= items@.len(),
            views(out@) == texts_in(items@.take(k as int)),
        decreases items@.len() - k,
    {
        assert(items@.take(k + 1).drop_last() =~= items@.take(k as int));
        assert(items@.take(k + 1).last() == items@[k as int]);
        match text_of(&items[k]) {
            Some(s) => {
                let ghost before = out@;
                out.push(s);
                assert(views(out@) =~= views(before).push(s@));
            },
            None => {},
        }
        k += 1;
    }
    assert(items@.take(items@.len() as int) =~= items@);
    Ok(out)
}

impl Metadata {
    /// Reads the metadata out of the player's property bag. Each field is looked
    /// up by its key; the first that is absent or of the wrong shape, in the order
    /// title, artists, album, artwork, fails the whole read with `MissingKey`.
    /// Items of the artist array that are not texts are left out.
    pub fn try_from(map: &PropertyMap) -> (r: Result<Metadata, MetadataError>)
        ensures
            decode_result(map@, r),
    {
        let title = match get_string(map, TITLE_KEY) {
            Ok(s) => s,
            Err(e) => {
                return Err(e);
            },
        };
        let artists = match get_string_vec(map, ARTIST_KEY) {
            Ok(v) => v,
            Err(e) => {
                return Err(e);
            },
        };
        let album = match get_string(map, ALBUM_KEY) {
            Ok(s) => s,
            Err(e) => {
                return Err(e);
            },
        };
        let artwork = match get_string(map, ART_URL_KEY) {
            Ok(s) => s,
            Err(e) => {
                return Err(e);
            },
        };
        Ok(Metadata { title, artists, album, artwork })
    }

    /// The body of the notification that shows this track: the artists joined by
    /// `", "`, then `" - "` and the album.
    pub fn notification_body(&self) -> (r: String)
        ensures
            r@ == joined(views(self.artists@), ", "@) + " - "@ + self.album@,
    {
        let mut out = join(&self.artists, ", ");
        out.append(" - ");
        out.append(self.album.as_str());
        out
    }
}

/// A bag that holds a text under the title, album and artwork keys and an
/// array under the artist key is read without error: each field is the value
/// under its key, and the artists are the texts of the array in order, its other
/// items left out.
pub proof fn law_decode_of_complete_bag(m: Map<Seq<char>, Value>, r: Result<Metadata, MetadataError>)
    requires
        decode_result(m, r),
        m.contains_key(TITLE_KEY@) && as_text(m[TITLE_KEY@]) is Some,
        m.contains_key(ARTIST_KEY@) && as_items(m[ARTIST_KEY@]) is Some,
        m.contains_key(ALBUM_KEY@) && as_text(m[ALBUM_KEY@]) is Some,
        m.contains_key(ART_URL_KEY@) && as_text(m[ART_URL_KEY@]) is Some,
    ensures
        r is Ok,
        r->Ok_0.title@ == as_text(m[TITLE_KEY@])->Some_0,
        views(r->Ok_0.artists@) == texts_in(as_items(m[ARTIST_KEY@])->Some_0),
        r->Ok_0.album@ == as_text(m[ALBUM_KEY@])->Some_0,
        r->Ok_0.artwork@ == as_text(m[ART_URL_KEY@])->Some_0,
{
}

/// Whether a key is one of the four that a read of the metadata needs.
pub open spec fn is_required_key(key: Seq<char>) -> bool {
    key == TITLE_KEY@ || key == ARTIST_KEY@ || key == ALBUM_KEY@ || key == ART_URL_KEY@
}

/// Whether the bag holds a value of the right shape under a required key.
pub open spec fn well_formed_at(m: Map<Seq<char>, Value>, key: Seq<char>) -> bool {
    if key == ARTIST_KEY@ {
        list_field(m, key) is Some
    } else {
        text_field(m, key) is Some
    }
}

proof fn lemma_required_keys_differ()
    ensures
        TITLE_KEY@ != ARTIST_KEY@,
        TITLE_KEY@ != ALBUM_KEY@,
        TITLE_KEY@ != ART_URL_KEY@,
        ARTIST_KEY@ != ALBUM_KEY@,
        ARTIST_KEY@ != ART_URL_KEY@,
        ALBUM_KEY@ != ART_URL_KEY@,
{
    reveal_strlit("xesam:title");
    reveal_strlit("xesam:artist");
    reveal_strlit("xesam:album");
    reveal_strlit("mpris:artUrl");
    assert(TITLE_KEY@.len() != ARTIST_KEY@.len());
    assert(TITLE_KEY@[6] != ALBUM_KEY@[6]);
    assert(TITLE_KEY@[0] != ART_URL_KEY@[0]);
    assert(ARTIST_KEY@[0] != ALBUM_KEY@[0] || ARTIST_KEY@.len() != ALBUM_KEY@.len());
    assert(ARTIST_KEY@[0] != ART_URL_KEY@[0]);
    assert(ALBUM_KEY@[0] != ART_URL_KEY@[0]);
}

/// A bag that lacks exactly one of the four required keys, and holds the other
/// three with values of the right shape, fails the read with `MissingKey`
/// naming exactly that key.
pub proof fn law_decode_names_missing_key(
    m: Map<Seq<char>, Value>,
    key: Seq<char>,
    r: Result<Metadata, MetadataError>,
)
    requires
        decode_result(m, r),
        is_required_key(key),
        !m.contains_key(key),
        forall|other: Seq<char>|
            is_required_key(other) && other != key ==> #[trigger] well_formed_at(m, other),
    ensures
        r matches Err(MetadataError::MissingKey(k)) && k@ == key,
{
    lemma_required_keys_differ();
    assert(is_required_key(TITLE_KEY@));
    assert(is_required_key(ARTIST_KEY@));
    assert(well_formed_at(m, TITLE_KEY@) || key == TITLE_KEY@);
    assert(well_formed_at(m, ARTIST_KEY@) || key == ARTIST_KEY@);
    assert(well_formed_at(m, ALBUM_KEY@) || key == ALBUM_KEY@);
    assert(well_formed_at(m, ART_URL_KEY@) || key == ART_URL_KEY@);
}

impl MetadataError {
    /// The message that reports this error.
    pub fn message(&self) -> (r: String)
        ensures
            r@ == match self {
                MetadataError::MissingKey(k) => "Missing metadata key: "@ + k@,
                MetadataError::InvalidValueType(k) => "Invalid value type for key: "@ + k@,
            },
    {
        match self {
            MetadataError::MissingKey(k) => String::from_str("Missing metadata key: ").concat(
                k.as_str(),
            ),
            MetadataError::InvalidValueType(k) => String::from_str(
                "Invalid value type for key: ",
            ).concat(k.as_str()),
        }
    }
}

} // verus!
