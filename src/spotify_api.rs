use crate::text::{join_first, joined, views};
use vstd::prelude::*;

verus! {

/// Where track searches are sent; the escaped query follows.
pub const SEARCH_ENDPOINT: &'static str = "https://spotify-search-api-test.herokuapp.com/search/tracks?track=";

/// A track found by a search.
#[derive(Clone, Debug)]
pub struct Track {
    pub name: String,
    pub id: String,
    pub artists: Vec<Artist>,
    pub album: Album,
}

#[derive(Clone, Debug)]
pub struct Artist {
    pub name: String,
}

#[derive(Clone, Debug)]
pub struct Album {
    pub name: String,
}

/// The names of a track's artists, in order.
pub open spec fn artist_names(t: Track) -> Seq<Seq<char>> {
    t.artists@.map_values(|a: Artist| a.name@)
}

/// The artists as they are read out: all but the last separated by `", "`,
/// then `" and "` and the last; a single artist stands alone.
pub open spec fn artist_phrase(names: Seq<Seq<char>>) -> Seq<char> {
    if names.len() <= 1 {
        joined(names, ", "@)
    } else {
        joined(names.drop_last(), ", "@) + " and "@ + names.last()
    }
}

/// `<name> by <artists> on <album>`.
pub open spec fn track_line(t: Track) -> Seq<char> {
    t.name@ + " by "@ + artist_phrase(artist_names(t)) + " on "@ + t.album.name@
}

/// A search query as it stands in a URL: each space becomes `%20`.
pub open spec fn escaped_query(q: Seq<char>) -> Seq<char>
    decreases q.len(),
{
    if q.len() == 0 {
        Seq::empty()
    } else if q.last() == ' ' {
        escaped_query(q.drop_last()) + "%20"@
    } else {
        escaped_query(q.drop_last()).push(q.last())
    }
}

impl Track {
    /// The line that shows this track to a person: `<name> by <artists> on <album>`.
    pub fn display_string(&self) -> (r: String)
        requires
            self.artists@.len() > 0,
        ensures
            r@ == track_line(*self),
    {
        let mut names: Vec<String> = Vec::new();
        let mut k: usize = 0;
        while k < self.artists.len()
            invariant
                k <= self.artists@.len(),
                names@.len() == k,
                views(names@) == artist_names(*self).take(k as int),
            decreases self.artists@.len() - k,
        {
            let name = self.artists[k].name.clone();
            assert(name@ == artist_names(*self)[k as int]);
            names.push(name);
            assert(views(names@) =~= artist_names(*self).take(k + 1));
            k += 1;
        }
        let ghost all = artist_names(*self);
        assert(views(names@) =~= all);
        assert(all.len() == names@.len());
        let n = names.len();
        let mut out = self.name.clone();
        out.append(" by ");
        if n == 1 {
            assert(views(names@).take(1) =~= all);
            let phrase = join_first(&names, 1, ", ");
            out.append(phrase.as_str());
        } else {
            assert(views(names@).take(n - 1) =~= all.drop_last());
            let head = join_first(&names, n - 1, ", ");
            out.append(head.as_str());
            out.append(" and ");
            out.append(names[n - 1].as_str());
        }
        out.append(" on ");
        out.append(self.album.name.as_str());
        out
    }
}

/// A query with each space written as `%20`.
pub fn escape_query(query: &str) -> (r: String)
    ensures
        r@ == escaped_query(query@),
{
    let n = query.unicode_len();
    let mut out = String::new();
    let mut k: usize = 0;
    while k < n
        invariant
            n == query@.len(),
            k <= n,
            out@ == escaped_query(query@.take(k as int)),
        decreases n - k,
    {
        assert(query@.take(k + 1).drop_last() =~= query@.take(k as int));
        if query.get_char(k) == ' ' {
            out.append("%20");
        } else {
            let one = query.substring_char(k, k + 1);
            assert(one@ =~= seq![query@[k as int]]);
            out.append(one);
        }
        assert(out@ =~= escaped_query(query@.take(k + 1)));
        k += 1;
    }
    assert(query@.take(n as int) =~= query@);
    out
}

/// The address that searches for tracks matching `query`.
pub fn search_url(query: &str) -> (r: String)
    ensures
        r@ == SEARCH_ENDPOINT@ + escaped_query(query@),
{
    let escaped = escape_query(query);
    let mut out = String::from_str(SEARCH_ENDPOINT);
    out.append(escaped.as_str());
    out
}

} // verus!
