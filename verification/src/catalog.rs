//! What the movie catalog hands out: movies, genres, watch providers, and the
//! cards that show them.

use vstd::prelude::*;
use vstd::string::*;
use crate::criteria::Decade;
use crate::text::same_text;

verus! {

/// A movie of the catalog.
#[derive(Debug, PartialEq, Eq)]
pub struct Movie {
    pub id: i64,
    pub overview: String,
    pub poster_path: Option<String>,
    pub release_date: String,
    pub title: String,
}

impl Clone for Movie {
    fn clone(&self) -> (r: Self)
        ensures
            r == *self,
    {
        Movie {
            id: self.id,
            overview: self.overview.clone(),
            poster_path: match &self.poster_path {
                Some(p) => Some(p.clone()),
                None => None,
            },
            release_date: self.release_date.clone(),
            title: self.title.clone(),
        }
    }
}

/// The answer to a search by title.
#[derive(Debug, PartialEq, Eq)]
pub struct SearchByTitleResponse {
    pub results: Vec<Movie>,
}

/// A service on which movies can be watched.
#[derive(Debug, PartialEq, Eq)]
pub struct WatchProvider {
    pub logo_path: String,
    pub provider_id: i32,
    pub provider_name: String,
}

impl Clone for WatchProvider {
    fn clone(&self) -> (r: Self)
        ensures
            r == *self,
    {
        WatchProvider {
            logo_path: self.logo_path.clone(),
            provider_id: self.provider_id,
            provider_name: self.provider_name.clone(),
        }
    }
}

/// The providers of one region; `flatrate` are the subscription services.
#[derive(Debug, PartialEq, Eq)]
pub struct WatchProviderRegion {
    pub flatrate: Vec<WatchProvider>,
}

/// The regions that the engine looks at.
#[derive(Debug, PartialEq, Eq)]
pub struct WatchProviderRegions {
    pub us: WatchProviderRegion,
}

/// The answer to a provider lookup for one movie.
#[derive(Debug, PartialEq, Eq)]
pub struct GetWatchProvidersResponse {
    pub results: WatchProviderRegions,
}

/// A genre of the catalog.
#[derive(Debug, PartialEq, Eq)]
pub struct Genre {
    pub id: i32,
    pub name: String,
}

/// The catalog's list of genres.
#[derive(Debug, PartialEq, Eq)]
pub struct GetGenresResponse {
    pub genres: Vec<Genre>,
}

/// The catalog's list of providers.
#[derive(Debug, PartialEq, Eq)]
pub struct GetProvidersResponse {
    pub results: Vec<WatchProvider>,
}

/// The answer to a discovery query.
#[derive(Debug, PartialEq, Eq)]
pub struct GetRecommendationsResponse {
    pub results: Vec<Movie>,
}

/// A movie with the subscription services that show it.
#[derive(Debug, PartialEq, Eq)]
pub struct MovieRecommendation {
    pub movie: Movie,
    pub providers: Vec<WatchProvider>,
}

/// What `str::replace` makes of `text` when it puts `to` in the place of each
/// match of `from`.
pub uninterp spec fn replaced(text: Seq<char>, from: Seq<char>, to: Seq<char>) -> Seq<char>;

/// `str::replace` of the standard library. The result is named, not spelled
/// out: the contract claims only that it depends on the three texts alone.
#[verifier::external_body]
pub(crate) fn replace_text(text: &str, from: &str, to: &str) -> (r: String)
    ensures
        r@ == replaced(text@, from@, to@),
{
    text.replace(from, to)
}

/// A copy of a list of providers.
pub fn copy_providers(list: &Vec<WatchProvider>) -> (r: Vec<WatchProvider>)
    ensures
        r@ == list@,
{
    let mut out: Vec<WatchProvider> = Vec::new();
    let mut i: usize = 0;
    while i < list.len()
        invariant
            i <= list.len(),
            out@ == list@.take(i as int),
        decreases list.len() - i,
    {
        out.push(list[i].clone());
        proof {
            assert(out@ =~= list@.take(i as int + 1));
        }
        i = i + 1;
    }
    proof {
        assert(list@.take(i as int) =~= list@);
    }
    out
}

/// Where the artwork of the cards lives.
pub open spec fn assets_root() -> Seq<char> {
    "https://raw.githubusercontent.com/rhysbratti/moodie_assets/master/"@
}

/// Where the posters of the catalog live.
pub open spec fn poster_root() -> Seq<char> {
    "https://image.tmdb.org/t/p/w500/"@
}

/// The picture shown for a movie without a poster.
pub open spec fn missing_poster() -> Seq<char> {
    "https://raw.githubusercontent.com/rhysbratti/moodie_assets/master/question_mark.png"@
}

/// What a card of the wizard shows.
pub trait CardData {
    fn get_id(&self) -> i32;

    fn get_display(&self) -> String;

    fn get_logo_path(&self) -> String;

    fn has_body(&self) -> bool;
}

impl CardData for Genre {
    fn get_id(&self) -> (id: i32)
        ensures
            id == self.id,
    {
        self.id
    }

    fn get_display(&self) -> (s: String)
        ensures
            s@ == self.name@,
    {
        self.name.clone()
    }

    fn get_logo_path(&self) -> (s: String)
        ensures
            s@ == Seq::<char>::empty(),
    {
        String::new()
    }

    fn has_body(&self) -> (b: bool)
        ensures
            !b,
    {
        false
    }
}

impl CardData for MovieRecommendation {
    fn get_id(&self) -> (id: i32)
        ensures
            id == self.movie.id as i32,
    {
        #[verifier::truncate]
        (self.movie.id as i32)
    }

    fn get_display(&self) -> (s: String)
        ensures
            s@ == self.movie.title@,
    {
        self.movie.title.clone()
    }

    fn get_logo_path(&self) -> (s: String)
        ensures
            s@ == match self.movie.poster_path {
                Some(p) => poster_root() + p@,
                None => missing_poster(),
            },
    {
        match &self.movie.poster_path {
            Some(path) => {
                let mut s = String::from_str("https://image.tmdb.org/t/p/w500/");
                s.append(path.as_str());
                s
            },
            None => String::from_str(
                "https://raw.githubusercontent.com/rhysbratti/moodie_assets/master/question_mark.png",
            ),
        }
    }

    fn has_body(&self) -> (b: bool)
        ensures
            b,
    {
        true
    }
}

impl CardData for WatchProvider {
    fn get_id(&self) -> (id: i32)
        ensures
            id == self.provider_id,
    {
        self.provider_id
    }

    fn get_display(&self) -> (s: String)
        ensures
            s@ == self.provider_name@,
    {
        self.provider_name.clone()
    }

    fn get_logo_path(&self) -> (s: String)
        ensures
            s@ == assets_root() + replaced(self.provider_name@, " "@, "_"@) + "/logo.png"@,
    {
        let folder = replace_text(self.provider_name.as_str(), " ", "_");
        let mut s = String::from_str(
            "https://raw.githubusercontent.com/rhysbratti/moodie_assets/master/",
        );
        s.append(folder.as_str());
        s.append("/logo.png");
        s
    }

    fn has_body(&self) -> (b: bool)
        ensures
            !b,
    {
        false
    }
}

impl CardData for Decade {
    fn get_id(&self) -> (id: i32)
        ensures
            id == self.ordinal(),
    {
        match self {
            Decade::Classic => 1,
            Decade::Fifties => 2,
            Decade::Sixties => 3,
            Decade::Seventies => 4,
            Decade::Eighties => 5,
            Decade::Nineties => 6,
            Decade::TwoThousands => 7,
            Decade::TwentyTens => 8,
            Decade::Recent => 9,
        }
    }

    fn get_display(&self) -> (s: String)
        ensures
            s@ == self.display_name(),
    {
        self.label()
    }

    fn get_logo_path(&self) -> (s: String)
        ensures
            s@ == Seq::<char>::empty(),
    {
        String::new()
    }

    fn has_body(&self) -> (b: bool)
        ensures
            !b,
    {
        false
    }
}

/// `s` without the items equal to `x`, the others in their order.
pub open spec fn removed(s: Seq<i32>, x: i32) -> Seq<i32>
    decreases s.len(),
{
    if s.len() == 0 {
        s
    } else if s.last() == x {
        removed(s.drop_last(), x)
    } else {
        removed(s.drop_last(), x).push(s.last())
    }
}

/// A selection after a card is clicked: the card leaves it if it was in, and
/// joins it at the end if it was not.
pub open spec fn toggled(s: Seq<i32>, x: i32) -> Seq<i32> {
    if s.contains(x) {
        removed(s, x)
    } else {
        s.push(x)
    }
}

/// What is left of a selection holds no item equal to the one removed.
pub proof fn lemma_removed_lacks(s: Seq<i32>, x: i32)
    ensures
        !removed(s, x).contains(x),
    decreases s.len(),
{
    if s.len() > 0 {
        lemma_removed_lacks(s.drop_last(), x);
        if s.last() != x {
            let rest = removed(s.drop_last(), x);
            let grown = rest.push(s.last());
            if grown.contains(x) {
                let i = choose|i: int| 0 <= i < grown.len() && grown[i] == x;
                assert(rest[i] == x);
            }
        }
    }
}

/// A selection that a click can change.
pub trait AddOrRemove<T> {
    fn add_or_remove(&mut self, entry: T);
}

impl AddOrRemove<i32> for Vec<i32> {
    fn add_or_remove(&mut self, entry: i32)
        ensures
            final(self)@ == toggled(old(self)@, entry),
    {
        let mut kept: Vec<i32> = Vec::new();
        let mut found = false;
        let mut i: usize = 0;
        while i < self.len()
            invariant
                i <= self.len(),
                *self == *old(self),
                kept@ == removed(self@.take(i as int), entry),
                found == self@.take(i as int).contains(entry),
            decreases self.len() - i,
        {
            let x = self[i];
            proof {
                let before = self@.take(i as int);
                let next = self@.take(i as int + 1);
                assert(next.drop_last() =~= before);
                assert(next.last() == x);
                assert(next =~= before.push(x));
                if before.contains(entry) {
                    let j = choose|j: int| 0 <= j < before.len() && before[j] == entry;
                    assert(next[j] == entry);
                }
                if next.contains(entry) && x != entry {
                    let j = choose|j: int| 0 <= j < next.len() && next[j] == entry;
                    assert(before[j] == entry);
                }
                if x == entry {
                    assert(next[i as int] == entry);
                }
            }
            if x == entry {
                found = true;
            } else {
                kept.push(x);
            }
            i = i + 1;
        }
        proof {
            assert(self@.take(i as int) =~= self@);
        }
        if found {
            *self = kept;
        } else {
            self.push(entry);
        }
    }
}

/// Whether the wizard offers a provider of this name.
pub open spec fn is_supported(name: Seq<char>) -> bool {
    ||| name == "Netflix"@
    ||| name == "Hulu"@
    ||| name == "Apple TV"@
    ||| name == "Peacock"@
    ||| name == "Amazon Prime Video"@
    ||| name == "Max"@
    ||| name == "Disney Plus"@
    ||| name == "Tubi"@
    ||| name == "Crunchyroll"@
    ||| name == "Paramount Plus"@
}

/// The providers of `listed` that the wizard offers, in the catalog's order.
pub open spec fn supported_of(listed: Seq<WatchProvider>) -> Seq<WatchProvider>
    decreases listed.len(),
{
    if listed.len() == 0 {
        listed
    } else if is_supported(listed.last().provider_name@) {
        supported_of(listed.drop_last()).push(listed.last())
    } else {
        supported_of(listed.drop_last())
    }
}

/// Whether `shown` is `listed` with the logo's `jpg` turned into `svg`.
pub open spec fn shows(shown: WatchProvider, listed: WatchProvider) -> bool {
    &&& shown.provider_id == listed.provider_id
    &&& shown.provider_name@ == listed.provider_name@
    &&& shown.logo_path@ == replaced(listed.logo_path@, "jpg"@, "svg"@)
}

/// Whether the wizard offers a provider of this name.
pub fn supports(name: &str) -> (b: bool)
    ensures
        b == is_supported(name@),
{
    same_text(name, "Netflix") || same_text(name, "Hulu") || same_text(name, "Apple TV")
        || same_text(name, "Peacock") || same_text(name, "Amazon Prime Video") || same_text(
        name,
        "Max",
    ) || same_text(name, "Disney Plus") || same_text(name, "Tubi") || same_text(
        name,
        "Crunchyroll",
    ) || same_text(name, "Paramount Plus")
}

/// The providers that the wizard offers, out of the catalog's list, each with
/// its logo in the form that the cards use.
pub fn simple_watch_providers(listed: &Vec<WatchProvider>) -> (r: Vec<WatchProvider>)
    ensures
        r@.len() == supported_of(listed@).len(),
        forall|i: int| 0 <= i < r@.len() ==> shows(#[trigger] r@[i], supported_of(listed@)[i]),
{
    let mut out: Vec<WatchProvider> = Vec::new();
    let mut i: usize = 0;
    while i < listed.len()
        invariant
            i <= listed.len(),
            out@.len() == supported_of(listed@.take(i as int)).len(),
            forall|j: int|
                0 <= j < out@.len() ==> shows(
                    #[trigger] out@[j],
                    supported_of(listed@.take(i as int))[j],
                ),
        decreases listed.len() - i,
    {
        let p = &listed[i];
        proof {
            let next = listed@.take(i as int + 1);
            assert(next.drop_last() =~= listed@.take(i as int));
            assert(next.last() == *p);
        }
        if supports(p.provider_name.as_str()) {
            out.push(
                WatchProvider {
                    logo_path: replace_text(p.logo_path.as_str(), "jpg", "svg"),
                    provider_id: p.provider_id,
                    provider_name: p.provider_name.clone(),
                },
            );
        }
        i = i + 1;
    }
    proof {
        assert(listed@.take(i as int) =~= listed@);
    }
    out
}

} // verus!
