//! The criteria snapshot of a session and the merge of one wizard answer
//! into it.

use vstd::prelude::*;
use vstd::string::*;
use crate::text::{decimal, render_u64, same_text};

verus! {

/// How much time the viewer has.
#[derive(Debug, Clone, Copy, PartialEq, Eq, Structural)]
pub enum Runtime {
    Quick,
    Average,
    MovieNight,
    MartinScorsese,
}

/// What the wizard shows for a runtime bucket.
#[derive(Debug, PartialEq, Eq)]
pub struct RuntimeInfo {
    pub name: String,
    pub description: String,
}

/// A runtime bucket as it travels in a request.
#[derive(Debug, Clone, Copy, PartialEq, Eq, Structural)]
pub struct RuntimeResponse {
    pub runtime: Runtime,
}

impl Runtime {
    /// The bounds in minutes that the bucket stands for.
    pub open spec fn minutes(self) -> (int, int) {
        match self {
            Runtime::Quick => (60, 90),
            Runtime::Average => (90, 120),
            Runtime::MovieNight => (120, 150),
            Runtime::MartinScorsese => (150, 500),
        }
    }

    /// The name under which the bucket is shown.
    pub open spec fn display_name(self) -> Seq<char> {
        match self {
            Runtime::Quick => "Quick"@,
            Runtime::Average => "Average"@,
            Runtime::MovieNight => "Movie Night"@,
            Runtime::MartinScorsese => "Martin Scorsese"@,
        }
    }

    /// The sentence that goes with the bucket.
    pub open spec fn blurb(self) -> Seq<char> {
        match self {
            Runtime::Quick => "You're not looking for a commitment, but still want something awesome"@,
            Runtime::Average => "You've got some time, lets make it count"@,
            Runtime::MovieNight => "Grab your popcorn, lets find a movie with that 'wow' factor"@,
            Runtime::MartinScorsese => "You refer to movies as 'films' and have a lot of time on your hands"@,
        }
    }

    /// The bucket that a request's word names; an unknown word means `Average`.
    pub open spec fn parsed(word: Seq<char>) -> Runtime {
        if word == "Quick"@ {
            Runtime::Quick
        } else if word == "Average"@ {
            Runtime::Average
        } else if word == "MovieNight"@ {
            Runtime::MovieNight
        } else if word == "MartinScorsese"@ {
            Runtime::MartinScorsese
        } else {
            Runtime::Average
        }
    }

    pub fn info(&self) -> (r: RuntimeInfo)
        ensures
            r.name@ == self.display_name(),
            r.description@ == self.blurb(),
    {
        match self {
            Runtime::Quick => RuntimeInfo {
                name: String::from_str("Quick"),
                description: String::from_str(
                    "You're not looking for a commitment, but still want something awesome",
                ),
            },
            Runtime::Average => RuntimeInfo {
                name: String::from_str("Average"),
                description: String::from_str("You've got some time, lets make it count"),
            },
            Runtime::MovieNight => RuntimeInfo {
                name: String::from_str("Movie Night"),
                description: String::from_str(
                    "Grab your popcorn, lets find a movie with that 'wow' factor",
                ),
            },
            Runtime::MartinScorsese => RuntimeInfo {
                name: String::from_str("Martin Scorsese"),
                description: String::from_str(
                    "You refer to movies as 'films' and have a lot of time on your hands",
                ),
            },
        }
    }

    pub fn runtime(&self) -> (r: (i32, i32))
        ensures
            r.0 == self.minutes().0,
            r.1 == self.minutes().1,
    {
        match self {
            Runtime::Quick => (60, 90),
            Runtime::Average => (90, 120),
            Runtime::MovieNight => (120, 150),
            Runtime::MartinScorsese => (150, 500),
        }
    }

    pub fn from_string(runtime_string: &str) -> (r: Self)
        ensures
            r == Runtime::parsed(runtime_string@),
    {
        if same_text(runtime_string, "Quick") {
            Runtime::Quick
        } else if same_text(runtime_string, "Average") {
            Runtime::Average
        } else if same_text(runtime_string, "MovieNight") {
            Runtime::MovieNight
        } else if same_text(runtime_string, "MartinScorsese") {
            Runtime::MartinScorsese
        } else {
            Runtime::Average
        }
    }
}

/// When the movie came out.
#[derive(Debug, Clone, Copy, PartialEq, Eq, Structural)]
pub enum Decade {
    Classic,
    Fifties,
    Sixties,
    Seventies,
    Eighties,
    Nineties,
    TwoThousands,
    TwentyTens,
    Recent,
}

/// What the wizard shows for a decade bucket.
#[derive(Debug, PartialEq, Eq)]
pub struct DecadeInfo {
    pub name: String,
}

/// A decade bucket as it travels in a request, by its display name.
#[derive(Debug, PartialEq, Eq)]
pub struct DecadeResponse {
    pub decade: String,
}

impl Decade {
    /// The first and the last year of the bucket.
    pub open spec fn years(self) -> (nat, nat) {
        match self {
            Decade::Classic => (1900, 1949),
            Decade::Fifties => (1950, 1959),
            Decade::Sixties => (1960, 1969),
            Decade::Seventies => (1970, 1979),
            Decade::Eighties => (1980, 1989),
            Decade::Nineties => (1990, 1999),
            Decade::TwoThousands => (2000, 2009),
            Decade::TwentyTens => (2010, 2019),
            Decade::Recent => (2020, 2024),
        }
    }

    /// The name under which the bucket is shown.
    pub open spec fn display_name(self) -> Seq<char> {
        match self {
            Decade::Classic => "Classics"@,
            Decade::Fifties => "50s"@,
            Decade::Sixties => "60s"@,
            Decade::Seventies => "70s"@,
            Decade::Eighties => "80s"@,
            Decade::Nineties => "90s"@,
            Decade::TwoThousands => "2000s"@,
            Decade::TwentyTens => "2010s"@,
            Decade::Recent => "Recent"@,
        }
    }

    /// The position of the bucket in the wizard, from 1.
    pub open spec fn ordinal(self) -> int {
        match self {
            Decade::Classic => 1,
            Decade::Fifties => 2,
            Decade::Sixties => 3,
            Decade::Seventies => 4,
            Decade::Eighties => 5,
            Decade::Nineties => 6,
            Decade::TwoThousands => 7,
            Decade::TwentyTens => 8,
            Decade::Recent => 9,
        }
    }

    /// The bucket that a display name stands for; an unknown name means `Recent`.
    pub open spec fn parsed(word: Seq<char>) -> Decade {
        if word == "Classics"@ {
            Decade::Classic
        } else if word == "50s"@ {
            Decade::Fifties
        } else if word == "60s"@ {
            Decade::Sixties
        } else if word == "70s"@ {
            Decade::Seventies
        } else if word == "80s"@ {
            Decade::Eighties
        } else if word == "90s"@ {
            Decade::Nineties
        } else if word == "2000s"@ {
            Decade::TwoThousands
        } else if word == "2010s"@ {
            Decade::TwentyTens
        } else {
            Decade::Recent
        }
    }

    /// The display name of the bucket as a string.
    pub fn label(&self) -> (s: String)
        ensures
            s@ == self.display_name(),
    {
        match self {
            Decade::Classic => String::from_str("Classics"),
            Decade::Fifties => String::from_str("50s"),
            Decade::Sixties => String::from_str("60s"),
            Decade::Seventies => String::from_str("70s"),
            Decade::Eighties => String::from_str("80s"),
            Decade::Nineties => String::from_str("90s"),
            Decade::TwoThousands => String::from_str("2000s"),
            Decade::TwentyTens => String::from_str("2010s"),
            Decade::Recent => String::from_str("Recent"),
        }
    }

    pub fn info(&self) -> (r: DecadeInfo)
        ensures
            r.name@ == self.display_name(),
    {
        DecadeInfo { name: self.label() }
    }

    pub fn from_string(decade_string: &str) -> (r: Self)
        ensures
            r == Decade::parsed(decade_string@),
    {
        if same_text(decade_string, "Classics") {
            Decade::Classic
        } else if same_text(decade_string, "50s") {
            Decade::Fifties
        } else if same_text(decade_string, "60s") {
            Decade::Sixties
        } else if same_text(decade_string, "70s") {
            Decade::Seventies
        } else if same_text(decade_string, "80s") {
            Decade::Eighties
        } else if same_text(decade_string, "90s") {
            Decade::Nineties
        } else if same_text(decade_string, "2000s") {
            Decade::TwoThousands
        } else if same_text(decade_string, "2010s") {
            Decade::TwentyTens
        } else {
            Decade::Recent
        }
    }

    /// The first and the last year of the bucket, as they go into a release
    /// date.
    pub fn year_range(&self) -> (r: (String, String))
        ensures
            r.0@ == decimal(self.years().0 as int),
            r.1@ == decimal(self.years().1 as int),
    {
        let (first, last): (u64, u64) = match self {
            Decade::Classic => (1900, 1949),
            Decade::Fifties => (1950, 1959),
            Decade::Sixties => (1960, 1969),
            Decade::Seventies => (1970, 1979),
            Decade::Eighties => (1980, 1989),
            Decade::Nineties => (1990, 1999),
            Decade::TwoThousands => (2000, 2009),
            Decade::TwentyTens => (2010, 2019),
            Decade::Recent => (2020, 2024),
        };
        (render_u64(first), render_u64(last))
    }
}

/// The keywords that earlier rounds of feedback have gathered.
#[derive(Debug, PartialEq, Eq)]
pub struct Feedback {
    pub like: Option<Vec<i64>>,
    pub dislike: Option<Vec<i64>>,
}

/// What a `Feedback` holds.
pub ghost struct FeedbackView {
    pub like: Option<Seq<i64>>,
    pub dislike: Option<Seq<i64>>,
}

/// What an optional list holds.
pub open spec fn held<T>(o: Option<Vec<T>>) -> Option<Seq<T>> {
    match o {
        Some(v) => Some(v@),
        None => None,
    }
}

/// The items of an optional list; none where the list is absent.
pub open spec fn items_of<T>(o: Option<Seq<T>>) -> Seq<T> {
    match o {
        Some(s) => s,
        None => Seq::<T>::empty(),
    }
}

/// A copy of an optional list of keyword identifiers.
pub fn copy_ids64(o: &Option<Vec<i64>>) -> (r: Option<Vec<i64>>)
    ensures
        held(r) == held(*o),
{
    match o {
        Some(v) => Some(v.clone()),
        None => None,
    }
}

/// A copy of an optional list of genre or provider identifiers.
pub fn copy_ids32(o: &Option<Vec<i32>>) -> (r: Option<Vec<i32>>)
    ensures
        held(r) == held(*o),
{
    match o {
        Some(v) => Some(v.clone()),
        None => None,
    }
}

impl View for Feedback {
    type V = FeedbackView;

    open spec fn view(&self) -> FeedbackView {
        FeedbackView { like: held(self.like), dislike: held(self.dislike) }
    }
}

impl Clone for Feedback {
    fn clone(&self) -> (r: Self)
        ensures
            r@ == self@,
    {
        Feedback { like: copy_ids64(&self.like), dislike: copy_ids64(&self.dislike) }
    }
}

/// What a session has chosen so far. A field that is `None` has not been
/// chosen yet.
#[derive(Debug, PartialEq, Eq)]
pub struct RecommendationCriteria {
    pub genres: Option<Vec<i32>>,
    pub watch_providers: Option<Vec<i32>>,
    pub runtime: Option<Runtime>,
    pub decade: Option<Decade>,
    pub feedback: Option<Feedback>,
}

/// What a `RecommendationCriteria` holds.
pub ghost struct CriteriaView {
    pub genres: Option<Seq<i32>>,
    pub watch_providers: Option<Seq<i32>>,
    pub runtime: Option<Runtime>,
    pub decade: Option<Decade>,
    pub feedback: Option<FeedbackView>,
}

/// What an optional feedback holds.
pub open spec fn held_feedback(o: Option<Feedback>) -> Option<FeedbackView> {
    match o {
        Some(f) => Some(f@),
        None => None,
    }
}

impl View for RecommendationCriteria {
    type V = CriteriaView;

    open spec fn view(&self) -> CriteriaView {
        CriteriaView {
            genres: held(self.genres),
            watch_providers: held(self.watch_providers),
            runtime: self.runtime,
            decade: self.decade,
            feedback: held_feedback(self.feedback),
        }
    }
}

impl Clone for RecommendationCriteria {
    fn clone(&self) -> (r: Self)
        ensures
            r@ == self@,
    {
        RecommendationCriteria {
            genres: copy_ids32(&self.genres),
            watch_providers: copy_ids32(&self.watch_providers),
            runtime: self.runtime,
            decade: self.decade,
            feedback: match &self.feedback {
                Some(f) => Some(f.clone()),
                None => None,
            },
        }
    }
}

/// The snapshot of a session that has chosen nothing yet.
pub open spec fn blank() -> CriteriaView {
    CriteriaView {
        genres: None,
        watch_providers: None,
        runtime: None,
        decade: None,
        feedback: None,
    }
}

/// One answer of the wizard.
#[derive(Debug, PartialEq, Eq)]
pub enum PartialUpdate {
    Genres(Vec<i32>),
    WatchProviders(Vec<i32>),
    Runtime(Runtime),
    Decade(Decade),
}

/// What a `PartialUpdate` holds.
pub ghost enum UpdateView {
    Genres(Seq<i32>),
    WatchProviders(Seq<i32>),
    Runtime(Runtime),
    Decade(Decade),
}

/// The fields of a snapshot that the wizard fills.
#[derive(Debug, Clone, Copy, PartialEq, Eq, Structural)]
pub enum CriteriaField {
    Genres,
    WatchProviders,
    Runtime,
    Decade,
}

impl View for PartialUpdate {
    type V = UpdateView;

    open spec fn view(&self) -> UpdateView {
        match *self {
            PartialUpdate::Genres(v) => UpdateView::Genres(v@),
            PartialUpdate::WatchProviders(v) => UpdateView::WatchProviders(v@),
            PartialUpdate::Runtime(r) => UpdateView::Runtime(r),
            PartialUpdate::Decade(d) => UpdateView::Decade(d),
        }
    }
}

impl UpdateView {
    /// The field that the answer fills.
    pub open spec fn field(self) -> CriteriaField {
        match self {
            UpdateView::Genres(_) => CriteriaField::Genres,
            UpdateView::WatchProviders(_) => CriteriaField::WatchProviders,
            UpdateView::Runtime(_) => CriteriaField::Runtime,
            UpdateView::Decade(_) => CriteriaField::Decade,
        }
    }
}

impl PartialUpdate {
    /// The field that the answer fills.
    pub fn field(&self) -> (f: CriteriaField)
        ensures
            f == self@.field(),
    {
        match self {
            PartialUpdate::Genres(_) => CriteriaField::Genres,
            PartialUpdate::WatchProviders(_) => CriteriaField::WatchProviders,
            PartialUpdate::Runtime(_) => CriteriaField::Runtime,
            PartialUpdate::Decade(_) => CriteriaField::Decade,
        }
    }
}

/// The snapshot `c` with the field that `u` names overwritten, and every other
/// field as it was.
pub open spec fn merged(c: CriteriaView, u: UpdateView) -> CriteriaView {
    match u {
        UpdateView::Genres(g) => CriteriaView { genres: Some(g), ..c },
        UpdateView::WatchProviders(p) => CriteriaView { watch_providers: Some(p), ..c },
        UpdateView::Runtime(r) => CriteriaView { runtime: Some(r), ..c },
        UpdateView::Decade(d) => CriteriaView { decade: Some(d), ..c },
    }
}

impl RecommendationCriteria {
    /// The snapshot of a new session: nothing chosen.
    pub fn empty() -> (c: Self)
        ensures
            c@ == blank(),
    {
        RecommendationCriteria {
            genres: None,
            watch_providers: None,
            runtime: None,
            decade: None,
            feedback: None,
        }
    }

    /// Overwrites the field that `update` names and leaves the others alone.
    pub fn apply(self, update: PartialUpdate) -> (c: Self)
        ensures
            c@ == merged(self@, update@),
    {
        let mut c = self;
        match update {
            PartialUpdate::Genres(g) => {
                c.genres = Some(g);
            },
            PartialUpdate::WatchProviders(p) => {
                c.watch_providers = Some(p);
            },
            PartialUpdate::Runtime(r) => {
                c.runtime = Some(r);
            },
            PartialUpdate::Decade(d) => {
                c.decade = Some(d);
            },
        }
        c
    }

    /// Whether the runtime and the decade, which a query needs, are chosen.
    pub fn is_complete(&self) -> (b: bool)
        ensures
            b == (self@.runtime is Some && self@.decade is Some),
    {
        self.runtime.is_some() && self.decade.is_some()
    }
}

/// Two answers that fill different fields can be merged in either order: the
/// snapshot that results is the same.
pub proof fn lemma_independent_updates_commute(c: CriteriaView, u1: UpdateView, u2: UpdateView)
    requires
        u1.field() != u2.field(),
    ensures
        merged(merged(c, u1), u2) == merged(merged(c, u2), u1),
{
}

/// An answer changes the field it names and no other.
pub proof fn lemma_update_leaves_other_fields(c: CriteriaView, u: UpdateView)
    ensures
        u.field() != CriteriaField::Genres ==> merged(c, u).genres == c.genres,
        u.field() != CriteriaField::WatchProviders ==> merged(c, u).watch_providers
            == c.watch_providers,
        u.field() != CriteriaField::Runtime ==> merged(c, u).runtime == c.runtime,
        u.field() != CriteriaField::Decade ==> merged(c, u).decade == c.decade,
        merged(c, u).feedback == c.feedback,
{
}

} // verus!
