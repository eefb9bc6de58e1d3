//! Turning liked and disliked movies into keyword biases, and merging them
//! into a snapshot.

use vstd::prelude::*;
use crate::query::{keywords_endpoint, keywords_path};
use crate::criteria::{
    held, items_of, CriteriaView, Feedback, FeedbackView, RecommendationCriteria,
};

verus! {

/// A keyword of the catalog.
#[derive(Debug, PartialEq, Eq)]
pub struct Keyword {
    pub id: i64,
    pub name: String,
}

/// The keywords that the catalog lists for one movie.
#[derive(Debug, PartialEq, Eq)]
pub struct KeywordResponse {
    pub id: i64,
    pub keywords: Vec<Keyword>,
}

/// The identifiers of the keywords of one movie, in the catalog's order.
pub open spec fn keyword_ids(r: KeywordResponse) -> Seq<i64> {
    r.keywords@.map_values(|k: Keyword| k.id)
}

/// The keyword identifiers of each movie of a batch.
pub open spec fn batch_ids(batch: Seq<KeywordResponse>) -> Seq<Seq<i64>> {
    batch.map_values(|r: KeywordResponse| keyword_ids(r))
}

/// `a`, followed by the items of `b` that `a` lacks, each once, in the order in
/// which `b` first names them.
pub open spec fn union_seq(a: Seq<i64>, b: Seq<i64>) -> Seq<i64>
    decreases b.len(),
{
    if b.len() == 0 {
        a
    } else {
        let rest = union_seq(a, b.drop_last());
        if rest.contains(b.last()) {
            rest
        } else {
            rest.push(b.last())
        }
    }
}

/// The items of `a` that `b` lacks, in the order of `a`.
pub open spec fn without(a: Seq<i64>, b: Seq<i64>) -> Seq<i64>
    decreases a.len(),
{
    if a.len() == 0 {
        a
    } else {
        let rest = without(a.drop_last(), b);
        if b.contains(a.last()) {
            rest
        } else {
            rest.push(a.last())
        }
    }
}

/// Every keyword that some movie of the batch has, each once.
pub open spec fn gathered(lists: Seq<Seq<i64>>) -> Seq<i64>
    decreases lists.len(),
{
    if lists.len() == 0 {
        Seq::<i64>::empty()
    } else {
        union_seq(gathered(lists.drop_last()), lists.last())
    }
}

/// The keywords to favour: those of the liked movies that no disliked movie
/// has.
pub open spec fn upvotes(liked: Seq<Seq<i64>>, disliked: Seq<Seq<i64>>) -> Seq<i64> {
    without(gathered(liked), gathered(disliked))
}

/// The keywords to avoid: those of the disliked movies that no liked movie
/// has.
pub open spec fn downvotes(liked: Seq<Seq<i64>>, disliked: Seq<Seq<i64>>) -> Seq<i64> {
    without(gathered(disliked), gathered(liked))
}

/// A list of keywords as a field of a feedback: absent when there is none.
pub open spec fn present(s: Seq<i64>) -> Option<Seq<i64>> {
    if s.len() == 0 {
        None
    } else {
        Some(s)
    }
}

/// One side of a feedback after a round: what was there, then what is new.
pub open spec fn merged_side(kept: Option<Seq<i64>>, new: Option<Seq<i64>>) -> Option<Seq<i64>> {
    match kept {
        Some(k) => Some(union_seq(k, items_of(new))),
        None => new,
    }
}

/// The feedback of a snapshot after one more round.
pub open spec fn merged_feedback(kept: Option<FeedbackView>, new: FeedbackView) -> FeedbackView {
    match kept {
        Some(k) => FeedbackView {
            like: merged_side(k.like, new.like),
            dislike: merged_side(k.dislike, new.dislike),
        },
        None => new,
    }
}

/// The snapshot `c` after a round of feedback; only its feedback changes.
pub open spec fn with_feedback(c: CriteriaView, new: FeedbackView) -> CriteriaView {
    CriteriaView { feedback: Some(merged_feedback(c.feedback, new)), ..c }
}

/// The snapshot `c` after the viewer liked the movies whose keywords are
/// `liked` and disliked those whose keywords are `disliked`.
pub open spec fn refined(c: CriteriaView, liked: Seq<Seq<i64>>, disliked: Seq<Seq<i64>>)
    -> CriteriaView {
    with_feedback(
        c,
        FeedbackView {
            like: present(upvotes(liked, disliked)),
            dislike: present(downvotes(liked, disliked)),
        },
    )
}

/// A union holds what either side holds.
pub proof fn lemma_union_contains(a: Seq<i64>, b: Seq<i64>, x: i64)
    ensures
        union_seq(a, b).contains(x) <==> a.contains(x) || b.contains(x),
    decreases b.len(),
{
    if b.len() == 0 {
        assert(!b.contains(x));
    } else {
        let front = b.drop_last();
        lemma_union_contains(a, front, x);
        let rest = union_seq(a, front);
        assert(b =~= front.push(b.last()));
        if b.contains(x) {
            let i = choose|i: int| 0 <= i < b.len() && b[i] == x;
            if i < front.len() {
                assert(front[i] == x);
            }
        }
        if front.contains(x) {
            let i = choose|i: int| 0 <= i < front.len() && front[i] == x;
            assert(b[i] == x);
        }
        if !rest.contains(b.last()) {
            let grown = rest.push(b.last());
            assert(grown[grown.len() - 1] == b.last());
            if rest.contains(x) {
                let i = choose|i: int| 0 <= i < rest.len() && rest[i] == x;
                assert(grown[i] == x);
            }
            if grown.contains(x) {
                let i = choose|i: int| 0 <= i < grown.len() && grown[i] == x;
                if i < rest.len() {
                    assert(rest[i] == x);
                }
            }
        }
        assert(b[b.len() - 1] == b.last());
    }
}

/// A union with items that are all there already changes nothing.
pub proof fn lemma_union_absorbs(a: Seq<i64>, b: Seq<i64>)
    requires
        forall|x: i64| b.contains(x) ==> a.contains(x),
    ensures
        union_seq(a, b) == a,
    decreases b.len(),
{
    if b.len() > 0 {
        let front = b.drop_last();
        assert forall|x: i64| front.contains(x) implies a.contains(x) by {
            let i = choose|i: int| 0 <= i < front.len() && front[i] == x;
            assert(b[i] == x);
        }
        lemma_union_absorbs(a, front);
        assert(b[b.len() - 1] == b.last());
        assert(b.contains(b.last()));
    }
}

/// Merging the same keywords a second time changes nothing.
pub proof fn lemma_union_idempotent(a: Seq<i64>, b: Seq<i64>)
    ensures
        union_seq(union_seq(a, b), b) == union_seq(a, b),
{
    assert forall|x: i64| b.contains(x) implies union_seq(a, b).contains(x) by {
        lemma_union_contains(a, b, x);
    }
    lemma_union_absorbs(union_seq(a, b), b);
}

/// The set of keywords that two merges leave does not depend on their order.
pub proof fn lemma_union_order_free(a: Seq<i64>, b: Seq<i64>, c: Seq<i64>)
    ensures
        union_seq(union_seq(a, b), c).to_set() == union_seq(union_seq(a, c), b).to_set(),
{
    let left = union_seq(union_seq(a, b), c);
    let right = union_seq(union_seq(a, c), b);
    assert forall|x: i64| left.to_set().contains(x) == right.to_set().contains(x) by {
        lemma_union_contains(union_seq(a, b), c, x);
        lemma_union_contains(a, b, x);
        lemma_union_contains(union_seq(a, c), b, x);
        lemma_union_contains(a, c, x);
    }
    assert(left.to_set() =~= right.to_set());
}

/// `without(a, b)` holds exactly the items of `a` that `b` lacks.
pub proof fn lemma_without_contains(a: Seq<i64>, b: Seq<i64>, x: i64)
    ensures
        without(a, b).contains(x) <==> a.contains(x) && !b.contains(x),
    decreases a.len(),
{
    if a.len() == 0 {
        assert(!a.contains(x));
    } else {
        let front = a.drop_last();
        lemma_without_contains(front, b, x);
        let rest = without(front, b);
        assert(a[a.len() - 1] == a.last());
        if a.contains(x) {
            let i = choose|i: int| 0 <= i < a.len() && a[i] == x;
            if i < front.len() {
                assert(front[i] == x);
            }
        }
        if front.contains(x) {
            let i = choose|i: int| 0 <= i < front.len() && front[i] == x;
            assert(a[i] == x);
        }
        if !b.contains(a.last()) {
            let grown = rest.push(a.last());
            assert(grown[grown.len() - 1] == a.last());
            if rest.contains(x) {
                let i = choose|i: int| 0 <= i < rest.len() && rest[i] == x;
                assert(grown[i] == x);
            }
            if grown.contains(x) {
                let i = choose|i: int| 0 <= i < grown.len() && grown[i] == x;
                if i < rest.len() {
                    assert(rest[i] == x);
                }
            }
        }
    }
}

/// A keyword is gathered exactly when some movie of the batch has it.
pub proof fn lemma_gathered_contains(lists: Seq<Seq<i64>>, x: i64)
    ensures
        gathered(lists).contains(x) <==> exists|i: int|
            0 <= i < lists.len() && #[trigger] lists[i].contains(x),
    decreases lists.len(),
{
    if lists.len() == 0 {
        assert(!gathered(lists).contains(x));
    } else {
        let front = lists.drop_last();
        lemma_gathered_contains(front, x);
        lemma_union_contains(gathered(front), lists.last(), x);
        if gathered(lists).contains(x) {
            if gathered(front).contains(x) {
                let i = choose|i: int| 0 <= i < front.len() && #[trigger] front[i].contains(x);
                assert(lists[i].contains(x));
            } else {
                assert(lists[lists.len() - 1].contains(x));
            }
        }
        if exists|i: int| 0 <= i < lists.len() && #[trigger] lists[i].contains(x) {
            let i = choose|i: int| 0 <= i < lists.len() && #[trigger] lists[i].contains(x);
            if i < front.len() {
                assert(front[i].contains(x));
            }
        }
    }
}

/// A keyword that a liked movie and a disliked movie share is neither
/// favoured nor avoided.
pub proof fn lemma_shared_keyword_cancels(
    liked: Seq<Seq<i64>>,
    disliked: Seq<Seq<i64>>,
    k: i64,
    i: int,
    j: int,
)
    requires
        0 <= i < liked.len(),
        liked[i].contains(k),
        0 <= j < disliked.len(),
        disliked[j].contains(k),
    ensures
        !upvotes(liked, disliked).contains(k),
        !downvotes(liked, disliked).contains(k),
{
    lemma_gathered_contains(liked, k);
    lemma_gathered_contains(disliked, k);
    lemma_without_contains(gathered(liked), gathered(disliked), k);
    lemma_without_contains(gathered(disliked), gathered(liked), k);
}

/// No keyword is both favoured and avoided by one round.
pub proof fn lemma_votes_disjoint(liked: Seq<Seq<i64>>, disliked: Seq<Seq<i64>>, k: i64)
    ensures
        !(upvotes(liked, disliked).contains(k) && downvotes(liked, disliked).contains(k)),
{
    lemma_without_contains(gathered(liked), gathered(disliked), k);
    lemma_without_contains(gathered(disliked), gathered(liked), k);
}

/// A keyword that a liked movie and a disliked movie share does not enter the
/// snapshot through that round: it is in the refined snapshot's lists only
/// where the snapshot held it before.
pub proof fn lemma_refine_cancels(
    c: CriteriaView,
    liked: Seq<Seq<i64>>,
    disliked: Seq<Seq<i64>>,
    k: i64,
    i: int,
    j: int,
)
    requires
        0 <= i < liked.len(),
        liked[i].contains(k),
        0 <= j < disliked.len(),
        disliked[j].contains(k),
        c.feedback is Some ==> !items_of(c.feedback->0.like).contains(k) && !items_of(
            c.feedback->0.dislike,
        ).contains(k),
    ensures
        !items_of(refined(c, liked, disliked).feedback->0.like).contains(k),
        !items_of(refined(c, liked, disliked).feedback->0.dislike).contains(k),
{
    lemma_shared_keyword_cancels(liked, disliked, k, i, j);
    let up = upvotes(liked, disliked);
    let down = downvotes(liked, disliked);
    if c.feedback is Some {
        let kept = c.feedback->0;
        if kept.like is Some {
            lemma_union_contains(kept.like->0, items_of(present(up)), k);
        }
        if kept.dislike is Some {
            lemma_union_contains(kept.dislike->0, items_of(present(down)), k);
        }
    }
}

/// Merging one side twice with the same new keywords gives what merging it
/// once gives.
pub proof fn lemma_merged_side_idempotent(kept: Option<Seq<i64>>, new: Option<Seq<i64>>)
    ensures
        merged_side(merged_side(kept, new), new) == merged_side(kept, new),
{
    match kept {
        Some(k) => {
            lemma_union_idempotent(k, items_of(new));
        },
        None => {
            match new {
                Some(n) => {
                    lemma_union_absorbs(n, n);
                },
                None => {},
            }
        },
    }
}

/// The same batch of feedback applied twice leaves the snapshot that applying
/// it once leaves.
pub proof fn lemma_refine_idempotent(c: CriteriaView, liked: Seq<Seq<i64>>, disliked: Seq<Seq<i64>>)
    ensures
        refined(refined(c, liked, disliked), liked, disliked) == refined(c, liked, disliked),
{
    let new = FeedbackView {
        like: present(upvotes(liked, disliked)),
        dislike: present(downvotes(liked, disliked)),
    };
    match c.feedback {
        Some(k) => {
            lemma_merged_side_idempotent(k.like, new.like);
            lemma_merged_side_idempotent(k.dislike, new.dislike);
        },
        None => {
            lemma_merged_side_idempotent(None, new.like);
            lemma_merged_side_idempotent(None, new.dislike);
        },
    }
}

/// The lookups that a list of movies asks for: one per movie, in the order of
/// the list, each by the catalog path of the movie's keywords.
pub fn keyword_lookup_paths(movie_ids: &Vec<i64>) -> (paths: Vec<String>)
    ensures
        paths@.len() == movie_ids@.len(),
        forall|i: int|
            0 <= i < paths@.len() ==> (#[trigger] paths@[i])@ == keywords_endpoint(
                movie_ids@[i] as int,
            ),
{
    let mut paths: Vec<String> = Vec::new();
    let mut i: usize = 0;
    while i < movie_ids.len()
        invariant
            i <= movie_ids.len(),
            paths@.len() == i,
            forall|j: int|
                0 <= j < i ==> (#[trigger] paths@[j])@ == keywords_endpoint(movie_ids@[j] as int),
        decreases movie_ids.len() - i,
    {
        paths.push(keywords_path(movie_ids[i]));
        i = i + 1;
    }
    paths
}

/// Whether `items` holds `x`.
pub fn holds(items: &Vec<i64>, x: i64) -> (found: bool)
    ensures
        found == items@.contains(x),
{
    let mut i: usize = 0;
    while i < items.len()
        invariant
            i <= items.len(),
            forall|j: int| 0 <= j < i ==> items@[j] != x,
        decreases items.len() - i,
    {
        if items[i] == x {
            return true;
        }
        i = i + 1;
    }
    false
}

/// Appends to `into` the items of `new` that it lacks, each once.
pub fn extend_distinct(into: &mut Vec<i64>, new: &Vec<i64>)
    ensures
        final(into)@ == union_seq(old(into)@, new@),
{
    let mut i: usize = 0;
    while i < new.len()
        invariant
            i <= new.len(),
            into@ == union_seq(old(into)@, new@.take(i as int)),
        decreases new.len() - i,
    {
        let x = new[i];
        proof {
            let next = new@.take(i as int + 1);
            assert(next.drop_last() =~= new@.take(i as int));
            assert(next.last() == x);
        }
        if !holds(into, x) {
            into.push(x);
        }
        i = i + 1;
    }
    proof {
        assert(new@.take(i as int) =~= new@);
    }
}

/// The items of `a` that `b` lacks, in the order of `a`.
pub fn remove_all(a: &Vec<i64>, b: &Vec<i64>) -> (r: Vec<i64>)
    ensures
        r@ == without(a@, b@),
{
    let mut out: Vec<i64> = Vec::new();
    let mut i: usize = 0;
    while i < a.len()
        invariant
            i <= a.len(),
            out@ == without(a@.take(i as int), b@),
        decreases a.len() - i,
    {
        let x = a[i];
        proof {
            let next = a@.take(i as int + 1);
            assert(next.drop_last() =~= a@.take(i as int));
            assert(next.last() == x);
        }
        if !holds(b, x) {
            out.push(x);
        }
        i = i + 1;
    }
    proof {
        assert(a@.take(i as int) =~= a@);
    }
    out
}

/// The identifiers of the keywords of one movie.
pub fn ids_of(response: &KeywordResponse) -> (r: Vec<i64>)
    ensures
        r@ == keyword_ids(*response),
{
    let mut out: Vec<i64> = Vec::new();
    let mut i: usize = 0;
    while i < response.keywords.len()
        invariant
            i <= response.keywords.len(),
            out@ == keyword_ids(*response).take(i as int),
        decreases response.keywords.len() - i,
    {
        out.push(response.keywords[i].id);
        proof {
            assert(out@ =~= keyword_ids(*response).take(i as int + 1));
        }
        i = i + 1;
    }
    proof {
        assert(keyword_ids(*response).take(i as int) =~= keyword_ids(*response));
    }
    out
}

/// Every keyword that some movie of the batch has, each once.
pub fn gather(batch: &Vec<KeywordResponse>) -> (r: Vec<i64>)
    ensures
        r@ == gathered(batch_ids(batch@)),
{
    let mut out: Vec<i64> = Vec::new();
    let mut i: usize = 0;
    while i < batch.len()
        invariant
            i <= batch.len(),
            out@ == gathered(batch_ids(batch@).take(i as int)),
        decreases batch.len() - i,
    {
        let ids = ids_of(&batch[i]);
        proof {
            let next = batch_ids(batch@).take(i as int + 1);
            assert(next.drop_last() =~= batch_ids(batch@).take(i as int));
            assert(next.last() == keyword_ids(batch@[i as int]));
        }
        extend_distinct(&mut out, &ids);
        i = i + 1;
    }
    proof {
        assert(batch_ids(batch@).take(i as int) =~= batch_ids(batch@));
    }
    out
}

/// Splits the keywords of a round into those to favour and those to avoid. A
/// keyword that both a liked and a disliked movie have is in neither list.
pub fn process_feedback(liked: &Vec<KeywordResponse>, disliked: &Vec<KeywordResponse>) -> (r: (
    Vec<i64>,
    Vec<i64>,
))
    ensures
        r.0@ == upvotes(batch_ids(liked@), batch_ids(disliked@)),
        r.1@ == downvotes(batch_ids(liked@), batch_ids(disliked@)),
        forall|k: i64| !(r.0@.contains(k) && r.1@.contains(k)),
{
    let ups = gather(liked);
    let downs = gather(disliked);
    let upvoted = remove_all(&ups, &downs);
    let downvoted = remove_all(&downs, &ups);
    proof {
        assert forall|k: i64| !(upvoted@.contains(k) && downvoted@.contains(k)) by {
            lemma_votes_disjoint(batch_ids(liked@), batch_ids(disliked@), k);
        }
    }
    (upvoted, downvoted)
}

/// A list of keywords as a field of a feedback: absent when there is none.
pub fn as_field(keywords: Vec<i64>) -> (r: Option<Vec<i64>>)
    ensures
        held(r) == present(keywords@),
{
    if keywords.len() == 0 {
        None
    } else {
        Some(keywords)
    }
}

fn merge_side(kept: Option<Vec<i64>>, new: Option<Vec<i64>>) -> (r: Option<Vec<i64>>)
    ensures
        held(r) == merged_side(held(kept), held(new)),
{
    match kept {
        Some(k) => {
            let mut k = k;
            match new {
                Some(n) => {
                    extend_distinct(&mut k, &n);
                },
                None => {},
            }
            Some(k)
        },
        None => new,
    }
}

/// Merges the keywords of one round into the snapshot's feedback. Keywords
/// that the snapshot holds stay, in their order; new ones follow, each once.
pub fn update_feedback(criteria: RecommendationCriteria, feedback: Feedback) -> (r:
    RecommendationCriteria)
    ensures
        r@ == with_feedback(criteria@, feedback@),
{
    let mut criteria = criteria;
    let merged = match criteria.feedback {
        Some(kept) => Feedback {
            like: merge_side(kept.like, feedback.like),
            dislike: merge_side(kept.dislike, feedback.dislike),
        },
        None => feedback,
    };
    criteria.feedback = Some(merged);
    criteria
}

/// One round of feedback on a snapshot: the keywords of the liked and of the
/// disliked movies are split, shared ones dropped, and the rest merged into
/// the snapshot.
pub fn refine(
    criteria: RecommendationCriteria,
    liked: &Vec<KeywordResponse>,
    disliked: &Vec<KeywordResponse>,
) -> (r: RecommendationCriteria)
    ensures
        r@ == refined(criteria@, batch_ids(liked@), batch_ids(disliked@)),
{
    let (ups, downs) = process_feedback(liked, disliked);
    let feedback = Feedback { like: as_field(ups), dislike: as_field(downs) };
    update_feedback(criteria, feedback)
}

} // verus!
