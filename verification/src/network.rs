//! The records of the Hacker News API and the decisions of one fetch cycle.

use vstd::prelude::*;
use vstd::string::*;
use crate::decimal::{decimal, push_decimal};

verus! {

/// Where the ranked list of story ids is served.
pub const TOP_STORIES_URL: &'static str = "https://hacker-news.firebaseio.com/v0/topstories.json";

/// How many stories of the ranking the feed shows.
pub const TOP_STORIES_LIMIT: usize = 20;

/// What stands before the id in the address of an item.
pub const ITEM_URL: &'static str = "https://hacker-news.firebaseio.com/v0/item/";

/// What stands behind the id in the address of an item.
pub const ITEM_URL_TRAIL: &'static str = ".json";

/// An item as the API returns it. Only `id` is always there: deleted and dead
/// records come back with most fields missing.
pub struct Item {
    pub id: u32,
    pub deleted: Option<bool>,
    pub kind: Option<Type>,
    pub by: Option<String>,
    pub time: Option<i64>,
    pub text: Option<String>,
    pub dead: Option<bool>,
    pub parent: Option<u32>,
    pub poll: Option<u32>,
    pub kids: Option<Vec<u32>>,
    pub url: Option<String>,
    pub score: Option<u32>,
    pub title: Option<String>,
    pub parts: Option<Vec<u32>>,
    pub descendants: Option<u32>,
}

/// What sort of item a record is, spelled as the API spells it.
#[allow(non_camel_case_types)]
#[derive(Debug, Clone, Copy)]
pub enum Type {
    job,
    story,
    comment,
    poll,
    pollopt,
}

/// Why a fetch cycle delivers nothing.
#[derive(Debug)]
pub enum FetchError {
    /// The list of ids could not be had or read; the text says why.
    Index(String),
    /// The list was had, but not one story came back.
    NoStories,
}

/// The detail requests of one cycle.
pub struct FetchPlan {
    /// The addresses to ask, in ranking order.
    pub urls: Vec<String>,
    /// How many requests may be under way at once: as many as there are, and
    /// one where there is none, so that a queue of this width never stalls.
    pub in_flight: usize,
}

/// The address of the item `id`.
pub open spec fn item_url_text(id: u32) -> Seq<char> {
    ITEM_URL@ + decimal(id as nat) + ITEM_URL_TRAIL@
}

/// The ids that a cycle asks for: the first `limit` of the ranking, or all of
/// it where it is shorter.
pub open spec fn chosen_ids(ids: Seq<u32>, limit: nat) -> Seq<u32> {
    if limit < ids.len() {
        ids.take(limit as int)
    } else {
        ids
    }
}

/// Whether `plan` asks for exactly `ids`, in order, all at once.
pub open spec fn plan_asks(plan: FetchPlan, ids: Seq<u32>) -> bool {
    &&& plan.urls@.len() == ids.len()
    &&& forall|i: int| 0 <= i < ids.len() ==> (#[trigger] plan.urls@[i])@ == item_url_text(ids[i])
    &&& plan.in_flight == if ids.len() == 0 {
        1
    } else {
        ids.len()
    }
}

/// The records that came back, in the order of the answers.
pub open spec fn successes(responses: Seq<Option<Item>>) -> Seq<Item>
    decreases responses.len(),
{
    if responses.len() == 0 {
        Seq::empty()
    } else {
        let before = successes(responses.drop_last());
        match responses.last() {
            Some(item) => before.push(item),
            None => before,
        }
    }
}

/// How many requests failed.
pub open spec fn failures(responses: Seq<Option<Item>>) -> nat
    decreases responses.len(),
{
    if responses.len() == 0 {
        0
    } else {
        let before = failures(responses.drop_last());
        match responses.last() {
            Some(_) => before,
            None => before + 1,
        }
    }
}

/// The address of the item `id`.
pub fn item_url(id: u32) -> (url: String)
    ensures
        url@ == item_url_text(id),
{
    let mut url = String::from_str(ITEM_URL);
    push_decimal(&mut url, id as u64);
    url.append(ITEM_URL_TRAIL);
    url
}

/// Decides what follows the answer to the index request. A failed request ends
/// the cycle with its message and asks for nothing; a ranking leads to one
/// request for each of its first `limit` ids.
pub fn detail_requests(index: Result<Vec<u32>, String>, limit: usize) -> (plan: Result<
    FetchPlan,
    FetchError,
>)
    ensures
        match index {
            Ok(ids) => plan is Ok && plan_asks(plan->Ok_0, chosen_ids(ids@, limit as nat)),
            Err(message) => plan == Err::<FetchPlan, FetchError>(FetchError::Index(message)),
        },
{
    match index {
        Ok(ids) => {
            let count: usize = if limit < ids.len() {
                limit
            } else {
                ids.len()
            };
            let ghost chosen = chosen_ids(ids@, limit as nat);
            let mut urls: Vec<String> = Vec::new();
            let mut i: usize = 0;
            while i < count
                invariant
                    i <= count,
                    count == chosen.len(),
                    count <= ids@.len(),
                    forall|j: int| 0 <= j < count ==> chosen[j] == ids@[j],
                    urls@.len() == i,
                    forall|j: int| 0 <= j < i ==> (#[trigger] urls@[j])@ == item_url_text(chosen[j]),
                decreases count - i,
            {
                urls.push(item_url(ids[i]));
                i += 1;
            }
            let in_flight: usize = if count == 0 {
                1
            } else {
                count
            };
            Ok(FetchPlan { urls, in_flight })
        },
        Err(message) => Err(FetchError::Index(message)),
    }
}

/// Keeps the records that came back and drops the requests that failed, in the
/// order of the answers.
pub fn gather_stories(responses: Vec<Option<Item>>) -> (stories: Vec<Item>)
    ensures
        stories@ == successes(responses@),
{
    let mut stories: Vec<Item> = Vec::new();
    let ghost all = responses@;
    for response in it: responses
        invariant
            it.seq() == all,
            stories@ == successes(all.take(it.index() as int)),
    {
        proof {
            let next = all.take(it.index() + 1);
            assert(next.drop_last() =~= all.take(it.index() as int));
        }
        match response {
            Some(item) => {
                stories.push(item);
            },
            None => {},
        }
    }
    assert(all.take(all.len() as int) =~= all);
    stories
}

/// Every request either brought a record or failed.
pub proof fn lemma_successes_and_failures(responses: Seq<Option<Item>>)
    ensures
        successes(responses).len() + failures(responses) == responses.len(),
    decreases responses.len(),
{
    if responses.len() > 0 {
        lemma_successes_and_failures(responses.drop_last());
    }
}

/// A request that brought a record leaves at least one record.
pub proof fn lemma_success_kept(responses: Seq<Option<Item>>, i: int)
    requires
        0 <= i < responses.len(),
        responses[i] is Some,
    ensures
        successes(responses).len() >= 1,
    decreases responses.len(),
{
    if i < responses.len() - 1 {
        lemma_success_kept(responses.drop_last(), i);
    }
}

/// Where every request failed, no record is left.
pub proof fn lemma_all_failed(responses: Seq<Option<Item>>)
    requires
        forall|i: int| 0 <= i < responses.len() ==> responses[i] is None,
    ensures
        successes(responses) == Seq::<Item>::empty(),
    decreases responses.len(),
{
    if responses.len() > 0 {
        lemma_all_failed(responses.drop_last());
    }
}

/// Where no request failed, every record is kept, each in its place.
pub proof fn lemma_none_failed(responses: Seq<Option<Item>>)
    requires
        forall|i: int| 0 <= i < responses.len() ==> responses[i] is Some,
    ensures
        successes(responses).len() == responses.len(),
        forall|i: int| 0 <= i < responses.len() ==> responses[i] == Some(successes(responses)[i]),
    decreases responses.len(),
{
    if responses.len() > 0 {
        let before = responses.drop_last();
        lemma_none_failed(before);
        assert forall|i: int| 0 <= i < responses.len() implies responses[i] == Some(
            successes(responses)[i],
        ) by {
            if i < before.len() {
                assert(before[i] == responses[i]);
            }
        }
    }
}

/// Answers that come in two runs give the records of the first run, then
/// those of the second: the order of the answers is kept.
pub proof fn lemma_successes_concat(first: Seq<Option<Item>>, second: Seq<Option<Item>>)
    ensures
        successes(first + second) == successes(first) + successes(second),
    decreases second.len(),
{
    if second.len() == 0 {
        assert(first + second =~= first);
    } else {
        lemma_successes_concat(first, second.drop_last());
        assert((first + second).drop_last() =~= first + second.drop_last());
        if second.last() is Some {
            assert(successes(first + second) =~= successes(first) + successes(second));
        }
    }
}

/// A plan for the first `limit` ids of a ranking makes at most `limit`
/// requests and never has more than `limit` of them under way.
pub proof fn lemma_plan_within_limit(plan: FetchPlan, ids: Seq<u32>, limit: nat)
    requires
        plan_asks(plan, chosen_ids(ids, limit)),
    ensures
        plan.urls@.len() <= limit,
        plan.urls@.len() <= ids.len(),
        plan.urls@.len() > 0 ==> plan.in_flight <= limit,
        plan.in_flight >= 1,
{
}

/// A cycle never asks for more than `limit` stories, and for none when the
/// ranking is empty.
pub proof fn lemma_chosen_ids_bounded(ids: Seq<u32>, limit: nat)
    ensures
        chosen_ids(ids, limit).len() <= limit,
        chosen_ids(ids, limit).len() <= ids.len(),
        chosen_ids(ids, limit).len() == limit || chosen_ids(ids, limit).len() == ids.len(),
        forall|i: int| 0 <= i < chosen_ids(ids, limit).len() ==> chosen_ids(ids, limit)[i] == ids[i],
{
}

} // verus!
