use glider_clone::application::Event;
use glider_clone::decimal::to_decimal;
use glider_clone::network::{
    detail_requests, gather_stories, item_url, FetchError, FetchPlan, Item, Type, ITEM_URL,
    ITEM_URL_TRAIL, TOP_STORIES_URL,
};
use glider_clone::transform::{cards_event, cards_event_at};

const NOW: i64 = 1_700_000_000;

fn record(id: u32) -> Item {
    Item {
        id,
        deleted: None,
        kind: Some(Type::story),
        by: Some(format!("author{}", id)),
        time: Some(NOW - 7_200),
        text: None,
        dead: None,
        parent: None,
        poll: None,
        kids: Some(vec![id + 1, id + 2]),
        url: Some(format!("https://site{}.example/post", id)),
        score: Some(id),
        title: Some(format!("story {}", id)),
        parts: None,
        descendants: Some(2),
    }
}

fn plan_of(ids: Vec<u32>, limit: usize) -> FetchPlan {
    match detail_requests(Ok(ids), limit) {
        Ok(plan) => plan,
        Err(error) => panic!("a ranking must lead to a plan, got {:?}", error),
    }
}

#[test]
fn numerals() {
    assert_eq!(to_decimal(0), "0");
    assert_eq!(to_decimal(7), "7");
    assert_eq!(to_decimal(10), "10");
    assert_eq!(to_decimal(1_234_567_890), "1234567890");
    assert_eq!(to_decimal(u64::MAX), "18446744073709551615");
}

#[test]
fn addresses() {
    assert_eq!(TOP_STORIES_URL, "https://hacker-news.firebaseio.com/v0/topstories.json");
    assert_eq!(item_url(8863), "https://hacker-news.firebaseio.com/v0/item/8863.json");
    assert_eq!(item_url(0), "https://hacker-news.firebaseio.com/v0/item/0.json");
    assert_eq!(
        item_url(u32::MAX),
        "https://hacker-news.firebaseio.com/v0/item/4294967295.json"
    );
    assert_eq!(item_url(12), format!("{}{}{}", ITEM_URL, 12, ITEM_URL_TRAIL));
}

#[test]
fn twenty_requests_for_twenty_five_ids() {
    let ids: Vec<u32> = (1..=25).collect();
    let plan = plan_of(ids, 20);
    assert_eq!(plan.urls.len(), 20);
    assert_eq!(plan.in_flight, 20);
    for (i, url) in plan.urls.iter().enumerate() {
        assert_eq!(*url, item_url(i as u32 + 1));
    }
    assert_eq!(plan.urls[19], "https://hacker-news.firebaseio.com/v0/item/20.json");
}

#[test]
fn ranking_order_is_kept() {
    let plan = plan_of(vec![30, 10, 20, 40], 3);
    assert_eq!(
        plan.urls,
        vec![item_url(30), item_url(10), item_url(20)]
    );
    assert_eq!(plan.in_flight, 3);
}

#[test]
fn short_ranking_is_asked_whole() {
    let plan = plan_of(vec![5, 6, 7], 20);
    assert_eq!(plan.urls, vec![item_url(5), item_url(6), item_url(7)]);
    assert_eq!(plan.in_flight, 3);
}

#[test]
fn nothing_to_ask() {
    let plan = plan_of(Vec::new(), 20);
    assert!(plan.urls.is_empty());
    assert_eq!(plan.in_flight, 1);
    let plan = plan_of(vec![1, 2, 3], 0);
    assert!(plan.urls.is_empty());
    assert_eq!(plan.in_flight, 1);
}

#[test]
fn failed_index_asks_nothing() {
    match detail_requests(Err("connection refused".to_string()), 20) {
        Err(FetchError::Index(message)) => assert_eq!(message, "connection refused"),
        other => panic!("expected the index failure, got {:?}", other.map(|plan| plan.urls)),
    }
}

#[test]
fn three_of_twenty_fail() {
    let mut responses: Vec<Option<Item>> = Vec::new();
    for id in 1..=20u32 {
        if id == 4 || id == 11 || id == 20 {
            responses.push(None);
        } else {
            responses.push(Some(record(id)));
        }
    }
    let stories = gather_stories(responses);
    assert_eq!(stories.len(), 17);
    let ids: Vec<u32> = stories.iter().map(|item| item.id).collect();
    assert_eq!(ids, vec![1, 2, 3, 5, 6, 7, 8, 9, 10, 12, 13, 14, 15, 16, 17, 18, 19]);
    match cards_event_at(Ok(stories), NOW) {
        Ok(Event::SentStoryData(cards)) => {
            assert_eq!(cards.len(), 17);
            assert_eq!(cards[3].title, "story 5");
            assert_eq!(cards[3].host, "site5.example");
            assert_eq!(cards[3].age, "2 hours ago");
        }
        _ => panic!("seventeen stories must give a batch"),
    }
}

#[test]
fn answers_keep_their_order() {
    let stories = gather_stories(vec![Some(record(9)), None, Some(record(2)), Some(record(5))]);
    let ids: Vec<u32> = stories.iter().map(|item| item.id).collect();
    assert_eq!(ids, vec![9, 2, 5]);
    assert_eq!(stories[0].title.as_deref(), Some("story 9"));
    assert_eq!(stories[1].kids, Some(vec![3, 4]));
}

#[test]
fn no_answers_no_stories() {
    assert!(gather_stories(Vec::new()).is_empty());
}

#[test]
fn all_twenty_fail() {
    let mut responses: Vec<Option<Item>> = Vec::new();
    for _ in 0..20 {
        responses.push(None);
    }
    let stories = gather_stories(responses);
    assert!(stories.is_empty());
    assert!(matches!(cards_event_at(Ok(stories), NOW), Err(FetchError::NoStories)));
    assert!(matches!(cards_event(Ok(Vec::new())), Err(FetchError::NoStories)));
}

#[test]
fn index_failure_reaches_the_caller() {
    let failed = detail_requests(Err("timed out".to_string()), 20).map(|_| Vec::new());
    match cards_event_at(failed, NOW) {
        Err(FetchError::Index(message)) => assert_eq!(message, "timed out"),
        _ => panic!("the index failure must be handed on"),
    }
    match cards_event(Err(FetchError::Index("bad json".to_string()))) {
        Err(FetchError::Index(message)) => assert_eq!(message, "bad json"),
        _ => panic!("the index failure must be handed on"),
    }
    assert!(matches!(
        cards_event_at(Err(FetchError::NoStories), NOW),
        Err(FetchError::NoStories)
    ));
}

#[test]
fn one_story_is_a_batch() {
    match cards_event(Ok(vec![record(1)])) {
        Ok(Event::SentStoryData(cards)) => {
            assert_eq!(cards.len(), 1);
            assert_eq!(cards[0].title, "story 1");
            assert_eq!(cards[0].author, "author1");
            assert_eq!(cards[0].score_count, 1);
            assert_eq!(cards[0].comments_count, 2);
        }
        _ => panic!("one story must give a batch"),
    }
}
