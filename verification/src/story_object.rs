//! What one card of the feed shows.

use vstd::prelude::*;

verus! {

/// A story as a card shows it. Every field is filled: where the record lacks
/// something, the field holds the empty string or zero.
#[derive(Clone, Debug, Default)]
pub struct StoryData {
    /// The headline, empty where the record has none.
    pub title: String,
    /// The host of the story's link, empty where there is no link or it has no host.
    pub host: String,
    /// Points.
    pub score_count: u32,
    /// Comments below the story, at any depth.
    pub comments_count: u32,
    /// Who submitted it, empty where unknown.
    pub author: String,
    /// How long ago it was submitted, in words; empty where the creation time is
    /// outside the calendar's range.
    pub age: String,
}

/// The mathematical value of a [`StoryData`].
pub struct StoryDataView {
    pub title: Seq<char>,
    pub host: Seq<char>,
    pub score_count: nat,
    pub comments_count: nat,
    pub author: Seq<char>,
    pub age: Seq<char>,
}

impl View for StoryData {
    type V = StoryDataView;

    open spec fn view(&self) -> StoryDataView {
        StoryDataView {
            title: self.title@,
            host: self.host@,
            score_count: self.score_count as nat,
            comments_count: self.comments_count as nat,
            author: self.author@,
            age: self.age@,
        }
    }
}

/// The values of a batch of cards, in order.
pub open spec fn card_views(cards: Seq<StoryData>) -> Seq<StoryDataView> {
    Seq::new(cards.len(), |i: int| cards[i]@)
}

} // verus!
