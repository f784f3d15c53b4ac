//! What travels from the fetch worker and the widgets to the event loop.

use vstd::prelude::*;
use crate::story_object::StoryData;

verus! {

/// How many messages the channel to the event loop holds: a second batch waits
/// until the first has been taken.
pub const CHANNEL_CAPACITY: usize = 1;

/// A message on the single-slot channel that the event loop reads.
pub enum Event {
    /// A finished batch of cards, which replaces whatever the feed shows.
    SentStoryData(Vec<StoryData>),
    /// A card was tapped: the story page is to be shown.
    ClickedStory(),
}

} // verus!
