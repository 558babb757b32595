use vstd::prelude::*;

verus! {

/// A channel as the API describes it.
#[derive(Debug, Clone, PartialEq, Eq)]
pub struct Channel {
    /// Number of active subscribers.
    pub active_subscribers_count: u32,
    /// Banner picture URL.
    pub banner_picture: Option<String>,
    /// User id of the broadcaster.
    pub broadcaster_user_id: u32,
    /// Number of canceled subscribers.
    pub canceled_subscribers_count: u32,
    /// Category that the channel streams in.
    pub category: Option<Category>,
    /// Channel description.
    pub channel_description: Option<String>,
    /// URL-friendly channel name.
    pub slug: String,
    /// The current stream, if any.
    pub stream: Option<Stream>,
    /// Title of the stream.
    pub stream_title: Option<String>,
}

/// A stream category.
#[derive(Debug, Clone, PartialEq, Eq)]
pub struct Category {
    /// Category id.
    pub id: u32,
    /// Category name.
    pub name: String,
    /// Thumbnail URL.
    pub thumbnail: Option<String>,
}

/// A live stream of a channel.
#[derive(Debug, Clone, PartialEq, Eq)]
pub struct Stream {
    /// Tags that the broadcaster chose.
    pub custom_tags: Vec<String>,
    /// Whether the stream is live.
    pub is_live: bool,
    /// Whether the stream is for mature audiences.
    pub is_mature: bool,
    /// Stream key.
    pub key: String,
    /// Language of the stream.
    pub language: String,
    /// When the stream started (ISO 8601).
    pub start_time: String,
    /// Thumbnail URL.
    pub thumbnail: Option<String>,
    /// Stream URL.
    pub url: String,
    /// Number of viewers.
    pub viewer_count: u32,
}

} // verus!
