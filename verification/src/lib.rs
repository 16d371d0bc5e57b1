//! Podcast feeds as they are found: a typed model of an RSS document in which
//! every field that does not have the shape it should have keeps its text
//! instead of failing the document.
//!
//! A field is decoded from its text by the `parse` function of its type, and
//! a structure from its element by `decode`; [`Feed::decode`] takes the
//! outermost element of a document. No decoder fails. Each states what it
//! returns over the model of its type, as a function of the model of what it
//! was given.
//!
//! Floating-point numbers come in as bit patterns: whether a text is a
//! decimal numeral is decided here, and the number that a numeral denotes is
//! read outside this crate. Dates are read by `chrono`; every other text is
//! read here.

pub mod basic;
pub mod decimal;
pub mod decoded;
pub mod fallback;
pub mod itunes;
pub mod node;
pub mod numbers;
pub mod podcast;
pub mod text;

use vstd::prelude::*;
use crate::basic::Bool;
use crate::decoded::{option_map, option_view, Decoded};
use crate::node::{Node, NodeView};
use crate::numbers::U64;
use crate::text::owned_text;

verus! {

/// A point in time together with the offset from UTC that it was written with.
///
/// Two values are equal where they agree in all three fields: one instant
/// written with two offsets gives two values.
#[derive(Debug, Clone, Copy, PartialEq, Eq)]
pub struct OffsetDateTime {
    /// Seconds since 1970-01-01T00:00:00 UTC, leap seconds not counted.
    pub timestamp: i64,
    /// Nanoseconds since the last whole second; 1,000,000,000 and more within
    /// a leap second.
    pub nanosecond: u32,
    /// Seconds that local time is ahead of UTC.
    pub offset: i32,
}

/// What `chrono::DateTime::parse_from_rfc2822` makes of a text: the date and
/// time that it denotes in the grammar of Internet messages, if it denotes one.
pub uninterp spec fn rfc2822_reading(s: Seq<char>) -> Option<OffsetDateTime>;

/// Reads a date and time in the grammar of Internet messages.
///
/// Calls `chrono::DateTime::parse_from_rfc2822`. The contract claims only that
/// the outcome is a function of the text: `Some` with the instant
/// (`timestamp`, `timestamp_subsec_nanos`) and the offset
/// (`offset().local_minus_utc()`) of the value that chrono returned, `None`
/// where chrono returned an error.
#[verifier::external_body]
fn read_rfc2822(s: &str) -> (reading: Option<OffsetDateTime>)
    ensures
        reading == rfc2822_reading(s@),
{
    match chrono::DateTime::parse_from_rfc2822(s) {
        Ok(t) => Some(
            OffsetDateTime {
                timestamp: t.timestamp(),
                nanosecond: t.timestamp_subsec_nanos(),
                offset: t.offset().local_minus_utc(),
            },
        ),
        Err(_) => None,
    }
}

/// A date and time field.
#[derive(Debug, PartialEq, Eq)]
pub enum Datetime {
    Rfc2822(OffsetDateTime),
    Other(String),
}

impl View for Datetime {
    type V = Decoded<OffsetDateTime>;

    open spec fn view(&self) -> Decoded<OffsetDateTime> {
        match *self {
            Datetime::Rfc2822(t) => Decoded::Valid(t),
            Datetime::Other(s) => Decoded::Fallback(s@),
        }
    }
}

impl Datetime {
    /// Makes a date and time field of its text and of the date and time that
    /// the text was read as, if it was read as one.
    pub fn from_reading(s: &str, reading: Option<OffsetDateTime>) -> (field: Datetime)
        ensures
            field@ == Decoded::of(reading, s@),
    {
        match reading {
            Some(t) => Datetime::Rfc2822(t),
            None => Datetime::Other(s.to_owned()),
        }
    }

    /// What the text `s` decodes to: the date and time that it denotes in the
    /// grammar of Internet messages, or the text itself where it denotes none.
    pub open spec fn decoded(s: Seq<char>) -> Decoded<OffsetDateTime> {
        Decoded::of(rfc2822_reading(s), s)
    }

    /// Decodes the text of a date and time field.
    pub fn parse(s: &str) -> (field: Datetime)
        ensures
            field@ == Datetime::decoded(s@),
    {
        let reading = read_rfc2822(s);
        Datetime::from_reading(s, reading)
    }
}

/// Decodes the text of an optional date and time field that is present.
pub fn option_datefmt(s: &str) -> (field: Option<Datetime>)
    ensures
        field matches Some(d) && d@ == Datetime::decoded(s@),
{
    Some(Datetime::parse(s))
}

/// The namespace of the `encoded` element, which holds a description as markup.
pub const CONTENT_NAMESPACE: &'static str = "http://purl.org/rss/1.0/modules/content/";

/// The model of an enclosure.
pub struct EnclosureView {
    pub url: Option<Seq<char>>,
    pub length: Option<Decoded<u64>>,
    pub type_: Option<Seq<char>>,
}

/// The media file of an episode: where it is, how many bytes it has, and
/// what kind of media it is.
#[derive(Debug, PartialEq, Eq, Default)]
pub struct Enclosure {
    pub url: Option<String>,
    pub length: Option<U64>,
    pub type_: Option<String>,
}

impl View for Enclosure {
    type V = EnclosureView;

    open spec fn view(&self) -> EnclosureView {
        EnclosureView {
            url: option_view(self.url),
            length: option_view(self.length),
            type_: option_view(self.type_),
        }
    }
}

impl Enclosure {
    /// What an enclosure element decodes to: its attributes `url`, `length`
    /// and `type`, the length as an unsigned integer field.
    pub open spec fn decoded(n: NodeView) -> EnclosureView {
        EnclosureView {
            url: n.attribute("url"@),
            length: option_map(n.attribute("length"@), |t: Seq<char>| U64::decoded(t)),
            type_: n.attribute("type"@),
        }
    }

    /// Decodes an enclosure element.
    pub fn decode(n: &Node) -> (enclosure: Enclosure)
        ensures
            enclosure@ == Enclosure::decoded(n@),
    {
        let length = match n.attribute("length") {
            Some(t) => Some(U64::parse(t)),
            None => None,
        };
        Enclosure {
            url: owned_text(n.attribute("url")),
            length,
            type_: owned_text(n.attribute("type")),
        }
    }
}

/// The model of an episode's identifier.
pub struct GUIDView {
    pub is_permalink: Option<Decoded<bool>>,
    pub value: Option<Seq<char>>,
}

/// The identifier of an episode, and whether it is a lasting link to it.
#[derive(Debug, PartialEq, Eq, Default)]
pub struct GUID {
    pub is_permalink: Option<Bool>,
    pub value: Option<String>,
}

impl View for GUID {
    type V = GUIDView;

    open spec fn view(&self) -> GUIDView {
        GUIDView { is_permalink: option_view(self.is_permalink), value: option_view(self.value) }
    }
}

impl GUID {
    /// What an identifier element decodes to: its attribute `isPermaLink` as
    /// a boolean field, and its own text.
    pub open spec fn decoded(n: NodeView) -> GUIDView {
        GUIDView {
            is_permalink: option_map(
                n.attribute("isPermaLink"@),
                |t: Seq<char>| Bool::decoded(t),
            ),
            value: n.text,
        }
    }

    /// Decodes an identifier element.
    pub fn decode(n: &Node) -> (guid: GUID)
        ensures
            guid@ == GUID::decoded(n@),
    {
        let is_permalink = match n.attribute("isPermaLink") {
            Some(t) => Some(Bool::parse(t)),
            None => None,
        };
        let value = match &n.text {
            Some(t) => Some(t.clone()),
            None => None,
        };
        GUID { is_permalink, value }
    }
}

/// The model of an episode.
pub struct ItemView {
    pub description: Option<Seq<char>>,
    pub link: Option<Seq<char>>,
    pub title: Option<Seq<char>>,
    pub enclosure: Option<EnclosureView>,
    pub guid: Option<GUIDView>,
    pub pub_date: Option<Decoded<OffsetDateTime>>,
}

/// An episode.
#[derive(Debug, PartialEq, Eq, Default)]
pub struct Item {
    pub description: Option<String>,
    pub link: Option<String>,
    pub title: Option<String>,
    pub enclosure: Option<Enclosure>,
    pub guid: Option<GUID>,
    pub pub_date: Option<Datetime>,
}

impl View for Item {
    type V = ItemView;

    open spec fn view(&self) -> ItemView {
        ItemView {
            description: option_view(self.description),
            link: option_view(self.link),
            title: option_view(self.title),
            enclosure: option_view(self.enclosure),
            guid: option_view(self.guid),
            pub_date: option_view(self.pub_date),
        }
    }
}

impl Item {
    /// What an item element decodes to. Each field goes by the first child of
    /// its name, in no namespace, and is absent where there is no such child.
    pub open spec fn decoded(n: NodeView) -> ItemView {
        ItemView {
            description: n.child_text(""@, "description"@),
            link: n.child_text(""@, "link"@),
            title: n.child_text(""@, "title"@),
            enclosure: option_map(
                n.child(""@, "enclosure"@),
                |c: NodeView| Enclosure::decoded(c),
            ),
            guid: option_map(n.child(""@, "guid"@), |c: NodeView| GUID::decoded(c)),
            pub_date: option_map(
                n.child_text(""@, "pubDate"@),
                |t: Seq<char>| Datetime::decoded(t),
            ),
        }
    }

    /// What a sequence of item elements decodes to, one by one, in order.
    pub open spec fn decoded_all(nodes: Seq<NodeView>) -> Seq<ItemView> {
        nodes.map_values(|c: NodeView| Item::decoded(c))
    }

    /// Decodes an item element.
    pub fn decode(n: &Node) -> (item: Item)
        ensures
            item@ == Item::decoded(n@),
    {
        let enclosure = match n.child("", "enclosure") {
            Some(c) => Some(Enclosure::decode(c)),
            None => None,
        };
        let guid = match n.child("", "guid") {
            Some(c) => Some(GUID::decode(c)),
            None => None,
        };
        let pub_date = match n.child_text("", "pubDate") {
            Some(t) => Some(Datetime::parse(t)),
            None => None,
        };
        Item {
            description: owned_text(n.child_text("", "description")),
            link: owned_text(n.child_text("", "link")),
            title: owned_text(n.child_text("", "title")),
            enclosure,
            guid,
            pub_date,
        }
    }

    /// Decodes item elements one by one, in order.
    pub fn decode_all(nodes: &Vec<&Node>) -> (items: Vec<Item>)
        ensures
            items@.map_values(|i: Item| i@) == Item::decoded_all(
                nodes@.map_values(|c: &Node| c@),
            ),
    {
        let mut items: Vec<Item> = Vec::new();
        let mut i: usize = 0;
        while i < nodes.len()
            invariant
                i <= nodes.len(),
                items@.len() == i,
                forall|j: int| 0 <= j < i ==> (#[trigger] items@[j])@ == Item::decoded(nodes@[j]@),
            decreases nodes.len() - i,
        {
            items.push(Item::decode(nodes[i]));
            i = i + 1;
        }
        assert(items@.map_values(|i: Item| i@) =~= Item::decoded_all(
            nodes@.map_values(|c: &Node| c@),
        ));
        items
    }
}

/// The model of a channel.
pub struct ChannelView {
    pub copyright: Option<Seq<char>>,
    pub description: Option<Seq<char>>,
    pub generator: Option<Seq<char>>,
    pub language: Option<Seq<char>>,
    pub link: Option<Seq<char>>,
    pub title: Option<Seq<char>>,
    pub content_encoded: Option<Seq<char>>,
    pub itunes_author: Option<Seq<char>>,
    pub itunes_block: Option<Decoded<()>>,
    pub itunes_categories: Seq<itunes::CategoryView>,
    pub itunes_complete: Option<Decoded<()>>,
    pub itunes_explicit: Option<Decoded<bool>>,
    pub itunes_image: Option<itunes::ImageView>,
    pub itunes_new_feed_url: Option<Seq<char>>,
    pub itunes_owner: Option<itunes::OwnerView>,
    pub itunes_type: Option<itunes::PodcastTypeView>,
    pub items: Seq<ItemView>,
}

/// A podcast: what is said of it as a whole, and its episodes in the order
/// of the document.
#[derive(Debug, PartialEq, Eq, Default)]
pub struct Channel {
    pub copyright: Option<String>,
    pub description: Option<String>,
    pub generator: Option<String>,
    pub language: Option<String>,
    pub link: Option<String>,
    pub title: Option<String>,
    pub content_encoded: Option<String>,
    pub itunes_author: Option<String>,
    pub itunes_block: Option<itunes::Yes>,
    pub itunes_categories: Vec<itunes::Category>,
    pub itunes_complete: Option<itunes::Yes>,
    pub itunes_explicit: Option<Bool>,
    pub itunes_image: Option<itunes::Image>,
    pub itunes_new_feed_url: Option<String>,
    pub itunes_owner: Option<itunes::Owner>,
    pub itunes_type: Option<itunes::PodcastType>,
    pub items: Vec<Item>,
}

impl View for Channel {
    type V = ChannelView;

    open spec fn view(&self) -> ChannelView {
        ChannelView {
            copyright: option_view(self.copyright),
            description: option_view(self.description),
            generator: option_view(self.generator),
            language: option_view(self.language),
            link: option_view(self.link),
            title: option_view(self.title),
            content_encoded: option_view(self.content_encoded),
            itunes_author: option_view(self.itunes_author),
            itunes_block: option_view(self.itunes_block),
            itunes_categories: self.itunes_categories@.map_values(|c: itunes::Category| c@),
            itunes_complete: option_view(self.itunes_complete),
            itunes_explicit: option_view(self.itunes_explicit),
            itunes_image: option_view(self.itunes_image),
            itunes_new_feed_url: option_view(self.itunes_new_feed_url),
            itunes_owner: option_view(self.itunes_owner),
            itunes_type: option_view(self.itunes_type),
            items: self.items@.map_values(|i: Item| i@),
        }
    }
}

impl Channel {
    /// What a channel element decodes to. A field that is written once goes
    /// by the first child of its name and is absent where there is no such
    /// child; categories and items are all the children of their name, in
    /// document order, and none where there are none.
    pub open spec fn decoded(n: NodeView) -> ChannelView {
        ChannelView {
            copyright: n.child_text(""@, "copyright"@),
            description: n.child_text(""@, "description"@),
            generator: n.child_text(""@, "generator"@),
            language: n.child_text(""@, "language"@),
            link: n.child_text(""@, "link"@),
            title: n.child_text(""@, "title"@),
            content_encoded: n.child_text(CONTENT_NAMESPACE@, "encoded"@),
            itunes_author: n.child_text(itunes::NAMESPACE@, "author"@),
            itunes_block: option_map(
                n.child_text(itunes::NAMESPACE@, "block"@),
                |t: Seq<char>| itunes::Yes::decoded(t),
            ),
            itunes_categories: itunes::Category::decoded_all(
                n.children_named(itunes::NAMESPACE@, "category"@),
            ),
            itunes_complete: option_map(
                n.child_text(itunes::NAMESPACE@, "complete"@),
                |t: Seq<char>| itunes::Yes::decoded(t),
            ),
            itunes_explicit: option_map(
                n.child_text(itunes::NAMESPACE@, "explicit"@),
                |t: Seq<char>| Bool::decoded(t),
            ),
            itunes_image: option_map(
                n.child(itunes::NAMESPACE@, "image"@),
                |c: NodeView| itunes::Image::decoded(c),
            ),
            itunes_new_feed_url: n.child_text(itunes::NAMESPACE@, "new-feed-url"@),
            itunes_owner: option_map(
                n.child(itunes::NAMESPACE@, "owner"@),
                |c: NodeView| itunes::Owner::decoded(c),
            ),
            itunes_type: option_map(
                n.child_text(itunes::NAMESPACE@, "type"@),
                |t: Seq<char>| itunes::PodcastType::decoded(t),
            ),
            items: Item::decoded_all(n.children_named(""@, "item"@)),
        }
    }

    /// Decodes a channel element.
    pub fn decode(n: &Node) -> (channel: Channel)
        ensures
            channel@ == Channel::decoded(n@),
    {
        let itunes_block = match n.child_text(itunes::NAMESPACE, "block") {
            Some(t) => Some(itunes::Yes::parse(t)),
            None => None,
        };
        let itunes_complete = match n.child_text(itunes::NAMESPACE, "complete") {
            Some(t) => Some(itunes::Yes::parse(t)),
            None => None,
        };
        let itunes_explicit = match n.child_text(itunes::NAMESPACE, "explicit") {
            Some(t) => Some(Bool::parse(t)),
            None => None,
        };
        let itunes_image = match n.child(itunes::NAMESPACE, "image") {
            Some(c) => Some(itunes::Image::decode(c)),
            None => None,
        };
        let itunes_owner = match n.child(itunes::NAMESPACE, "owner") {
            Some(c) => Some(itunes::Owner::decode(c)),
            None => None,
        };
        let itunes_type = match n.child_text(itunes::NAMESPACE, "type") {
            Some(t) => Some(itunes::PodcastType::parse(t)),
            None => None,
        };
        let category_nodes = n.children_named(itunes::NAMESPACE, "category");
        let item_nodes = n.children_named("", "item");
        Channel {
            copyright: owned_text(n.child_text("", "copyright")),
            description: owned_text(n.child_text("", "description")),
            generator: owned_text(n.child_text("", "generator")),
            language: owned_text(n.child_text("", "language")),
            link: owned_text(n.child_text("", "link")),
            title: owned_text(n.child_text("", "title")),
            content_encoded: owned_text(n.child_text(CONTENT_NAMESPACE, "encoded")),
            itunes_author: owned_text(n.child_text(itunes::NAMESPACE, "author")),
            itunes_block,
            itunes_categories: itunes::Category::decode_all(&category_nodes),
            itunes_complete,
            itunes_explicit,
            itunes_image,
            itunes_new_feed_url: owned_text(n.child_text(itunes::NAMESPACE, "new-feed-url")),
            itunes_owner,
            itunes_type,
            items: Item::decode_all(&item_nodes),
        }
    }
}

/// The model of the document's outermost element.
pub struct RSSView {
    pub version: Option<Seq<char>>,
    pub channel: Option<ChannelView>,
}

/// The outermost element of the document: the version of the format, and the
/// channel.
#[derive(Debug, PartialEq, Eq, Default)]
pub struct RSS {
    pub version: Option<String>,
    pub channel: Option<Channel>,
}

impl View for RSS {
    type V = RSSView;

    open spec fn view(&self) -> RSSView {
        RSSView { version: option_view(self.version), channel: option_view(self.channel) }
    }
}

impl RSS {
    /// What the outermost element decodes to: its attribute `version`, and
    /// its first child `channel`.
    pub open spec fn decoded(n: NodeView) -> RSSView {
        RSSView {
            version: n.attribute("version"@),
            channel: option_map(n.child(""@, "channel"@), |c: NodeView| Channel::decoded(c)),
        }
    }

    /// Decodes the outermost element.
    pub fn decode(n: &Node) -> (rss: RSS)
        ensures
            rss@ == RSS::decoded(n@),
    {
        let channel = match n.child("", "channel") {
            Some(c) => Some(Channel::decode(c)),
            None => None,
        };
        RSS { version: owned_text(n.attribute("version")), channel }
    }
}

/// The model of a feed.
pub struct FeedView {
    pub rss: RSSView,
}

/// A feed document.
#[derive(Debug, PartialEq, Eq, Default)]
pub struct Feed {
    pub rss: RSS,
}

impl View for Feed {
    type V = FeedView;

    open spec fn view(&self) -> FeedView {
        FeedView { rss: self.rss@ }
    }
}

impl Feed {
    /// What a document decodes to, given its outermost element `root`.
    pub open spec fn decoded(root: NodeView) -> FeedView {
        FeedView { rss: RSS::decoded(root) }
    }

    /// Decodes a document, given its outermost element. Every document
    /// decodes to a feed: a field whose text is not of the field's shape
    /// keeps the text, and an element that is not there leaves its field
    /// absent.
    pub fn decode(root: &Node) -> (feed: Feed)
        ensures
            feed@ == Feed::decoded(root@),
    {
        Feed { rss: RSS::decode(root) }
    }
}

} // verus!
