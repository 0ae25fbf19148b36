//! Writing a feed as an RSS 2.0 document with the `rss` crate.

use crate::feed::{build_feed, feed_for, Feed, FeedItemView, FeedView, Namespace};
use crate::model::{PodContainer, PodEpisodes};
use rss::extension::itunes::{
    ITunesChannelExtension, ITunesChannelExtensionBuilder, ITunesItemExtension,
    ITunesItemExtensionBuilder,
};
use rss::{ChannelBuilder, Enclosure, EnclosureBuilder, Item, ItemBuilder};
use std::collections::BTreeMap;
use vstd::prelude::*;

verus! {

/// `rss::Enclosure`, held without a look inside.
#[verifier::external_type_specification]
#[verifier::external_body]
pub struct ExEnclosure(Enclosure);

/// `rss::extension::itunes::ITunesItemExtension`, held without a look inside.
#[verifier::external_type_specification]
#[verifier::external_body]
pub struct ExITunesItemExtension(ITunesItemExtension);

/// `rss::extension::itunes::ITunesChannelExtension`, held without a look
/// inside.
#[verifier::external_type_specification]
#[verifier::external_body]
pub struct ExITunesChannelExtension(ITunesChannelExtension);

/// `rss::Item`, held without a look inside.
#[verifier::external_type_specification]
#[verifier::external_body]
pub struct ExItem(Item);

/// The enclosure that `EnclosureBuilder` builds from a URL, a length and a
/// MIME type.
pub uninterp spec fn enclosure_of(url: Seq<char>, length: Seq<char>, mime_type: Seq<char>)
    -> Enclosure;

/// The extension that `ITunesItemExtensionBuilder` builds from an image, a
/// duration and a subtitle.
pub uninterp spec fn itunes_item_of(image: Seq<char>, duration: Seq<char>, subtitle: Seq<char>)
    -> ITunesItemExtension;

/// The item that `ItemBuilder` builds from a title, a description, an iTunes
/// extension, an enclosure and a publication date.
pub uninterp spec fn item_of(
    title: Seq<char>,
    description: Seq<char>,
    itunes: ITunesItemExtension,
    enclosure: Enclosure,
    pub_date: Seq<char>,
) -> Item;

/// The extension that `ITunesChannelExtensionBuilder` builds from an author,
/// a block flag, an image and a completion flag.
pub uninterp spec fn itunes_channel_of(
    author: Seq<char>,
    block: Seq<char>,
    image: Seq<char>,
    complete: Seq<char>,
) -> ITunesChannelExtension;

/// The document that a channel writes itself as, built by `ChannelBuilder`
/// from namespaces, a title, a description, an iTunes extension, a link and
/// items.
pub uninterp spec fn channel_text(
    namespaces: Seq<(Seq<char>, Seq<char>)>,
    title: Seq<char>,
    description: Seq<char>,
    itunes: ITunesChannelExtension,
    link: Seq<char>,
    items: Seq<Item>,
) -> Seq<char>;

/// Builds an enclosure with `rss::EnclosureBuilder`, setting its MIME type,
/// length and URL.
///
/// Trusted: the builder copies the three values; the enclosure depends on
/// them alone.
#[verifier::external_body]
fn rss_enclosure(url: &str, length: &str, mime_type: &str) -> (enclosure: Enclosure)
    ensures
        enclosure == enclosure_of(url@, length@, mime_type@),
{
    EnclosureBuilder::default()
        .mime_type(mime_type.to_string())
        .length(length.to_string())
        .url(url.to_string())
        .build()
}

/// Builds an item's iTunes extension with
/// `rss::extension::itunes::ITunesItemExtensionBuilder`, setting its image,
/// duration and subtitle.
///
/// Trusted: the builder copies the three values and leaves the other fields
/// unset; the extension depends on the values alone.
#[verifier::external_body]
fn rss_itunes_item(image: &str, duration: &str, subtitle: &str) -> (itunes: ITunesItemExtension)
    ensures
        itunes == itunes_item_of(image@, duration@, subtitle@),
{
    ITunesItemExtensionBuilder::default()
        .image(image.to_string())
        .duration(duration.to_string())
        .subtitle(subtitle.to_string())
        .build()
}

/// Builds an item with `rss::ItemBuilder`, setting its title, description,
/// iTunes extension, enclosure and publication date.
///
/// Trusted: the builder stores the five values and leaves the other fields
/// unset; the item depends on the values alone.
#[verifier::external_body]
fn rss_item(
    title: &str,
    description: &str,
    itunes: ITunesItemExtension,
    enclosure: Enclosure,
    pub_date: &str,
) -> (item: Item)
    ensures
        item == item_of(title@, description@, itunes, enclosure, pub_date@),
{
    ItemBuilder::default()
        .title(title.to_string())
        .description(description.to_string())
        .itunes_ext(itunes)
        .enclosure(enclosure)
        .pub_date(pub_date.to_string())
        .build()
}

/// Builds a channel's iTunes extension with
/// `rss::extension::itunes::ITunesChannelExtensionBuilder`, setting its
/// author, block flag, image and completion flag.
///
/// Trusted: the builder copies the four values and leaves the other fields
/// unset; the extension depends on the values alone.
#[verifier::external_body]
fn rss_itunes_channel(author: &str, block: &str, image: &str, complete: &str) -> (itunes:
    ITunesChannelExtension)
    ensures
        itunes == itunes_channel_of(author@, block@, image@, complete@),
{
    ITunesChannelExtensionBuilder::default()
        .author(author.to_string())
        .block(block.to_string())
        .image(image.to_string())
        .complete(complete.to_string())
        .build()
}

/// Builds a channel with `rss::ChannelBuilder`, setting its namespaces,
/// title, description, iTunes extension, link and items, and writes it with
/// the channel's `to_string`.
///
/// Trusted: the document depends on the six values alone. The namespaces go
/// into the map the channel keeps them in, which takes the later of two
/// declarations of one prefix and writes them in the order of the prefixes.
#[verifier::external_body]
fn rss_channel_text(
    namespaces: &Vec<Namespace>,
    title: &str,
    description: &str,
    itunes: ITunesChannelExtension,
    link: &str,
    items: Vec<Item>,
) -> (text: String)
    ensures
        text@ == channel_text(
            Seq::new(namespaces@.len(), |i: int| namespaces@[i]@),
            title@,
            description@,
            itunes,
            link@,
            items@,
        ),
{
    let namespaces: BTreeMap<String, String> =
        namespaces.iter().map(|n| (n.prefix.clone(), n.uri.clone())).collect();
    ChannelBuilder::default()
        .namespaces(namespaces)
        .title(title.to_string())
        .description(description.to_string())
        .itunes_ext(itunes)
        .link(link.to_string())
        .items(items)
        .build()
        .to_string()
}

/// The `rss` item that stands for a feed item.
pub open spec fn item_entry(item: FeedItemView) -> Item {
    item_of(
        item.title,
        item.description,
        itunes_item_of(item.image, item.duration, item.subtitle),
        enclosure_of(item.enclosure_url, item.enclosure_length, item.enclosure_type),
        item.pub_date,
    )
}

/// The RSS document of a feed: its channel with one item for each feed item,
/// in the feed's order.
pub open spec fn document(feed: FeedView) -> Seq<char> {
    channel_text(
        feed.namespaces,
        feed.title,
        feed.description,
        itunes_channel_of(feed.author, feed.block, feed.image, feed.complete),
        feed.link,
        Seq::new(feed.items.len(), |i: int| item_entry(feed.items[i])),
    )
}

/// Writes a feed as an RSS 2.0 document.
pub fn render(feed: &Feed) -> (xml: String)
    ensures
        xml@ == document(feed@),
{
    let mut items: Vec<Item> = Vec::new();
    let mut i: usize = 0;
    while i < feed.items.len()
        invariant
            i <= feed.items.len(),
            items.len() == i,
            forall|k: int| 0 <= k < i ==> #[trigger] items@[k] == item_entry(feed.items@[k]@),
        decreases feed.items.len() - i,
    {
        let entry = &feed.items[i];
        let itunes = rss_itunes_item(
            entry.image.as_str(),
            entry.duration.as_str(),
            entry.subtitle.as_str(),
        );
        let enclosure = rss_enclosure(
            entry.enclosure_url.as_str(),
            entry.enclosure_length.as_str(),
            entry.enclosure_type.as_str(),
        );
        items.push(
            rss_item(
                entry.title.as_str(),
                entry.description.as_str(),
                itunes,
                enclosure,
                entry.pub_date.as_str(),
            ),
        );
        i = i + 1;
    }
    let itunes = rss_itunes_channel(
        feed.author.as_str(),
        feed.block.as_str(),
        feed.image.as_str(),
        feed.complete.as_str(),
    );
    proof {
        assert(items@ =~= Seq::new(feed@.items.len(), |i: int| item_entry(feed@.items[i])));
    }
    rss_channel_text(
        &feed.namespaces,
        feed.title.as_str(),
        feed.description.as_str(),
        itunes,
        feed.link.as_str(),
        items,
    )
}

/// Writes the RSS 2.0 document of the show `id` from its metadata and its
/// episodes.
pub fn build_rss(id: &str, info: &PodContainer, episodes: &PodEpisodes) -> (xml: String)
    ensures
        xml@ == document(feed_for(id@, info@, episodes@)),
{
    let feed = build_feed(id, info, episodes);
    render(&feed)
}

/// Shows and episodes that read the same are written as the same document.
pub proof fn lemma_same_input_same_document(
    id: &str,
    info: PodContainer,
    episodes: PodEpisodes,
    other_id: &str,
    other_info: PodContainer,
    other_episodes: PodEpisodes,
)
    requires
        id@ == other_id@,
        info@ == other_info@,
        episodes@ == other_episodes@,
    ensures
        document(feed_for(id@, info@, episodes@)) == document(
            feed_for(other_id@, other_info@, other_episodes@),
        ),
{
}

} // verus!
