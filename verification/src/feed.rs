//! The feed of a show: the fields of its channel and of one item for each
//! episode, as they are handed to the RSS writer.

use crate::date::{pub_date, pub_date_text};
use crate::model::{ContainerView, EpisodeView, PodContainer, PodEpisode, PodEpisodes};
use crate::text::{
    decimal, decimal_string, lemma_replaced_is_free, occurs_in, replace_all, replaced,
    shares_no_char, two_digit_string, two_digits,
};
use vstd::prelude::*;

verus! {

/// The placeholder for an image's size in the URLs that upstream sends.
pub const RECIPE: &'static str = "{recipe}";

/// The image size that feeds ask for.
pub const IMAGE_SIZE: &'static str = "288x288";

/// The MIME type of every enclosure.
pub const AUDIO_TYPE: &'static str = "audio/mpeg";

/// The publisher, named as the author of every channel.
pub const AUTHOR: &'static str = "BBC";

/// The channel is kept out of podcast directories.
pub const BLOCK: &'static str = "Yes";

/// The channel may still grow.
pub const COMPLETE: &'static str = "No";

/// Where the page of a show is found, up to the show's identifier.
pub const SERIES_BASE: &'static str = "https://www.bbc.co.uk/sounds/series/";

pub const ITUNES_PREFIX: &'static str = "itunes";

pub const ITUNES_NAMESPACE: &'static str = "http://www.itunes.com/dtds/podcast-1.0.dtd";

pub const CONTENT_PREFIX: &'static str = "content";

pub const CONTENT_NAMESPACE: &'static str = "http://purl.org/rss/1.0/modules/content/";

/// An image URL with its size placeholder filled in.
pub open spec fn sized_image(url: Seq<char>) -> Seq<char> {
    replaced(url, RECIPE@, IMAGE_SIZE@)
}

/// No sized image URL holds the placeholder any more.
pub proof fn lemma_sized_image_has_no_recipe(url: Seq<char>)
    ensures
        !occurs_in(sized_image(url), RECIPE@),
{
    reveal_strlit("{recipe}");
    reveal_strlit("288x288");
    assert(shares_no_char(IMAGE_SIZE@, RECIPE@));
    lemma_replaced_is_free(url, RECIPE@, IMAGE_SIZE@);
}

/// Fills in the size placeholder of an image URL, wherever it stands.
pub fn replace_img_url(input: &str) -> (url: String)
    ensures
        url@ == sized_image(input@),
        !occurs_in(url@, RECIPE@),
{
    proof {
        lemma_sized_image_has_no_recipe(input@);
    }
    replace_all(input, RECIPE, IMAGE_SIZE)
}

/// A playing time as podcast clients show it: minutes and seconds in two
/// digits each, led by the hours where there are any.
pub open spec fn clock_text(secs: nat) -> Seq<char> {
    let h = secs / 3600;
    let m = (secs % 3600) / 60;
    let s = secs % 60;
    if h == 0 {
        two_digits(m) + seq![':'] + two_digits(s)
    } else {
        decimal(h) + seq![':'] + two_digits(m) + seq![':'] + two_digits(s)
    }
}

/// Writes a playing time of `secs` seconds as `H:MM:SS`, or as `MM:SS` where
/// it is under an hour.
pub fn hhmmss(secs: u64) -> (text: String)
    ensures
        text@ == clock_text(secs as nat),
{
    proof {
        reveal_strlit(":");
    }
    let h = secs / 3600;
    let m = (secs % 3600) / 60;
    let s = secs % 60;
    let mut text = if h == 0 {
        String::new()
    } else {
        let mut hours = decimal_string(h);
        hours.append(":");
        hours
    };
    text.append(two_digit_string(m).as_str());
    text.append(":");
    text.append(two_digit_string(s).as_str());
    assert(text@ =~= clock_text(secs as nat));
    text
}

/// The page of the show `id`.
pub open spec fn series_link(id: Seq<char>) -> Seq<char> {
    SERIES_BASE@ + id
}

/// What one item of the feed says of its episode.
#[derive(Clone, Debug, PartialEq, Eq)]
pub struct FeedItem {
    pub title: String,
    pub description: String,
    pub enclosure_url: String,
    pub enclosure_length: String,
    pub enclosure_type: String,
    pub image: String,
    pub duration: String,
    pub subtitle: String,
    pub pub_date: String,
}

pub struct FeedItemView {
    pub title: Seq<char>,
    pub description: Seq<char>,
    pub enclosure_url: Seq<char>,
    pub enclosure_length: Seq<char>,
    pub enclosure_type: Seq<char>,
    pub image: Seq<char>,
    pub duration: Seq<char>,
    pub subtitle: Seq<char>,
    pub pub_date: Seq<char>,
}

impl View for FeedItem {
    type V = FeedItemView;

    open spec fn view(&self) -> FeedItemView {
        FeedItemView {
            title: self.title@,
            description: self.description@,
            enclosure_url: self.enclosure_url@,
            enclosure_length: self.enclosure_length@,
            enclosure_type: self.enclosure_type@,
            image: self.image@,
            duration: self.duration@,
            subtitle: self.subtitle@,
            pub_date: self.pub_date@,
        }
    }
}

/// An XML namespace that the feed declares.
#[derive(Clone, Debug, PartialEq, Eq)]
pub struct Namespace {
    pub prefix: String,
    pub uri: String,
}

impl View for Namespace {
    type V = (Seq<char>, Seq<char>);

    open spec fn view(&self) -> (Seq<char>, Seq<char>) {
        (self.prefix@, self.uri@)
    }
}

/// What the feed says of its show, and its items in the order of the
/// episodes.
#[derive(Clone, Debug, PartialEq, Eq)]
pub struct Feed {
    pub namespaces: Vec<Namespace>,
    pub title: String,
    pub description: String,
    pub link: String,
    pub author: String,
    pub block: String,
    pub complete: String,
    pub image: String,
    pub items: Vec<FeedItem>,
}

pub struct FeedView {
    pub namespaces: Seq<(Seq<char>, Seq<char>)>,
    pub title: Seq<char>,
    pub description: Seq<char>,
    pub link: Seq<char>,
    pub author: Seq<char>,
    pub block: Seq<char>,
    pub complete: Seq<char>,
    pub image: Seq<char>,
    pub items: Seq<FeedItemView>,
}

impl View for Feed {
    type V = FeedView;

    open spec fn view(&self) -> FeedView {
        FeedView {
            namespaces: Seq::new(self.namespaces@.len(), |i: int| self.namespaces@[i]@),
            title: self.title@,
            description: self.description@,
            link: self.link@,
            author: self.author@,
            block: self.block@,
            complete: self.complete@,
            image: self.image@,
            items: Seq::new(self.items@.len(), |i: int| self.items@[i]@),
        }
    }
}

/// The item of an episode: its secondary title, its long synopsis, the high
/// rendition as enclosure, and its short synopsis as subtitle.
pub open spec fn item_for(episode: EpisodeView) -> FeedItemView {
    FeedItemView {
        title: episode.titles.secondary,
        description: episode.synopses.long,
        enclosure_url: episode.download.quality_variants.high.file_url,
        enclosure_length: decimal(episode.download.quality_variants.high.file_size),
        enclosure_type: AUDIO_TYPE@,
        image: sized_image(episode.image_url),
        duration: clock_text(episode.duration.value),
        subtitle: episode.synopses.short,
        pub_date: pub_date_text(episode.release.date),
    }
}

/// The namespaces that every feed declares.
pub open spec fn feed_namespaces() -> Seq<(Seq<char>, Seq<char>)> {
    seq![(ITUNES_PREFIX@, ITUNES_NAMESPACE@), (CONTENT_PREFIX@, CONTENT_NAMESPACE@)]
}

/// The feed of the show `id`: the channel from the show's primary title and
/// medium synopsis, and one item for each episode, in the order given.
pub open spec fn feed_for(id: Seq<char>, info: ContainerView, episodes: Seq<EpisodeView>)
    -> FeedView {
    FeedView {
        namespaces: feed_namespaces(),
        title: info.titles.primary,
        description: info.synopses.medium,
        link: series_link(id),
        author: AUTHOR@,
        block: BLOCK@,
        complete: COMPLETE@,
        image: sized_image(info.image_url),
        items: Seq::new(episodes.len(), |i: int| item_for(episodes[i])),
    }
}

/// Makes the feed item of one episode.
pub fn feed_item(episode: &PodEpisode) -> (item: FeedItem)
    ensures
        item@ == item_for(episode@),
{
    let high = &episode.download.quality_variants.high;
    FeedItem {
        title: episode.titles.secondary.clone(),
        description: episode.synopses.long.clone(),
        enclosure_url: high.file_url.clone(),
        enclosure_length: decimal_string(high.file_size as u64),
        enclosure_type: String::from_str(AUDIO_TYPE),
        image: replace_img_url(episode.image_url.as_str()),
        duration: hhmmss(episode.duration.value),
        subtitle: episode.synopses.short.clone(),
        pub_date: pub_date(episode.release.date.as_str()),
    }
}

/// Makes the feed of the show `id` from its metadata and its episodes.
pub fn build_feed(id: &str, info: &PodContainer, episodes: &PodEpisodes) -> (feed: Feed)
    ensures
        feed@ == feed_for(id@, info@, episodes@),
{
    let mut items: Vec<FeedItem> = Vec::new();
    let mut i: usize = 0;
    while i < episodes.data.len()
        invariant
            i <= episodes.data.len(),
            items.len() == i,
            forall|k: int| 0 <= k < i ==> (#[trigger] items@[k])@ == item_for(episodes.data@[k]@),
        decreases episodes.data.len() - i,
    {
        items.push(feed_item(&episodes.data[i]));
        i = i + 1;
    }
    let mut namespaces: Vec<Namespace> = Vec::new();
    namespaces.push(
        Namespace {
            prefix: String::from_str(ITUNES_PREFIX),
            uri: String::from_str(ITUNES_NAMESPACE),
        },
    );
    namespaces.push(
        Namespace {
            prefix: String::from_str(CONTENT_PREFIX),
            uri: String::from_str(CONTENT_NAMESPACE),
        },
    );
    let mut link = String::from_str(SERIES_BASE);
    link.append(id);
    let feed = Feed {
        namespaces,
        title: info.titles.primary.clone(),
        description: info.synopses.medium.clone(),
        link,
        author: String::from_str(AUTHOR),
        block: String::from_str(BLOCK),
        complete: String::from_str(COMPLETE),
        image: replace_img_url(info.image_url.as_str()),
        items,
    };
    proof {
        let want = feed_for(id@, info@, episodes@);
        assert(feed@.namespaces =~= want.namespaces);
        assert(feed@.items =~= want.items);
    }
    feed
}

/// Every item's enclosure is the high rendition of its episode: its URL,
/// and its size in bytes as a decimal numeral.
pub proof fn lemma_enclosure_is_high_rendition(
    id: Seq<char>,
    info: ContainerView,
    episodes: Seq<EpisodeView>,
    i: int,
)
    requires
        0 <= i < episodes.len(),
    ensures
        feed_for(id, info, episodes).items[i].enclosure_url
            == episodes[i].download.quality_variants.high.file_url,
        feed_for(id, info, episodes).items[i].enclosure_length == decimal(
            episodes[i].download.quality_variants.high.file_size,
        ),
{
}

/// No image URL of a feed holds the size placeholder: not the channel's, and
/// not an item's.
pub proof fn lemma_feed_images_have_no_recipe(
    id: Seq<char>,
    info: ContainerView,
    episodes: Seq<EpisodeView>,
)
    ensures
        !occurs_in(feed_for(id, info, episodes).image, RECIPE@),
        forall|i: int|
            0 <= i < episodes.len() ==> !occurs_in(
                (#[trigger] feed_for(id, info, episodes).items[i]).image,
                RECIPE@,
            ),
{
    lemma_sized_image_has_no_recipe(info.image_url);
    assert forall|i: int| 0 <= i < episodes.len() implies !occurs_in(
        (#[trigger] feed_for(id, info, episodes).items[i]).image,
        RECIPE@,
    ) by {
        lemma_sized_image_has_no_recipe(episodes[i].image_url);
    }
}

} // verus!
