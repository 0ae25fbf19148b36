use soundsproxy::dispatch::{get_feed, greeting, router, HttpResponse, Route};
use soundsproxy::feed::{build_feed, feed_item, Feed, FeedItem, Namespace};
use soundsproxy::model::{
    Envelope, PodContainer, PodDownload, PodDuration, PodEpisode, PodEpisodes,
    PodQualityVariant, PodQualityVariants, PodRelease, PodSynopses, PodTitles, TransportError,
    UpstreamError,
};
use soundsproxy::render::{build_rss, render};

fn variant(name: &str, bitrate: u32, size: u32) -> PodQualityVariant {
    PodQualityVariant {
        bitrate,
        file_url: format!("https://open.live.bbc.co.uk/{}.mp3", name),
        file_size: size,
        label: name.to_string(),
    }
}

fn episode(n: u32, date: &str) -> PodEpisode {
    PodEpisode {
        titles: PodTitles { primary: "The Show".to_string(), secondary: format!("Episode {}", n) },
        synopses: PodSynopses {
            short: format!("short {}", n),
            medium: format!("medium {}", n),
            long: format!("long {}", n),
        },
        image_url: format!("https://ichef.bbci.co.uk/images/ic/{{recipe}}/e{}.jpg", n),
        duration: PodDuration { value: 1680 + u64::from(n), label: "28 mins".to_string() },
        download: PodDownload {
            download_type: "non-drm".to_string(),
            quality_variants: PodQualityVariants {
                low: variant(&format!("low{}", n), 48, 100 + n),
                medium: variant(&format!("medium{}", n), 96, 200 + n),
                high: variant(&format!("high{}", n), 128, 300 + n),
            },
        },
        release: PodRelease { date: date.to_string(), label: "2 Jan 2020".to_string() },
    }
}

fn show() -> PodContainer {
    PodContainer {
        titles: PodTitles { primary: "The Show".to_string(), secondary: "A show".to_string() },
        synopses: PodSynopses {
            short: "s".to_string(),
            medium: "About the show".to_string(),
            long: "l".to_string(),
        },
        image_url: "https://ichef.bbci.co.uk/images/ic/{recipe}/show.jpg".to_string(),
    }
}

fn three_episodes() -> PodEpisodes {
    PodEpisodes {
        data: vec![
            episode(3, "2020-01-04T03:04:05Z"),
            episode(1, "2020-01-02T03:04:05+01:00"),
            episode(2, "not-a-date"),
        ],
    }
}

fn upstream_error(message: &str) -> UpstreamError {
    UpstreamError {
        id: "e1".to_string(),
        href: "/v2/programmes/x/container".to_string(),
        status: 404,
        message: message.to_string(),
        replied_at: "2021-11-28T19:15:00Z".to_string(),
    }
}

fn transport(description: &str) -> TransportError {
    TransportError { description: description.to_string() }
}

fn parse(xml: &str) -> rss::Channel {
    rss::Channel::read_from(xml.as_bytes()).unwrap()
}

#[test]
fn feed_item_takes_its_fields_from_the_episode() {
    let item = feed_item(&episode(1, "2020-01-02T03:04:05+01:00"));
    assert_eq!(
        item,
        FeedItem {
            title: "Episode 1".to_string(),
            description: "long 1".to_string(),
            enclosure_url: "https://open.live.bbc.co.uk/high1.mp3".to_string(),
            enclosure_length: "301".to_string(),
            enclosure_type: "audio/mpeg".to_string(),
            image: "https://ichef.bbci.co.uk/images/ic/288x288/e1.jpg".to_string(),
            duration: "28:01".to_string(),
            subtitle: "short 1".to_string(),
            pub_date: "Thu, 2 Jan 2020 03:04:05 +0100".to_string(),
        }
    );
}

#[test]
fn feed_item_writes_the_largest_file_size() {
    let mut e = episode(1, "2020-01-02T03:04:05Z");
    e.download.quality_variants.high.file_size = u32::MAX;
    assert_eq!(feed_item(&e).enclosure_length, "4294967295");
}

#[test]
fn build_feed_describes_the_channel() {
    let feed = build_feed("b006qykl", &show(), &PodEpisodes { data: Vec::new() });
    assert_eq!(
        feed,
        Feed {
            namespaces: vec![
                Namespace {
                    prefix: "itunes".to_string(),
                    uri: "http://www.itunes.com/dtds/podcast-1.0.dtd".to_string(),
                },
                Namespace {
                    prefix: "content".to_string(),
                    uri: "http://purl.org/rss/1.0/modules/content/".to_string(),
                },
            ],
            title: "The Show".to_string(),
            description: "About the show".to_string(),
            link: "https://www.bbc.co.uk/sounds/series/b006qykl".to_string(),
            author: "BBC".to_string(),
            block: "Yes".to_string(),
            complete: "No".to_string(),
            image: "https://ichef.bbci.co.uk/images/ic/288x288/show.jpg".to_string(),
            items: Vec::new(),
        }
    );
}

#[test]
fn build_feed_keeps_the_order_of_the_episodes() {
    let feed = build_feed("b006qykl", &show(), &three_episodes());
    let titles: Vec<&str> = feed.items.iter().map(|i| i.title.as_str()).collect();
    assert_eq!(titles, vec!["Episode 3", "Episode 1", "Episode 2"]);
    assert_eq!(feed.items[2], feed_item(&episode(2, "not-a-date")));
}

#[test]
fn build_rss_writes_one_item_for_each_episode_in_order() {
    let xml = build_rss("b006qykl", &show(), &three_episodes());
    let channel = parse(&xml);
    let titles: Vec<Option<&str>> = channel.items().iter().map(|i| i.title()).collect();
    assert_eq!(titles, vec![Some("Episode 3"), Some("Episode 1"), Some("Episode 2")]);
    assert_eq!(xml.matches("<item>").count(), 3);
}

#[test]
fn build_rss_writes_an_empty_channel_for_no_episodes() {
    let xml = build_rss("b006qykl", &show(), &PodEpisodes { data: Vec::new() });
    let channel = parse(&xml);
    assert_eq!(channel.items().len(), 0);
    assert_eq!(xml.matches("<item>").count(), 0);
}

#[test]
fn build_rss_writes_the_channel_fields() {
    let xml = build_rss("b006qykl", &show(), &three_episodes());
    assert!(xml.starts_with("<?xml version=\"1.0\" encoding=\"utf-8\"?><rss version=\"2.0\""));
    assert!(xml.contains("xmlns:itunes=\"http://www.itunes.com/dtds/podcast-1.0.dtd\""));
    assert!(xml.contains("xmlns:content=\"http://purl.org/rss/1.0/modules/content/\""));
    let channel = parse(&xml);
    assert_eq!(channel.title(), "The Show");
    assert_eq!(channel.description(), "About the show");
    assert_eq!(channel.link(), "https://www.bbc.co.uk/sounds/series/b006qykl");
    let itunes = channel.itunes_ext().unwrap();
    assert_eq!(itunes.author(), Some("BBC"));
    assert_eq!(itunes.block(), Some("Yes"));
    assert_eq!(itunes.complete(), Some("No"));
    assert_eq!(itunes.image(), Some("https://ichef.bbci.co.uk/images/ic/288x288/show.jpg"));
}

#[test]
fn build_rss_writes_the_item_fields() {
    let xml = build_rss("b006qykl", &show(), &three_episodes());
    let channel = parse(&xml);
    let item = &channel.items()[1];
    assert_eq!(item.title(), Some("Episode 1"));
    assert_eq!(item.description(), Some("long 1"));
    assert_eq!(item.pub_date(), Some("Thu, 2 Jan 2020 03:04:05 +0100"));
    let itunes = item.itunes_ext().unwrap();
    assert_eq!(itunes.image(), Some("https://ichef.bbci.co.uk/images/ic/288x288/e1.jpg"));
    assert_eq!(itunes.duration(), Some("28:01"));
    assert_eq!(itunes.subtitle(), Some("short 1"));
}

#[test]
fn the_enclosure_is_the_high_rendition() {
    let xml = build_rss("b006qykl", &show(), &three_episodes());
    let channel = parse(&xml);
    for (item, n) in channel.items().iter().zip([3, 1, 2]) {
        let enclosure = item.enclosure().unwrap();
        assert_eq!(enclosure.url(), format!("https://open.live.bbc.co.uk/high{}.mp3", n));
        assert_eq!(enclosure.length(), format!("{}", 300 + n));
        assert_eq!(enclosure.mime_type(), "audio/mpeg");
    }
    assert!(!xml.contains("low"));
    assert!(!xml.contains("medium1"));
    assert!(xml.contains(
        "<enclosure url=\"https://open.live.bbc.co.uk/high1.mp3\" length=\"301\" type=\"audio/mpeg\"/>"
    ));
}

#[test]
fn null_synopses_are_written_as_empty_text() {
    let mut info = show();
    info.synopses = PodSynopses::from_nullable(None, None, None);
    let mut e = episode(1, "2020-01-02T03:04:05Z");
    e.synopses = PodSynopses::from_nullable(None, None, None);
    let xml = build_rss("b006qykl", &info, &PodEpisodes { data: vec![e] });
    assert!(!xml.contains("null"));
    let channel = parse(&xml);
    assert_eq!(channel.description(), "");
    assert_eq!(channel.items()[0].description().unwrap_or(""), "");
    assert_eq!(channel.items()[0].itunes_ext().unwrap().subtitle().unwrap_or(""), "");
}

#[test]
fn no_image_url_keeps_the_placeholder() {
    let xml = build_rss("b006qykl", &show(), &three_episodes());
    assert!(!xml.contains("{recipe}"));
    let feed = build_feed("b006qykl", &show(), &three_episodes());
    assert!(!feed.image.contains("{recipe}"));
    assert!(feed.items.iter().all(|i| !i.image.contains("{recipe}")));
}

#[test]
fn an_unreadable_release_date_is_written_as_the_unix_epoch() {
    let xml = build_rss("b006qykl", &show(), &three_episodes());
    let channel = parse(&xml);
    assert_eq!(channel.items()[2].pub_date(), Some("Thu, 1 Jan 1970 00:00:00 +0000"));
}

#[test]
fn rendering_twice_gives_the_same_text() {
    let first = build_rss("b006qykl", &show(), &three_episodes());
    let second = build_rss("b006qykl", &show(), &three_episodes());
    assert_eq!(first, second);
    let feed = build_feed("b006qykl", &show(), &three_episodes());
    assert_eq!(render(&feed), first);
}

#[test]
fn render_escapes_what_xml_reserves() {
    let mut info = show();
    info.titles.primary = "Tom & Jerry <live>".to_string();
    let xml = build_rss("b006qykl", &info, &PodEpisodes { data: Vec::new() });
    assert!(xml.contains("<title>Tom &amp; Jerry &lt;live&gt;</title>"));
    assert_eq!(parse(&xml).title(), "Tom & Jerry <live>");
}

#[test]
fn render_writes_the_whole_document() {
    let feed = Feed {
        namespaces: vec![Namespace { prefix: "itunes".to_string(), uri: "urn:i".to_string() }],
        title: "T".to_string(),
        description: "D".to_string(),
        link: "L".to_string(),
        author: "A".to_string(),
        block: "Yes".to_string(),
        complete: "No".to_string(),
        image: "I".to_string(),
        items: vec![FeedItem {
            title: "t".to_string(),
            description: "d".to_string(),
            enclosure_url: "u".to_string(),
            enclosure_length: "1".to_string(),
            enclosure_type: "audio/mpeg".to_string(),
            image: "i".to_string(),
            duration: "00:01".to_string(),
            subtitle: "s".to_string(),
            pub_date: "Thu, 1 Jan 1970 00:00:00 +0000".to_string(),
        }],
    };
    assert_eq!(
        render(&feed),
        "<?xml version=\"1.0\" encoding=\"utf-8\"?>\
         <rss version=\"2.0\" xmlns:itunes=\"urn:i\">\
         <channel><title>T</title><link>L</link><description>D</description>\
         <itunes:author>A</itunes:author><itunes:block>Yes</itunes:block>\
         <itunes:image href=\"I\"/><itunes:complete>No</itunes:complete>\
         <item><title>t</title><description><![CDATA[d]]></description>\
         <enclosure url=\"u\" length=\"1\" type=\"audio/mpeg\"/>\
         <pubDate>Thu, 1 Jan 1970 00:00:00 +0000</pubDate>\
         <itunes:image href=\"i\"></itunes:image><itunes:duration>00:01</itunes:duration>\
         <itunes:subtitle>s</itunes:subtitle></item></channel></rss>"
    );
}

#[test]
fn router_greets_the_root() {
    assert_eq!(router("GET", "/"), Route::Greeting);
}

#[test]
fn router_takes_the_rest_of_the_path_as_the_show() {
    assert_eq!(router("GET", "/b006qykl"), Route::Feed("b006qykl".to_string()));
    assert_eq!(router("GET", "/a/b"), Route::Feed("a/b".to_string()));
    assert_eq!(router("GET", "//"), Route::Feed("/".to_string()));
    assert_eq!(router("GET", "/ü"), Route::Feed("ü".to_string()));
}

#[test]
fn router_greets_every_other_method() {
    assert_eq!(router("POST", "/anything-unrecognized-under-other-method"), Route::Greeting);
    assert_eq!(router("POST", "/"), Route::Greeting);
    assert_eq!(router("get", "/b006qykl"), Route::Greeting);
    assert_eq!(router("", "/b006qykl"), Route::Greeting);
}

#[test]
fn router_greets_paths_outside_the_root() {
    assert_eq!(router("GET", ""), Route::Greeting);
    assert_eq!(router("GET", "*"), Route::Greeting);
    assert_eq!(router("GET", "b006qykl"), Route::Greeting);
}

#[test]
fn greeting_is_the_fixed_text() {
    assert_eq!(
        greeting(),
        HttpResponse { status: 200, content_type: None, body: "Hello, World".to_string() }
    );
}

#[test]
fn two_payloads_give_the_feed() {
    let response = get_feed(
        "b006qykl",
        &Ok(Envelope::Success(show())),
        &Ok(Envelope::Success(three_episodes())),
    );
    assert_eq!(response.status, 200);
    assert_eq!(response.content_type, Some("application/rss+xml".to_string()));
    assert_eq!(response.body, build_rss("b006qykl", &show(), &three_episodes()));
    assert_eq!(parse(&response.body).items().len(), 3);
}

#[test]
fn a_failed_show_gives_not_found_with_the_first_message() {
    let failed = Ok(Envelope::Failure(vec![
        upstream_error("Programme not found"),
        upstream_error("second"),
    ]));
    let expected = HttpResponse {
        status: 404,
        content_type: None,
        body: "Programme not found".to_string(),
    };
    assert_eq!(get_feed("x", &failed, &Ok(Envelope::Success(three_episodes()))), expected);
    assert_eq!(
        get_feed("x", &failed, &Ok(Envelope::Failure(vec![upstream_error("episodes")]))),
        expected
    );
}

#[test]
fn failed_episodes_give_not_found_after_a_good_show() {
    let response = get_feed(
        "x",
        &Ok(Envelope::Success(show())),
        &Ok(Envelope::Failure(vec![upstream_error("No episodes")])),
    );
    assert_eq!(
        response,
        HttpResponse { status: 404, content_type: None, body: "No episodes".to_string() }
    );
}

#[test]
fn a_failure_without_errors_gives_an_empty_not_found() {
    let response =
        get_feed("x", &Ok(Envelope::Failure(Vec::new())), &Ok(Envelope::Success(three_episodes())));
    assert_eq!(response, HttpResponse { status: 404, content_type: None, body: String::new() });
}

#[test]
fn a_transport_failure_gives_bad_gateway() {
    let good_show = Ok(Envelope::Success(show()));
    let good_list = Ok(Envelope::Success(three_episodes()));
    let response = get_feed("x", &Err(transport("connection refused")), &good_list);
    assert_eq!(
        response,
        HttpResponse { status: 502, content_type: None, body: "connection refused".to_string() }
    );
    let response = get_feed("x", &good_show, &Err(transport("timed out")));
    assert_eq!(
        response,
        HttpResponse { status: 502, content_type: None, body: "timed out".to_string() }
    );
    assert!(!response.body.is_empty());
}

#[test]
fn the_show_s_transport_failure_comes_first() {
    let response = get_feed("x", &Err(transport("first")), &Err(transport("second")));
    assert_eq!(
        response,
        HttpResponse { status: 502, content_type: None, body: "first".to_string() }
    );
}

#[test]
fn a_transport_failure_outranks_reported_errors() {
    let failed = Ok(Envelope::Failure(vec![upstream_error("Programme not found")]));
    let response = get_feed("x", &failed, &Err(transport("timed out")));
    assert_eq!(
        response,
        HttpResponse { status: 502, content_type: None, body: "timed out".to_string() }
    );
}
