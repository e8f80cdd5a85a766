use bilibili_online_rss::bilibili::rss_generator::{
    assemble, convert_count, create_item_desc, create_rss, filter_items, generate_new_rss, DESC,
    ICON_URL, LINK, TITLE,
};
use bilibili_online_rss::bilibili::{Bili, BiliData, Owner, Stat};
use bilibili_online_rss::blacklist::Blacklist;
use bilibili_online_rss::error::MyError;
use bilibili_online_rss::feed::validation_failure;
use rss::validation::Validate;
use rss::{ChannelBuilder, GuidBuilder, ImageBuilder, Item, ItemBuilder};

fn record(author: &str, category: &str, title: &str, link: &str) -> BiliData {
    BiliData {
        tname: category.to_string(),
        pic: "https://example.com/p.jpg".to_string(),
        title: title.to_string(),
        owner: Owner { name: author.to_string() },
        desc: "about it".to_string(),
        stat: Stat { view: 12345, danmaku: 999 },
        short_link: link.to_string(),
    }
}

fn channel_of(items: Vec<Item>) -> rss::Channel {
    ChannelBuilder::default()
        .title(TITLE)
        .link(LINK)
        .description(DESC)
        .image(Some(ImageBuilder::default().title(TITLE).link(LINK).url(ICON_URL).build()))
        .items(items)
        .build()
}

#[test]
fn get_rss() {
    let channel = ChannelBuilder::default()
        .title(TITLE)
        .link(LINK)
        .description(DESC)
        .image(Some(ImageBuilder::default().title(TITLE).link(LINK).url(ICON_URL).build()))
        .items(vec![
            ItemBuilder::default()
                .title(Some("baidu".to_string()))
                .link("https://www.baidu.com".to_string())
                .description("desc1 desc1".to_string())
                .build(),
            ItemBuilder::default()
                .title(Some("bing1".to_string()))
                .link(Some("https://www.bing.com".to_string()))
                .description("desc22".to_string())
                .build(),
        ])
        .build();

    channel.validate().unwrap();
    println!("{}", channel.to_string());
}

#[test]
fn rss_generator_get_rss() {
    let mut first = record("a", "c", "baidu", "https://www.baidu.com");
    first.desc = "desc1 desc1".to_string();
    let mut second = record("b", "c", "bing1", "https://www.bing.com");
    second.desc = "desc22".to_string();
    let doc = create_rss(vec![first, second]).unwrap();
    println!("{}", doc);
    assert!(doc.contains("<b>desc:</b> desc1 desc1"));
    assert!(doc.contains("<b>desc:</b> desc22"));
    assert!(doc.contains("<title>baidu</title>"));
    assert!(doc.contains("<link>https://www.baidu.com</link>"));
    assert!(doc.contains("<title>bing1</title>"));
    assert!(doc.contains("<link>https://www.bing.com</link>"));
    assert!(doc.contains("<title>Filtered BiliBili online list</title>"));
}

#[test]
fn channel_constants() {
    assert_eq!(TITLE, "Filtered BiliBili online list");
    assert_eq!(LINK, "https://www.bilibili.com/video/online.html");
    assert_eq!(DESC, "A filtered BiliBili online list based on my blacklist");
    assert_eq!(ICON_URL, "https://www.bilibili.com/favicon.ico");
}

#[test]
fn convert_count_cuts_off_and_does_not_round() {
    assert_eq!(convert_count(0), "0");
    assert_eq!(convert_count(999), "999");
    assert_eq!(convert_count(1000), "1k");
    assert_eq!(convert_count(1999), "1k");
    assert_eq!(convert_count(9999), "9k");
    assert_eq!(convert_count(10000), "1w");
    assert_eq!(convert_count(19999), "1w");
    assert_eq!(convert_count(20000), "2w");
    assert_eq!(convert_count(25000), "2w");
    assert_eq!(convert_count(123456789), "12345w");
    assert_eq!(convert_count(u32::MAX), "429496w");
}

#[test]
fn create_item_desc_writes_the_body_exactly() {
    let d = record("alice", "game", "t", "https://example.com/a");
    let expected = "<b>author:</b> alice\n    <p></p>\n    <b>category:</b> game\n    <p></p>\n    <b>desc:</b> about it\n    <p></p>\n    <b>view:</b> 1w\n    <p></p>\n    <b>danmaku:</b> 999\n    <p></p>\n    <img style=\"width:100%\" src=\"https://example.com/p.jpg\" width=\"500\">";
    assert_eq!(create_item_desc(&d), expected);
}

#[test]
fn create_rss_writes_what_the_feed_writer_writes() {
    let records = vec![
        record("alice", "game", "first <one>", "https://example.com/a"),
        record("bob", "music", "second & last", "https://example.com/b"),
    ];
    let items: Vec<Item> = records
        .iter()
        .map(|d| {
            ItemBuilder::default()
                .title(d.title.clone())
                .description(create_item_desc(d))
                .link(d.short_link.clone())
                .guid(
                    GuidBuilder::default()
                        .value(d.title.clone() + &d.short_link)
                        .permalink(false)
                        .build(),
                )
                .build()
        })
        .collect();
    let channel = channel_of(items);
    channel.validate().unwrap();
    let doc = create_rss(records).unwrap();
    assert_eq!(doc, channel.to_string());
    assert!(doc.contains("<guid isPermaLink=\"false\">second &amp; lasthttps://example.com/b</guid>"));
}

#[test]
fn create_rss_of_no_records_is_the_bare_channel() {
    let doc = create_rss(vec![]).unwrap();
    assert_eq!(doc, channel_of(vec![]).to_string());
    assert!(!doc.contains("<item>"));
}

#[test]
fn record_with_a_link_that_is_no_address_fails_validation() {
    let records = vec![
        record("alice", "game", "first", "https://example.com/a"),
        record("bob", "music", "second", "not an address"),
    ];
    assert!(create_rss(records.clone()).is_err());
    assert!(matches!(assemble(records), Err(MyError::Validation(_))));
    assert!(matches!(
        assemble(vec![record("bob", "music", "second", "")]),
        Err(MyError::Validation(_))
    ));
}

#[test]
fn filter_items_keeps_the_order_of_what_stays() {
    let blacklist = Blacklist::new(true, vec!["alice".to_string()], vec!["ads".to_string()]);
    let records = vec![
        record("bob", "music", "1", "https://example.com/1"),
        record("alice", "music", "2", "https://example.com/2"),
        record("carol", "ads", "3", "https://example.com/3"),
        record("dave", "game", "4", "https://example.com/4"),
        record("bob", "game", "5", "https://example.com/5"),
    ];
    let kept: Vec<String> = filter_items(&blacklist, records).into_iter().map(|d| d.title).collect();
    assert_eq!(kept, vec!["1", "4", "5"]);
}

#[test]
fn excluded_author_does_not_reach_the_feed() {
    let blacklist = Blacklist::new(true, vec!["alice".to_string()], vec![]);
    let resp = Bili {
        data: vec![
            record("alice", "game", "video by alice", "https://example.com/alice"),
            record("bob", "game", "video by bob", "https://example.com/bob"),
        ],
    };
    let doc = generate_new_rss(&blacklist, resp).unwrap();
    assert!(doc.contains("video by bob"));
    assert!(doc.contains("https://example.com/bob"));
    assert!(!doc.contains("alice"));
    assert_eq!(doc.matches("<item>").count(), 1);
    let only_bob = create_rss(vec![record("bob", "game", "video by bob", "https://example.com/bob")]);
    assert_eq!(doc, only_bob.unwrap());
}

#[test]
fn generate_new_rss_does_not_fail_for_a_bad_record_that_is_excluded() {
    let blacklist = Blacklist::new(true, vec!["alice".to_string()], vec![]);
    let data = vec![
        record("alice", "game", "bad", "no address"),
        record("bob", "game", "good", "https://example.com/bob"),
    ];
    assert!(generate_new_rss(&blacklist, Bili { data: data.clone() }).is_ok());
    let off = Blacklist::default();
    assert!(matches!(generate_new_rss(&off, Bili { data }), Err(MyError::Validation(_))));
}

#[test]
fn validation_failure_carries_the_words_of_the_validator() {
    let records = vec![record("bob", "music", "second", "not an address")];
    let failure = create_rss(records.clone()).unwrap_err();
    let words = failure.to_string();
    assert!(!words.is_empty());
    assert!(matches!(validation_failure(failure), MyError::Validation(t) if t == words));
    assert!(matches!(assemble(records), Err(MyError::Validation(t)) if t == words));
}
