use bilibili_online_rss::blacklist::Blacklist;
use bilibili_online_rss::ddys::rss_generator::{
    assemble, create_item_desc, filter_items, generate_new_rss, render_posts, DESC, ICON_URL, LINK,
    TITLE,
};
use bilibili_online_rss::ddys::scrape::{
    image_url_of_style, read_posts, record_of, records_of, scrape, upstream_error, Mismatch,
    PostParts, TextParts, TitleParts, CATEGORY_QUERY, DESC_QUERY, IMAGE_QUERY, POST_QUERY,
    TEXT_QUERY, TITLE_QUERY, URL_QUERY,
};
use bilibili_online_rss::ddys::Ddys;
use bilibili_online_rss::error::MyError;
use rss::{ChannelBuilder, GuidBuilder, ImageBuilder, ItemBuilder};

fn page(posts: &str) -> String {
    format!(
        "<!DOCTYPE html><html><head><title>x</title></head><body><div id=\"container\"><main>\
         <div class=\"post-box-list\">{posts}</div></main></div></body></html>"
    )
}

fn post_markup(title: &str, href: &str, categories: &[&str], image: &str) -> String {
    let links: Vec<String> =
        categories.iter().map(|c| format!("<a href=\"/c/{c}\">{c}</a>")).collect();
    format!(
        "<article><div class=\"post-box-container\">\
         <div class=\"post-box-image\" style=\"background-image: url({image});\"></div>\
         <div class=\"post-box-text\">\
         <span class=\"post-box-meta\">{}</span>\
         <h2 class=\"post-box-title\"><a href=\"{href}\">{title}</a></h2>\
         <p>line one<br>line two</p>\
         </div></div></article>",
        links.join(", ")
    )
}

fn strings(list: &[&str]) -> Vec<String> {
    list.iter().map(|s| s.to_string()).collect()
}

fn post(title: &str, categories: &[&str], url: &str) -> Ddys {
    Ddys {
        title: title.to_string(),
        category: strings(categories),
        url: url.to_string(),
        desc: "about".to_string(),
        image_url: "https://ddys.pro/i.jpg".to_string(),
    }
}

fn whole_parts() -> PostParts {
    PostParts {
        text: Some(TextParts {
            categories: strings(&["剧集", "欧美剧"]),
            title: Some(TitleParts {
                href: Some(Some("https://ddys.pro/a/".to_string())),
                first_text: Some("Show A".to_string()),
            }),
            desc: Some(strings(&["line one", "line two"])),
        }),
        image_style: Some(Some("background-image: url(https://ddys.pro/a.jpg);".to_string())),
    }
}

#[test]
fn ddys_channel_constants() {
    assert_eq!(TITLE, "ddys.site");
    assert_eq!(LINK, "https://ddys.site");
    assert_eq!(DESC, "A rss for ddys");
    assert_eq!(ICON_URL, "https://ddys.art/favicon-32x32.png");
}

#[test]
fn image_url_is_what_stands_between_the_brackets() {
    assert_eq!(
        image_url_of_style("background-image: url(https://ddys.pro/a.jpg);").unwrap(),
        "https://ddys.pro/a.jpg"
    );
    assert_eq!(image_url_of_style("url(a(b)c)d)").unwrap(), "a(b)c)d");
    assert_eq!(image_url_of_style("()").unwrap(), "");
    assert_eq!(image_url_of_style("影视(图)").unwrap(), "图");
}

#[test]
fn image_url_without_a_bracket_runs_to_the_end_or_from_the_second_character() {
    assert_eq!(image_url_of_style("url(abc").unwrap(), "abc");
    assert_eq!(image_url_of_style("abc)").unwrap(), "bc");
    assert_eq!(image_url_of_style("abc").unwrap(), "bc");
    assert_eq!(image_url_of_style("a").unwrap(), "");
}

#[test]
fn image_url_is_missing_where_the_end_comes_before_the_start() {
    assert!(image_url_of_style("").is_none());
    assert!(image_url_of_style(")(").is_none());
    assert!(image_url_of_style(")").is_none());
    assert!(image_url_of_style("a)b(c").is_none());
}

#[test]
fn record_of_fills_a_post_from_its_parts() {
    let d = record_of(&whole_parts()).unwrap();
    assert_eq!(d.title, "Show A");
    assert_eq!(d.category, strings(&["剧集", "欧美剧"]));
    assert_eq!(d.url, "https://ddys.pro/a/");
    assert_eq!(d.desc, "line one line two");
    assert_eq!(d.image_url, "https://ddys.pro/a.jpg");
}

#[test]
fn record_of_leaves_empty_what_was_not_found() {
    let d = record_of(&PostParts { text: None, image_style: None }).unwrap();
    assert_eq!(d.title, "");
    assert!(d.category.is_empty());
    assert_eq!(d.url, "");
    assert_eq!(d.desc, "");
    assert_eq!(d.image_url, "");
    let d = record_of(&PostParts {
        text: Some(TextParts { categories: strings(&["c"]), title: None, desc: None }),
        image_style: None,
    })
    .unwrap();
    assert_eq!(d.category, strings(&["c"]));
    assert_eq!(d.title, "");
    let mut parts = whole_parts();
    parts.text.as_mut().unwrap().title.as_mut().unwrap().first_text = None;
    let d = record_of(&parts).unwrap();
    assert_eq!(d.title, "");
    assert_eq!(d.url, "https://ddys.pro/a/");
}

#[test]
fn record_of_names_each_mismatch() {
    let mut parts = whole_parts();
    parts.text.as_mut().unwrap().title.as_mut().unwrap().href = None;
    assert_eq!(record_of(&parts).unwrap_err(), Mismatch::TitleWithoutLink);
    let mut parts = whole_parts();
    parts.text.as_mut().unwrap().title.as_mut().unwrap().href = Some(None);
    assert_eq!(record_of(&parts).unwrap_err(), Mismatch::LinkWithoutAddress);
    let mut parts = whole_parts();
    parts.image_style = Some(None);
    assert_eq!(record_of(&parts).unwrap_err(), Mismatch::ImageWithoutStyle);
    let mut parts = whole_parts();
    parts.image_style = Some(Some(")(".to_string()));
    assert_eq!(record_of(&parts).unwrap_err(), Mismatch::StyleWithoutAddress);
    let mut parts = whole_parts();
    parts.text.as_mut().unwrap().title.as_mut().unwrap().href = None;
    parts.image_style = Some(None);
    assert_eq!(record_of(&parts).unwrap_err(), Mismatch::TitleWithoutLink);
}

#[test]
fn records_of_fails_with_the_first_fault() {
    let mut second = whole_parts();
    second.image_style = Some(None);
    let mut third = whole_parts();
    third.text.as_mut().unwrap().title.as_mut().unwrap().href = None;
    assert_eq!(
        records_of(&vec![whole_parts(), second, third]).unwrap_err(),
        Mismatch::ImageWithoutStyle
    );
    assert_eq!(records_of(&vec![whole_parts(), whole_parts()]).unwrap().len(), 2);
    assert!(records_of(&vec![]).unwrap().is_empty());
}

#[test]
fn upstream_error_says_what_is_wrong() {
    assert!(matches!(
        upstream_error(Mismatch::TitleWithoutLink),
        MyError::Reqwest(t) if t == "the title of a post holds no link"
    ));
    assert!(matches!(
        upstream_error(Mismatch::LinkWithoutAddress),
        MyError::Reqwest(t) if t == "the link in the title of a post has no address"
    ));
    assert!(matches!(
        upstream_error(Mismatch::ImageWithoutStyle),
        MyError::Reqwest(t) if t == "the image of a post has no style"
    ));
    assert!(matches!(
        upstream_error(Mismatch::StyleWithoutAddress),
        MyError::Reqwest(t) if t == "the style of the image of a post holds no address"
    ));
    assert!(matches!(
        upstream_error(Mismatch::Query),
        MyError::Reqwest(t) if t == "a query for the listing page could not be compiled"
    ));
}

#[test]
fn read_posts_writes_down_what_the_page_holds() {
    let html = page(&post_markup("Show A", "https://ddys.pro/a/", &["剧集", "欧美剧"], "https://ddys.pro/a.jpg"));
    let parts = read_posts(&html).unwrap();
    assert_eq!(parts.len(), 1);
    let text = parts[0].text.as_ref().unwrap();
    assert_eq!(text.categories, strings(&["剧集", "欧美剧"]));
    let title = text.title.as_ref().unwrap();
    assert_eq!(title.href, Some(Some("https://ddys.pro/a/".to_string())));
    assert_eq!(title.first_text, Some("Show A".to_string()));
    assert_eq!(text.desc, Some(strings(&["line one", "line two"])));
    assert_eq!(
        parts[0].image_style,
        Some(Some("background-image: url(https://ddys.pro/a.jpg);".to_string()))
    );
}

#[test]
fn scrape_reads_the_posts_in_the_order_of_the_page() {
    let html = page(&format!(
        "{}{}",
        post_markup("Show A", "https://ddys.pro/a/", &["剧集", "欧美剧"], "https://ddys.pro/a.jpg"),
        post_markup("Film B", "https://ddys.pro/b/", &["电影"], "https://ddys.pro/b.jpg")
    ));
    let posts = scrape(&html).unwrap();
    assert_eq!(posts.len(), 2);
    assert_eq!(posts[0].title, "Show A");
    assert_eq!(posts[0].category, strings(&["剧集", "欧美剧"]));
    assert_eq!(posts[0].url, "https://ddys.pro/a/");
    assert_eq!(posts[0].desc, "line one line two");
    assert_eq!(posts[0].image_url, "https://ddys.pro/a.jpg");
    assert_eq!(posts[1].title, "Film B");
    assert_eq!(posts[1].category, strings(&["电影"]));
    assert_eq!(posts[1].url, "https://ddys.pro/b/");
}

#[test]
fn scrape_of_a_page_without_posts_is_empty() {
    assert!(scrape(&page("")).unwrap().is_empty());
    assert!(scrape("").unwrap().is_empty());
    assert!(scrape("<p>not the listing page</p>").unwrap().is_empty());
}

#[test]
fn scrape_fails_for_a_page_of_another_shape() {
    let no_link = page(
        "<article><div class=\"post-box-container\"><div class=\"post-box-text\">\
         <h2 class=\"post-box-title\">bare</h2></div></div></article>",
    );
    assert!(matches!(scrape(&no_link), Err(MyError::Reqwest(t)) if t == "the title of a post holds no link"));
    let no_href = page(
        "<article><div class=\"post-box-container\"><div class=\"post-box-text\">\
         <h2 class=\"post-box-title\"><a>bare</a></h2></div></div></article>",
    );
    assert!(matches!(scrape(&no_href), Err(MyError::Reqwest(t)) if t == "the link in the title of a post has no address"));
    let no_style = page(
        "<article><div class=\"post-box-container\"><div class=\"post-box-image\"></div>\
         </div></article>",
    );
    assert!(matches!(scrape(&no_style), Err(MyError::Reqwest(t)) if t == "the image of a post has no style"));
}

#[test]
fn ddys_create_item_desc_writes_the_body_exactly() {
    let d = Ddys {
        title: "t".to_string(),
        category: strings(&["剧集", "欧美剧"]),
        url: "https://ddys.pro/a/".to_string(),
        desc: "about it".to_string(),
        image_url: "https://ddys.pro/a.jpg".to_string(),
    };
    let expected = "\n    <b>category:</b> 剧集 欧美剧\n    <p></p>\n    <b>desc:</b> about it\n    <p></p>\n    <img style=\"width:100%\" src=\"https://ddys.pro/a.jpg\" width=\"500\">";
    assert_eq!(create_item_desc(&d), expected);
    assert!(create_item_desc(&Ddys::default()).starts_with("\n    <b>category:</b> \n    <p></p>"));
}

#[test]
fn ddys_assemble_writes_what_the_feed_writer_writes() {
    let posts = vec![
        post("Show A (更新至05)", &["剧集"], "https://ddys.pro/a/"),
        post("Film B", &["电影", "剧情"], "https://ddys.pro/b/"),
    ];
    let items: Vec<rss::Item> = posts
        .iter()
        .map(|d| {
            ItemBuilder::default()
                .title(d.title.clone())
                .description(create_item_desc(d))
                .link(d.url.clone())
                .guid(GuidBuilder::default().value(d.title.clone() + &d.url).permalink(false).build())
                .build()
        })
        .collect();
    let channel = ChannelBuilder::default()
        .title(TITLE)
        .link(LINK)
        .description(DESC)
        .image(Some(ImageBuilder::default().title(TITLE).link(LINK).url(ICON_URL).build()))
        .items(items)
        .build();
    assert_eq!(assemble(posts).unwrap(), channel.to_string());
}

#[test]
fn ddys_assemble_fails_for_a_post_without_address() {
    assert!(matches!(assemble(vec![Ddys::default()]), Err(MyError::Validation(_))));
}

#[test]
fn ddys_filter_items_drops_posts_with_an_excluded_category() {
    let blacklist = Blacklist::new(true, vec![], strings(&["电影"]));
    let posts = vec![
        post("1", &["剧集"], "https://ddys.pro/1/"),
        post("2", &["剧情", "电影"], "https://ddys.pro/2/"),
        post("3", &[], "https://ddys.pro/3/"),
        post("4", &["电影"], "https://ddys.pro/4/"),
    ];
    let kept: Vec<String> = filter_items(&blacklist, posts).into_iter().map(|d| d.title).collect();
    assert_eq!(kept, vec!["1", "3"]);
}

#[test]
fn ddys_feed_holds_the_posts_that_the_list_keeps() {
    let html = page(&format!(
        "{}{}",
        post_markup("Show A", "https://ddys.pro/a/", &["剧集", "欧美剧"], "https://ddys.pro/a.jpg"),
        post_markup("Film B", "https://ddys.pro/b/", &["电影"], "https://ddys.pro/b.jpg")
    ));
    let all = generate_new_rss(&Blacklist::default(), &html).unwrap();
    assert_eq!(all.matches("<item>").count(), 2);
    let blacklist = Blacklist::new(true, vec![], strings(&["欧美剧"]));
    let doc = generate_new_rss(&blacklist, &html).unwrap();
    assert_eq!(doc.matches("<item>").count(), 1);
    assert!(doc.contains("Film B"));
    assert!(!doc.contains("Show A"));
    assert_eq!(doc, render_posts(&blacklist, scrape(&html).unwrap()).unwrap());
    assert!(doc.contains("<guid isPermaLink=\"false\">Film Bhttps://ddys.pro/b/</guid>"));
}

#[test]
fn the_seven_queries_compile_and_reading_never_fails_for_them() {
    for query in [
        POST_QUERY,
        TEXT_QUERY,
        CATEGORY_QUERY,
        TITLE_QUERY,
        DESC_QUERY,
        URL_QUERY,
        IMAGE_QUERY,
    ] {
        assert!(scraper::Selector::parse(query).is_ok());
    }
    assert!(read_posts("").is_ok());
    assert!(read_posts("<<<not markup at all").is_ok());
    assert!(read_posts(&page("<article></article>")).unwrap().is_empty());
}

#[test]
fn the_queries_are_the_ones_of_the_listing_page() {
    assert_eq!(
        POST_QUERY,
        " body > div[id=\"container\"] > main > div[class=\"post-box-list\"] > article > div[class=\"post-box-container\"] "
    );
    assert_eq!(TEXT_QUERY, " div[class=\"post-box-text\"] ");
    assert_eq!(CATEGORY_QUERY, " span[class=\"post-box-meta\"] > a ");
    assert_eq!(TITLE_QUERY, " h2[class=\"post-box-title\"] ");
    assert_eq!(DESC_QUERY, "p");
    assert_eq!(URL_QUERY, " a ");
    assert_eq!(IMAGE_QUERY, " div[class=\"post-box-image\"] ");
}

#[test]
fn read_posts_takes_the_first_of_each_part_and_every_category_link() {
    let html = page(
        "<article><div class=\"post-box-container\">\
         <div class=\"post-box-image\" style=\"url(first.jpg)\"></div>\
         <div class=\"post-box-image\" style=\"url(second.jpg)\"></div>\
         <div class=\"post-box-text\">\
         <span class=\"post-box-meta\"><a>one</a><a>two <b>bold</b></a></span>\
         <span class=\"post-box-meta\"><a>three</a></span>\
         <h2 class=\"post-box-title\">lead <a href=\"/first\">A</a><a href=\"/second\">B</a></h2>\
         <h2 class=\"post-box-title\"><a href=\"/other\">other title</a></h2>\
         <p>first <i>paragraph</i></p><p>second paragraph</p>\
         </div>\
         <div class=\"post-box-text\"><p>second box</p></div>\
         </div></article>",
    );
    let parts = read_posts(&html).unwrap();
    assert_eq!(parts.len(), 1);
    assert_eq!(parts[0].image_style, Some(Some("url(first.jpg)".to_string())));
    let text = parts[0].text.as_ref().unwrap();
    assert_eq!(text.categories, strings(&["one", "two ", "bold", "three"]));
    let title = text.title.as_ref().unwrap();
    assert_eq!(title.href, Some(Some("/first".to_string())));
    assert_eq!(title.first_text, Some("lead ".to_string()));
    assert_eq!(text.desc, Some(strings(&["first ", "paragraph"])));
    let post = record_of(&parts[0]).unwrap();
    assert_eq!(post.title, "lead ");
    assert_eq!(post.url, "/first");
    assert_eq!(post.desc, "first  paragraph");
    assert_eq!(post.image_url, "first.jpg");
}

#[test]
fn same_page_gives_the_same_posts_every_time() {
    let html = page(&post_markup("Show A", "https://ddys.pro/a/", &["剧集"], "https://ddys.pro/a.jpg"));
    let first = generate_new_rss(&Blacklist::default(), &html).unwrap();
    let second = generate_new_rss(&Blacklist::default(), &html).unwrap();
    assert_eq!(first, second);
    assert_eq!(first.matches("<item>").count(), 1);
}
