//! Reading the posts of the listing page out of its markup.
//!
//! The page is parsed and queried by `scraper`. What the queries give is first
//! written down as plain values, one [`PostParts`] for each post, and a post is
//! then made from those values alone.

use crate::ddys::{Ddys, DdysView};
use crate::error::MyError;
use crate::text::{
    copy_texts, find_first, find_last, first_at, join, joined, last_at, slice_chars, texts,
};
use vstd::prelude::*;
use vstd::string::*;

verus! {

/// `scraper::Html`: a parsed page. What it holds is known only through the
/// queries made of it.
#[verifier::external_type_specification]
#[verifier::external_body]
pub struct ExHtml(scraper::Html);

/// `scraper::Selector`: a compiled query. What it holds is known only through
/// the text that it was compiled from.
#[verifier::external_type_specification]
#[verifier::external_body]
pub struct ExSelector(scraper::Selector);

/// `scraper::ElementRef`: an element of a parsed page. What it holds is
/// known only through the queries made of it.
#[verifier::external_type_specification]
#[verifier::external_body]
pub struct ExElementRef<'a>(scraper::ElementRef<'a>);

/// The tree that `scraper::Html::parse_document` builds from a page.
pub uninterp spec fn page_document(page: Seq<char>) -> scraper::Html;

/// What `scraper::Selector::parse` compiles a text to: nothing where the text
/// is no selector group.
pub uninterp spec fn compiled_selector(text: Seq<char>) -> Option<scraper::Selector>;

/// The elements that `scraper::Html::select` yields for a tree and a
/// selector, in its order.
pub uninterp spec fn document_matches(
    document: scraper::Html,
    selector: scraper::Selector,
) -> Seq<scraper::ElementRef<'static>>;

/// The elements that `scraper::ElementRef::select` yields for an element and
/// a selector, in its order.
pub uninterp spec fn element_matches(
    element: scraper::ElementRef<'static>,
    selector: scraper::Selector,
) -> Seq<scraper::ElementRef<'static>>;

/// The pieces of text that `scraper::ElementRef::text` yields for an element,
/// in its order.
pub uninterp spec fn element_texts(element: scraper::ElementRef<'static>) -> Seq<Seq<char>>;

/// The value that `scraper::ElementRef::attr` gives for an element and the
/// name of an attribute.
pub uninterp spec fn element_attr(
    element: scraper::ElementRef<'static>,
    name: Seq<char>,
) -> Option<Seq<char>>;

/// Whether a text is a selector group.
pub open spec fn selector_parses(text: Seq<char>) -> bool {
    compiled_selector(text) is Some
}

/// `scraper::Html::parse_document`. Claimed: the tree depends on the page's
/// text alone.
#[verifier::external_body]
fn parse_document(page: &str) -> (r: scraper::Html)
    ensures
        r == page_document(page@),
{
    scraper::Html::parse_document(page)
}

/// `scraper::Selector::parse`: the compiled selector, or nothing where the
/// text is no selector group. Claimed: the outcome depends on the text alone.
#[verifier::external_body]
fn parse_selector(text: &str) -> (r: Option<scraper::Selector>)
    ensures
        r == compiled_selector(text@),
{
    scraper::Selector::parse(text).ok()
}

/// `scraper::Html::select`: the elements of the tree that match, in the order
/// in which the iterator yields them. Claimed: they depend on the tree and
/// the selector alone.
#[verifier::external_body]
fn select_in_document<'a>(
    document: &'a scraper::Html,
    selector: &scraper::Selector,
) -> (r: Vec<scraper::ElementRef<'a>>)
    ensures
        r@ == document_matches(*document, *selector),
{
    document.select(selector).collect()
}

/// `scraper::ElementRef::select`: the descendants of the element that match,
/// in the order in which the iterator yields them. Claimed: they depend on
/// the element and the selector alone.
#[verifier::external_body]
fn select_in_element<'a>(
    element: &scraper::ElementRef<'a>,
    selector: &scraper::Selector,
) -> (r: Vec<scraper::ElementRef<'a>>)
    ensures
        r@ == element_matches(*element, *selector),
{
    element.select(selector).collect()
}

/// `scraper::ElementRef::text`: the text nodes below the element, in order.
/// Claimed: they depend on the element alone.
#[verifier::external_body]
fn texts_of(element: &scraper::ElementRef<'_>) -> (r: Vec<String>)
    ensures
        texts(r@) == element_texts(*element),
{
    element.text().map(|t| t.to_string()).collect()
}

/// `scraper::ElementRef::attr`: the value of the attribute, if the element
/// has it. Claimed: it depends on the element and the name alone.
#[verifier::external_body]
fn attr_of(element: &scraper::ElementRef<'_>, name: &str) -> (r: Option<String>)
    ensures
        match r {
            Some(value) => element_attr(*element, name@) == Some(value@),
            None => element_attr(*element, name@) is None,
        },
{
    element.attr(name).map(|v| v.to_string())
}

/// How a page can fail to look like the listing page.
#[derive(Clone, Copy, Debug, PartialEq, Eq, Structural)]
pub enum Mismatch {
    /// One of the queries could not be compiled.
    Query,
    /// A post's title holds no link.
    TitleWithoutLink,
    /// The link in a post's title has no address.
    LinkWithoutAddress,
    /// A post's image has no style.
    ImageWithoutStyle,
    /// The style of a post's image holds no address.
    StyleWithoutAddress,
}

/// What was found in the title of a post.
#[derive(Debug)]
pub struct TitleParts {
    /// The first link in the title, if there is one, and its address, if it
    /// has one.
    pub href: Option<Option<String>>,
    /// The first piece of text in the title.
    pub first_text: Option<String>,
}

/// What was found in the text box of a post.
#[derive(Debug)]
pub struct TextParts {
    /// The pieces of text of the category links, in order.
    pub categories: Vec<String>,
    /// The first title, if there is one.
    pub title: Option<TitleParts>,
    /// The pieces of text of the first paragraph, if there is one.
    pub desc: Option<Vec<String>>,
}

/// What was found in a post.
#[derive(Debug)]
pub struct PostParts {
    /// The first text box, if there is one.
    pub text: Option<TextParts>,
    /// The first image, if there is one, and its style, if it has one.
    pub image_style: Option<Option<String>>,
}

/// The title of a post as plain text fields.
#[verifier::ext_equal]
pub struct TitlePartsView {
    pub href: Option<Option<Seq<char>>>,
    pub first_text: Option<Seq<char>>,
}

/// The text box of a post as plain text fields.
#[verifier::ext_equal]
pub struct TextPartsView {
    pub categories: Seq<Seq<char>>,
    pub title: Option<TitlePartsView>,
    pub desc: Option<Seq<Seq<char>>>,
}

/// What was found in a post as plain text fields.
#[verifier::ext_equal]
pub struct PostPartsView {
    pub text: Option<TextPartsView>,
    pub image_style: Option<Option<Seq<char>>>,
}

/// The text of an attribute that may be missing on an element that may be
/// missing.
pub open spec fn attr_view(value: Option<Option<String>>) -> Option<Option<Seq<char>>> {
    match value {
        None => None,
        Some(None) => Some(None),
        Some(Some(v)) => Some(Some(v@)),
    }
}

impl View for TitleParts {
    type V = TitlePartsView;

    open spec fn view(&self) -> TitlePartsView {
        TitlePartsView {
            href: attr_view(self.href),
            first_text: match self.first_text {
                Some(t) => Some(t@),
                None => None,
            },
        }
    }
}

impl View for TextParts {
    type V = TextPartsView;

    open spec fn view(&self) -> TextPartsView {
        TextPartsView {
            categories: texts(self.categories@),
            title: match self.title {
                Some(t) => Some(t@),
                None => None,
            },
            desc: match self.desc {
                Some(d) => Some(texts(d@)),
                None => None,
            },
        }
    }
}

impl View for PostParts {
    type V = PostPartsView;

    open spec fn view(&self) -> PostPartsView {
        PostPartsView {
            text: match self.text {
                Some(t) => Some(t@),
                None => None,
            },
            image_style: attr_view(self.image_style),
        }
    }
}

/// The parts of a list of posts as plain text fields.
pub open spec fn part_views(parts: Seq<PostParts>) -> Seq<PostPartsView> {
    parts.map_values(|p: PostParts| p@)
}

/// Where the address in a style starts: behind the first opening bracket, or
/// behind the first character where there is no such bracket.
pub open spec fn address_start(style: Seq<char>) -> int {
    if style.contains('(') {
        (choose|i: int| first_at(style, '(', i)) + 1
    } else {
        1
    }
}

/// Where the address in a style ends: before the last closing bracket, or at
/// the end where there is no such bracket.
pub open spec fn address_end(style: Seq<char>) -> int {
    if style.contains(')') {
        choose|i: int| last_at(style, ')', i)
    } else {
        style.len() as int
    }
}

/// The address that a style holds between its brackets, if the end does not
/// come before the start.
pub open spec fn address_in_style(style: Seq<char>) -> Option<Seq<char>> {
    if address_start(style) <= address_end(style) {
        Some(style.subrange(address_start(style), address_end(style)))
    } else {
        None
    }
}

/// Takes the address out of the style of a post's image, as in
/// `background-image: url(ADDRESS);`.
pub fn image_url_of_style(style: &str) -> (r: Option<String>)
    ensures
        match r {
            Some(url) => address_in_style(style@) == Some(url@),
            None => address_in_style(style@) is None,
        },
{
    let n: usize = style.unicode_len();
    let start: usize = match find_first(style, '(') {
        Some(i) => {
            assert(style@.contains('('));
            assert(forall|k: int| first_at(style@, '(', k) ==> k == i);
            i + 1
        },
        None => 1,
    };
    let end: usize = match find_last(style, ')') {
        Some(i) => {
            assert(style@.contains(')'));
            assert(forall|k: int| last_at(style@, ')', k) ==> k == i);
            i
        },
        None => n,
    };
    assert(start == address_start(style@));
    assert(end == address_end(style@));
    if start <= end {
        Some(slice_chars(style, start, end))
    } else {
        None
    }
}

/// The title of a post: the first piece of text of its title, where it has
/// a text box with a title that holds text; empty otherwise.
pub open spec fn title_of(parts: PostPartsView) -> Seq<char> {
    match parts.text {
        Some(TextPartsView { title: Some(TitlePartsView { first_text: Some(t), .. }), .. }) => t,
        _ => Seq::empty(),
    }
}

/// The address of a post: that of the first link in its title; empty where
/// it has no text box or no title.
pub open spec fn url_of(parts: PostPartsView) -> Seq<char> {
    match parts.text {
        Some(TextPartsView { title: Some(TitlePartsView { href: Some(Some(h)), .. }), .. }) => h,
        _ => Seq::empty(),
    }
}

/// The categories of a post: the pieces of text of its category links; none
/// where it has no text box.
pub open spec fn category_of(parts: PostPartsView) -> Seq<Seq<char>> {
    match parts.text {
        Some(t) => t.categories,
        None => Seq::empty(),
    }
}

/// The summary of a post: the pieces of text of its first paragraph with one
/// blank between each two; empty where it has no text box or no paragraph.
pub open spec fn desc_of(parts: PostPartsView) -> Seq<char> {
    match parts.text {
        Some(TextPartsView { desc: Some(d), .. }) => joined(d, seq![' ']),
        _ => Seq::empty(),
    }
}

/// What is wrong with the parts of a post, if anything. The title is looked at
/// before the image.
pub open spec fn fault_of(parts: PostPartsView) -> Option<Mismatch> {
    if parts.text matches Some(TextPartsView { title: Some(TitlePartsView { href: None, .. }), .. }) {
        Some(Mismatch::TitleWithoutLink)
    } else if parts.text matches Some(
        TextPartsView { title: Some(TitlePartsView { href: Some(None), .. }), .. },
    ) {
        Some(Mismatch::LinkWithoutAddress)
    } else if parts.image_style == Some(None::<Seq<char>>) {
        Some(Mismatch::ImageWithoutStyle)
    } else if parts.image_style matches Some(Some(style)) && address_in_style(style) is None {
        Some(Mismatch::StyleWithoutAddress)
    } else {
        None
    }
}

/// The post that the parts describe, or what is wrong with them. A post
/// without a text box or without an image is no fault: its fields stay empty.
pub open spec fn post_record(parts: PostPartsView) -> Result<DdysView, Mismatch> {
    match fault_of(parts) {
        Some(fault) => Err(fault),
        None => Ok(
            DdysView {
                title: title_of(parts),
                category: category_of(parts),
                url: url_of(parts),
                desc: desc_of(parts),
                image_url: match parts.image_style {
                    Some(Some(style)) => address_in_style(style).unwrap(),
                    _ => Seq::empty(),
                },
            },
        ),
    }
}

/// Makes a post from what was found of it in the page.
pub fn record_of(parts: &PostParts) -> (r: Result<Ddys, Mismatch>)
    ensures
        match r {
            Ok(post) => post_record(parts@) == Ok::<DdysView, Mismatch>(post@),
            Err(fault) => post_record(parts@) == Err::<DdysView, Mismatch>(fault),
        },
{
    let mut ddys = Ddys::default();
    if let Some(text) = &parts.text {
        ddys.category = copy_texts(&text.categories);
        if let Some(title) = &text.title {
            match &title.href {
                None => {
                    return Err(Mismatch::TitleWithoutLink);
                },
                Some(None) => {
                    return Err(Mismatch::LinkWithoutAddress);
                },
                Some(Some(href)) => {
                    ddys.url = href.clone();
                },
            }
            if let Some(first) = &title.first_text {
                ddys.title = first.clone();
            }
        }
        if let Some(desc) = &text.desc {
            proof {
                reveal_strlit(" ");
                assert(" "@ =~= seq![' ']);
            }
            ddys.desc = join(desc, " ");
        }
    }
    if let Some(image) = &parts.image_style {
        match image {
            None => {
                return Err(Mismatch::ImageWithoutStyle);
            },
            Some(style) => {
                match image_url_of_style(style.as_str()) {
                    None => {
                        return Err(Mismatch::StyleWithoutAddress);
                    },
                    Some(url) => {
                        ddys.image_url = url;
                    },
                }
            },
        }
    }
    assert(ddys@ =~= post_record(parts@).unwrap());
    Ok(ddys)
}

/// The first part that is at fault is the one at `i`.
pub open spec fn first_fault_at(parts: Seq<PostPartsView>, i: int) -> bool {
    &&& 0 <= i < parts.len()
    &&& post_record(parts[i]) is Err
    &&& forall|j: int| 0 <= j < i ==> post_record(#[trigger] parts[j]) is Ok
}

/// `posts` are the posts that the parts describe, one for one, and no part is
/// at fault.
pub open spec fn records_are(parts: Seq<PostPartsView>, posts: Seq<Ddys>) -> bool {
    &&& posts.len() == parts.len()
    &&& forall|i: int|
        0 <= i < parts.len() ==> post_record(#[trigger] parts[i]) == Ok::<DdysView, Mismatch>(
            posts[i]@,
        )
}

/// `fault` is what is wrong with the first part that is at fault.
pub open spec fn first_fault_is(parts: Seq<PostPartsView>, fault: Mismatch) -> bool {
    exists|i: int|
        first_fault_at(parts, i) && post_record(#[trigger] parts[i]) == Err::<DdysView, Mismatch>(
            fault,
        )
}

/// Makes the posts of a page from what was found of each, in order. The first
/// post that is at fault fails the whole page.
pub fn records_of(parts: &Vec<PostParts>) -> (r: Result<Vec<Ddys>, Mismatch>)
    ensures
        match r {
            Ok(posts) => records_are(part_views(parts@), posts@),
            Err(fault) => first_fault_is(part_views(parts@), fault),
        },
{
    let ghost views = part_views(parts@);
    let mut posts: Vec<Ddys> = Vec::new();
    let mut i: usize = 0;
    while i < parts.len()
        invariant
            i <= parts.len(),
            views == part_views(parts@),
            posts@.len() == i,
            forall|j: int|
                0 <= j < i ==> post_record(#[trigger] views[j]) == Ok::<DdysView, Mismatch>(
                    posts@[j]@,
                ),
        decreases parts.len() - i,
    {
        assert(views[i as int] == parts@[i as int]@);
        match record_of(&parts[i]) {
            Ok(post) => {
                posts.push(post);
            },
            Err(fault) => {
                assert(first_fault_at(views, i as int));
                return Err(fault);
            },
        }
        i = i + 1;
    }
    Ok(posts)
}

/// What the reply says of a page that does not look like the listing page.
pub open spec fn mismatch_text(fault: Mismatch) -> Seq<char> {
    match fault {
        Mismatch::Query => "a query for the listing page could not be compiled"@,
        Mismatch::TitleWithoutLink => "the title of a post holds no link"@,
        Mismatch::LinkWithoutAddress => "the link in the title of a post has no address"@,
        Mismatch::ImageWithoutStyle => "the image of a post has no style"@,
        Mismatch::StyleWithoutAddress => "the style of the image of a post holds no address"@,
    }
}

/// `e` is the failure of the upstream that stands for `fault`.
pub open spec fn is_upstream_error(e: MyError, fault: Mismatch) -> bool {
    e matches MyError::Reqwest(text) && text@ == mismatch_text(fault)
}

/// A page that does not look like the listing page is a failure of the
/// upstream.
pub fn upstream_error(fault: Mismatch) -> (r: MyError)
    ensures
        is_upstream_error(r, fault),
{
    let text = match fault {
        Mismatch::Query => "a query for the listing page could not be compiled",
        Mismatch::TitleWithoutLink => "the title of a post holds no link",
        Mismatch::LinkWithoutAddress => "the link in the title of a post has no address",
        Mismatch::ImageWithoutStyle => "the image of a post has no style",
        Mismatch::StyleWithoutAddress => "the style of the image of a post holds no address",
    };
    MyError::Reqwest(String::from_str(text))
}

/// The compiled queries for the parts of the listing page.
struct Queries {
    post: scraper::Selector,
    text: scraper::Selector,
    category: scraper::Selector,
    title: scraper::Selector,
    desc: scraper::Selector,
    url: scraper::Selector,
    image: scraper::Selector,
}

/// The query for the posts of a page.
pub const POST_QUERY: &'static str =
    " body > div[id=\"container\"] > main > div[class=\"post-box-list\"] > article > div[class=\"post-box-container\"] ";

/// The query for the text box of a post.
pub const TEXT_QUERY: &'static str = " div[class=\"post-box-text\"] ";

/// The query for the category links of a text box.
pub const CATEGORY_QUERY: &'static str = " span[class=\"post-box-meta\"] > a ";

/// The query for the title of a text box.
pub const TITLE_QUERY: &'static str = " h2[class=\"post-box-title\"] ";

/// The query for the paragraphs of a text box.
pub const DESC_QUERY: &'static str = "p";

/// The query for the links of a title.
pub const URL_QUERY: &'static str = " a ";

/// The query for the image of a post.
pub const IMAGE_QUERY: &'static str = " div[class=\"post-box-image\"] ";

/// Each of the seven queries is taken for a selector group.
pub open spec fn queries_compile() -> bool {
    &&& selector_parses(POST_QUERY@)
    &&& selector_parses(TEXT_QUERY@)
    &&& selector_parses(CATEGORY_QUERY@)
    &&& selector_parses(TITLE_QUERY@)
    &&& selector_parses(DESC_QUERY@)
    &&& selector_parses(URL_QUERY@)
    &&& selector_parses(IMAGE_QUERY@)
}

/// The selector that a query compiles to. It means something only for a text
/// that is a selector group.
pub open spec fn query(text: Seq<char>) -> scraper::Selector {
    compiled_selector(text).unwrap()
}

impl Queries {
    /// Each field is what its query compiles to.
    spec fn compiled(&self) -> bool {
        &&& self.post == query(POST_QUERY@)
        &&& self.text == query(TEXT_QUERY@)
        &&& self.category == query(CATEGORY_QUERY@)
        &&& self.title == query(TITLE_QUERY@)
        &&& self.desc == query(DESC_QUERY@)
        &&& self.url == query(URL_QUERY@)
        &&& self.image == query(IMAGE_QUERY@)
    }
}

/// The first of a list, if it has one.
pub open spec fn first_of<A>(list: Seq<A>) -> Option<A> {
    if list.len() > 0 {
        Some(list[0])
    } else {
        None
    }
}

/// The pieces of text of all the elements, element after element.
pub open spec fn all_texts(elements: Seq<scraper::ElementRef<'static>>) -> Seq<Seq<char>>
    decreases elements.len(),
{
    if elements.len() == 0 {
        Seq::empty()
    } else {
        all_texts(elements.drop_last()) + element_texts(elements.last())
    }
}

/// What the title of a post holds: the address of its first link, and its
/// first piece of text.
pub open spec fn title_parts(title: scraper::ElementRef<'static>) -> TitlePartsView {
    let links = element_matches(title, query(URL_QUERY@));
    TitlePartsView {
        href: match first_of(links) {
            Some(link) => Some(element_attr(link, "href"@)),
            None => None,
        },
        first_text: first_of(element_texts(title)),
    }
}

/// What the text box of a post holds: the pieces of text of all its category
/// links, its first title, and the pieces of text of its first paragraph.
pub open spec fn text_parts(text: scraper::ElementRef<'static>) -> TextPartsView {
    TextPartsView {
        categories: all_texts(element_matches(text, query(CATEGORY_QUERY@))),
        title: match first_of(element_matches(text, query(TITLE_QUERY@))) {
            Some(title) => Some(title_parts(title)),
            None => None,
        },
        desc: match first_of(element_matches(text, query(DESC_QUERY@))) {
            Some(paragraph) => Some(element_texts(paragraph)),
            None => None,
        },
    }
}

/// What a post holds: its first text box, and the style of its first image.
pub open spec fn post_parts(post: scraper::ElementRef<'static>) -> PostPartsView {
    PostPartsView {
        text: match first_of(element_matches(post, query(TEXT_QUERY@))) {
            Some(text) => Some(text_parts(text)),
            None => None,
        },
        image_style: match first_of(element_matches(post, query(IMAGE_QUERY@))) {
            Some(image) => Some(element_attr(image, "style"@)),
            None => None,
        },
    }
}

/// What the posts of a page hold, in the order in which the page's tree gives
/// them.
pub open spec fn page_parts(page: Seq<char>) -> Seq<PostPartsView> {
    document_matches(page_document(page), query(POST_QUERY@)).map_values(
        |post: scraper::ElementRef<'static>| post_parts(post),
    )
}

/// Compiles the queries; nothing where one of them is refused.
fn compile_queries() -> (r: Option<Queries>)
    ensures
        r is Some <==> queries_compile(),
        r matches Some(queries) ==> queries.compiled(),
{
    let post = parse_selector(POST_QUERY)?;
    let text = parse_selector(TEXT_QUERY)?;
    let category = parse_selector(CATEGORY_QUERY)?;
    let title = parse_selector(TITLE_QUERY)?;
    let desc = parse_selector(DESC_QUERY)?;
    let url = parse_selector(URL_QUERY)?;
    let image = parse_selector(IMAGE_QUERY)?;
    Some(Queries { post, text, category, title, desc, url, image })
}

/// Writes down what the title of a post holds.
fn read_title(title: &scraper::ElementRef<'_>, queries: &Queries) -> (r: TitleParts)
    requires
        queries.compiled(),
    ensures
        r@ == title_parts(*title),
{
    let links = select_in_element(title, &queries.url);
    let href = if links.len() > 0 {
        Some(attr_of(&links[0], "href"))
    } else {
        None
    };
    let mut pieces = texts_of(title);
    let ghost found = pieces@;
    let first_text = if pieces.len() > 0 {
        Some(pieces.swap_remove(0))
    } else {
        None
    };
    assert(texts(found).len() == found.len());
    assert(found.len() > 0 ==> texts(found)[0] == found[0]@);
    TitleParts { href, first_text }
}

/// Writes down what the text box of a post holds.
fn read_text(text: &scraper::ElementRef<'_>, queries: &Queries) -> (r: TextParts)
    requires
        queries.compiled(),
    ensures
        r@ == text_parts(*text),
{
    let mut categories: Vec<String> = Vec::new();
    let links = select_in_element(text, &queries.category);
    assert(links@.take(0) =~= Seq::empty());
    assert(texts(categories@) =~= all_texts(links@.take(0)));
    let mut i: usize = 0;
    while i < links.len()
        invariant
            i <= links.len(),
            texts(categories@) == all_texts(links@.take(i as int)),
        decreases links.len() - i,
    {
        let ghost before = categories@;
        let mut pieces = texts_of(&links[i]);
        let ghost found = pieces@;
        categories.append(&mut pieces);
        assert(links@.take(i + 1).drop_last() =~= links@.take(i as int));
        assert(links@.take(i + 1).last() == links@[i as int]);
        assert(texts(categories@) =~= texts(before) + texts(found));
        i = i + 1;
    }
    assert(links@.take(links.len() as int) =~= links@);
    let titles = select_in_element(text, &queries.title);
    let title = if titles.len() > 0 {
        Some(read_title(&titles[0], queries))
    } else {
        None
    };
    let paragraphs = select_in_element(text, &queries.desc);
    let desc = if paragraphs.len() > 0 {
        Some(texts_of(&paragraphs[0]))
    } else {
        None
    };
    TextParts { categories, title, desc }
}

/// Writes down what a post holds.
fn read_post(post: &scraper::ElementRef<'_>, queries: &Queries) -> (r: PostParts)
    requires
        queries.compiled(),
    ensures
        r@ == post_parts(*post),
{
    let boxes = select_in_element(post, &queries.text);
    let text = if boxes.len() > 0 {
        Some(read_text(&boxes[0], queries))
    } else {
        None
    };
    let images = select_in_element(post, &queries.image);
    let image_style = if images.len() > 0 {
        Some(attr_of(&images[0], "style"))
    } else {
        None
    };
    PostParts { text, image_style }
}

/// Parses a page and writes down what each of its posts holds, in the page's
/// order. This step succeeds exactly when the seven queries compile, whatever
/// the page holds.
pub fn read_posts(page: &str) -> (r: Result<Vec<PostParts>, Mismatch>)
    ensures
        r is Ok <==> queries_compile(),
        r matches Ok(parts) ==> part_views(parts@) == page_parts(page@),
        r matches Err(fault) ==> fault == Mismatch::Query,
{
    let queries = match compile_queries() {
        Some(q) => q,
        None => {
            return Err(Mismatch::Query);
        },
    };
    let document = parse_document(page);
    let posts = select_in_document(&document, &queries.post);
    let mut parts: Vec<PostParts> = Vec::new();
    let mut i: usize = 0;
    while i < posts.len()
        invariant
            i <= posts.len(),
            queries.compiled(),
            parts@.len() == i,
            forall|j: int| 0 <= j < i ==> (#[trigger] parts@[j])@ == post_parts(posts@[j]),
        decreases posts.len() - i,
    {
        parts.push(read_post(&posts[i], &queries));
        i = i + 1;
    }
    assert(part_views(parts@) =~= page_parts(page@));
    Ok(parts)
}

/// What reading a page comes to. Where the queries do not compile, it is the
/// failure of the upstream that says so. Where they do, it is the posts that
/// the parts of the page describe, or, where a part is at fault, the failure
/// of the upstream that stands for the first fault.
pub open spec fn scraped(page: Seq<char>, r: Result<Vec<Ddys>, MyError>) -> bool {
    if queries_compile() {
        match r {
            Ok(posts) => records_are(page_parts(page), posts@),
            Err(e) => exists|fault: Mismatch|
                first_fault_is(page_parts(page), fault) && #[trigger] is_upstream_error(e, fault),
        }
    } else {
        r matches Err(e) && is_upstream_error(e, Mismatch::Query)
    }
}

/// The posts of a page, in the page's order: what [`read_posts`] finds, made
/// into posts by [`records_of`]. A page that does not look like the listing
/// page is a failure of the upstream. Where the queries do not compile, no
/// page is read.
pub fn scrape(page: &str) -> (r: Result<Vec<Ddys>, MyError>)
    ensures
        scraped(page@, r),
{
    let parts = match read_posts(page) {
        Ok(parts) => parts,
        Err(fault) => {
            return Err(upstream_error(fault));
        },
    };
    match records_of(&parts) {
        Ok(posts) => Ok(posts),
        Err(fault) => {
            let e = upstream_error(fault);
            assert(is_upstream_error(e, fault));
            Err(e)
        },
    }
}

} // verus!
