//! The second source: a listing page that is scraped for its posts.

use crate::text::texts;
use vstd::prelude::*;

pub mod rss_generator;
pub mod scrape;

verus! {

/// One post of the listing page.
#[derive(Clone, Debug)]
pub struct Ddys {
    pub title: String,
    pub category: Vec<String>,
    pub url: String,
    pub desc: String,
    pub image_url: String,
}

/// A post as plain text fields.
#[verifier::ext_equal]
pub struct DdysView {
    pub title: Seq<char>,
    pub category: Seq<Seq<char>>,
    pub url: Seq<char>,
    pub desc: Seq<char>,
    pub image_url: Seq<char>,
}

impl View for Ddys {
    type V = DdysView;

    open spec fn view(&self) -> DdysView {
        DdysView {
            title: self.title@,
            category: texts(self.category@),
            url: self.url@,
            desc: self.desc@,
            image_url: self.image_url@,
        }
    }
}

impl Ddys {
    /// Who published the post: this source does not say.
    pub open spec fn author(&self) -> Option<Seq<char>> {
        None
    }

    /// The categories of the post, in the page's order.
    pub open spec fn categories(&self) -> Seq<Seq<char>> {
        texts(self.category@)
    }
}

impl Default for Ddys {
    /// The post with every field empty.
    fn default() -> (r: Ddys)
        ensures
            r@ == (DdysView {
                title: Seq::empty(),
                category: Seq::empty(),
                url: Seq::empty(),
                desc: Seq::empty(),
                image_url: Seq::empty(),
            }),
    {
        let r = Ddys {
            title: String::new(),
            category: Vec::new(),
            url: String::new(),
            desc: String::new(),
            image_url: String::new(),
        };
        assert(r@.category =~= Seq::empty());
        r
    }
}

} // verus!
