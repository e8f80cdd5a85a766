//! The exclusion list and the rule by which it keeps or drops a record.

use crate::bilibili::BiliData;
use crate::ddys::Ddys;
use crate::text::{copy_texts, texts};
use vstd::prelude::*;

verus! {

/// The names that occur in a list.
pub open spec fn names(list: Seq<String>) -> Set<Seq<char>> {
    Set::new(|name: Seq<char>| exists|i: int| 0 <= i < list.len() && (#[trigger] list[i])@ == name)
}

/// No name occurs twice in the list.
pub open spec fn distinct(list: Seq<String>) -> bool {
    forall|i: int, j: int| 0 <= i < j < list.len() ==> (#[trigger] list[i])@ != (#[trigger] list[j])@
}

/// An exclusion list as two sets of names and a switch.
#[verifier::ext_equal]
pub struct BlacklistView {
    /// Whether records are filtered at all.
    pub enable: bool,
    pub authors: Set<Seq<char>>,
    pub categories: Set<Seq<char>>,
}

impl BlacklistView {
    /// The record's author is known and excluded.
    pub open spec fn excludes_author(self, author: Option<Seq<char>>) -> bool {
        author matches Some(a) && self.authors.contains(a)
    }

    /// One of the record's categories is excluded.
    pub open spec fn excludes_category(self, categories: Seq<Seq<char>>) -> bool {
        exists|i: int| 0 <= i < categories.len() && self.categories.contains(#[trigger] categories[i])
    }

    /// Whether a record with this author and these categories is kept: always
    /// while filtering is switched off, and otherwise when neither its author
    /// nor any of its categories is excluded. Names match exactly, by case too.
    pub open spec fn keeps(self, author: Option<Seq<char>>, categories: Seq<Seq<char>>) -> bool {
        !self.enable || (!self.excludes_author(author) && !self.excludes_category(categories))
    }

    /// The list after `incoming` was merged into it: both sets grow by the
    /// incoming ones, the switch stays.
    pub open spec fn merged(self, incoming: BlacklistView) -> BlacklistView {
        BlacklistView {
            enable: self.enable,
            authors: self.authors.union(incoming.authors),
            categories: self.categories.union(incoming.categories),
        }
    }

    /// The list after it was replaced by `incoming`.
    pub open spec fn replaced(self, incoming: BlacklistView) -> BlacklistView {
        incoming
    }
}

/// Filtering one element more either appends it or changes nothing.
pub(crate) proof fn filter_one_more<A>(s: Seq<A>, pred: spec_fn(A) -> bool, i: int)
    requires
        0 <= i < s.len(),
    ensures
        s.take(i + 1).filter(pred) == if pred(s[i]) {
            s.take(i).filter(pred).push(s[i])
        } else {
            s.take(i).filter(pred)
        },
{
    reveal(Seq::filter);
    assert(s.take(i + 1).drop_last() =~= s.take(i));
    assert(s.take(i + 1).last() == s[i]);
}

/// Filtering nothing gives nothing, and taking all gives all.
pub(crate) proof fn filter_ends<A>(s: Seq<A>, pred: spec_fn(A) -> bool)
    ensures
        s.take(0).filter(pred) == Seq::<A>::empty(),
        s.take(s.len() as int) == s,
{
    reveal(Seq::filter);
    assert(s.take(0) =~= Seq::<A>::empty());
    assert(s.take(s.len() as int) =~= s);
}

/// The exclusion list. Each set is kept as a list in which no name occurs
/// twice, in the order in which the names came.
#[derive(Debug)]
pub struct Blacklist {
    enable: bool,
    authors: Vec<String>,
    categories: Vec<String>,
}

impl View for Blacklist {
    type V = BlacklistView;

    closed spec fn view(&self) -> BlacklistView {
        BlacklistView {
            enable: self.enable,
            authors: names(self.authors@),
            categories: names(self.categories@),
        }
    }
}

/// Whether `name` occurs in `list`.
fn contains(list: &Vec<String>, name: &String) -> (r: bool)
    ensures
        r == names(list@).contains(name@),
{
    let mut i: usize = 0;
    while i < list.len()
        invariant
            i <= list.len(),
            forall|j: int| 0 <= j < i ==> (#[trigger] list[j])@ != name@,
        decreases list.len() - i,
    {
        if list[i] == *name {
            return true;
        }
        i = i + 1;
    }
    false
}

/// Adds to `list` each name of `more` that it does not hold yet.
fn add_names(list: &mut Vec<String>, more: &Vec<String>)
    requires
        distinct(old(list)@),
    ensures
        distinct(final(list)@),
        names(final(list)@) == names(old(list)@).union(names(more@)),
{
    let mut i: usize = 0;
    while i < more.len()
        invariant
            i <= more.len(),
            distinct(list@),
            names(list@) == names(old(list)@).union(names(more@.take(i as int))),
        decreases more.len() - i,
    {
        let ghost before = list@;
        let name = &more[i];
        if !contains(list, name) {
            list.push(name.clone());
            assert forall|s: Seq<char>| names(list@).contains(s) <==> (names(before).contains(s)
                || s == name@) by {
                if names(list@).contains(s) {
                    let k = choose|k: int| 0 <= k < list@.len() && (#[trigger] list@[k])@ == s;
                    if k < before.len() {
                        assert(before[k]@ == s);
                    }
                }
                if names(before).contains(s) {
                    let k = choose|k: int| 0 <= k < before.len() && (#[trigger] before[k])@ == s;
                    assert(list@[k]@ == s);
                }
                if s == name@ {
                    assert(list@[before.len() as int]@ == s);
                }
            }
        }
        assert forall|s: Seq<char>| names(more@.take(i + 1)).contains(s) <==> (names(
            more@.take(i as int),
        ).contains(s) || s == name@) by {
            let longer = more@.take(i + 1);
            let shorter = more@.take(i as int);
            if names(longer).contains(s) {
                let k = choose|k: int| 0 <= k < longer.len() && (#[trigger] longer[k])@ == s;
                if k < i {
                    assert(shorter[k]@ == s);
                }
            }
            if names(shorter).contains(s) {
                let k = choose|k: int| 0 <= k < shorter.len() && (#[trigger] shorter[k])@ == s;
                assert(longer[k]@ == s);
            }
            if s == name@ {
                assert(longer[i as int]@ == s);
            }
        }
        assert forall|s: Seq<char>| names(list@).contains(s) <==> names(old(list)@).union(
            names(more@.take(i + 1)),
        ).contains(s) by {
            assert(names(before).contains(s) <==> (names(old(list)@).contains(s) || names(
                more@.take(i as int),
            ).contains(s)));
            if list@ == before {
                assert(names(before).contains(name@));
            }
        }
        assert(names(list@) =~= names(old(list)@).union(names(more@.take(i + 1))));
        i = i + 1;
    }
    assert(more@.take(more.len() as int) =~= more@);
}

/// Two lists that agree name by name hold the same names, and one is free of
/// repetitions when the other is.
proof fn same_names(a: Seq<String>, b: Seq<String>)
    requires
        a.len() == b.len(),
        forall|i: int| 0 <= i < a.len() ==> (#[trigger] a[i])@ == b[i]@,
    ensures
        names(a) == names(b),
        distinct(a) == distinct(b),
{
    assert forall|s: Seq<char>| names(a).contains(s) <==> names(b).contains(s) by {
        if names(a).contains(s) {
            let k = choose|k: int| 0 <= k < a.len() && (#[trigger] a[k])@ == s;
            assert(b[k]@ == s);
        }
        if names(b).contains(s) {
            let k = choose|k: int| 0 <= k < b.len() && (#[trigger] b[k])@ == s;
            assert(a[k]@ == s);
        }
    }
    assert(names(a) =~= names(b));
    if distinct(a) {
        assert forall|i: int, j: int| 0 <= i < j < b.len() implies (#[trigger] b[i])@ != (
        #[trigger] b[j])@ by {
            assert(a[i]@ != a[j]@);
        }
    }
    if distinct(b) {
        assert forall|i: int, j: int| 0 <= i < j < a.len() implies (#[trigger] a[i])@ != (
        #[trigger] a[j])@ by {
            assert(b[i]@ != b[j]@);
        }
    }
}

impl Blacklist {
    #[verifier::type_invariant]
    closed spec fn well_formed(&self) -> bool {
        distinct(self.authors@) && distinct(self.categories@)
    }

    /// Whether a list that does not say so filters: it does.
    pub fn default_enable() -> (r: bool)
        ensures
            r == true,
    {
        true
    }

    /// Makes a list from a switch and two lists of names. A name that is given
    /// more than once counts once.
    pub fn new(enable: bool, authors: Vec<String>, categories: Vec<String>) -> (r: Blacklist)
        ensures
            r@ == (BlacklistView {
                enable,
                authors: names(authors@),
                categories: names(categories@),
            }),
    {
        let mut a: Vec<String> = Vec::new();
        let mut c: Vec<String> = Vec::new();
        assert(names(a@) =~= Set::<Seq<char>>::empty());
        assert(names(c@) =~= Set::<Seq<char>>::empty());
        add_names(&mut a, &authors);
        add_names(&mut c, &categories);
        assert(names(a@) =~= names(authors@));
        assert(names(c@) =~= names(categories@));
        Blacklist { enable, authors: a, categories: c }
    }

    /// Whether filtering is switched on.
    pub fn enable(&self) -> (r: bool)
        ensures
            r == self@.enable,
    {
        self.enable
    }

    /// The excluded authors, each once, in the order in which they came.
    pub fn authors(&self) -> (r: Vec<String>)
        ensures
            distinct(r@),
            names(r@) == self@.authors,
    {
        proof {
            use_type_invariant(self);
        }
        let r = copy_texts(&self.authors);
        proof {
            same_names(self.authors@, r@);
        }
        r
    }

    /// The excluded categories, each once, in the order in which they came.
    pub fn categories(&self) -> (r: Vec<String>)
        ensures
            distinct(r@),
            names(r@) == self@.categories,
    {
        proof {
            use_type_invariant(self);
        }
        let r = copy_texts(&self.categories);
        proof {
            same_names(self.categories@, r@);
        }
        r
    }

    /// Whether a record with this author and these categories is kept. A
    /// record without an author is never dropped for its author.
    pub fn keeps(&self, author: Option<&String>, categories: &Vec<String>) -> (r: bool)
        ensures
            r == self@.keeps(
                match author {
                    Some(a) => Some(a@),
                    None => None,
                },
                texts(categories@),
            ),
    {
        if !self.enable {
            return true;
        }
        if let Some(a) = author {
            if contains(&self.authors, a) {
                return false;
            }
        }
        let ghost cats = texts(categories@);
        let mut i: usize = 0;
        while i < categories.len()
            invariant
                i <= categories.len(),
                cats == texts(categories@),
                self@.enable,
                forall|j: int| 0 <= j < i ==> !self@.categories.contains(#[trigger] cats[j]),
            decreases categories.len() - i,
        {
            if contains(&self.categories, &categories[i]) {
                assert(cats[i as int] == categories@[i as int]@);
                assert(self@.categories.contains(cats[i as int]));
                assert(self@.excludes_category(cats));
                return false;
            }
            i = i + 1;
        }
        true
    }

    /// Filter rss content based on author name and category.
    /// Return true when items can be read
    pub fn filter(&self, bili_data: &BiliData) -> (r: bool)
        ensures
            r == self@.keeps(bili_data.author(), bili_data.categories()),
            r == (!self@.enable || (!self@.authors.contains(bili_data.owner.name@)
                && !self@.categories.contains(bili_data.tname@))),
    {
        let r = !self.enable || (!contains(&self.authors, &bili_data.owner.name) && !contains(
            &self.categories,
            &bili_data.tname,
        ));
        proof {
            let cats = bili_data.categories();
            assert(cats[0] == bili_data.tname@);
            assert(self@.excludes_category(cats) == self@.categories.contains(bili_data.tname@));
        }
        r
    }

    /// Whether a post is kept: it is dropped when filtering is on and any of
    /// its categories is excluded.
    pub fn filter_ddys(&self, ddys: &Ddys) -> (r: bool)
        ensures
            r == self@.keeps(ddys.author(), ddys.categories()),
    {
        self.keeps(None, &ddys.category)
    }

    /// A copy of the list as it stands.
    pub fn read(&self) -> (r: Blacklist)
        ensures
            r@ == self@,
    {
        proof {
            use_type_invariant(self);
        }
        let authors = copy_texts(&self.authors);
        let categories = copy_texts(&self.categories);
        proof {
            same_names(self.authors@, authors@);
            same_names(self.categories@, categories@);
        }
        Blacklist { enable: self.enable, authors, categories }
    }

    /// Merges `incoming` into the list: each set grows by the incoming one.
    /// The switch of `incoming` is not looked at.
    pub fn extend(&mut self, incoming: Blacklist)
        ensures
            final(self)@ == old(self)@.merged(incoming@),
    {
        proof {
            use_type_invariant(&*self);
        }
        let mut authors: Vec<String> = Vec::new();
        let mut categories: Vec<String> = Vec::new();
        core::mem::swap(&mut self.authors, &mut authors);
        core::mem::swap(&mut self.categories, &mut categories);
        add_names(&mut authors, &incoming.authors);
        add_names(&mut categories, &incoming.categories);
        core::mem::swap(&mut self.authors, &mut authors);
        core::mem::swap(&mut self.categories, &mut categories);
    }

    /// Puts `incoming` in the place of the list. Nothing of the old list stays.
    pub fn replace(&mut self, incoming: Blacklist)
        ensures
            final(self)@ == old(self)@.replaced(incoming@),
            *final(self) == incoming,
    {
        *self = incoming;
    }
}

impl Default for Blacklist {
    /// The list that filters nothing: switched off, both sets empty.
    fn default() -> (r: Blacklist)
        ensures
            r@ == (BlacklistView {
                enable: false,
                authors: Set::<Seq<char>>::empty(),
                categories: Set::<Seq<char>>::empty(),
            }),
    {
        let authors: Vec<String> = Vec::new();
        let categories: Vec<String> = Vec::new();
        assert(names(authors@) =~= Set::<Seq<char>>::empty());
        assert(names(categories@) =~= Set::<Seq<char>>::empty());
        Blacklist { enable: false, authors, categories }
    }
}

/// Merging one list and then another gives what merging both at once gives,
/// where both at once is the list whose sets hold the names of either.
pub proof fn merge_in_steps_or_at_once(
    list: BlacklistView,
    first: BlacklistView,
    second: BlacklistView,
)
    ensures
        list.merged(first).merged(second) == list.merged(first.merged(second)),
        first.merged(second).authors == first.authors.union(second.authors),
        first.merged(second).categories == first.categories.union(second.categories),
{
    assert(list.merged(first).merged(second) =~= list.merged(first.merged(second)));
}

/// The order in which two lists are merged makes no difference.
pub proof fn merge_in_either_order(list: BlacklistView, first: BlacklistView, second: BlacklistView)
    ensures
        list.merged(first).merged(second) == list.merged(second).merged(first),
{
    assert(list.merged(first).merged(second) =~= list.merged(second).merged(first));
}

/// Merging the same list again changes nothing.
pub proof fn merge_again_changes_nothing(list: BlacklistView, incoming: BlacklistView)
    ensures
        list.merged(incoming).merged(incoming) == list.merged(incoming),
{
    assert(list.merged(incoming).merged(incoming) =~= list.merged(incoming));
}

/// A merge only adds: what was excluded stays excluded, and what the incoming
/// list excludes is excluded afterwards.
pub proof fn merge_only_adds(list: BlacklistView, incoming: BlacklistView)
    ensures
        list.authors.subset_of(list.merged(incoming).authors),
        list.categories.subset_of(list.merged(incoming).categories),
        incoming.authors.subset_of(list.merged(incoming).authors),
        incoming.categories.subset_of(list.merged(incoming).categories),
{
}

/// After a replacement the list is the incoming one, whatever it was before
/// and whatever had been merged into it.
pub proof fn replace_discards_what_was(
    list: BlacklistView,
    merged_before: BlacklistView,
    incoming: BlacklistView,
)
    ensures
        list.replaced(incoming) == incoming,
        list.merged(merged_before).replaced(incoming) == incoming,
{
}

/// A list that is switched off keeps every record; an empty list that is
/// switched on does too.
pub proof fn nothing_excluded_keeps_all(
    list: BlacklistView,
    author: Option<Seq<char>>,
    categories: Seq<Seq<char>>,
)
    requires
        !list.enable || (list.authors == Set::<Seq<char>>::empty() && list.categories == Set::<
            Seq<char>,
        >::empty()),
    ensures
        list.keeps(author, categories),
{
}

} // verus!
