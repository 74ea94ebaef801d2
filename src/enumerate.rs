use vstd::prelude::*;

use crate::medal::{kept, Medal, PageModel, PageReply};

verus! {

/// Largest number of pages one enumeration fetches; a service that keeps
/// announcing more pages past this is treated as misbehaving.
pub const MAX_PAGES: u64 = 1000;

/// Number of badges asked for on each page.
pub const PAGE_SIZE: u64 = 10;

/// What the enumeration wants next.
#[derive(PartialEq, Eq, Structural, Clone, Copy, Debug)]
pub enum PageRequest {
    /// Fetch this page number.
    Fetch(u64),
    /// Every announced page has been read.
    Complete,
    /// The page cap was reached while pages were still announced.
    Exceeded,
}

/// Walks the pages of the badge listing and collects badges.
pub struct Enumeration {
    pub include_lighted: bool,
    pub next_page: u64,
    pub total_pages: u64,
    pub fetched: u64,
    pub medals: Vec<Medal>,
}

pub struct EnumModel {
    pub include_lighted: bool,
    pub next_page: u64,
    pub total_pages: u64,
    pub fetched: u64,
    pub medals: Seq<Medal>,
}

impl View for Enumeration {
    type V = EnumModel;

    open spec fn view(&self) -> EnumModel {
        EnumModel {
            include_lighted: self.include_lighted,
            next_page: self.next_page,
            total_pages: self.total_pages,
            fetched: self.fetched,
            medals: self.medals@,
        }
    }
}

/// The page after `p`, held at the largest `u64`.
pub open spec fn succ_page(p: u64) -> u64 {
    if p == u64::MAX {
        u64::MAX
    } else {
        (p + 1) as u64
    }
}

/// The state before any page: page 1 is owed.
pub open spec fn initial(include_lighted: bool) -> EnumModel {
    EnumModel {
        include_lighted,
        next_page: 1,
        total_pages: 1,
        fetched: 0,
        medals: Seq::empty(),
    }
}

pub open spec fn request_of(s: EnumModel) -> PageRequest {
    if s.next_page > s.total_pages {
        PageRequest::Complete
    } else if s.fetched >= MAX_PAGES {
        PageRequest::Exceeded
    } else {
        PageRequest::Fetch(s.next_page)
    }
}

/// The state after a page reply: the cursor and the page count are taken
/// from the reply, and its collected badges are appended.
pub open spec fn after_page(s: EnumModel, r: PageModel) -> EnumModel {
    EnumModel {
        include_lighted: s.include_lighted,
        next_page: succ_page(r.cur_page),
        total_pages: r.total_pages,
        fetched: (s.fetched + 1) as u64,
        medals: s.medals + kept(s.include_lighted, r.items),
    }
}

/// The state after feeding `replies` one after the other.
pub open spec fn after_pages(s: EnumModel, replies: Seq<PageModel>) -> EnumModel
    decreases replies.len(),
{
    if replies.len() == 0 {
        s
    } else {
        after_page(after_pages(s, replies.drop_last()), replies.last())
    }
}

/// The badges collected from `replies`, page after page.
pub open spec fn kept_pages(include_lighted: bool, replies: Seq<PageModel>) -> Seq<Medal>
    decreases replies.len(),
{
    if replies.len() == 0 {
        Seq::empty()
    } else {
        kept_pages(include_lighted, replies.drop_last()) + kept(include_lighted, replies.last().items)
    }
}

/// Replies of a listing of exactly `replies.len()` pages: the i-th reply is
/// page i + 1, every reply but the last announces at least one more page, and
/// the last one announces no page after itself. The announced count may change
/// from one reply to the next.
pub open spec fn listing_of_pages(replies: Seq<PageModel>) -> bool {
    let n = replies.len();
    &&& 1 <= n <= MAX_PAGES
    &&& forall|i: int| 0 <= i < n ==> #[trigger] replies[i].cur_page == i + 1
    &&& forall|i: int| 0 <= i < n - 1 ==> #[trigger] replies[i].total_pages >= i + 2
    &&& replies[n - 1].total_pages <= n
}

/// The state after the first `k` replies of a listing: `k` pages fetched, the
/// cursor just past page `k`, and the badges of those pages collected.
proof fn lemma_listing_prefix(include_lighted: bool, replies: Seq<PageModel>, k: int)
    requires
        listing_of_pages(replies),
        0 <= k <= replies.len(),
    ensures
        after_pages(initial(include_lighted), replies.take(k)).fetched == k,
        after_pages(initial(include_lighted), replies.take(k)).include_lighted == include_lighted,
        after_pages(initial(include_lighted), replies.take(k)).medals == kept_pages(
            include_lighted,
            replies.take(k),
        ),
        k == 0 ==> after_pages(initial(include_lighted), replies.take(k)).next_page == 1,
        k == 0 ==> after_pages(initial(include_lighted), replies.take(k)).total_pages == 1,
        k > 0 ==> after_pages(initial(include_lighted), replies.take(k)).next_page == k + 1,
        k > 0 ==> after_pages(initial(include_lighted), replies.take(k)).total_pages
            == replies[k - 1].total_pages,
    decreases k,
{
    if k > 0 {
        lemma_listing_prefix(include_lighted, replies, k - 1);
        assert(replies.take(k).drop_last() == replies.take(k - 1));
        assert(replies.take(k).last() == replies[k - 1]);
        assert(replies[k - 1].cur_page == k);
    } else {
        assert(replies.take(0).len() == 0);
    }
}

/// Over a listing of N pages (whose announced page count may change between
/// replies), the enumeration asks for pages 1 to N, each once and in order,
/// then reports completion; it has then fetched exactly N pages and collected
/// the badges of all of them, each once, in the order the pages gave them.
pub proof fn lemma_enumeration_reads_every_page(include_lighted: bool, replies: Seq<PageModel>)
    requires
        listing_of_pages(replies),
    ensures
        forall|i: int|
            0 <= i < replies.len() ==> request_of(
                #[trigger] after_pages(initial(include_lighted), replies.take(i)),
            ) == PageRequest::Fetch((i + 1) as u64),
        request_of(after_pages(initial(include_lighted), replies)) == PageRequest::Complete,
        after_pages(initial(include_lighted), replies).fetched == replies.len(),
        after_pages(initial(include_lighted), replies).medals == kept_pages(include_lighted, replies),
{
    let n = replies.len() as int;
    assert forall|i: int| 0 <= i < n implies request_of(
        #[trigger] after_pages(initial(include_lighted), replies.take(i)),
    ) == PageRequest::Fetch((i + 1) as u64) by {
        lemma_listing_prefix(include_lighted, replies, i);
        if i > 0 {
            assert(replies[i - 1].total_pages >= i + 1);
        }
    }
    lemma_listing_prefix(include_lighted, replies, n);
    assert(replies.take(n) == replies);
}

impl Enumeration {
    /// Starts an enumeration that collects every badge when `include_lighted`,
    /// else only the inactive ones.
    pub fn new(include_lighted: bool) -> (r: Self)
        ensures
            r@ == initial(include_lighted),
    {
        Enumeration { include_lighted, next_page: 1, total_pages: 1, fetched: 0, medals: Vec::new() }
    }

    pub fn next_request(&self) -> (r: PageRequest)
        ensures
            r == request_of(self@),
    {
        if self.next_page > self.total_pages {
            PageRequest::Complete
        } else if self.fetched >= MAX_PAGES {
            PageRequest::Exceeded
        } else {
            PageRequest::Fetch(self.next_page)
        }
    }

    /// Takes the reply to the page that `next_request` asked for.
    pub fn record_page(&mut self, reply: PageReply)
        requires
            request_of(old(self)@) is Fetch,
        ensures
            final(self)@ == after_page(old(self)@, reply@),
    {
        let ghost items0 = reply.items@;
        let ghost medals0 = self.medals@;
        let mut items = reply.items;
        let mut taken: usize = 0;
        let count: usize = items.len();
        while items.len() > 0
            invariant
                self.include_lighted == old(self).include_lighted,
                self.fetched == old(self).fetched,
                self.fetched < MAX_PAGES,
                taken + items@.len() == count,
                count == items0.len(),
                items@ == items0.subrange(taken as int, items0.len() as int),
                self.medals@ == medals0 + kept(self.include_lighted, items0.take(taken as int)),
            decreases items.len(),
        {
            let m = items.remove(0);
            assert(items0.take(taken + 1).drop_last() == items0.take(taken as int));
            assert(items0.take(taken + 1).last() == m);
            if self.include_lighted || !m.is_lighted {
                self.medals.push(m);
            }
            taken = taken + 1;
        }
        assert(items0.take(taken as int) == items0);
        self.fetched = self.fetched + 1;
        self.total_pages = reply.total_pages;
        self.next_page = if reply.cur_page == u64::MAX {
            u64::MAX
        } else {
            reply.cur_page + 1
        };
    }

    /// The badges collected so far, in the order the pages listed them.
    pub fn into_medals(self) -> (r: Vec<Medal>)
        ensures
            r@ == self.medals@,
    {
        self.medals
    }
}

} // verus!
