use vstd::prelude::*;

verus! {

/// One affiliation badge of the user, as the badge service lists it.
pub struct Medal {
    pub medal_id: u64,
    pub medal_name: String,
    /// The channel the badge belongs to; may be a short alias of the channel.
    pub room_id: u64,
    pub target_name: String,
    pub level: u64,
    pub is_lighted: bool,
}

/// One page of the badge listing.
pub struct PageReply {
    pub items: Vec<Medal>,
    pub cur_page: u64,
    pub total_pages: u64,
}

/// A page reply as the proofs see it.
pub struct PageModel {
    pub items: Seq<Medal>,
    pub cur_page: u64,
    pub total_pages: u64,
}

impl View for PageReply {
    type V = PageModel;

    open spec fn view(&self) -> PageModel {
        PageModel { items: self.items@, cur_page: self.cur_page, total_pages: self.total_pages }
    }
}

/// Whether a badge is collected: every badge when `include_lighted`, else only inactive ones.
pub open spec fn keeps(include_lighted: bool, m: Medal) -> bool {
    include_lighted || !m.is_lighted
}

/// The badges of `s` that are collected, in their order.
pub open spec fn kept(include_lighted: bool, s: Seq<Medal>) -> Seq<Medal>
    decreases s.len(),
{
    if s.len() == 0 {
        Seq::empty()
    } else {
        let rest = kept(include_lighted, s.drop_last());
        if keeps(include_lighted, s.last()) {
            rest.push(s.last())
        } else {
            rest
        }
    }
}

} // verus!
