//! The browse session: one hierarchy at a time ("browse" for navigation,
//! "search" for search results), a list on screen, and its pagination.
use vstd::prelude::*;
use crate::json::{Json, JsonV, jget, jview, json_doc_text, json_text, lemma_key_index_is};
use crate::text::owned;

verus! {

/// Items asked for per page.
pub const PAGE_SIZE: u32 = 100;

/// Server-side browse state as the client tracks it.
pub struct BrowseCtx {
    /// "browse" or "search".
    pub hierarchy: String,
    /// Items in the list on screen.
    pub count: u32,
    /// Items of that list loaded so far.
    pub loaded: u32,
}

/// A browse request to send to the Core.
pub struct BrowseRequest {
    pub hierarchy: String,
    pub item_key: Option<String>,
    pub pop_all: Option<bool>,
    pub pop_levels: Option<u32>,
    pub zone_or_output_id: Option<String>,
    pub input: Option<String>,
}

/// A page request for the list on screen.
pub struct LoadRequest {
    pub hierarchy: String,
    pub offset: u32,
    pub count: u32,
}

/// The list part of a browse result.
pub struct ListInfo {
    pub title: String,
    pub level: u32,
    pub count: u32,
}

/// What to do with a browse result.
pub enum BrowseOutcome {
    /// A new list: the view is reset, then the first page (if any) is loaded.
    Reset { title: String, level: i32, count: i32, in_search: bool, first_page: Option<LoadRequest> },
    /// A message for the user.
    Toast(String),
    /// Nothing changes.
    Ignored,
}

pub fn clone_opt(o: &Option<String>) -> (r: Option<String>)
    ensures
        r == *o,
{
    match o {
        Some(s) => Some(s.clone()),
        None => None,
    }
}

impl BrowseCtx {
    /// Items of the list on screen that are still to be loaded.
    pub open spec fn remaining(&self) -> nat {
        if self.loaded < self.count {
            (self.count - self.loaded) as nat
        } else {
            0
        }
    }

    /// The page request that loading more would send, if any.
    pub open spec fn next_page_spec(&self) -> Option<(Seq<char>, u32, u32)> {
        if self.loaded < self.count {
            Some((self.hierarchy@, self.loaded, PAGE_SIZE))
        } else {
            None
        }
    }

    /// The state after a page of `n` items arrived.
    pub open spec fn after_page(&self, n: nat) -> BrowseCtx {
        BrowseCtx {
            hierarchy: self.hierarchy,
            count: self.count,
            loaded: if n == 0 {
                self.count
            } else {
                (self.loaded + n) as u32
            },
        }
    }

    pub fn new() -> (r: BrowseCtx)
        ensures
            r.hierarchy@ == "browse"@,
            r.count == 0,
            r.loaded == 0,
    {
        BrowseCtx { hierarchy: String::from_str("browse"), count: 0, loaded: 0 }
    }

    /// The next page of the list on screen: none once everything is loaded.
    pub fn next_page(&self) -> (r: Option<LoadRequest>)
        ensures
            match r {
                Some(p) => self.next_page_spec() == Some((p.hierarchy@, p.offset, p.count)),
                None => self.next_page_spec() is None,
            },
    {
        if self.loaded >= self.count {
            return None;
        }
        Some(LoadRequest { hierarchy: self.hierarchy.clone(), offset: self.loaded, count: PAGE_SIZE })
    }

    /// Records that a page of `n` items arrived. An empty page ends the list,
    /// so a misbehaving server cannot keep the client loading forever.
    pub fn page_loaded(&mut self, n: usize)
        requires
            old(self).loaded + n <= u32::MAX,
        ensures
            *final(self) == old(self).after_page(n as nat),
    {
        if n == 0 {
            self.loaded = self.count;
        } else {
            self.loaded = self.loaded + n as u32;
        }
    }

    /// Applies a browse result with action `action`: a list resets the view
    /// and asks for its first page; a message becomes a toast ("Done" when
    /// the result names no item); anything else is ignored.
    pub fn apply(&mut self, action: &String, list: Option<ListInfo>, item_title: Option<String>) -> (r:
        BrowseOutcome)
        ensures
            action@ == "list"@ && list is Some ==> {
                let l = list->0;
                &&& final(self).hierarchy == old(self).hierarchy
                &&& final(self).count == l.count
                &&& final(self).loaded == 0
                &&& r matches BrowseOutcome::Reset { title, level, count, in_search, first_page } && {
                    &&& title@ == l.title@
                    &&& level == l.level as i32
                    &&& count == l.count as i32
                    &&& in_search == (old(self).hierarchy@ == "search"@)
                    &&& match first_page {
                        Some(p) => l.count > 0 && p.hierarchy@ == old(self).hierarchy@ && p.offset
                            == 0 && p.count == PAGE_SIZE,
                        None => l.count == 0,
                    }
                }
            },
            action@ == "list"@ && list is None ==> r is Ignored && *final(self) == *old(self),
            action@ == "message"@ ==> *final(self) == *old(self),
            action@ == "message"@ ==> (r matches BrowseOutcome::Toast(msg) && msg@ == match item_title {
                Some(t) => t@,
                None => "Done"@,
            }),
            action@ != "list"@ && action@ != "message"@ ==> r is Ignored && *final(self) == *old(
                self,
            ),
    {
        proof {
            reveal_strlit("list");
            reveal_strlit("message");
        }
        let list_word = String::from_str("list");
        let message_word = String::from_str("message");
        let search_word = String::from_str("search");
        if *action == list_word {
            assert("list"@.len() == 4 && "message"@.len() == 7);
            assert(action@ != "message"@);
            match list {
                None => BrowseOutcome::Ignored,
                Some(l) => {
                    self.count = l.count;
                    self.loaded = 0;
                    let in_search = self.hierarchy == search_word;
                    let first_page = self.next_page();
                    BrowseOutcome::Reset {
                        title: l.title,
                        level: #[verifier::truncate] (l.level as i32),
                        count: #[verifier::truncate] (l.count as i32),
                        in_search,
                        first_page,
                    }
                },
            }
        } else if *action == message_word {
            assert(action@ == "message"@);
            assert(action@ != "list"@);
            match item_title {
                Some(t) => BrowseOutcome::Toast(t),
                None => BrowseOutcome::Toast(String::from_str("Done")),
            }
        } else {
            BrowseOutcome::Ignored
        }
    }

    /// Back to the top of the browse hierarchy.
    pub fn home(&mut self, zone: Option<String>) -> (r: BrowseRequest)
        ensures
            final(self).hierarchy@ == "browse"@,
            final(self).count == old(self).count,
            final(self).loaded == old(self).loaded,
            r.hierarchy@ == "browse"@,
            r.pop_all == Some(true),
            r.item_key is None,
            r.pop_levels is None,
            r.input is None,
            r.zone_or_output_id == zone,
    {
        self.hierarchy = String::from_str("browse");
        BrowseRequest {
            hierarchy: String::from_str("browse"),
            item_key: None,
            pop_all: Some(true),
            pop_levels: None,
            zone_or_output_id: zone,
            input: None,
        }
    }

    /// Open the item `item_key` of the list on screen.
    pub fn into_item(&self, item_key: String, zone: Option<String>) -> (r: BrowseRequest)
        ensures
            r.hierarchy@ == self.hierarchy@,
            r.item_key == Some(item_key),
            r.pop_all is None,
            r.pop_levels is None,
            r.input is None,
            r.zone_or_output_id == zone,
    {
        BrowseRequest {
            hierarchy: self.hierarchy.clone(),
            item_key: Some(item_key),
            pop_all: None,
            pop_levels: None,
            zone_or_output_id: zone,
            input: None,
        }
    }

    /// One level up.
    pub fn back(&self, zone: Option<String>) -> (r: BrowseRequest)
        ensures
            r.hierarchy@ == self.hierarchy@,
            r.pop_levels == Some(1u32),
            r.item_key is None,
            r.pop_all is None,
            r.input is None,
            r.zone_or_output_id == zone,
    {
        BrowseRequest {
            hierarchy: self.hierarchy.clone(),
            item_key: None,
            pop_all: None,
            pop_levels: Some(1),
            zone_or_output_id: zone,
            input: None,
        }
    }

    /// Start a search for `query`; the session switches to the search hierarchy.
    pub fn search(&mut self, query: String, zone: Option<String>) -> (r: BrowseRequest)
        ensures
            final(self).hierarchy@ == "search"@,
            final(self).count == old(self).count,
            final(self).loaded == old(self).loaded,
            r.hierarchy@ == "search"@,
            r.input == Some(query),
            r.pop_all == Some(true),
            r.item_key is None,
            r.pop_levels is None,
            r.zone_or_output_id == zone,
    {
        self.hierarchy = String::from_str("search");
        BrowseRequest {
            hierarchy: String::from_str("search"),
            item_key: None,
            pop_all: Some(true),
            pop_levels: None,
            zone_or_output_id: zone,
            input: Some(query),
        }
    }
}

/// Loading pages ends: each page that arrives for a pending request leaves
/// strictly fewer items to load, whatever its size.
pub proof fn law_paging_ends(ctx: BrowseCtx, n: nat)
    requires
        ctx.next_page_spec() is Some,
        ctx.loaded + n <= u32::MAX,
    ensures
        ctx.after_page(n).remaining() < ctx.remaining(),
{
}

/// An item of a browse list, as the UI shows it.
pub struct ItemInfo {
    pub title: String,
    pub subtitle: Option<String>,
    pub image_key: Option<String>,
    pub item_key: Option<String>,
    pub hint: Option<String>,
}

/// The text of an optional field, empty when absent.
pub open spec fn or_empty(o: Option<String>) -> Seq<char> {
    match o {
        Some(s) => s@,
        None => Seq::empty(),
    }
}

/// An item as the UI's JSON holds it; a missing field is an empty string.
pub open spec fn item_json(it: ItemInfo) -> JsonV {
    JsonV::Object(
        seq![
            ("title"@, JsonV::Str(it.title@)),
            ("subtitle"@, JsonV::Str(or_empty(it.subtitle))),
            ("imageKey"@, JsonV::Str(or_empty(it.image_key))),
            ("itemKey"@, JsonV::Str(or_empty(it.item_key))),
            ("hint"@, JsonV::Str(or_empty(it.hint))),
        ],
    )
}

/// Each item's JSON carries the item's own fields under their keys: the
/// title, and each optional text as itself, or empty when the item has none.
pub proof fn law_item_json_fields(it: ItemInfo)
    ensures
        jget(item_json(it), "title"@) == JsonV::Str(it.title@),
        it.subtitle matches Some(s) ==> jget(item_json(it), "subtitle"@) == JsonV::Str(s@),
        it.subtitle is None ==> jget(item_json(it), "subtitle"@) == JsonV::Str(Seq::empty()),
        it.image_key matches Some(s) ==> jget(item_json(it), "imageKey"@) == JsonV::Str(s@),
        it.image_key is None ==> jget(item_json(it), "imageKey"@) == JsonV::Str(Seq::empty()),
        it.item_key matches Some(s) ==> jget(item_json(it), "itemKey"@) == JsonV::Str(s@),
        it.item_key is None ==> jget(item_json(it), "itemKey"@) == JsonV::Str(Seq::empty()),
        it.hint matches Some(s) ==> jget(item_json(it), "hint"@) == JsonV::Str(s@),
        it.hint is None ==> jget(item_json(it), "hint"@) == JsonV::Str(Seq::empty()),
{
    reveal_strlit("title");
    reveal_strlit("subtitle");
    reveal_strlit("imageKey");
    reveal_strlit("itemKey");
    reveal_strlit("hint");
    let ps = seq![
        ("title"@, JsonV::Str(it.title@)),
        ("subtitle"@, JsonV::Str(or_empty(it.subtitle))),
        ("imageKey"@, JsonV::Str(or_empty(it.image_key))),
        ("itemKey"@, JsonV::Str(or_empty(it.item_key))),
        ("hint"@, JsonV::Str(or_empty(it.hint))),
    ];
    assert(item_json(it) == JsonV::Object(ps));
    let t = "title"@;
    let su = "subtitle"@;
    let im = "imageKey"@;
    let ik = "itemKey"@;
    let h = "hint"@;
    assert(t.len() == 5 && su.len() == 8 && im.len() == 8 && ik.len() == 7 && h.len() == 4);
    assert(su[0] != im[0]);
    assert(su != im);
    assert(im[1] != ik[1]);
    lemma_key_index_is(ps, t, 0);
    lemma_key_index_is(ps, su, 1);
    lemma_key_index_is(ps, im, 2);
    lemma_key_index_is(ps, ik, 3);
    lemma_key_index_is(ps, h, 4);
}

fn text_or_empty(o: &Option<String>) -> (r: Json)
    ensures
        jview(r) == JsonV::Str(or_empty(*o)),
{
    match o {
        Some(s) => Json::Str(s.clone()),
        None => Json::Str(String::new()),
    }
}

/// The JSON array of the items of a page.
pub fn browse_items_json(items: &Vec<ItemInfo>) -> (r: Json)
    ensures
        jview(r) == JsonV::Array(items@.map_values(|it: ItemInfo| item_json(it))),
{
    let mut out: Vec<Json> = Vec::new();
    let mut i: usize = 0;
    while i < items.len()
        invariant
            i <= items@.len(),
            out@.len() == i,
            forall|k: int| 0 <= k < i ==> jview(#[trigger] out@[k]) == item_json(items@[k]),
        decreases items.len() - i,
    {
        let it = &items[i];
        let mut pairs: Vec<(String, Json)> = Vec::new();
        pairs.push((owned("title"), Json::Str(it.title.clone())));
        pairs.push((owned("subtitle"), text_or_empty(&it.subtitle)));
        pairs.push((owned("imageKey"), text_or_empty(&it.image_key)));
        pairs.push((owned("itemKey"), text_or_empty(&it.item_key)));
        pairs.push((owned("hint"), text_or_empty(&it.hint)));
        proof {
            crate::json::lemma_jview_pairs(pairs@);
            assert(crate::json::jview_pairs(pairs@) =~= seq![
                ("title"@, JsonV::Str(it.title@)),
                ("subtitle"@, JsonV::Str(or_empty(it.subtitle))),
                ("imageKey"@, JsonV::Str(or_empty(it.image_key))),
                ("itemKey"@, JsonV::Str(or_empty(it.item_key))),
                ("hint"@, JsonV::Str(or_empty(it.hint))),
            ]);
        }
        out.push(Json::Object(pairs));
        i = i + 1;
    }
    proof {
        crate::json::lemma_jview_seq(out@);
        assert(crate::json::jview_seq(out@) =~= items@.map_values(|it: ItemInfo| item_json(it)));
    }
    Json::Array(out)
}

/// The JSON text of a page of items that the UI appends to its list.
pub fn browse_items_text(items: &Vec<ItemInfo>) -> (r: String)
    ensures
        r@ == json_doc_text(JsonV::Array(items@.map_values(|it: ItemInfo| item_json(it)))),
{
    let j = browse_items_json(items);
    json_text(&j)
}

} // verus!
