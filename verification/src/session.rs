//! One session with a paired Core: zone events and user commands in,
//! UI updates and Core requests out.
use vstd::prelude::*;
use crate::browse::{BrowseCtx, BrowseRequest, LoadRequest, clone_opt};
use crate::text::opt_str;
use crate::zones::{
    ZoneInfo, ZoneEvent, apply_event, find_zone, zones_after, reselect, sel_index, index_of_id,
    lemma_index_of_id, play_state_name, play_state_name_spec,
};

verus! {

/// A user command from the UI.
#[derive(Debug)]
pub enum Cmd {
    SelectZone(usize),
    PlayPause,
    Next,
    Previous,
    BrowseHome,
    BrowseInto(String),
    BrowseBack,
    Search(String),
    LoadMore,
}

/// A transport control for the selected zone.
#[derive(Clone, Copy, Debug, PartialEq, Eq, Structural)]
pub enum ControlAction {
    PlayPause,
    Next,
    Previous,
}

/// The text and flags the UI shows for the selected zone.
pub struct ZoneView {
    pub title: String,
    pub artist: String,
    pub album: String,
    pub play_state: String,
    pub can_next: bool,
    pub can_previous: bool,
}

/// Title, artist and album of what `z` plays: its three-line text when it
/// has one (missing lines empty), else its one-line text as the title.
pub open spec fn track_lines(z: Option<ZoneInfo>) -> (Seq<char>, Seq<char>, Seq<char>) {
    match z {
        Some(zone) => match zone.now_playing {
            Some(np) => match np.three_line {
                Some(t) => (
                    t.line1@,
                    match t.line2 {
                        Some(l) => l@,
                        None => Seq::empty(),
                    },
                    match t.line3 {
                        Some(l) => l@,
                        None => Seq::empty(),
                    },
                ),
                None => (np.one_line@, Seq::empty(), Seq::empty()),
            },
            None => (Seq::empty(), Seq::empty(), Seq::empty()),
        },
        None => (Seq::empty(), Seq::empty(), Seq::empty()),
    }
}

/// `v` is what the UI shows for zone `z` (or for no zone).
pub open spec fn view_of(v: ZoneView, z: Option<ZoneInfo>) -> bool {
    &&& (v.title@, v.artist@, v.album@) == track_lines(z)
    &&& v.play_state@ == match z {
        Some(zone) => play_state_name_spec(zone.state),
        None => Seq::empty(),
    }
    &&& v.can_next == (z is Some && z->0.is_next_allowed)
    &&& v.can_previous == (z is Some && z->0.is_previous_allowed)
}

fn opt_or_empty(o: &Option<String>) -> (r: String)
    ensures
        r@ == match o {
            Some(s) => s@,
            None => Seq::empty(),
        },
{
    match o {
        Some(s) => s.clone(),
        None => String::new(),
    }
}

/// The view of zone `z`.
pub fn zone_view(z: Option<&ZoneInfo>) -> (r: ZoneView)
    ensures
        view_of(
            r,
            match z {
                Some(zone) => Some(*zone),
                None => None,
            },
        ),
{
    let (title, artist, album) = match z {
        Some(zone) => match &zone.now_playing {
            Some(np) => match &np.three_line {
                Some(t) => (t.line1.clone(), opt_or_empty(&t.line2), opt_or_empty(&t.line3)),
                None => (np.one_line.clone(), String::new(), String::new()),
            },
            None => (String::new(), String::new(), String::new()),
        },
        None => (String::new(), String::new(), String::new()),
    };
    let play_state = match z {
        Some(zone) => String::from_str(play_state_name(zone.state)),
        None => String::new(),
    };
    let (can_next, can_previous) = match z {
        Some(zone) => (zone.is_next_allowed, zone.is_previous_allowed),
        None => (false, false),
    };
    ZoneView { title, artist, album, play_state, can_next, can_previous }
}

/// The view shows the zone's own texts and flags: the lines of its
/// three-line text as title, artist and album (a missing line shows empty),
/// else its one-line text as the title; nothing when it plays nothing.
pub proof fn law_view_shows_zone_text(v: ZoneView, z: ZoneInfo)
    requires
        view_of(v, Some(z)),
    ensures
        z.now_playing matches Some(np) ==> (np.three_line matches Some(t) ==> {
            &&& v.title@ == t.line1@
            &&& (t.line2 matches Some(l) ==> v.artist@ == l@)
            &&& (t.line2 is None ==> v.artist@.len() == 0)
            &&& (t.line3 matches Some(l) ==> v.album@ == l@)
            &&& (t.line3 is None ==> v.album@.len() == 0)
        }),
        z.now_playing matches Some(np) ==> (np.three_line is None ==> {
            &&& v.title@ == np.one_line@
            &&& v.artist@.len() == 0
            &&& v.album@.len() == 0
        }),
        z.now_playing is None ==> v.title@.len() == 0 && v.artist@.len() == 0 && v.album@.len()
            == 0,
        v.can_next == z.is_next_allowed,
        v.can_previous == z.is_previous_allowed,
{
}

/// What to do about the artwork shown.
pub enum ArtAction {
    /// The image key did not change.
    Unchanged,
    /// No artwork any more.
    Clear,
    /// Fetch and show the image with this key.
    Fetch(String),
}

/// The image key of what zone `z` plays.
pub open spec fn zone_image_key(z: ZoneInfo) -> Option<String> {
    match z.now_playing {
        Some(np) => np.image_key,
        None => None,
    }
}

/// `a` is what the artwork on screen needs when the shown image key goes
/// from `last` to `key`: nothing when it is the same key, else a fetch of
/// the new key or, without one, clearing.
pub open spec fn art_for(a: ArtAction, last: Option<String>, key: Option<String>) -> bool {
    if opt_str(last) == opt_str(key) {
        a is Unchanged
    } else {
        match key {
            Some(k) => a matches ArtAction::Fetch(f) && f@ == k@,
            None => a is Clear,
        }
    }
}

/// The image key remembered after the shown zone's artwork became `key`.
pub open spec fn art_last_after(last: Option<String>, key: Option<String>) -> Option<String> {
    if opt_str(last) == opt_str(key) {
        last
    } else {
        key
    }
}

/// Each image is fetched once: after the artwork became `key`, the same key
/// again leaves everything as it is.
pub proof fn law_art_fetched_once(last: Option<String>, key: Option<String>)
    ensures
        opt_str(art_last_after(last, key)) == opt_str(key),
        art_last_after(art_last_after(last, key), key) == art_last_after(last, key),
{
}

/// Remembers the image key on screen so each new key is fetched once.
pub struct ArtTracker {
    pub last: Option<String>,
}

impl ArtTracker {
    pub fn new() -> (r: ArtTracker)
        ensures
            r.last is None,
    {
        ArtTracker { last: None }
    }

    /// The artwork of the shown zone is now `key`.
    pub fn update(&mut self, key: Option<String>) -> (r: ArtAction)
        ensures
            final(self).last == art_last_after(old(self).last, key),
            opt_str(old(self).last) == opt_str(key) ==> r is Unchanged && final(self).last
                == old(self).last,
            opt_str(old(self).last) != opt_str(key) ==> final(self).last == key && match key {
                Some(k) => r matches ArtAction::Fetch(f) && f@ == k@,
                None => r is Clear,
            },
    {
        let same = match (&self.last, &key) {
            (Some(a), Some(b)) => *a == *b,
            (None, None) => true,
            _ => false,
        };
        if same {
            return ArtAction::Unchanged;
        }
        self.last = clone_opt(&key);
        match key {
            Some(k) => ArtAction::Fetch(k),
            None => ArtAction::Clear,
        }
    }
}

/// The zone names in list order and the selected index, for the zone picker.
pub struct ZoneList {
    pub names: Vec<String>,
    pub index: i32,
}

/// Everything the UI refreshes after the zones or the selection change.
pub struct Refresh {
    pub list: ZoneList,
    pub view: ZoneView,
    pub art: ArtAction,
}

/// What a zone event asks of the UI.
pub struct ZoneOutcome {
    /// Only seek positions moved: refresh the position of the selected zone only.
    pub seek_only: bool,
    /// Index of the selected zone in the list (0 when none is selected).
    pub selected: usize,
    /// Full refresh, for any other event.
    pub refresh: Option<Refresh>,
    /// The browse request for the first home screen, after the first event.
    pub home: Option<BrowseRequest>,
}

/// What a command asks of the Core or the UI.
pub enum CmdOutcome {
    Nothing,
    Refresh(Refresh),
    Control { zone_id: String, action: ControlAction },
    Browse(BrowseRequest),
    Load(LoadRequest),
}

/// The names of `zs`, in order.
pub open spec fn names_of(zs: Seq<ZoneInfo>) -> Seq<Seq<char>> {
    zs.map_values(|z: ZoneInfo| z.display_name@)
}

/// The zone the selection points at, for a command: none when nothing is
/// selected or the selected zone is gone.
pub open spec fn selected_zone(zs: Seq<ZoneInfo>, sel: Option<Seq<char>>) -> Option<ZoneInfo> {
    match sel {
        Some(id) => if index_of_id(zs, id) >= 0 {
            Some(zs[index_of_id(zs, id)])
        } else {
            None
        },
        None => None,
    }
}

/// A session with one Core.
pub struct Session {
    pub zones: Vec<ZoneInfo>,
    pub sel_id: Option<String>,
    pub art: ArtTracker,
    pub browse: BrowseCtx,
    pub did_home: bool,
}

fn zone_names(zones: &Vec<ZoneInfo>) -> (r: Vec<String>)
    ensures
        r@.map_values(|s: String| s@) == names_of(zones@),
{
    let mut names: Vec<String> = Vec::new();
    let mut i: usize = 0;
    while i < zones.len()
        invariant
            i <= zones@.len(),
            names@.len() == i,
            forall|k: int| 0 <= k < i ==> #[trigger] names@[k]@ == zones@[k].display_name@,
        decreases zones.len() - i,
    {
        names.push(zones[i].display_name.clone());
        i = i + 1;
    }
    assert(names@.map_values(|s: String| s@) =~= names_of(zones@));
    names
}

impl Session {
    pub fn new() -> (r: Session)
        ensures
            r.zones@.len() == 0,
            r.sel_id is None,
            r.art.last is None,
            r.browse.hierarchy@ == "browse"@,
            r.browse.count == 0,
            r.browse.loaded == 0,
            !r.did_home,
    {
        Session {
            zones: Vec::new(),
            sel_id: None,
            art: ArtTracker::new(),
            browse: BrowseCtx::new(),
            did_home: false,
        }
    }

    /// Index of the zone the selection points at, if it is in the list.
    pub fn selected_index(&self) -> (r: Option<usize>)
        ensures
            match r {
                Some(i) => i < self.zones@.len() && selected_zone(self.zones@, opt_str(self.sel_id))
                    == Some(self.zones@[i as int]),
                None => selected_zone(self.zones@, opt_str(self.sel_id)) is None,
            },
            r matches Some(i) ==> opt_str(self.sel_id) is Some && i == index_of_id(
                self.zones@,
                opt_str(self.sel_id)->0,
            ),
            r is None ==> sel_index(self.zones@, opt_str(self.sel_id)) == 0,
    {
        match &self.sel_id {
            Some(id) => find_zone(&self.zones, id),
            None => None,
        }
    }

    /// The zone whose transport a command controls (for seeking too).
    pub fn seek_target(&self) -> (r: Option<String>)
        ensures
            opt_str(r) == match selected_zone(self.zones@, opt_str(self.sel_id)) {
                Some(z) => Some(z.zone_id@),
                None => None,
            },
    {
        match self.selected_index() {
            Some(i) => Some(self.zones[i].zone_id.clone()),
            None => None,
        }
    }

    /// The output whose volume a volume change sets: the first output of the
    /// selected zone.
    pub fn volume_target(&self) -> (r: Option<String>)
        ensures
            opt_str(r) == match selected_zone(self.zones@, opt_str(self.sel_id)) {
                Some(z) => opt_str(z.first_output_id),
                None => None,
            },
    {
        match self.selected_index() {
            Some(i) => clone_opt(&self.zones[i].first_output_id),
            None => None,
        }
    }

    fn refresh_for(&mut self, i: usize) -> (r: Refresh)
        requires
            i < old(self).zones@.len(),
        ensures
            final(self).zones == old(self).zones,
            final(self).sel_id == old(self).sel_id,
            final(self).browse == old(self).browse,
            final(self).did_home == old(self).did_home,
            r.list.names@.map_values(|s: String| s@) == names_of(old(self).zones@),
            r.list.index == i as i32,
            view_of(r.view, Some(old(self).zones@[i as int])),
            art_for(r.art, old(self).art.last, zone_image_key(old(self).zones@[i as int])),
            final(self).art.last == art_last_after(
                old(self).art.last,
                zone_image_key(old(self).zones@[i as int]),
            ),
    {
        let names = zone_names(&self.zones);
        let view = zone_view(Some(&self.zones[i]));
        let key = match &self.zones[i].now_playing {
            Some(np) => clone_opt(&np.image_key),
            None => None,
        };
        let art = self.art.update(key);
        Refresh { list: ZoneList { names, index: #[verifier::truncate] (i as i32) }, view, art }
    }

    /// Applies a zone event: the list is updated and re-sorted, the selection
    /// kept if its zone is still there (else the first zone), and the UI told
    /// what to refresh. The first event of the session also opens browse home.
    pub fn on_zone_event(&mut self, ev: ZoneEvent) -> (r: ZoneOutcome)
        ensures
            final(self).zones@ == zones_after(old(self).zones@, ev),
            opt_str(final(self).sel_id) == reselect(final(self).zones@, opt_str(old(self).sel_id)),
            r.selected == sel_index(final(self).zones@, opt_str(final(self).sel_id)),
            r.seek_only == (ev is Seeked),
            r.seek_only ==> r.refresh is None && final(self).art == old(self).art,
            !r.seek_only ==> r.refresh is Some,
            !r.seek_only && final(self).zones@.len() > 0 ==> ({
                let rf = r.refresh->0;
                &&& rf.list.names@.map_values(|s: String| s@) == names_of(final(self).zones@)
                &&& rf.list.index == r.selected as i32
                &&& view_of(rf.view, Some(final(self).zones@[r.selected as int]))
                &&& art_for(rf.art, old(self).art.last, zone_image_key(final(self).zones@[r.selected as int]))
                &&& final(self).art.last == art_last_after(
                    old(self).art.last,
                    zone_image_key(final(self).zones@[r.selected as int]),
                )
            }),
            !r.seek_only && final(self).zones@.len() == 0 ==> ({
                let rf = r.refresh->0;
                &&& rf.list.names@.len() == 0
                &&& rf.list.index == 0
                &&& view_of(rf.view, None)
                &&& (old(self).art.last is None ==> rf.art is Unchanged)
                &&& (old(self).art.last is Some ==> rf.art is Clear)
                &&& final(self).art.last is None
            }),
            final(self).did_home,
            old(self).did_home ==> r.home is None && final(self).browse == old(self).browse,
            !old(self).did_home ==> ({
                let h = r.home->0;
                &&& r.home is Some
                &&& h.hierarchy@ == "browse"@
                &&& h.pop_all == Some(true)
                &&& h.item_key is None && h.pop_levels is None && h.input is None
                &&& h.zone_or_output_id == final(self).sel_id
                &&& final(self).browse.hierarchy@ == "browse"@
                &&& final(self).browse.count == old(self).browse.count
                &&& final(self).browse.loaded == old(self).browse.loaded
            }),
    {
        let seek_only = match &ev {
            ZoneEvent::Seeked(_) => true,
            _ => false,
        };
        apply_event(&mut self.zones, ev);
        let keep = match &self.sel_id {
            Some(id) => match find_zone(&self.zones, id) {
                Some(_) => true,
                None => false,
            },
            None => false,
        };
        proof {
            match opt_str(self.sel_id) {
                Some(id) => {
                    lemma_index_of_id(self.zones@, id);
                },
                None => {},
            }
        }
        if !keep {
            self.sel_id = if self.zones.len() > 0 {
                Some(self.zones[0].zone_id.clone())
            } else {
                None
            };
        }
        let sel = match self.selected_index() {
            Some(i) => i,
            None => 0,
        };
        proof {
            match opt_str(self.sel_id) {
                Some(id) => {
                    lemma_index_of_id(self.zones@, id);
                },
                None => {},
            }
        }
        let refresh = if seek_only {
            None
        } else if self.zones.len() > 0 {
            Some(self.refresh_for(sel))
        } else {
            let art = self.art.update(None);
            Some(
                Refresh {
                    list: ZoneList { names: Vec::new(), index: 0 },
                    view: zone_view(None),
                    art,
                },
            )
        };
        let home = if !self.did_home {
            self.did_home = true;
            Some(self.browse.home(clone_opt(&self.sel_id)))
        } else {
            None
        };
        ZoneOutcome { seek_only, selected: sel, refresh, home }
    }

    /// Handles a user command.
    pub fn on_command(&mut self, cmd: Cmd) -> (r: CmdOutcome)
        ensures
            final(self).zones == old(self).zones,
            final(self).did_home == old(self).did_home,
            ({
                let sel = selected_zone(old(self).zones@, opt_str(old(self).sel_id));
                match cmd {
                    Cmd::SelectZone(i) => if i < old(self).zones@.len() {
                        &&& opt_str(final(self).sel_id) == Some(old(self).zones@[i as int].zone_id@)
                        &&& final(self).browse == old(self).browse
                        &&& r matches CmdOutcome::Refresh(rf) && {
                            &&& rf.list.names@.map_values(|s: String| s@) == names_of(
                                old(self).zones@,
                            )
                            &&& rf.list.index == i as i32
                            &&& view_of(rf.view, Some(old(self).zones@[i as int]))
                            &&& art_for(rf.art, old(self).art.last, zone_image_key(old(self).zones@[i as int]))
                        }
                        &&& final(self).art.last == art_last_after(
                            old(self).art.last,
                            zone_image_key(old(self).zones@[i as int]),
                        )
                    } else {
                        r is Nothing && *final(self) == *old(self)
                    },
                    Cmd::PlayPause => *final(self) == *old(self) && control_of(
                        r,
                        sel,
                        ControlAction::PlayPause,
                    ),
                    Cmd::Next => *final(self) == *old(self) && control_of(
                        r,
                        sel,
                        ControlAction::Next,
                    ),
                    Cmd::Previous => *final(self) == *old(self) && control_of(
                        r,
                        sel,
                        ControlAction::Previous,
                    ),
                    Cmd::BrowseHome => {
                        &&& final(self).sel_id == old(self).sel_id
                        &&& final(self).art == old(self).art
                        &&& final(self).browse.hierarchy@ == "browse"@
                        &&& final(self).browse.count == old(self).browse.count
                        &&& final(self).browse.loaded == old(self).browse.loaded
                        &&& r matches CmdOutcome::Browse(b) && b.hierarchy@ == "browse"@
                            && b.pop_all == Some(true) && b.item_key is None && b.pop_levels is None
                            && b.input is None && b.zone_or_output_id == old(self).sel_id
                    },
                    Cmd::BrowseInto(key) => {
                        &&& *final(self) == *old(self)
                        &&& r matches CmdOutcome::Browse(b) && b.hierarchy@
                            == old(self).browse.hierarchy@ && b.item_key == Some(key)
                            && b.pop_all is None && b.pop_levels is None && b.input is None
                            && b.zone_or_output_id == old(self).sel_id
                    },
                    Cmd::BrowseBack => {
                        &&& *final(self) == *old(self)
                        &&& r matches CmdOutcome::Browse(b) && b.hierarchy@
                            == old(self).browse.hierarchy@ && b.pop_levels == Some(1u32)
                            && b.item_key is None && b.pop_all is None && b.input is None
                            && b.zone_or_output_id == old(self).sel_id
                    },
                    Cmd::Search(q) => {
                        &&& final(self).sel_id == old(self).sel_id
                        &&& final(self).art == old(self).art
                        &&& final(self).browse.hierarchy@ == "search"@
                        &&& final(self).browse.count == old(self).browse.count
                        &&& final(self).browse.loaded == old(self).browse.loaded
                        &&& r matches CmdOutcome::Browse(b) && b.hierarchy@ == "search"@
                            && b.input == Some(q) && b.pop_all == Some(true) && b.item_key is None
                            && b.pop_levels is None && b.zone_or_output_id == old(self).sel_id
                    },
                    Cmd::LoadMore => {
                        &&& *final(self) == *old(self)
                        &&& match old(self).browse.next_page_spec() {
                            Some(p) => r matches CmdOutcome::Load(l) && (l.hierarchy@, l.offset, l.count)
                                == p,
                            None => r is Nothing,
                        }
                    },
                }
            }),
    {
        match cmd {
            Cmd::SelectZone(i) => {
                if i < self.zones.len() {
                    self.sel_id = Some(self.zones[i].zone_id.clone());
                    CmdOutcome::Refresh(self.refresh_for(i))
                } else {
                    CmdOutcome::Nothing
                }
            },
            Cmd::PlayPause => self.control(ControlAction::PlayPause),
            Cmd::Next => self.control(ControlAction::Next),
            Cmd::Previous => self.control(ControlAction::Previous),
            Cmd::BrowseHome => {
                let zone = clone_opt(&self.sel_id);
                CmdOutcome::Browse(self.browse.home(zone))
            },
            Cmd::BrowseInto(key) => {
                CmdOutcome::Browse(self.browse.into_item(key, clone_opt(&self.sel_id)))
            },
            Cmd::BrowseBack => CmdOutcome::Browse(self.browse.back(clone_opt(&self.sel_id))),
            Cmd::Search(q) => {
                let zone = clone_opt(&self.sel_id);
                CmdOutcome::Browse(self.browse.search(q, zone))
            },
            Cmd::LoadMore => match self.browse.next_page() {
                Some(p) => CmdOutcome::Load(p),
                None => CmdOutcome::Nothing,
            },
        }
    }

    fn control(&self, action: ControlAction) -> (r: CmdOutcome)
        ensures
            control_of(r, selected_zone(self.zones@, opt_str(self.sel_id)), action),
    {
        match self.seek_target() {
            Some(zone_id) => CmdOutcome::Control { zone_id, action },
            None => CmdOutcome::Nothing,
        }
    }
}

/// `r` sends `action` to zone `sel`, or nothing when no zone is selected.
pub open spec fn control_of(r: CmdOutcome, sel: Option<ZoneInfo>, action: ControlAction) -> bool {
    match sel {
        Some(z) => r matches CmdOutcome::Control { zone_id, action: a } && zone_id@ == z.zone_id@
            && a == action,
        None => r is Nothing,
    }
}

/// The connection to the Core, as the UI shows it.
#[derive(Clone, Copy, Debug, PartialEq, Eq, Structural)]
pub enum LinkState {
    Starting,
    Discovering,
    Pairing,
    Retrying,
    Connected,
}

pub open spec fn link_text_spec(s: LinkState) -> Seq<char> {
    match s {
        LinkState::Starting => "starting"@,
        LinkState::Discovering => "discovering"@,
        LinkState::Pairing => "pairing"@,
        LinkState::Retrying => "retrying"@,
        LinkState::Connected => "connected"@,
    }
}

/// The connection state text the UI shows.
pub fn link_text(s: LinkState) -> (r: &'static str)
    ensures
        r@ == link_text_spec(s),
{
    match s {
        LinkState::Starting => "starting",
        LinkState::Discovering => "discovering",
        LinkState::Pairing => "pairing",
        LinkState::Retrying => "retrying",
        LinkState::Connected => "connected",
    }
}

/// What happened while connecting.
#[derive(Clone, Copy, Debug, PartialEq, Eq, Structural)]
pub enum LinkEvent {
    /// A discovery round begins.
    RoundStarted,
    /// The discovery scan found no Core.
    ScanEmpty,
    /// The scan found a Core; connecting (and, on first run, waiting for
    /// the user to enable the extension) begins.
    ScanFound,
    ConnectFailed,
    Connected,
    /// The Core connection dropped.
    SessionEnded,
}

/// The state to show after `ev`, and the seconds to wait before the next
/// discovery round (0: go on at once).
pub fn link_step(ev: LinkEvent) -> (r: (LinkState, u64))
    ensures
        r == match ev {
            LinkEvent::RoundStarted => (LinkState::Discovering, 0u64),
            LinkEvent::ScanEmpty => (LinkState::Discovering, 5u64),
            LinkEvent::ScanFound => (LinkState::Pairing, 0u64),
            LinkEvent::ConnectFailed => (LinkState::Retrying, 3u64),
            LinkEvent::Connected => (LinkState::Connected, 0u64),
            LinkEvent::SessionEnded => (LinkState::Discovering, 0u64),
        },
{
    match ev {
        LinkEvent::RoundStarted => (LinkState::Discovering, 0),
        LinkEvent::ScanEmpty => (LinkState::Discovering, 5),
        LinkEvent::ScanFound => (LinkState::Pairing, 0),
        LinkEvent::ConnectFailed => (LinkState::Retrying, 3),
        LinkEvent::Connected => (LinkState::Connected, 0),
        LinkEvent::SessionEnded => (LinkState::Discovering, 0),
    }
}

} // verus!
