//! The debug CLI's decisions and output lines: discovery sweeps, pairing
//! progress, the zone watch, and the play/pause toggle.
use vstd::prelude::*;
use crate::text::{
    cat, debug_quoted, debug_quoted_spec, decimal, decimal_string, has_substring, lowercase,
    owned, str_contains, to_lowercase,
};
use crate::zones::{PlayState, ZoneEvent, ZoneInfo, play_state_name, play_state_name_spec};

verus! {

/// Cores already reported by a discovery sweep.
pub struct CoreSightings {
    pub seen: Vec<String>,
}

impl CoreSightings {
    pub fn new() -> (r: CoreSightings)
        ensures
            r.seen@.len() == 0,
    {
        CoreSightings { seen: Vec::new() }
    }

    /// The ids of the Cores reported so far, in order.
    pub open spec fn seen_ids(&self) -> Seq<Seq<char>> {
        self.seen@.map_values(|s: String| s@)
    }

    /// A response from Core `core_id` arrived: true when it is the first
    /// from that Core, which is then remembered.
    pub fn observe(&mut self, core_id: &String) -> (r: bool)
        ensures
            r == !old(self).seen_ids().contains(core_id@),
            final(self).seen_ids() == if r {
                old(self).seen_ids().push(core_id@)
            } else {
                old(self).seen_ids()
            },
            final(self).seen_ids().contains(core_id@),
    {
        let ghost ids = self.seen_ids();
        let mut i: usize = 0;
        while i < self.seen.len()
            invariant
                i <= self.seen@.len(),
                ids == self.seen@.map_values(|s: String| s@),
                forall|k: int| 0 <= k < i ==> #[trigger] self.seen@[k]@ != core_id@,
            decreases self.seen.len() - i,
        {
            if self.seen[i] == *core_id {
                assert(ids[i as int] == core_id@);
                return false;
            }
            i = i + 1;
        }
        assert(!ids.contains(core_id@)) by {
            if ids.contains(core_id@) {
                let k = choose|k: int| 0 <= k < ids.len() && ids[k] == core_id@;
                assert(self.seen@[k]@ == core_id@);
            }
        }
        self.seen.push(core_id.clone());
        assert(self.seen@.map_values(|s: String| s@) =~= ids.push(core_id@));
        assert(ids.push(core_id@)[ids.len() as int] == core_id@);
        true
    }

    /// Nothing answered the sweep.
    pub fn is_empty(&self) -> (r: bool)
        ensures
            r == (self.seen_ids().len() == 0),
    {
        self.seen.len() == 0
    }
}

/// `s`, or "?" when absent.
pub open spec fn or_question(s: Option<Seq<char>>) -> Seq<char> {
    match s {
        Some(t) => t,
        None => "?"@,
    }
}

/// One Core found by a sweep: `  core "<name>"  <host>:<port>  version: <version>  id: <id>`.
pub fn core_line(name: Option<String>, host: &str, port: u16, version: Option<String>, id: &str) -> (r:
    String)
    ensures
        r@ == "  core \""@ + or_question(crate::text::opt_str(name)) + "\"  "@ + host@ + ":"@
            + decimal(port as nat) + "  version: "@ + or_question(crate::text::opt_str(version))
            + "  id: "@ + id@,
{
    let name = match name {
        Some(n) => n,
        None => owned("?"),
    };
    let version = match version {
        Some(v) => v,
        None => owned("?"),
    };
    let mut t = cat("  core \"", name.as_str());
    t.append("\"  ");
    t.append(host);
    t.append(":");
    let p = decimal_string(port as u64);
    t.append(p.as_str());
    t.append("  version: ");
    t.append(version.as_str());
    t.append("  id: ");
    t.append(id);
    t
}

/// A zone name matches a filter when the filter, lower-cased, occurs in the
/// lower-cased name.
pub open spec fn name_matches(name: Seq<char>, filter: Seq<char>) -> bool {
    has_substring(lowercase(name), lowercase(filter))
}

/// The zone the toggle command acts on: the first whose name matches the
/// filter, or the first zone when there is no filter.
pub fn find_toggle_zone(names: &Vec<String>, filter: &Option<String>) -> (r: Option<usize>)
    ensures
        filter is None ==> r == if names@.len() > 0 {
            Some(0usize)
        } else {
            None
        },
        filter is Some ==> match r {
            Some(i) => i < names@.len() && name_matches(names@[i as int]@, filter->0@) && forall|
                k: int,
            | 0 <= k < i ==> !name_matches(#[trigger] names@[k]@, filter->0@),
            None => forall|k: int|
                0 <= k < names@.len() ==> !name_matches(#[trigger] names@[k]@, filter->0@),
        },
{
    match filter.as_ref() {
        None => if names.len() > 0 {
            Some(0)
        } else {
            None
        },
        Some(f) => {
            let lf = to_lowercase(f.as_str());
            let mut i: usize = 0;
            while i < names.len()
                invariant
                    i <= names@.len(),
                    lf@ == lowercase(f@),
                    filter is Some,
                    filter->0@ == f@,
                    forall|k: int| 0 <= k < i ==> !name_matches(#[trigger] names@[k]@, f@),
                decreases names.len() - i,
            {
                let ln = to_lowercase(names[i].as_str());
                if str_contains(ln.as_str(), lf.as_str()) {
                    return Some(i);
                }
                i = i + 1;
            }
            None
        },
    }
}

/// The error when no zone matches: `no zone matching <filter:?>`.
pub fn no_zone_message(filter: &Option<String>) -> (r: String)
    ensures
        r@ == "no zone matching "@ + match *filter {
            Some(f) => "Some("@ + debug_quoted_spec(f@) + ")"@,
            None => "None"@,
        },
{
    let mut t = owned("no zone matching ");
    match filter {
        Some(f) => {
            let q = debug_quoted(f.as_str());
            t.append("Some(");
            t.append(q.as_str());
            t.append(")");
        },
        None => {
            t.append("None");
        },
    }
    t
}

/// What the toggle command prints before acting: `PlayPause → "<name>" (was <state>)`.
pub fn toggle_line(name: &str, state: PlayState) -> (r: String)
    ensures
        r@ == "PlayPause → \""@ + name@ + "\" (was "@ + play_state_name_spec(state) + ")"@,
{
    let mut t = cat("PlayPause → \"", name);
    t.append("\" (was ");
    t.append(play_state_name(state));
    t.append(")");
    t
}

/// The header of a zone in the watch: `  <name>  [<state>]`.
pub fn zone_header(name: &str, state: PlayState) -> (r: String)
    ensures
        r@ == "  "@ + name@ + "  ["@ + play_state_name_spec(state) + "]"@,
{
    let mut t = cat("  ", name);
    t.append("  [");
    t.append(play_state_name(state));
    t.append("]");
    t
}

/// A changed zone in the watch: `[<name>] <state>  <now playing or –>`.
pub fn changed_line(name: &str, state: PlayState, now_playing: Option<&str>) -> (r: String)
    ensures
        r@ == "["@ + name@ + "] "@ + play_state_name_spec(state) + "  "@ + match now_playing {
            Some(n) => n@,
            None => "–"@,
        },
{
    let mut t = cat("[", name);
    t.append("] ");
    t.append(play_state_name(state));
    t.append("  ");
    match now_playing {
        Some(n) => t.append(n),
        None => t.append("–"),
    }
    t
}

/// The count line of the first zone list: `── <n> zone(s) ──`.
pub fn zone_count_line(n: usize) -> (r: String)
    ensures
        r@ == "── "@ + decimal(n as nat) + " zone(s) ──"@,
{
    let d = decimal_string(n as u64);
    let mut t = cat("── ", d.as_str());
    t.append(" zone(s) ──");
    t
}

/// An event of discovery and pairing.
pub enum PairingEvent {
    CoreFound { core_id: String, display_name: String },
    CorePaired { display_name: String },
    CoreUnpaired { core_id: String },
    CoreLost { core_id: String },
}

/// The line the CLI prints for a pairing event, and whether pairing is
/// done (the command then runs against the paired Core).
pub fn pairing_step(ev: &PairingEvent) -> (r: (String, bool))
    ensures
        r.1 == (*ev is CorePaired),
        r.0@ == match *ev {
            PairingEvent::CoreFound { core_id, display_name } => "  found core \""@ + display_name@
                + "\" ("@ + core_id@ + ") — registering…"@,
            PairingEvent::CorePaired { display_name } => "  paired with \""@ + display_name@ + "\""@,
            PairingEvent::CoreUnpaired { core_id } => "  unpaired from "@ + core_id@,
            PairingEvent::CoreLost { core_id } => "  lost core "@ + core_id@,
        },
{
    match ev {
        PairingEvent::CoreFound { core_id, display_name } => {
            let mut t = cat("  found core \"", display_name.as_str());
            t.append("\" (");
            t.append(core_id.as_str());
            t.append(") — registering…");
            (t, false)
        },
        PairingEvent::CorePaired { display_name } => {
            let mut t = cat("  paired with \"", display_name.as_str());
            t.append("\"");
            (t, true)
        },
        PairingEvent::CoreUnpaired { core_id } => (
            cat("  unpaired from ", core_id.as_str()),
            false,
        ),
        PairingEvent::CoreLost { core_id } => (cat("  lost core ", core_id.as_str()), false),
    }
}

/// A line of the zone watch.
pub enum WatchLine {
    /// A line of text.
    Text(String),
    /// The detail block of the zone at this index of the event's zone list
    /// (header, outputs with their volumes, now playing).
    ZoneDetail(usize),
}

/// The line of a changed zone.
pub open spec fn changed_line_spec(z: ZoneInfo) -> Seq<char> {
    "["@ + z.display_name@ + "] "@ + play_state_name_spec(z.state) + "  "@ + match z.now_playing {
        Some(np) => np.one_line@,
        None => "–"@,
    }
}

/// `l` is the detail block of zone `i`.
pub open spec fn is_detail(l: WatchLine, i: int) -> bool {
    l matches WatchLine::ZoneDetail(k) && k == i
}

/// `l` is the text line `t`.
pub open spec fn is_text(l: WatchLine, t: Seq<char>) -> bool {
    l matches WatchLine::Text(s) && s@ == t
}

/// What the zone watch prints for a zone event: the zone count and every
/// zone's details for the first list, the details of added zones, one line
/// per changed zone, one line per removed zone id, and nothing for a seek.
pub fn event_lines(ev: &ZoneEvent) -> (r: Vec<WatchLine>)
    ensures
        match *ev {
            ZoneEvent::Initial(v) => {
                &&& r@.len() == v@.len() + 1
                &&& is_text(r@[0], "── "@ + decimal(v@.len() as nat) + " zone(s) ──"@)
                &&& forall|i: int| 0 <= i < v@.len() ==> is_detail(#[trigger] r@[i + 1], i)
            },
            ZoneEvent::Added(v) => {
                &&& r@.len() == v@.len()
                &&& forall|i: int| 0 <= i < v@.len() ==> is_detail(#[trigger] r@[i], i)
            },
            ZoneEvent::Changed(v) => {
                &&& r@.len() == v@.len()
                &&& forall|i: int|
                    0 <= i < v@.len() ==> is_text(#[trigger] r@[i], changed_line_spec(v@[i]))
            },
            ZoneEvent::Removed(ids) => {
                &&& r@.len() == ids@.len()
                &&& forall|i: int|
                    0 <= i < ids@.len() ==> is_text(#[trigger] r@[i], "[removed] "@ + ids@[i]@)
            },
            ZoneEvent::Seeked(_) => r@.len() == 0,
        },
{
    let mut out: Vec<WatchLine> = Vec::new();
    match ev {
        ZoneEvent::Initial(v) => {
            out.push(WatchLine::Text(zone_count_line(v.len())));
            let mut i: usize = 0;
            while i < v.len()
                invariant
                    i <= v@.len(),
                    out@.len() == i + 1,
                    is_text(out@[0], "── "@ + decimal(v@.len() as nat) + " zone(s) ──"@),
                    forall|k: int| 0 <= k < i ==> is_detail(#[trigger] out@[k + 1], k),
                decreases v.len() - i,
            {
                out.push(WatchLine::ZoneDetail(i));
                assert(is_detail(out@[i + 1], i as int));
                i = i + 1;
            }
        },
        ZoneEvent::Added(v) => {
            let mut i: usize = 0;
            while i < v.len()
                invariant
                    i <= v@.len(),
                    out@.len() == i,
                    forall|k: int| 0 <= k < i ==> is_detail(#[trigger] out@[k], k),
                decreases v.len() - i,
            {
                out.push(WatchLine::ZoneDetail(i));
                i = i + 1;
            }
        },
        ZoneEvent::Changed(v) => {
            let mut i: usize = 0;
            while i < v.len()
                invariant
                    i <= v@.len(),
                    out@.len() == i,
                    forall|k: int| 0 <= k < i ==> is_text(#[trigger] out@[k], changed_line_spec(v@[k])),
                decreases v.len() - i,
            {
                let z = &v[i];
                let np: Option<&str> = match &z.now_playing {
                    Some(n) => Some(n.one_line.as_str()),
                    None => None,
                };
                out.push(WatchLine::Text(changed_line(z.display_name.as_str(), z.state, np)));
                i = i + 1;
            }
        },
        ZoneEvent::Removed(ids) => {
            let mut i: usize = 0;
            while i < ids.len()
                invariant
                    i <= ids@.len(),
                    out@.len() == i,
                    forall|k: int| 0 <= k < i ==> is_text(#[trigger] out@[k], "[removed] "@ + ids@[k]@),
                decreases ids.len() - i,
            {
                out.push(WatchLine::Text(cat("[removed] ", ids[i].as_str())));
                i = i + 1;
            }
        },
        ZoneEvent::Seeked(_) => {},
    }
    out
}

} // verus!
