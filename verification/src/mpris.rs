//! The MPRIS2 player: the selected zone mirrored for media keys and desktop
//! widgets, and what their requests become.
use vstd::prelude::*;
use crate::session::Cmd;
use crate::text::{cat, decimal, decimal_string, str_eq};

verus! {

/// The selected zone's state as the MPRIS player mirrors it (volume aside).
pub struct TrackState {
    pub title: String,
    pub artist: String,
    pub album: String,
    pub art_url: String,
    /// "Playing" | "Paused" | "Loading" | "Stopped".
    pub play_state: String,
    pub length_us: i64,
    pub position_us: i64,
    pub can_next: bool,
    pub can_previous: bool,
}

/// The mirrored state and the serial of the current track.
pub struct PlayerState {
    pub now: TrackState,
    pub track_serial: u64,
}

/// MPRIS playback status.
#[derive(Clone, Copy, Debug, PartialEq, Eq, Structural)]
pub enum PlaybackStatus {
    Playing,
    Paused,
    Stopped,
}

/// The metadata MPRIS publishes for the current track.
pub struct MetadataFields {
    pub trackid: String,
    pub title: Option<String>,
    pub artist: Option<String>,
    pub album: Option<String>,
    pub length_us: Option<i64>,
    pub art_url: Option<String>,
}

/// A property that changed and must be signalled.
pub enum PropertyChange {
    PlaybackStatus(PlaybackStatus),
    Metadata(MetadataFields),
    CanGoNext(bool),
    CanGoPrevious(bool),
}

/// Metadata, by the text of its fields.
pub struct MetaView {
    pub trackid: Seq<char>,
    pub title: Option<Seq<char>>,
    pub artist: Option<Seq<char>>,
    pub album: Option<Seq<char>>,
    pub length_us: Option<i64>,
    pub art_url: Option<Seq<char>>,
}

/// A property change, by the text of its fields.
pub enum ChangeView {
    Status(PlaybackStatus),
    Meta(MetaView),
    Next(bool),
    Previous(bool),
}

pub open spec fn opt_text(present: bool, s: Seq<char>) -> Option<Seq<char>> {
    if present {
        Some(s)
    } else {
        None
    }
}

pub open spec fn meta_view(m: MetadataFields) -> MetaView {
    MetaView {
        trackid: m.trackid@,
        title: crate::text::opt_str(m.title),
        artist: crate::text::opt_str(m.artist),
        album: crate::text::opt_str(m.album),
        length_us: m.length_us,
        art_url: crate::text::opt_str(m.art_url),
    }
}

pub open spec fn change_view(c: PropertyChange) -> ChangeView {
    match c {
        PropertyChange::PlaybackStatus(s) => ChangeView::Status(s),
        PropertyChange::Metadata(m) => ChangeView::Meta(meta_view(m)),
        PropertyChange::CanGoNext(b) => ChangeView::Next(b),
        PropertyChange::CanGoPrevious(b) => ChangeView::Previous(b),
    }
}

/// The D-Bus object path of track number `serial`.
pub open spec fn track_id_spec(serial: u64) -> Seq<char> {
    "/org/attacca/track/"@ + decimal(serial as nat)
}

/// The metadata of state `now` as track number `serial`: empty texts and a
/// non-positive length are left out.
pub open spec fn metadata_spec(now: TrackState, serial: u64) -> MetaView {
    MetaView {
        trackid: track_id_spec(serial),
        title: opt_text(now.title@.len() > 0, now.title@),
        artist: opt_text(now.artist@.len() > 0, now.artist@),
        album: opt_text(now.album@.len() > 0, now.album@),
        length_us: if now.length_us > 0 {
            Some(now.length_us)
        } else {
            None
        },
        art_url: opt_text(now.art_url@.len() > 0, now.art_url@),
    }
}

/// The metadata publishes every non-empty text of the track, and its length
/// when it has one; an empty text or a non-positive length is left out. The
/// track id names the track's serial.
pub proof fn law_metadata_carries_track(now: TrackState, serial: u64)
    ensures
        ({
            let m = metadata_spec(now, serial);
            &&& now.title@.len() > 0 ==> m.title == Some(now.title@)
            &&& now.title@.len() == 0 ==> m.title is None
            &&& now.artist@.len() > 0 ==> m.artist == Some(now.artist@)
            &&& now.artist@.len() == 0 ==> m.artist is None
            &&& now.album@.len() > 0 ==> m.album == Some(now.album@)
            &&& now.album@.len() == 0 ==> m.album is None
            &&& now.art_url@.len() > 0 ==> m.art_url == Some(now.art_url@)
            &&& now.art_url@.len() == 0 ==> m.art_url is None
            &&& now.length_us > 0 ==> m.length_us == Some(now.length_us)
            &&& now.length_us <= 0 ==> m.length_us is None
            &&& m.trackid == "/org/attacca/track/"@ + decimal(serial as nat)
        }),
{
}

/// Roon's play state as an MPRIS status: loading counts as paused.
pub open spec fn status_spec(state: Seq<char>) -> PlaybackStatus {
    if state == "Playing"@ {
        PlaybackStatus::Playing
    } else if state == "Paused"@ || state == "Loading"@ {
        PlaybackStatus::Paused
    } else {
        PlaybackStatus::Stopped
    }
}

pub fn playback_status(state: &str) -> (r: PlaybackStatus)
    ensures
        r == status_spec(state@),
{
    if str_eq(state, "Playing") {
        PlaybackStatus::Playing
    } else if str_eq(state, "Paused") || str_eq(state, "Loading") {
        PlaybackStatus::Paused
    } else {
        PlaybackStatus::Stopped
    }
}

/// The track identity: title, artist and album.
pub open spec fn same_track(a: TrackState, b: TrackState) -> bool {
    a.title@ == b.title@ && a.artist@ == b.artist@ && a.album@ == b.album@
}

/// `now` as it is stored over `old`: the artwork fetch may land before the
/// zone update, so an update without artwork for the same title keeps the
/// artwork already shown.
pub open spec fn effective_now(old: TrackState, now: TrackState) -> TrackState {
    if now.art_url@.len() == 0 && now.title@ == old.title@ {
        TrackState { art_url: old.art_url, ..now }
    } else {
        now
    }
}

/// The changes to signal when the stored state goes from `old` to `new`,
/// the new state being track number `serial`.
pub open spec fn changes_spec(old: TrackState, new: TrackState, serial: u64) -> Seq<ChangeView> {
    let a = if new.play_state@ != old.play_state@ {
        seq![ChangeView::Status(status_spec(new.play_state@))]
    } else {
        Seq::empty()
    };
    let b = if !same_track(old, new) || new.art_url@ != old.art_url@ || new.length_us
        != old.length_us {
        seq![ChangeView::Meta(metadata_spec(new, serial))]
    } else {
        Seq::empty()
    };
    let c = if new.can_next != old.can_next {
        seq![ChangeView::Next(new.can_next)]
    } else {
        Seq::empty()
    };
    let d = if new.can_previous != old.can_previous {
        seq![ChangeView::Previous(new.can_previous)]
    } else {
        Seq::empty()
    };
    a + b + c + d
}

fn nonempty(s: &String) -> (r: Option<String>)
    ensures
        crate::text::opt_str(r) == opt_text(s@.len() > 0, s@),
{
    if s.as_str().unicode_len() > 0 {
        Some(s.clone())
    } else {
        None
    }
}

fn string_eq(a: &String, b: &String) -> (r: bool)
    ensures
        r == (a@ == b@),
{
    *a == *b
}

fn push_if(props: &mut Vec<PropertyChange>, cond: bool, c: PropertyChange)
    ensures
        final(props)@.map_values(|c: PropertyChange| change_view(c)) == old(props)@.map_values(
            |c: PropertyChange| change_view(c),
        ) + if cond {
            seq![change_view(c)]
        } else {
            Seq::empty()
        },
{
    let ghost before = props@;
    if cond {
        props.push(c);
        assert(props@.map_values(|c: PropertyChange| change_view(c)) =~= before.map_values(
            |c: PropertyChange| change_view(c),
        ) + seq![change_view(c)]);
    } else {
        assert(props@.map_values(|c: PropertyChange| change_view(c)) =~= before.map_values(
            |c: PropertyChange| change_view(c),
        ) + Seq::empty());
    }
}

impl PlayerState {
    pub fn new() -> (r: PlayerState)
        ensures
            r.track_serial == 0,
            r.now.title@.len() == 0 && r.now.artist@.len() == 0 && r.now.album@.len() == 0,
            r.now.art_url@.len() == 0 && r.now.play_state@.len() == 0,
            r.now.length_us == 0 && r.now.position_us == 0,
            !r.now.can_next && !r.now.can_previous,
    {
        PlayerState {
            now: TrackState {
                title: String::new(),
                artist: String::new(),
                album: String::new(),
                art_url: String::new(),
                play_state: String::new(),
                length_us: 0,
                position_us: 0,
                can_next: false,
                can_previous: false,
            },
            track_serial: 0,
        }
    }

    /// The metadata of the current track.
    pub fn metadata(&self) -> (r: MetadataFields)
        ensures
            meta_view(r) == metadata_spec(self.now, self.track_serial),
    {
        let d = decimal_string(self.track_serial);
        let trackid = cat("/org/attacca/track/", d.as_str());
        MetadataFields {
            trackid,
            title: nonempty(&self.now.title),
            artist: nonempty(&self.now.artist),
            album: nonempty(&self.now.album),
            length_us: if self.now.length_us > 0 {
                Some(self.now.length_us)
            } else {
                None
            },
            art_url: nonempty(&self.now.art_url),
        }
    }

    /// Replaces the mirrored state; a new track (title, artist or album
    /// differ) gets the next serial. Returns the property changes to signal,
    /// in the order status, metadata, can-go-next, can-go-previous.
    pub fn replace(&mut self, now: TrackState) -> (r: Vec<PropertyChange>)
        requires
            old(self).track_serial < u64::MAX,
        ensures
            final(self).now == effective_now(old(self).now, now),
            final(self).track_serial == if same_track(old(self).now, now) {
                old(self).track_serial
            } else {
                (old(self).track_serial + 1) as u64
            },
            r@.map_values(|c: PropertyChange| change_view(c)) == changes_spec(
                old(self).now,
                final(self).now,
                final(self).track_serial,
            ),
    {
        let mut now = now;
        if now.art_url.as_str().unicode_len() == 0 && string_eq(&now.title, &self.now.title) {
            now.art_url = self.now.art_url.clone();
        }
        let same = string_eq(&now.title, &self.now.title) && string_eq(&now.artist, &self.now.artist)
            && string_eq(&now.album, &self.now.album);
        if !same {
            self.track_serial = self.track_serial + 1;
        }
        let status_changed = !string_eq(&now.play_state, &self.now.play_state);
        let meta_changed = !same || !string_eq(&now.art_url, &self.now.art_url) || now.length_us
            != self.now.length_us;
        let next_changed = now.can_next != self.now.can_next;
        let prev_changed = now.can_previous != self.now.can_previous;
        self.now = now;
        let mut props: Vec<PropertyChange> = Vec::new();
        let status = playback_status(self.now.play_state.as_str());
        push_if(&mut props, status_changed, PropertyChange::PlaybackStatus(status));
        if meta_changed {
            let m = self.metadata();
            push_if(&mut props, true, PropertyChange::Metadata(m));
        }
        push_if(&mut props, next_changed, PropertyChange::CanGoNext(self.now.can_next));
        push_if(&mut props, prev_changed, PropertyChange::CanGoPrevious(self.now.can_previous));
        props
    }

    /// Late artwork: the image fetched for the current track arrived. The
    /// new metadata to signal, none when the artwork did not change.
    pub fn update_art(&mut self, art_url: String) -> (r: Option<MetadataFields>)
        ensures
            old(self).now.art_url@ == art_url@ ==> r is None && *final(self) == *old(self),
            old(self).now.art_url@ != art_url@ ==> final(self).now == (TrackState {
                art_url,
                ..old(self).now
            }) && final(self).track_serial == old(self).track_serial && (r matches Some(m)
                && meta_view(m) == metadata_spec(final(self).now, final(self).track_serial)),
    {
        if string_eq(&self.now.art_url, &art_url) {
            return None;
        }
        self.now.art_url = art_url;
        Some(self.metadata())
    }

    /// Position-only refresh: MPRIS clients poll the position.
    pub fn update_position(&mut self, position_us: i64)
        ensures
            final(self).now == (TrackState { position_us, ..old(self).now }),
            final(self).track_serial == old(self).track_serial,
    {
        self.now.position_us = position_us;
    }

    /// The MPRIS status of the mirrored zone.
    pub fn status(&self) -> (r: PlaybackStatus)
        ensures
            r == status_spec(self.now.play_state@),
    {
        playback_status(self.now.play_state.as_str())
    }

    /// Pause: toggles only a zone that is playing.
    pub fn pause(&self) -> (r: Option<Cmd>)
        ensures
            self.now.play_state@ == "Playing"@ ==> r matches Some(Cmd::PlayPause),
            self.now.play_state@ != "Playing"@ ==> r is None,
    {
        if str_eq(self.now.play_state.as_str(), "Playing") {
            Some(Cmd::PlayPause)
        } else {
            None
        }
    }

    /// Stop: Roon zones pause rather than stop, so it is a pause.
    pub fn stop(&self) -> (r: Option<Cmd>)
        ensures
            self.now.play_state@ == "Playing"@ ==> r matches Some(Cmd::PlayPause),
            self.now.play_state@ != "Playing"@ ==> r is None,
    {
        self.pause()
    }

    /// Play: toggles only a zone that is not playing.
    pub fn play(&self) -> (r: Option<Cmd>)
        ensures
            self.now.play_state@ != "Playing"@ ==> r matches Some(Cmd::PlayPause),
            self.now.play_state@ == "Playing"@ ==> r is None,
    {
        if str_eq(self.now.play_state.as_str(), "Playing") {
            None
        } else {
            Some(Cmd::PlayPause)
        }
    }

    /// A relative seek by `offset_us`: the target position, never before the start.
    pub fn seek_target_us(&self, offset_us: i64) -> (r: i64)
        requires
            i64::MIN <= self.now.position_us + offset_us <= i64::MAX,
        ensures
            r == if self.now.position_us + offset_us > 0 {
                self.now.position_us + offset_us
            } else {
                0
            },
    {
        let t = self.now.position_us + offset_us;
        if t > 0 {
            t
        } else {
            0
        }
    }

    /// Seeking is offered while the track has a length.
    pub fn can_seek(&self) -> (r: bool)
        ensures
            r == (self.now.length_us > 0),
    {
        self.now.length_us > 0
    }
}

/// An absolute seek target, never before the start.
pub fn position_target_us(position_us: i64) -> (r: i64)
    ensures
        r == if position_us > 0 {
            position_us
        } else {
            0
        },
{
    if position_us > 0 {
        position_us
    } else {
        0
    }
}

/// Storing the same update twice signals nothing the second time, and the
/// track keeps its serial.
pub proof fn law_replace_idempotent(old: TrackState, now: TrackState, serial: u64)
    ensures
        ({
            let stored = effective_now(old, now);
            &&& effective_now(stored, now) == stored
            &&& same_track(stored, now)
            &&& changes_spec(stored, effective_now(stored, now), serial).len() == 0
        }),
{
    let stored = effective_now(old, now);
    assert(changes_spec(stored, stored, serial) =~= Seq::<ChangeView>::empty());
}

} // verus!
