//! The UI-facing object: user actions become commands for the worker, once
//! the worker runs. It holds no protocol logic.
use vstd::prelude::*;
use crate::session::Cmd;
use crate::text::{trim, trim_spec};

verus! {

/// The UI object's command side.
pub struct App {
    /// The worker was started and takes commands.
    pub started: bool,
}

/// `r` is `cmd` when the worker runs, else nothing (the action is dropped).
pub open spec fn sent(app: App, r: Option<Cmd>, cmd: Cmd) -> bool {
    if app.started {
        r == Some(cmd)
    } else {
        r is None
    }
}

impl App {
    pub fn new() -> (r: App)
        ensures
            !r.started,
    {
        App { started: false }
    }

    /// Starts the worker; idempotent. True when the worker must be spawned now.
    pub fn start(&mut self) -> (r: bool)
        ensures
            r == !old(self).started,
            final(self).started,
    {
        if self.started {
            return false;
        }
        self.started = true;
        true
    }

    fn send(&self, cmd: Cmd) -> (r: Option<Cmd>)
        ensures
            sent(*self, r, cmd),
    {
        if self.started {
            Some(cmd)
        } else {
            None
        }
    }

    /// Select the zone at `index` of the zone list; a negative index (no
    /// selection) sends nothing.
    pub fn select_zone(&self, index: i32) -> (r: Option<Cmd>)
        ensures
            index >= 0 ==> sent(*self, r, Cmd::SelectZone(index as usize)),
            index < 0 ==> r is None,
    {
        if index >= 0 {
            self.send(Cmd::SelectZone(index as usize))
        } else {
            None
        }
    }

    pub fn play_pause(&self) -> (r: Option<Cmd>)
        ensures
            sent(*self, r, Cmd::PlayPause),
    {
        self.send(Cmd::PlayPause)
    }

    pub fn next(&self) -> (r: Option<Cmd>)
        ensures
            sent(*self, r, Cmd::Next),
    {
        self.send(Cmd::Next)
    }

    pub fn previous(&self) -> (r: Option<Cmd>)
        ensures
            sent(*self, r, Cmd::Previous),
    {
        self.send(Cmd::Previous)
    }

    pub fn browse_home(&self) -> (r: Option<Cmd>)
        ensures
            sent(*self, r, Cmd::BrowseHome),
    {
        self.send(Cmd::BrowseHome)
    }

    pub fn browse_into(&self, item_key: String) -> (r: Option<Cmd>)
        ensures
            sent(*self, r, Cmd::BrowseInto(item_key)),
    {
        self.send(Cmd::BrowseInto(item_key))
    }

    pub fn browse_back(&self) -> (r: Option<Cmd>)
        ensures
            sent(*self, r, Cmd::BrowseBack),
    {
        self.send(Cmd::BrowseBack)
    }

    /// Search for `text`; blank text searches nothing.
    pub fn search(&self, text: String) -> (r: Option<Cmd>)
        ensures
            trim_spec(text@).len() > 0 ==> sent(*self, r, Cmd::Search(text)),
            trim_spec(text@).len() == 0 ==> r is None,
    {
        let t = trim(text.as_str());
        if t.as_str().unicode_len() > 0 {
            self.send(Cmd::Search(text))
        } else {
            None
        }
    }

    pub fn load_more(&self) -> (r: Option<Cmd>)
        ensures
            sent(*self, r, Cmd::LoadMore),
    {
        self.send(Cmd::LoadMore)
    }
}

} // verus!
