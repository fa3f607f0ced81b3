use vstd::prelude::*;
use crate::status::{
    check_next, check_result, load_done, swap_fits, trigger_next, trigger_result, CheckAction, DbStatus,
    StatusCell, Transition,
};

verus! {

/// Where a load runs.
#[derive(PartialEq, Eq, Structural, Clone, Copy, Debug)]
pub enum ReloadMode {
    /// On the calling thread, before the call returns.
    InPlace,
    /// On a thread of its own; the caller returns at once.
    Background,
}

/// With no reload interval a database is loaded once, on the thread that asks
/// for it; with one, every load runs in the background.
pub open spec fn reload_mode_for(interval: u64) -> ReloadMode {
    if interval == 0 {
        ReloadMode::InPlace
    } else {
        ReloadMode::Background
    }
}

/// The message that reports a failed load of the database at `path`.
pub open spec fn load_error_text(path: Seq<char>, err: Seq<char>) -> Seq<char> {
    "Error loading database '"@ + path + "': "@ + err
}

/// The lifecycle of one database: its configuration and its status word.
/// The snapshot itself is held beside it by whoever opens the files.
pub struct DatabaseHandle {
    status: StatusCell,
    path: Option<String>,
    reload_interval: u64,
}

impl DatabaseHandle {
    /// The configured path, if `configure` has been called.
    pub closed spec fn path_view(&self) -> Option<Seq<char>> {
        match self.path {
            Some(p) => Some(p@),
            None => None,
        }
    }

    pub closed spec fn interval_view(&self) -> u64 {
        self.reload_interval
    }

    /// Whether two handles share the same status word, untouched.
    pub closed spec fn same_status(&self, other: &DatabaseHandle) -> bool {
        self.status == other.status
    }

    pub open spec fn is_configured(&self) -> bool {
        self.path_view() is Some
    }

    /// A handle with no path, no reload interval and status `New`.
    pub fn new() -> (r: DatabaseHandle)
        ensures
            r.path_view() is None,
            r.interval_view() == 0,
    {
        DatabaseHandle { status: StatusCell::new(), path: None, reload_interval: 0 }
    }

    /// Sets the database's path and reload interval, before any lookup. The
    /// status word is left as it was: configuring starts no load.
    pub fn configure(&mut self, path: String, reload_interval: u64)
        ensures
            final(self).path_view() == Some(path@),
            final(self).interval_view() == reload_interval,
            final(self).same_status(old(self)),
    {
        self.path = Some(path);
        self.reload_interval = reload_interval;
    }

    /// The configured path. Asking before `configure` is a programming error.
    pub fn path(&self) -> (r: &String)
        requires
            self.is_configured(),
        ensures
            self.path_view() == Some(r@),
    {
        match &self.path {
            Some(p) => p,
            None => {
                proof {
                    assert(false);
                }
                unreached()
            },
        }
    }

    pub fn reload_interval(&self) -> (r: u64)
        ensures
            r == self.interval_view(),
    {
        self.reload_interval
    }

    /// Where this database's loads run.
    pub fn reload_mode(&self) -> (r: ReloadMode)
        ensures
            r == reload_mode_for(self.interval_view()),
    {
        if self.reload_interval == 0 {
            ReloadMode::InPlace
        } else {
            ReloadMode::Background
        }
    }

    /// The status check made on every lookup; never blocks.
    pub fn check_status(&self) -> (r: Option<Transition>)
        ensures
            exists|first: Result<u8, u8>, second: Option<Result<u8, u8>>|
                #![trigger check_result(first, second)]
                swap_fits(first, DbStatus::New.code())
                && (second is Some <==> first == Err::<u8, u8>(DbStatus::ErrorNew.code()))
                && (second matches Some(s) ==> swap_fits(s, DbStatus::ErrorNew.code()))
                && r == check_result(first, second),
            match r {
                Some(t) => (t.to, t.action) == check_next(t.from) && t.action != CheckAction::Nothing,
                None => true,
            },
    {
        self.status.check_status()
    }

    /// The periodic reload trigger; a no-op unless the database is loaded or
    /// its failure has been reported.
    pub fn trigger_reload(&self) -> (r: Option<DbStatus>)
        ensures
            exists|first: Result<u8, u8>, second: Option<Result<u8, u8>>|
                #![trigger trigger_result(first, second)]
                swap_fits(first, DbStatus::Loaded.code())
                && (second is Some <==> first is Err)
                && (second matches Some(s) ==> swap_fits(s, DbStatus::Error.code()))
                && r == trigger_result(first, second),
            match r {
                Some(s) => trigger_next(s) == (DbStatus::Loading, true),
                None => true,
            },
    {
        self.status.trigger_reload()
    }

    /// Records the end of the load in flight; returns the status it stored.
    pub fn finish_load(&self, ok: bool) -> (r: DbStatus)
        ensures
            r == load_done(ok),
    {
        self.status.finish_load(ok)
    }

    /// The message that reports a failed load of this database.
    pub fn load_error_message(&self, err: &str) -> (r: String)
        requires
            self.is_configured(),
        ensures
            r@ == load_error_text(self.path_view().unwrap(), err@),
    {
        let mut msg: String = String::from_str("Error loading database '");
        msg.append(self.path().as_str());
        msg.append("': ");
        msg.append(err);
        msg
    }
}

} // verus!
