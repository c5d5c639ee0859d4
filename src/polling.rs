//! Recurring fetches tied to the lifetime of a view. A poller is keyed by the
//! workload id: mounting fetches at once and schedules a timer; every tick of
//! the current timer fetches again; unmounting, or mounting with another id,
//! cancels the timer, and a tick of a cancelled timer fetches nothing.

use vstd::prelude::*;
use crate::text::concat;

verus! {

/// Period of the run-state poll, in milliseconds.
pub const STATUS_POLL_INTERVAL_MS: u32 = 5000;

/// Period of the resource-usage poll, in milliseconds.
pub const METRICS_POLL_INTERVAL_MS: u32 = 3000;

/// What the runtime is asked to do for a poller.
#[derive(PartialEq, Eq, Structural, Clone, Copy, Debug)]
pub enum PollCommand {
    /// Fetch the resource of this workload now.
    Fetch { id: i32 },
    /// Start a recurring timer under this handle.
    Schedule { timer: u64, period_ms: u32 },
    /// Cancel the timer under this handle.
    Cancel { timer: u64 },
}

/// The handle that follows `t`; it always differs from `t`.
pub open spec fn next_handle(t: u64) -> u64 {
    if t == u64::MAX {
        0
    } else {
        (t + 1) as u64
    }
}

#[derive(PartialEq, Eq, Structural, Clone, Copy, Debug)]
pub struct Poller {
    period_ms: u32,
    mounted: Option<i32>,
    timer: u64,
}

impl Poller {
    pub closed spec fn period(self) -> u32 {
        self.period_ms
    }

    /// The id the poller is mounted for, if any.
    pub closed spec fn key(self) -> Option<i32> {
        self.mounted
    }

    /// The handle of the live timer (meaningful while mounted).
    pub closed spec fn timer_handle(self) -> u64 {
        self.timer
    }

    pub closed spec fn with(self, mounted: Option<i32>, timer: u64) -> Poller {
        Poller { period_ms: self.period_ms, mounted, timer }
    }

    /// State and commands after mounting for `id`.
    pub open spec fn after_mount(self, id: i32) -> (Poller, Seq<PollCommand>) {
        if self.key() == Some(id) {
            (self, Seq::empty())
        } else {
            let t = next_handle(self.timer_handle());
            let start = seq![
                PollCommand::Fetch { id },
                PollCommand::Schedule { timer: t, period_ms: self.period() },
            ];
            (
                self.with(Some(id), t),
                if self.key() is Some {
                    seq![PollCommand::Cancel { timer: self.timer_handle() }] + start
                } else {
                    start
                },
            )
        }
    }

    /// The fetch that a tick of `timer` calls for.
    pub open spec fn on_tick(self, timer: u64) -> Option<i32> {
        if self.key() is Some && timer == self.timer_handle() {
            self.key()
        } else {
            None
        }
    }

    /// State and command after unmounting.
    pub open spec fn after_unmount(self) -> (Poller, Option<PollCommand>) {
        if self.key() is Some {
            (self.with(None, self.timer_handle()), Some(PollCommand::Cancel { timer: self.timer_handle() }))
        } else {
            (self, None)
        }
    }

    /// A poller with the given period, mounted for nothing yet.
    pub fn new(period_ms: u32) -> (r: Poller)
        ensures
            r.period() == period_ms,
            r.key() is None,
    {
        Poller { period_ms, mounted: None, timer: 0 }
    }

    /// Mounts the poller for workload `id`; mounting again for the same id
    /// changes nothing.
    pub fn mount(&mut self, id: i32) -> (r: Vec<PollCommand>)
        ensures
            (*final(self), r@) == old(self).after_mount(id),
    {
        let mut r: Vec<PollCommand> = Vec::new();
        if self.mounted == Some(id) {
            assert(r@ =~= Seq::<PollCommand>::empty());
            return r;
        }
        if self.mounted.is_some() {
            r.push(PollCommand::Cancel { timer: self.timer });
        }
        let t: u64 = if self.timer == u64::MAX {
            0
        } else {
            self.timer + 1
        };
        self.mounted = Some(id);
        self.timer = t;
        r.push(PollCommand::Fetch { id });
        r.push(PollCommand::Schedule { timer: t, period_ms: self.period_ms });
        assert(r@ =~= old(self).after_mount(id).1);
        r
    }

    /// A tick of timer `timer`: the workload to fetch, if the timer is live.
    pub fn tick(&self, timer: u64) -> (r: Option<i32>)
        ensures
            r == self.on_tick(timer),
    {
        match self.mounted {
            Some(id) => if timer == self.timer {
                Some(id)
            } else {
                None
            },
            None => None,
        }
    }

    /// Tears the poller down, cancelling its timer.
    pub fn unmount(&mut self) -> (r: Option<PollCommand>)
        ensures
            (*final(self), r) == old(self).after_unmount(),
    {
        if self.mounted.is_some() {
            self.mounted = None;
            Some(PollCommand::Cancel { timer: self.timer })
        } else {
            None
        }
    }
}

/// Mounting a fresh poller fetches once at once and schedules one timer of
/// its period; every tick of that timer fetches the same workload again.
pub proof fn lemma_mount_fetches_then_ticks(p: Poller, id: i32)
    requires
        p.key() is None,
    ensures
        p.after_mount(id).1.len() == 2,
        p.after_mount(id).1[0] == (PollCommand::Fetch { id }),
        p.after_mount(id).1[1] matches PollCommand::Schedule { timer, period_ms }
            && period_ms == p.period() && p.after_mount(id).0.on_tick(timer) == Some(id),
{
}

/// After unmounting, no tick of any timer fetches.
pub proof fn lemma_unmount_stops(p: Poller, timer: u64)
    ensures
        p.after_unmount().0.on_tick(timer) is None,
{
}

/// After mounting for another id, the old timer is cancelled, ticks of it
/// fetch nothing, and no tick fetches the old id.
pub proof fn lemma_remount_stops_old(p: Poller, old_id: i32, id: i32, timer: u64)
    requires
        p.key() == Some(old_id),
        id != old_id,
    ensures
        p.after_mount(id).1[0] == (PollCommand::Cancel { timer: p.timer_handle() }),
        p.after_mount(id).0.on_tick(p.timer_handle()) is None,
        p.after_mount(id).0.on_tick(timer) != Some(old_id),
{
}

/// The run state shown next: a fetched value replaces the previous one; a
/// failed fetch keeps it.
pub fn status_after_fetch(previous: Option<String>, fetched: Option<String>) -> (r: Option<String>)
    ensures
        r == if fetched is Some {
            fetched
        } else {
            previous
        },
{
    match fetched {
        Some(s) => Some(s),
        None => previous,
    }
}

/// The usage sample shown next: a failed fetch clears the display back to
/// loading.
pub fn metrics_after_fetch<T, E>(fetched: Result<T, E>) -> (r: Option<T>)
    ensures
        match fetched {
            Ok(m) => r == Some(m),
            Err(_) => r is None,
        },
{
    match fetched {
        Ok(m) => Some(m),
        Err(_) => None,
    }
}

/// How the run-state badge is drawn.
pub struct StatusBadge {
    /// Style class: `status-<raw>`, or `status-unknown` before any value.
    pub class: String,
    /// Translation key of the label: `common.status_<raw>`, or
    /// `common.loading` before any value.
    pub label_key: String,
}

/// The translation key of the label for a raw status that the table lacks.
pub fn unknown_status_key() -> (r: String)
    ensures
        r@ == "common.status_unknown"@,
{
    String::from_str("common.status_unknown")
}

/// The badge for the last run state received, if any.
pub fn status_badge(status: Option<&String>) -> (r: StatusBadge)
    ensures
        match status {
            Some(s) => r.class@ == "status-"@ + s@ && r.label_key@ == "common.status_"@ + s@,
            None => r.class@ == "status-unknown"@ && r.label_key@ == "common.loading"@,
        },
{
    match status {
        Some(s) => StatusBadge {
            class: concat("status-", s.as_str()),
            label_key: concat("common.status_", s.as_str()),
        },
        None => StatusBadge {
            class: String::from_str("status-unknown"),
            label_key: String::from_str("common.loading"),
        },
    }
}

} // verus!
