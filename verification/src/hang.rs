//! Signs that the session hangs, and how long ago each was seen.
use crate::time;
use crate::time::{as_opt_str, Moment};
use vstd::prelude::*;

verus! {

/// A sign that the session hangs.
#[derive(Debug, Clone, Copy, PartialEq, Eq, Structural)]
pub enum HangSignal {
    /// The session has stopped acknowledging events.
    HeartbeatStale,
    /// A watcher stays down although the session was told.
    WatcherDownPersistent,
    /// Thinking was interrupted more than once without effect.
    ProlongedThinkingNoProgress,
    /// The pane text does not change.
    PaneCaptureUnchanged,
    /// The pane is wedged again right after it was cleared.
    WedgedClearNoProgress,
}

/// For each hang signal, when it was last observed.
#[derive(Debug, Clone)]
pub struct HangSignalHistory {
    pub heartbeat_stale: Option<String>,
    pub watcher_down_persistent: Option<String>,
    pub prolonged_thinking: Option<String>,
    pub pane_unchanged: Option<String>,
    pub wedged_clear: Option<String>,
}

/// What a [`HangSignalHistory`] holds, with each text as its characters.
pub struct HangHistoryView {
    pub heartbeat_stale: Option<Seq<char>>,
    pub watcher_down_persistent: Option<Seq<char>>,
    pub prolonged_thinking: Option<Seq<char>>,
    pub pane_unchanged: Option<Seq<char>>,
    pub wedged_clear: Option<Seq<char>>,
}

impl HangHistoryView {
    /// When the signal was last observed.
    pub open spec fn seen(self, signal: HangSignal) -> Option<Seq<char>> {
        match signal {
            HangSignal::HeartbeatStale => self.heartbeat_stale,
            HangSignal::WatcherDownPersistent => self.watcher_down_persistent,
            HangSignal::ProlongedThinkingNoProgress => self.prolonged_thinking,
            HangSignal::PaneCaptureUnchanged => self.pane_unchanged,
            HangSignal::WedgedClearNoProgress => self.wedged_clear,
        }
    }

    /// The history after the signal is observed at `stamp`.
    pub open spec fn observed(self, signal: HangSignal, stamp: Seq<char>) -> HangHistoryView {
        match signal {
            HangSignal::HeartbeatStale => HangHistoryView { heartbeat_stale: Some(stamp), ..self },
            HangSignal::WatcherDownPersistent => HangHistoryView {
                watcher_down_persistent: Some(stamp),
                ..self
            },
            HangSignal::ProlongedThinkingNoProgress => HangHistoryView {
                prolonged_thinking: Some(stamp),
                ..self
            },
            HangSignal::PaneCaptureUnchanged => HangHistoryView {
                pane_unchanged: Some(stamp),
                ..self
            },
            HangSignal::WedgedClearNoProgress => HangHistoryView {
                wedged_clear: Some(stamp),
                ..self
            },
        }
    }

    /// The history without the signals last observed more than `window` seconds
    /// before `now`, or at a stamp that does not parse.
    pub open spec fn pruned(self, now: Moment, window: int) -> HangHistoryView {
        HangHistoryView {
            heartbeat_stale: pruned_stamp(self.heartbeat_stale, now, window),
            watcher_down_persistent: pruned_stamp(self.watcher_down_persistent, now, window),
            prolonged_thinking: pruned_stamp(self.prolonged_thinking, now, window),
            pane_unchanged: pruned_stamp(self.pane_unchanged, now, window),
            wedged_clear: pruned_stamp(self.wedged_clear, now, window),
        }
    }

    /// The signals in the history, each once.
    pub open spec fn signals(self) -> Seq<HangSignal> {
        with_signal(
            with_signal(
                with_signal(
                    with_signal(
                        with_signal(Seq::empty(), self.heartbeat_stale, HangSignal::HeartbeatStale),
                        self.watcher_down_persistent,
                        HangSignal::WatcherDownPersistent,
                    ),
                    self.prolonged_thinking,
                    HangSignal::ProlongedThinkingNoProgress,
                ),
                self.pane_unchanged,
                HangSignal::PaneCaptureUnchanged,
            ),
            self.wedged_clear,
            HangSignal::WedgedClearNoProgress,
        )
    }
}

/// A stamp that is still within the window, or nothing.
pub open spec fn pruned_stamp(stamp: Option<Seq<char>>, now: Moment, window: int) -> Option<
    Seq<char>,
> {
    if time::elapsed_within(stamp, now, window) {
        stamp
    } else {
        None
    }
}

/// The list with the signal added if it was observed.
pub open spec fn with_signal(
    list: Seq<HangSignal>,
    stamp: Option<Seq<char>>,
    signal: HangSignal,
) -> Seq<HangSignal> {
    if stamp is Some {
        list.push(signal)
    } else {
        list
    }
}

/// A history in which nothing was observed.
pub open spec fn no_signals() -> HangHistoryView {
    HangHistoryView {
        heartbeat_stale: None,
        watcher_down_persistent: None,
        prolonged_thinking: None,
        pane_unchanged: None,
        wedged_clear: None,
    }
}

impl View for HangSignalHistory {
    type V = HangHistoryView;

    open spec fn view(&self) -> HangHistoryView {
        HangHistoryView {
            heartbeat_stale: time::opt_string_view(self.heartbeat_stale),
            watcher_down_persistent: time::opt_string_view(self.watcher_down_persistent),
            prolonged_thinking: time::opt_string_view(self.prolonged_thinking),
            pane_unchanged: time::opt_string_view(self.pane_unchanged),
            wedged_clear: time::opt_string_view(self.wedged_clear),
        }
    }
}

fn prune_stamp(stamp: &mut Option<String>, now: Moment, window_secs: u64)
    ensures
        time::opt_string_view(*final(stamp)) == pruned_stamp(
            time::opt_string_view(*old(stamp)),
            now,
            window_secs as int,
        ),
{
    if !time::stamp_within(as_opt_str(stamp), now, window_secs) {
        *stamp = None;
    }
}

impl HangSignalHistory {
    /// A history in which nothing was observed.
    pub fn new() -> (r: Self)
        ensures
            r@ == no_signals(),
    {
        HangSignalHistory {
            heartbeat_stale: None,
            watcher_down_persistent: None,
            prolonged_thinking: None,
            pane_unchanged: None,
            wedged_clear: None,
        }
    }

    /// Records that the signal was observed at `now`.
    pub fn observe(&mut self, signal: HangSignal, now: &str)
        ensures
            final(self)@ == old(self)@.observed(signal, now@),
    {
        let stamp = Some(now.to_owned());
        match signal {
            HangSignal::HeartbeatStale => {
                self.heartbeat_stale = stamp;
            },
            HangSignal::WatcherDownPersistent => {
                self.watcher_down_persistent = stamp;
            },
            HangSignal::ProlongedThinkingNoProgress => {
                self.prolonged_thinking = stamp;
            },
            HangSignal::PaneCaptureUnchanged => {
                self.pane_unchanged = stamp;
            },
            HangSignal::WedgedClearNoProgress => {
                self.wedged_clear = stamp;
            },
        }
    }

    /// Drops what was observed too long ago.
    pub fn prune_window(&mut self, now: Moment, window_secs: u64)
        ensures
            final(self)@ == old(self)@.pruned(now, window_secs as int),
    {
        prune_stamp(&mut self.heartbeat_stale, now, window_secs);
        prune_stamp(&mut self.watcher_down_persistent, now, window_secs);
        prune_stamp(&mut self.prolonged_thinking, now, window_secs);
        prune_stamp(&mut self.pane_unchanged, now, window_secs);
        prune_stamp(&mut self.wedged_clear, now, window_secs);
    }

    /// The signals in the history, each once.
    pub fn distinct_active(&self) -> (r: Vec<HangSignal>)
        ensures
            r@ == self@.signals(),
            r@.len() <= 5,
    {
        let mut out: Vec<HangSignal> = Vec::new();
        if self.heartbeat_stale.is_some() {
            out.push(HangSignal::HeartbeatStale);
        }
        if self.watcher_down_persistent.is_some() {
            out.push(HangSignal::WatcherDownPersistent);
        }
        if self.prolonged_thinking.is_some() {
            out.push(HangSignal::ProlongedThinkingNoProgress);
        }
        if self.pane_unchanged.is_some() {
            out.push(HangSignal::PaneCaptureUnchanged);
        }
        if self.wedged_clear.is_some() {
            out.push(HangSignal::WedgedClearNoProgress);
        }
        out
    }
}

/// A signal is listed exactly when it was observed, and never twice.
pub proof fn signals_are_those_observed(h: HangHistoryView)
    ensures
        h.signals().no_duplicates(),
        forall|s: HangSignal| #[trigger] h.signals().contains(s) <==> h.seen(s) is Some,
{
    let l0 = Seq::<HangSignal>::empty();
    let l1 = with_signal(l0, h.heartbeat_stale, HangSignal::HeartbeatStale);
    let l2 = with_signal(l1, h.watcher_down_persistent, HangSignal::WatcherDownPersistent);
    let l3 = with_signal(l2, h.prolonged_thinking, HangSignal::ProlongedThinkingNoProgress);
    let l4 = with_signal(l3, h.pane_unchanged, HangSignal::PaneCaptureUnchanged);
    lemma_with_signal(l0, h.heartbeat_stale, HangSignal::HeartbeatStale);
    lemma_with_signal(l1, h.watcher_down_persistent, HangSignal::WatcherDownPersistent);
    lemma_with_signal(l2, h.prolonged_thinking, HangSignal::ProlongedThinkingNoProgress);
    lemma_with_signal(l3, h.pane_unchanged, HangSignal::PaneCaptureUnchanged);
    lemma_with_signal(l4, h.wedged_clear, HangSignal::WedgedClearNoProgress);
}

proof fn lemma_with_signal(list: Seq<HangSignal>, stamp: Option<Seq<char>>, signal: HangSignal)
    ensures
        forall|s: HangSignal| #[trigger]
            with_signal(list, stamp, signal).contains(s) <==> list.contains(s) || (s == signal
                && stamp is Some),
        list.no_duplicates() && !list.contains(signal) ==> with_signal(
            list,
            stamp,
            signal,
        ).no_duplicates(),
{
    let l = with_signal(list, stamp, signal);
    assert forall|s: HangSignal| #[trigger] l.contains(s) <==> list.contains(s) || (s == signal
        && stamp is Some) by {
        if list.contains(s) {
            let i = list.index_of(s);
            assert(l[i] == s);
        }
        if s == signal && stamp is Some {
            assert(l[list.len() as int] == s);
        }
    }
    if list.no_duplicates() && !list.contains(signal) && stamp is Some {
        assert forall|i: int, j: int| 0 <= i < l.len() && 0 <= j < l.len() && i != j implies l[i]
            != l[j] by {
            if i == list.len() {
                assert(list.contains(l[j]));
            }
            if j == list.len() {
                assert(list.contains(l[i]));
            }
        }
    }
}

/// An observation moves the stamp of its own signal and of no other; pruning keeps exactly the
/// stamps that are within the window; a new history holds nothing.
pub proof fn observation_moves_one_stamp(
    h: HangHistoryView,
    signal: HangSignal,
    other: HangSignal,
    stamp: Seq<char>,
    now: Moment,
    window: int,
)
    ensures
        h.observed(signal, stamp).seen(signal) == Some(stamp),
        other != signal ==> h.observed(signal, stamp).seen(other) == h.seen(other),
        time::elapsed_within(h.seen(other), now, window) ==> h.pruned(now, window).seen(other)
            == h.seen(other),
        !time::elapsed_within(h.seen(other), now, window) ==> h.pruned(now, window).seen(other)
            is None,
        no_signals().seen(other) is None,
{
}

} // verus!
