//! Progress accounting of an insertion run: what to log and when to stop
//! after each batch, and the throughput figures at the end.

use vstd::prelude::*;

verus! {

/// Running totals of a run towards `max_rows` rows.
#[derive(Clone, Copy, Debug, PartialEq, Eq, Structural)]
pub struct Progress {
    /// Row count at which the run stops.
    pub max_rows: usize,
    /// Rows inserted so far.
    pub rows_inserted: usize,
    /// Highest whole-number completion percentage logged so far.
    pub percent: usize,
}

/// What became of the batch that was just pulled.
#[derive(Clone, Copy, Debug, PartialEq, Eq, Structural)]
pub enum Event {
    /// No request could be built from it.
    Skipped,
    /// Its insert was submitted and failed.
    InsertFailed,
    /// Its insert of `rows` rows succeeded.
    Inserted { rows: usize },
}

/// What to log after an event.
#[derive(Clone, Copy, Debug, PartialEq, Eq, Structural)]
pub enum Log {
    /// Nothing.
    Silent,
    /// A warning: the batch gave no request.
    BuildFailed,
    /// An error: the insert failed.
    InsertFailed,
    /// The completion percentage advanced.
    Progress { rows_inserted: usize, percent: usize },
}

/// What to do after an event.
#[derive(Clone, Copy, Debug, PartialEq, Eq, Structural)]
pub struct Action {
    /// The line to log.
    pub log: Log,
    /// Whether the run ends here.
    pub stop: bool,
}

/// Throughput of a finished run.
#[derive(Clone, Copy, Debug, PartialEq, Eq, Structural)]
pub struct Summary {
    /// Rows inserted in all.
    pub rows_inserted: usize,
    /// Elapsed wall-clock milliseconds.
    pub elapsed_ms: usize,
    /// Rows per second.
    pub tps: usize,
    /// Field values per second.
    pub pps: usize,
}

/// Mathematical value of [`Progress`].
pub struct ProgressView {
    pub max_rows: nat,
    pub rows_inserted: nat,
    pub percent: nat,
}

/// Mathematical value of [`Log`].
pub enum LogView {
    Silent,
    BuildFailed,
    InsertFailed,
    Progress { rows_inserted: nat, percent: nat },
}

/// Mathematical value of [`Action`].
pub struct ActionView {
    pub log: LogView,
    pub stop: bool,
}

impl View for Progress {
    type V = ProgressView;

    open spec fn view(&self) -> ProgressView {
        ProgressView {
            max_rows: self.max_rows as nat,
            rows_inserted: self.rows_inserted as nat,
            percent: self.percent as nat,
        }
    }
}

impl View for Log {
    type V = LogView;

    open spec fn view(&self) -> LogView {
        match self {
            Log::Silent => LogView::Silent,
            Log::BuildFailed => LogView::BuildFailed,
            Log::InsertFailed => LogView::InsertFailed,
            Log::Progress { rows_inserted, percent } => LogView::Progress {
                rows_inserted: *rows_inserted as nat,
                percent: *percent as nat,
            },
        }
    }
}

impl View for Action {
    type V = ActionView;

    open spec fn view(&self) -> ActionView {
        ActionView { log: self.log@, stop: self.stop }
    }
}

/// Whole-number completion percentage of `rows` against `max_rows`.
pub open spec fn percent_of(rows: nat, max_rows: nat) -> nat
    recommends
        max_rows > 0,
{
    (rows * 100 / max_rows) as nat
}

/// State and action after `event` in state `s`.
///
/// A skipped batch is logged as a warning and the run goes on. A failed insert
/// is logged as an error and ends the run. A successful insert adds its rows
/// to the total, is logged where the whole-number percentage has advanced past
/// the last one logged, and ends the run once the total has reached
/// `max_rows`.
pub open spec fn step(s: ProgressView, event: Event) -> (ProgressView, ActionView) {
    match event {
        Event::Skipped => (s, ActionView { log: LogView::BuildFailed, stop: false }),
        Event::InsertFailed => (s, ActionView { log: LogView::InsertFailed, stop: true }),
        Event::Inserted { rows } => {
            let total = s.rows_inserted + rows as nat;
            let current = percent_of(total, s.max_rows);
            let stop = total >= s.max_rows;
            if current > s.percent {
                (
                    ProgressView { max_rows: s.max_rows, rows_inserted: total, percent: current },
                    ActionView {
                        log: LogView::Progress { rows_inserted: total, percent: current },
                        stop,
                    },
                )
            } else {
                (
                    ProgressView { max_rows: s.max_rows, rows_inserted: total, percent: s.percent },
                    ActionView { log: LogView::Silent, stop },
                )
            }
        },
    }
}

/// The state of a run towards `max_rows` rows that has inserted nothing yet.
pub open spec fn start(max_rows: nat) -> ProgressView {
    ProgressView { max_rows, rows_inserted: 0, percent: 0 }
}

/// The actions of a run from state `s` over `events`, up to and including
/// the first that stops it.
pub open spec fn run(s: ProgressView, events: Seq<Event>) -> Seq<ActionView>
    decreases events.len(),
{
    if events.len() == 0 {
        Seq::empty()
    } else {
        let (next, action) = step(s, events[0]);
        if action.stop {
            seq![action]
        } else {
            seq![action] + run(next, events.skip(1))
        }
    }
}

/// The completion percentages that `actions` log, in order.
pub open spec fn logged_percents(actions: Seq<ActionView>) -> Seq<nat>
    decreases actions.len(),
{
    if actions.len() == 0 {
        Seq::empty()
    } else {
        let rest = logged_percents(actions.skip(1));
        match actions[0].log {
            LogView::Progress { percent, .. } => seq![percent] + rest,
            _ => rest,
        }
    }
}

/// The completion percentage never decreases over a step, and neither does
/// the row total; the row target stays as it is.
pub proof fn lemma_step_monotonic(s: ProgressView, event: Event)
    ensures
        step(s, event).0.percent >= s.percent,
        step(s, event).0.rows_inserted >= s.rows_inserted,
        step(s, event).0.max_rows == s.max_rows,
        step(s, event).1.log matches LogView::Progress { percent, .. } ==> percent > s.percent
            && percent == step(s, event).0.percent,
{
}

/// Over a whole run the logged completion percentages strictly increase, from
/// above the percentage the run started with: none is lower than one logged
/// before it, and none is logged twice.
pub proof fn lemma_logged_percents_increase(s: ProgressView, events: Seq<Event>)
    ensures
        forall|i: int|
            0 <= i < logged_percents(run(s, events)).len() ==> #[trigger] logged_percents(
                run(s, events),
            )[i] > s.percent,
        forall|i: int, j: int|
            0 <= i < j < logged_percents(run(s, events)).len() ==> #[trigger] logged_percents(
                run(s, events),
            )[i] < #[trigger] logged_percents(run(s, events))[j],
    decreases events.len(),
{
    if events.len() > 0 {
        let (next, action) = step(s, events[0]);
        let tail = if action.stop {
            Seq::<ActionView>::empty()
        } else {
            run(next, events.skip(1))
        };
        assert(run(s, events) =~= seq![action] + tail);
        assert((seq![action] + tail).skip(1) =~= tail);
        if !action.stop {
            lemma_logged_percents_increase(next, events.skip(1));
        }
        lemma_step_monotonic(s, events[0]);
        // What the actions after the first one log lies above `next.percent`.
        let rest = logged_percents(tail);
        assert forall|i: int| 0 <= i < rest.len() implies #[trigger] rest[i] > next.percent by {}
    }
}

/// A run whose inserts all succeed with `rows` rows each ends with the first
/// insert that brings the total to the row target, and not before: where
/// `inserts` of them reach it and one fewer does not, the run takes exactly
/// `inserts` actions and only the last one stops.
pub proof fn lemma_run_reaches_target(
    s: ProgressView,
    rows: usize,
    inserts: nat,
    events: Seq<Event>,
)
    requires
        inserts >= 1,
        events.len() >= inserts,
        forall|i: int| 0 <= i < inserts ==> events[i] == (Event::Inserted { rows }),
        s.rows_inserted + (inserts - 1) * rows < s.max_rows <= s.rows_inserted + inserts * rows,
    ensures
        run(s, events).len() == inserts,
        forall|i: int| 0 <= i < inserts ==> (#[trigger] run(s, events)[i]).stop == (i == inserts - 1),
    decreases inserts,
{
    let (next, action) = step(s, events[0]);
    if inserts > 1 {
        let rest = events.skip(1);
        assert((inserts - 1) * rows == rows + (inserts - 2) * rows) by (nonlinear_arith);
        assert(inserts * rows == rows + (inserts - 1) * rows) by (nonlinear_arith);
        assert((inserts - 2) * rows >= 0) by (nonlinear_arith)
            requires
                inserts >= 2,
                rows >= 0,
        ;
        assert(!action.stop);
        lemma_run_reaches_target(next, rows, (inserts - 1) as nat, rest);
        assert(run(s, events) =~= seq![action] + run(next, rest));
        assert forall|i: int| 0 <= i < inserts implies (#[trigger] run(s, events)[i]).stop == (i
            == inserts - 1) by {
            if i > 0 {
                assert(run(s, events)[i] == run(next, rest)[i - 1]);
            }
        }
    } else {
        assert(inserts * rows == rows) by (nonlinear_arith)
            requires
                inserts == 1,
        ;
        assert(action.stop);
        assert(run(s, events) =~= seq![action]);
    }
}

/// A run ends at its first failed insert: after `inserts` successful inserts
/// that stay short of the row target, a failure is logged as the last action
/// and nothing after it is attempted.
pub proof fn lemma_run_stops_at_failure(
    s: ProgressView,
    rows: usize,
    inserts: nat,
    events: Seq<Event>,
)
    requires
        events.len() > inserts,
        forall|i: int| 0 <= i < inserts ==> events[i] == (Event::Inserted { rows }),
        events[inserts as int] == Event::InsertFailed,
        s.rows_inserted + inserts * rows < s.max_rows,
    ensures
        run(s, events).len() == inserts + 1,
        run(s, events)[inserts as int] == (ActionView { log: LogView::InsertFailed, stop: true }),
        forall|i: int| 0 <= i < inserts ==> !(#[trigger] run(s, events)[i]).stop,
    decreases inserts,
{
    let (next, action) = step(s, events[0]);
    if inserts > 0 {
        let rest = events.skip(1);
        assert(inserts * rows == rows + (inserts - 1) * rows) by (nonlinear_arith);
        assert((inserts - 1) * rows >= 0) by (nonlinear_arith)
            requires
                inserts >= 1,
                rows >= 0,
        ;
        assert(!action.stop);
        lemma_run_stops_at_failure(next, rows, (inserts - 1) as nat, rest);
        assert(run(s, events) =~= seq![action] + run(next, rest));
        assert(run(s, events)[inserts as int] == run(next, rest)[inserts - 1]);
        assert forall|i: int| 0 <= i < inserts implies !(#[trigger] run(s, events)[i]).stop by {
            if i > 0 {
                assert(run(s, events)[i] == run(next, rest)[i - 1]);
            }
        }
    }
}

impl Progress {
    /// A run that has inserted nothing yet.
    pub fn new(max_rows: usize) -> (p: Progress)
        ensures
            p@ == start(max_rows as nat),
    {
        Progress { max_rows, rows_inserted: 0, percent: 0 }
    }

    /// Whether [`Progress::on_event`] can take `event`: a successful insert
    /// needs a row target above zero and a total whose hundredfold fits the
    /// machine word.
    pub open spec fn accepts(&self, event: Event) -> bool {
        event matches Event::Inserted { rows } ==> self.max_rows > 0 && (self.rows_inserted + rows)
            * 100 <= usize::MAX
    }

    /// Tests [`Progress::accepts`].
    pub fn can_take(&self, event: Event) -> (ok: bool)
        ensures
            ok == self.accepts(event),
    {
        match event {
            Event::Inserted { rows } => {
                if self.max_rows == 0 {
                    return false;
                }
                match self.rows_inserted.checked_add(rows) {
                    Some(total) => total <= usize::MAX / 100,
                    None => false,
                }
            },
            _ => true,
        }
    }

    /// Accounts for `event` and says what to log and whether to stop.
    pub fn on_event(&mut self, event: Event) -> (action: Action)
        requires
            old(self).accepts(event),
        ensures
            (final(self)@, action@) == step(old(self)@, event),
    {
        match event {
            Event::Skipped => Action { log: Log::BuildFailed, stop: false },
            Event::InsertFailed => Action { log: Log::InsertFailed, stop: true },
            Event::Inserted { rows } => {
                let total = self.rows_inserted + rows;
                let current = (total * 100) / self.max_rows;
                assert(current == percent_of(total as nat, self.max_rows as nat));
                let stop = total >= self.max_rows;
                self.rows_inserted = total;
                if current > self.percent {
                    self.percent = current;
                    Action { log: Log::Progress { rows_inserted: total, percent: current }, stop }
                } else {
                    Action { log: Log::Silent, stop }
                }
            },
        }
    }
}

/// Whether the throughput figures of a run can be computed: some time has
/// elapsed, and the thousandfold of the row and field-value counts fits the
/// machine word.
pub open spec fn summary_fits(rows_inserted: usize, column_num: usize, elapsed_ms: usize) -> bool {
    &&& elapsed_ms > 0
    &&& rows_inserted * 1000 <= usize::MAX
    &&& rows_inserted * column_num * 1000 <= usize::MAX
}

/// Tests [`summary_fits`].
pub fn can_summarize(rows_inserted: usize, column_num: usize, elapsed_ms: usize) -> (ok: bool)
    ensures
        ok == summary_fits(rows_inserted, column_num, elapsed_ms),
{
    if elapsed_ms == 0 || rows_inserted > usize::MAX / 1000 {
        return false;
    }
    match rows_inserted.checked_mul(column_num) {
        Some(points) => points <= usize::MAX / 1000,
        None => {
            assert(rows_inserted * column_num * 1000 > usize::MAX) by (nonlinear_arith)
                requires
                    rows_inserted * column_num > usize::MAX,
            ;
            false
        },
    }
}

/// Throughput of a run that inserted `rows_inserted` rows of `column_num`
/// field columns in `elapsed_ms` milliseconds: rows per second, and field
/// values per second, both rounded down.
pub fn summarize(rows_inserted: usize, column_num: usize, elapsed_ms: usize) -> (summary: Summary)
    requires
        summary_fits(rows_inserted, column_num, elapsed_ms),
    ensures
        summary.rows_inserted == rows_inserted,
        summary.elapsed_ms == elapsed_ms,
        summary.tps == rows_inserted * 1000 / (elapsed_ms as int),
        summary.pps == rows_inserted * column_num * 1000 / (elapsed_ms as int),
{
    assert(rows_inserted * column_num <= usize::MAX) by (nonlinear_arith)
        requires
            rows_inserted * column_num * 1000 <= usize::MAX,
            rows_inserted >= 0,
            column_num >= 0,
    ;
    Summary {
        rows_inserted,
        elapsed_ms,
        tps: rows_inserted * 1000 / elapsed_ms,
        pps: (rows_inserted * column_num) * 1000 / elapsed_ms,
    }
}

} // verus!
