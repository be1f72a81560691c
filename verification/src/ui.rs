//! The facts a dashboard shows: the state of the latest build, the agent's
//! properties, recent builds, the current retry window and the last error.
//! Drawing them is left to the program around the library.

use vstd::prelude::*;
use crate::text::same_text;

verus! {

/// Number of builds that the history keeps.
pub const HISTORY_LIMIT: usize = 10;

/// How a build is shown.
#[derive(Clone, Copy, Debug, PartialEq, Eq, Structural)]
pub enum Status {
    Succeeded,
    Pending,
    Failed,
}

impl Status {
    /// Caption of a status.
    pub open spec fn caption(self) -> Seq<char> {
        match self {
            Status::Succeeded => "Succeeded"@,
            Status::Pending => "Pending"@,
            Status::Failed => "Failed"@,
        }
    }

    /// The caption under which the status is shown.
    pub fn text(&self) -> (caption: &'static str)
        ensures
            caption@ == self.caption(),
    {
        match self {
            Status::Succeeded => "Succeeded",
            Status::Pending => "Pending",
            Status::Failed => "Failed",
        }
    }
}

/// A named fact about the agent's configuration.
#[derive(Debug)]
pub struct Property {
    pub name: String,
    pub value: String,
}

impl Property {
    pub fn new(name: &str, value: &str) -> (property: Self)
        ensures
            property.name@ == name@,
            property.value@ == value@,
    {
        Property { name: name.to_owned(), value: value.to_owned() }
    }
}

/// One line of the build history.
#[derive(Debug)]
pub struct BuildResult {
    pub sha: String,
    pub status: Status,
}

/// A line of the build history as plain values.
pub struct BuildView {
    pub sha: Seq<char>,
    pub status: Status,
}

impl View for BuildResult {
    type V = BuildView;

    open spec fn view(&self) -> BuildView {
        BuildView { sha: self.sha@, status: self.status }
    }
}

/// Whether some line of a history is about `sha`.
pub open spec fn mentions(builds: Seq<BuildView>, sha: Seq<char>) -> bool {
    exists|i: int| 0 <= i < builds.len() && (#[trigger] builds[i]).sha == sha
}

/// A history after a build of `sha` was seen in state `status`: a commit
/// already listed changes its state where it stands; a new one is added at
/// the end, and the oldest line leaves once the history is full.
pub open spec fn recorded(builds: Seq<BuildView>, sha: Seq<char>, status: Status) -> Seq<
    BuildView,
> {
    if mentions(builds, sha) {
        Seq::new(
            builds.len(),
            |i: int|
                if builds[i].sha == sha {
                    BuildView { sha, status }
                } else {
                    builds[i]
                },
        )
    } else if builds.len() >= HISTORY_LIMIT {
        builds.drop_first().push(BuildView { sha, status })
    } else {
        builds.push(BuildView { sha, status })
    }
}

/// A history that holds no more lines than the limit and lists no commit
/// twice.
pub open spec fn tidy(builds: Seq<BuildView>) -> bool {
    &&& builds.len() <= HISTORY_LIMIT
    &&& forall|i: int, j: int|
        0 <= i < j < builds.len() ==> (#[trigger] builds[i]).sha != (#[trigger] builds[j]).sha
}

/// Recording a build keeps a history tidy.
pub proof fn lemma_recorded_tidy(builds: Seq<BuildView>, sha: Seq<char>, status: Status)
    requires
        tidy(builds),
    ensures
        tidy(recorded(builds, sha, status)),
        mentions(recorded(builds, sha, status), sha),
{
    let after = recorded(builds, sha, status);
    if mentions(builds, sha) {
        let i = choose|i: int| 0 <= i < builds.len() && (#[trigger] builds[i]).sha == sha;
        assert(after[i].sha == sha);
    } else {
        assert(after[after.len() - 1].sha == sha);
    }
}

/// The most recent builds, oldest first.
#[derive(Debug)]
pub struct BuildTable {
    builds: Vec<BuildResult>,
}

impl View for BuildTable {
    type V = Seq<BuildView>;

    closed spec fn view(&self) -> Seq<BuildView> {
        Seq::new(self.builds@.len(), |i: int| self.builds@[i]@)
    }
}

impl BuildTable {
    /// An empty history.
    pub fn new() -> (table: Self)
        ensures
            table@ == Seq::<BuildView>::empty(),
    {
        let table = BuildTable { builds: Vec::new() };
        assert(table@ =~= Seq::<BuildView>::empty());
        table
    }

    /// Number of lines.
    pub fn len(&self) -> (n: usize)
        ensures
            n == self@.len(),
    {
        self.builds.len()
    }

    /// The line at `index`, counted from the oldest.
    pub fn get(&self, index: usize) -> (line: &BuildResult)
        requires
            index < self@.len(),
        ensures
            line@ == self@[index as int],
    {
        &self.builds[index]
    }

    /// Notes that the build of `sha` is in state `status`.
    pub fn record(&mut self, sha: &str, status: Status)
        ensures
            final(self)@ == recorded(old(self)@, sha@, status),
            tidy(old(self)@) ==> tidy(final(self)@),
    {
        proof {
            if tidy(self@) {
                lemma_recorded_tidy(self@, sha@, status);
            }
        }
        let ghost before = self@;
        let n = self.builds.len();
        let mut seen = false;
        let mut i: usize = 0;
        while i < n
            invariant
                i <= n,
                n == before.len(),
                self.builds@.len() == n,
                seen <==> exists|k: int| 0 <= k < i && (#[trigger] before[k]).sha == sha@,
                forall|k: int|
                    0 <= k < i ==> (#[trigger] self@[k]) == (if before[k].sha == sha@ {
                        BuildView { sha: sha@, status }
                    } else {
                        before[k]
                    }),
                forall|k: int| i <= k < n ==> (#[trigger] self@[k]) == before[k],
            decreases n - i,
        {
            let ghost at_entry = self@;
            assert(at_entry[i as int] == before[i as int]);
            if same_text(self.builds[i].sha.as_str(), sha) {
                self.builds.set(i, BuildResult { sha: sha.to_owned(), status });
                seen = true;
            }
            assert forall|k: int| 0 <= k < n && k != i implies #[trigger] self@[k]
                == at_entry[k] by {}
            assert(before[i as int].sha == sha@ ==> self@[i as int] == (BuildView {
                sha: sha@,
                status,
            }));
            assert(before[i as int].sha != sha@ ==> self@[i as int] == before[i as int]);
            i += 1;
        }
        if seen {
            assert(self@ =~= recorded(before, sha@, status));
            return ;
        }
        assert(self@ =~= before);
        if n >= HISTORY_LIMIT {
            self.builds.remove(0);
        }
        self.builds.push(BuildResult { sha: sha.to_owned(), status });
        assert(self@ =~= recorded(before, sha@, status));
    }
}

/// The span between the end of one attempt and the start of the next, in
/// milliseconds on the caller's clock. A due time may lie past every clock
/// reading, so it is counted in a wider type than the clock.
#[derive(Clone, Copy, Debug, PartialEq, Eq, Structural)]
pub struct RetryWindow {
    pub start_time: u64,
    pub due_time: u128,
}

impl RetryWindow {
    /// A window that opens and closes at `now`.
    pub fn new(now: u64) -> (window: Self)
        ensures
            window == (RetryWindow { start_time: now, due_time: now as u128 }),
    {
        RetryWindow { start_time: now, due_time: now as u128 }
    }

    /// Length of the window; nothing if it closes before it opens.
    pub open spec fn length(self) -> int {
        if self.due_time >= self.start_time {
            self.due_time - self.start_time
        } else {
            0
        }
    }

    /// What is left of the window at `now`; nothing once it has closed.
    pub open spec fn left(self, now: u64) -> int {
        if self.due_time >= now {
            self.due_time - now
        } else {
            0
        }
    }

    /// Length of the window in milliseconds.
    pub fn window_millis(&self) -> (millis: u128)
        ensures
            millis == self.length(),
    {
        let start = self.start_time as u128;
        if self.due_time >= start {
            self.due_time - start
        } else {
            0
        }
    }

    /// Milliseconds left at `now` until the window closes. Within the window
    /// this never exceeds the window's length.
    pub fn remaining_millis(&self, now: u64) -> (millis: u128)
        ensures
            millis == self.left(now),
            now >= self.start_time ==> millis <= self.length(),
    {
        let now = now as u128;
        if self.due_time >= now {
            self.due_time - now
        } else {
            0
        }
    }

    /// Whole seconds left at `now` until the window closes.
    pub fn remaining_secs(&self, now: u64) -> (secs: u128)
        ensures
            secs == self.left(now) / 1000,
    {
        self.remaining_millis(now) / 1000
    }
}

/// Everything the dashboard shows, as plain values.
pub struct SummaryView {
    pub status: Status,
    pub properties: Seq<Property>,
    pub retry_window: RetryWindow,
    pub builds: Seq<BuildView>,
    pub last_error: Option<Seq<char>>,
}

/// The dashboard's state.
#[derive(Debug)]
pub struct Summary {
    status: Status,
    properties: Vec<Property>,
    retry_window: RetryWindow,
    build_table: BuildTable,
    last_error: Option<String>,
}

impl View for Summary {
    type V = SummaryView;

    closed spec fn view(&self) -> SummaryView {
        SummaryView {
            status: self.status,
            properties: self.properties@,
            retry_window: self.retry_window,
            builds: self.build_table@,
            last_error: match self.last_error {
                Some(e) => Some(e@),
                None => None,
            },
        }
    }
}

impl Summary {
    /// The dashboard of an agent that has not looked at any commit yet.
    pub fn new(properties: Vec<Property>, now: u64) -> (summary: Self)
        ensures
            summary@ == (SummaryView {
                status: Status::Pending,
                properties: properties@,
                retry_window: RetryWindow { start_time: now, due_time: now as u128 },
                builds: Seq::empty(),
                last_error: None,
            }),
    {
        Summary {
            status: Status::Pending,
            properties,
            retry_window: RetryWindow::new(now),
            build_table: BuildTable::new(),
            last_error: None,
        }
    }

    /// Opens a new retry window at `now` that closes at `due_time`.
    pub fn reset_retry_window(&mut self, now: u64, due_time: u128)
        ensures
            final(self)@ == (SummaryView {
                retry_window: RetryWindow { start_time: now, due_time },
                ..old(self)@
            }),
    {
        self.retry_window = RetryWindow { start_time: now, due_time };
    }

    /// Notes that the build of `sha` is in state `status`: the headline
    /// shows that state, and the history lists the commit with it.
    pub fn record_build(&mut self, sha: &str, status: Status)
        ensures
            final(self)@ == (SummaryView {
                status,
                builds: recorded(old(self)@.builds, sha@, status),
                ..old(self)@
            }),
            tidy(old(self)@.builds) ==> tidy(final(self)@.builds),
    {
        self.status = status;
        self.build_table.record(sha, status);
    }

    /// Shows `error` as the last error, in place of any earlier one.
    pub fn record_error(&mut self, error: String)
        ensures
            final(self)@ == (SummaryView { last_error: Some(error@), ..old(self)@ }),
    {
        self.last_error = Some(error);
    }

    /// Takes the last error down, as after an attempt that went through.
    pub fn clear_error(&mut self)
        ensures
            final(self)@ == (SummaryView { last_error: None, ..old(self)@ }),
    {
        self.last_error = None;
    }

    /// State of the latest build.
    pub fn status(&self) -> (status: Status)
        ensures
            status == self@.status,
    {
        self.status
    }

    /// The agent's properties, in the order given.
    pub fn properties(&self) -> (properties: &Vec<Property>)
        ensures
            properties@ == self@.properties,
    {
        &self.properties
    }

    /// The current retry window.
    pub fn retry_window(&self) -> (window: RetryWindow)
        ensures
            window == self@.retry_window,
    {
        self.retry_window
    }

    /// The recent builds, oldest first.
    pub fn builds(&self) -> (table: &BuildTable)
        ensures
            table@ == self@.builds,
    {
        &self.build_table
    }

    /// The last error, if one is up.
    pub fn last_error(&self) -> (error: Option<&str>)
        ensures
            match error {
                Some(e) => self@.last_error == Some(e@),
                None => self@.last_error is None,
            },
    {
        match &self.last_error {
            Some(e) => Some(e.as_str()),
            None => None,
        }
    }
}

} // verus!
