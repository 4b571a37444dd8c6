//! The state behind the window: the saved playlists, the form fields, the
//! queue and whether a worker is fetching it, with every change the user or
//! the worker can make to it.

use vstd::prelude::*;

use crate::config::{
    error_message, name_taken, names_distinct, new_playlist_error, Config, Playlist, PlaylistError,
};
use crate::deps::DepStatus;
use crate::queue::{source_of, AudioFormat, QueueItem, Source, Status};
use crate::text::{eq_ignore_ascii_case, trimmed};

verus! {

/// `it` with its status replaced.
pub open spec fn with_status(it: QueueItem, st: Status) -> QueueItem {
    QueueItem {
        url: it.url,
        playlist_name: it.playlist_name,
        source: it.source,
        status: st,
        format: it.format,
        error: it.error,
    }
}

/// No entry of `q` is running.
pub open spec fn none_running(q: Seq<QueueItem>) -> bool {
    forall|i: int| 0 <= i < q.len() ==> (#[trigger] q[i]).status != Status::Running
}

/// Every entry of `q` is done or failed.
pub open spec fn all_finished(q: Seq<QueueItem>) -> bool {
    forall|i: int| 0 <= i < q.len() ==> (#[trigger] q[i]).status.is_finished()
}

/// An entry once processing starts: pending becomes running.
pub open spec fn start_item(it: QueueItem) -> QueueItem {
    if it.status == Status::Pending {
        with_status(it, Status::Running)
    } else {
        it
    }
}

/// An entry once processing is stopped: running goes back to pending.
pub open spec fn stop_item(it: QueueItem) -> QueueItem {
    if it.status == Status::Running {
        with_status(it, Status::Pending)
    } else {
        it
    }
}

/// The queue once processing starts.
pub open spec fn started(q: Seq<QueueItem>) -> Seq<QueueItem> {
    q.map_values(|it: QueueItem| start_item(it))
}

/// The queue once processing is stopped.
pub open spec fn stopped(q: Seq<QueueItem>) -> Seq<QueueItem> {
    q.map_values(|it: QueueItem| stop_item(it))
}

/// Entry `it` once the worker reports it finished.
pub open spec fn finish_entry(it: QueueItem, success: bool, error: Option<String>) -> QueueItem {
    QueueItem {
        url: it.url,
        playlist_name: it.playlist_name,
        source: it.source,
        status: if success {
            Status::Done
        } else {
            Status::Failed
        },
        format: it.format,
        error: error,
    }
}

/// How many entries of `q` are done or failed.
pub open spec fn finished_count(q: Seq<QueueItem>) -> nat
    decreases q.len(),
{
    if q.len() == 0 {
        0
    } else {
        finished_count(q.drop_last()) + if q.last().status.is_finished() {
            1nat
        } else {
            0nat
        }
    }
}

/// The entry that adding `url` to the playlist called `name` queues.
pub open spec fn new_entry(url: String, name: String, format: AudioFormat) -> QueueItem {
    QueueItem {
        url: url,
        playlist_name: name,
        source: source_of(url@),
        status: Status::Pending,
        format: format,
        error: None,
    }
}

/// Everything the window shows and edits, apart from the worker's channel.
#[derive(Debug)]
pub struct FetcherState {
    pub config: Config,
    pub new_playlist_name: String,
    pub new_playlist_path: String,
    pub new_playlist_error: Option<String>,
    pub new_url: String,
    pub selected_playlist: Option<usize>,
    pub queue: Vec<QueueItem>,
    pub processing: bool,
    pub last_processed: Option<String>,
    pub selected_format: AudioFormat,
    pub dep_status: DepStatus,
}

impl FetcherState {
    /// The state is consistent: a selected playlist exists, and no entry
    /// runs unless processing is on.
    pub open spec fn wf(&self) -> bool {
        &&& (self.selected_playlist matches Some(i) ==> i < self.config.playlists@.len())
        &&& (!self.processing ==> none_running(self.queue@))
    }

    /// The playlists, the playlist form, the selections and the dependency
    /// display are the same in `self` and `other`.
    pub open spec fn same_forms(&self, other: &FetcherState) -> bool {
        &&& self.config == other.config
        &&& self.new_playlist_name == other.new_playlist_name
        &&& self.new_playlist_path == other.new_playlist_path
        &&& self.new_playlist_error == other.new_playlist_error
        &&& self.selected_playlist == other.selected_playlist
        &&& self.selected_format == other.selected_format
        &&& self.dep_status == other.dep_status
    }

    /// The queue, the link form and the format and dependency display are
    /// the same in `self` and `other`.
    pub open spec fn same_queue_side(&self, other: &FetcherState) -> bool {
        &&& self.queue == other.queue
        &&& self.processing == other.processing
        &&& self.last_processed == other.last_processed
        &&& self.new_url == other.new_url
        &&& self.selected_format == other.selected_format
        &&& self.dep_status == other.dep_status
    }

    /// A fresh window on the saved `config`: empty forms and queue, nothing
    /// selected, FLAC picked, not processing.
    pub fn new(config: Config, dep_status: DepStatus) -> (s: FetcherState)
        ensures
            s.wf(),
            s.config == config,
            s.dep_status == dep_status,
            s.new_playlist_name@.len() == 0,
            s.new_playlist_path@.len() == 0,
            s.new_playlist_error is None,
            s.new_url@.len() == 0,
            s.selected_playlist is None,
            s.queue@.len() == 0,
            !s.processing,
            s.last_processed is None,
            s.selected_format == AudioFormat::Flac,
    {
        FetcherState {
            config,
            new_playlist_name: String::new(),
            new_playlist_path: String::new(),
            new_playlist_error: None,
            new_url: String::new(),
            selected_playlist: None,
            queue: Vec::new(),
            processing: false,
            last_processed: None,
            selected_format: AudioFormat::Flac,
            dep_status,
        }
    }

    /// Starts processing when it is off and the queue is not empty: every
    /// pending entry becomes running. Returns whether a worker must now be
    /// started on a copy of the queue; otherwise nothing changes.
    pub fn start_processing(&mut self) -> (spawn: bool)
        requires
            old(self).wf(),
        ensures
            final(self).wf(),
            spawn == (!old(self).processing && old(self).queue@.len() > 0),
            final(self).queue@ == (if spawn {
                started(old(self).queue@)
            } else {
                old(self).queue@
            }),
            final(self).processing == (old(self).processing || spawn),
            final(self).last_processed == old(self).last_processed,
            final(self).new_url == old(self).new_url,
            final(self).same_forms(old(self)),
    {
        if self.processing || self.queue.len() == 0 {
            return false;
        }
        self.processing = true;
        let ghost q0 = self.queue@;
        let n: usize = self.queue.len();
        let mut i: usize = 0;
        while i < n
            invariant
                self.processing,
                n == self.queue@.len(),
                n == q0.len(),
                0 <= i <= n,
                forall|j: int| 0 <= j < i ==> self.queue@[j] == start_item(#[trigger] q0[j]),
                forall|j: int| i <= j < n ==> self.queue@[j] == #[trigger] q0[j],
                self.same_forms(old(self)),
                self.last_processed == old(self).last_processed,
                self.new_url == old(self).new_url,
                self.selected_playlist matches Some(k) ==> k < self.config.playlists@.len(),
            decreases n - i,
        {
            if self.queue[i].status == Status::Pending {
                self.queue[i].status = Status::Running;
            }
            i = i + 1;
        }
        assert(self.queue@ =~= started(q0));
        true
    }

    /// The worker reports entry `index` finished. When the entry exists it
    /// becomes done or failed and records `error`; returns whether it exists.
    pub fn finish_item(&mut self, index: usize, success: bool, error: Option<String>) -> (found: bool)
        requires
            old(self).wf(),
        ensures
            final(self).wf(),
            found == (index < old(self).queue@.len()),
            final(self).queue@ == (if found {
                old(self).queue@.update(
                    index as int,
                    finish_entry(old(self).queue@[index as int], success, error),
                )
            } else {
                old(self).queue@
            }),
            final(self).processing == old(self).processing,
            final(self).last_processed == old(self).last_processed,
            final(self).new_url == old(self).new_url,
            final(self).same_forms(old(self)),
    {
        if index >= self.queue.len() {
            return false;
        }
        self.queue[index].status = if success {
            Status::Done
        } else {
            Status::Failed
        };
        self.queue[index].error = error;
        assert(self.queue@ =~= old(self).queue@.update(
            index as int,
            finish_entry(old(self).queue@[index as int], success, error),
        ));
        true
    }

    /// The worker reports that it stopped: running entries go back to
    /// pending, processing is off, and the message says so.
    pub fn cancel_running(&mut self)
        requires
            old(self).wf(),
        ensures
            final(self).wf(),
            final(self).queue@ == stopped(old(self).queue@),
            !final(self).processing,
            final(self).last_processed matches Some(m) && m@ == "Processing stopped"@,
            final(self).new_url == old(self).new_url,
            final(self).same_forms(old(self)),
    {
        let ghost q0 = self.queue@;
        let n: usize = self.queue.len();
        let mut i: usize = 0;
        while i < n
            invariant
                n == self.queue@.len(),
                n == q0.len(),
                0 <= i <= n,
                forall|j: int| 0 <= j < i ==> self.queue@[j] == stop_item(#[trigger] q0[j]),
                forall|j: int| i <= j < n ==> self.queue@[j] == #[trigger] q0[j],
                self.same_forms(old(self)),
                self.new_url == old(self).new_url,
                self.selected_playlist matches Some(k) ==> k < self.config.playlists@.len(),
            decreases n - i,
        {
            if self.queue[i].status == Status::Running {
                self.queue[i].status = Status::Pending;
            }
            i = i + 1;
        }
        assert(self.queue@ =~= stopped(q0));
        self.last_processed = Some("Processing stopped".to_owned());
        self.processing = false;
    }

    /// Whether every entry is done or failed.
    pub fn all_finished(&self) -> (r: bool)
        ensures
            r == all_finished(self.queue@),
    {
        let n: usize = self.queue.len();
        let mut i: usize = 0;
        while i < n
            invariant
                n == self.queue@.len(),
                0 <= i <= n,
                forall|j: int| 0 <= j < i ==> (#[trigger] self.queue@[j]).status.is_finished(),
            decreases n - i,
        {
            match self.queue[i].status {
                Status::Pending | Status::Running => {
                    return false;
                },
                _ => {},
            }
            i = i + 1;
        }
        true
    }

    /// After the worker's messages are handled: processing ends once no
    /// entry is pending or running.
    pub fn settle(&mut self)
        requires
            old(self).wf(),
        ensures
            final(self).wf(),
            final(self).processing == (old(self).processing && !all_finished(old(self).queue@)),
            final(self).queue == old(self).queue,
            final(self).last_processed == old(self).last_processed,
            final(self).new_url == old(self).new_url,
            final(self).same_forms(old(self)),
    {
        if self.all_finished() {
            self.processing = false;
        }
    }

    /// Checks the playlist typed into the form. When a rule is broken its
    /// message is shown and `None` returned; otherwise the trimmed playlist
    /// is returned and nothing changes yet (its folder is checked next).
    pub fn submit_playlist(&mut self) -> (r: Option<Playlist>)
        requires
            old(self).wf(),
        ensures
            final(self).wf(),
            r is None <==> new_playlist_error(
                old(self).config.playlists@,
                old(self).new_playlist_name@,
                old(self).new_playlist_path@,
            ) is Some,
            r matches Some(p) ==> (p.name@ == trimmed(old(self).new_playlist_name@) && p.path@
                == trimmed(old(self).new_playlist_path@) && *final(self) == *old(self)),
            r is None ==> (final(self).new_playlist_error matches Some(m) && m@ == error_message(
                new_playlist_error(
                    old(self).config.playlists@,
                    old(self).new_playlist_name@,
                    old(self).new_playlist_path@,
                ).unwrap(),
            )),
            final(self).config == old(self).config,
            final(self).new_playlist_name == old(self).new_playlist_name,
            final(self).new_playlist_path == old(self).new_playlist_path,
            final(self).selected_playlist == old(self).selected_playlist,
            final(self).same_queue_side(old(self)),
    {
        match self.config.check_new_playlist(
            self.new_playlist_name.as_str(),
            self.new_playlist_path.as_str(),
        ) {
            Ok(p) => Some(p),
            Err(e) => {
                self.reject_playlist(e);
                None
            },
        }
    }

    /// Shows why the playlist in the form was not added.
    pub fn reject_playlist(&mut self, e: PlaylistError)
        requires
            old(self).wf(),
        ensures
            final(self).wf(),
            final(self).new_playlist_error matches Some(m) && m@ == error_message(e),
            final(self).config == old(self).config,
            final(self).new_playlist_name == old(self).new_playlist_name,
            final(self).new_playlist_path == old(self).new_playlist_path,
            final(self).selected_playlist == old(self).selected_playlist,
            final(self).same_queue_side(old(self)),
    {
        self.new_playlist_error = Some(e.message().to_owned());
    }

    /// Adds a checked playlist whose folder exists, and clears the form.
    pub fn accept_playlist(&mut self, p: Playlist)
        requires
            old(self).wf(),
        ensures
            final(self).wf(),
            final(self).config.playlists@ == old(self).config.playlists@.push(p),
            final(self).new_playlist_name@.len() == 0,
            final(self).new_playlist_path@.len() == 0,
            final(self).new_playlist_error is None,
            final(self).selected_playlist == old(self).selected_playlist,
            final(self).same_queue_side(old(self)),
    {
        self.config.playlists.push(p);
        self.new_playlist_name = String::new();
        self.new_playlist_path = String::new();
        self.new_playlist_error = None;
    }

    /// Deletes playlist `i` and clears the selection.
    pub fn remove_playlist(&mut self, i: usize)
        requires
            old(self).wf(),
            i < old(self).config.playlists@.len(),
        ensures
            final(self).wf(),
            final(self).config.playlists@ == old(self).config.playlists@.remove(i as int),
            final(self).selected_playlist is None,
            final(self).same_queue_side(old(self)),
            final(self).new_playlist_name == old(self).new_playlist_name,
            final(self).new_playlist_path == old(self).new_playlist_path,
            final(self).new_playlist_error == old(self).new_playlist_error,
    {
        self.config.playlists.remove(i);
        self.selected_playlist = None;
    }

    /// Queues the link in the form for the selected playlist, in the
    /// selected format, and clears the link. Nothing happens unless a
    /// playlist is selected and the link is from a known source.
    pub fn add_to_queue(&mut self) -> (added: bool)
        requires
            old(self).wf(),
        ensures
            final(self).wf(),
            added == (old(self).selected_playlist is Some && source_of(old(self).new_url@)
                != Source::Unknown && old(self).new_url@.len() > 0),
            added ==> final(self).queue@ == old(self).queue@.push(
                new_entry(
                    old(self).new_url,
                    old(self).config.playlists@[old(self).selected_playlist.unwrap() as int].name,
                    old(self).selected_format,
                ),
            ) && final(self).new_url@.len() == 0,
            !added ==> final(self).queue == old(self).queue && final(self).new_url
                == old(self).new_url,
            final(self).processing == old(self).processing,
            final(self).last_processed == old(self).last_processed,
            final(self).same_forms(old(self)),
    {
        match self.selected_playlist {
            Some(id) => {
                let source = Source::from_url(self.new_url.as_str());
                if source != Source::Unknown && !self.new_url.as_str().is_empty() {
                    let name = self.config.playlists[id].name.clone();
                    let mut url = String::new();
                    std::mem::swap(&mut url, &mut self.new_url);
                    let item = QueueItem {
                        url,
                        playlist_name: name,
                        source,
                        status: Status::Pending,
                        format: self.selected_format,
                        error: None,
                    };
                    self.queue.push(item);
                    true
                } else {
                    false
                }
            },
            None => false,
        }
    }

    /// Whether entry `i` may be removed: any entry but a running one.
    pub fn removable(&self, i: usize) -> (r: bool)
        requires
            i < self.queue@.len(),
        ensures
            r == (self.queue@[i as int].status != Status::Running),
    {
        self.queue[i].status != Status::Running
    }

    /// Removes entry `i` from the queue.
    pub fn remove_from_queue(&mut self, i: usize)
        requires
            old(self).wf(),
            i < old(self).queue@.len(),
        ensures
            final(self).wf(),
            final(self).queue@ == old(self).queue@.remove(i as int),
            final(self).processing == old(self).processing,
            final(self).last_processed == old(self).last_processed,
            final(self).new_url == old(self).new_url,
            final(self).same_forms(old(self)),
    {
        self.queue.remove(i);
    }

    /// The progress shown while processing: entries done or failed, out of
    /// the queue's length (at least one).
    pub fn progress(&self) -> (r: (usize, usize))
        ensures
            r.0 == finished_count(self.queue@),
            r.1 == if self.queue@.len() == 0 {
                1
            } else {
                self.queue@.len()
            },
            r.0 <= r.1,
            r.0 == self.queue@.filter(
                |e: QueueItem| e.status == Status::Done || e.status == Status::Failed,
            ).len(),
    {
        proof {
            lemma_finished_count_counts_finished(self.queue@, self.queue@[0]);
        }
        let n: usize = self.queue.len();
        let mut done: usize = 0;
        let mut i: usize = 0;
        while i < n
            invariant
                n == self.queue@.len(),
                0 <= i <= n,
                done == finished_count(self.queue@.take(i as int)),
                done <= i,
            decreases n - i,
        {
            assert(self.queue@.take(i as int + 1).drop_last() =~= self.queue@.take(i as int));
            match self.queue[i].status {
                Status::Done | Status::Failed => {
                    done = done + 1;
                },
                _ => {},
            }
            i = i + 1;
        }
        assert(self.queue@.take(n as int) =~= self.queue@);
        let total: usize = if n == 0 {
            1
        } else {
            n
        };
        (done, total)
    }

    /// Whether the "Process Queue" button is enabled.
    pub fn can_process(&self) -> (r: bool)
        ensures
            r == (self.queue@.len() > 0 && !self.processing),
    {
        self.queue.len() > 0 && !self.processing
    }

    /// Whether the link in the form lets the user pick a format: only a
    /// Spotify link does.
    pub fn format_selectable(&self) -> (r: bool)
        ensures
            r == (source_of(self.new_url@) == Source::Spotify),
    {
        Source::from_url(self.new_url.as_str()).offers_format_choice()
    }

    /// Whether the link in the form is from a known source, so the add
    /// button is enabled.
    pub fn url_accepted(&self) -> (r: bool)
        ensures
            r == (source_of(self.new_url@) != Source::Unknown),
    {
        Source::from_url(self.new_url.as_str()) != Source::Unknown
    }

    /// The text of the playlist picker: the selected playlist's name, or
    /// "Select..." when none (or none that exists) is selected.
    pub fn selected_playlist_label(&self) -> (r: &str)
        ensures
            r@ == (match self.selected_playlist {
                Some(i) => if i < self.config.playlists@.len() {
                    self.config.playlists@[i as int].name@
                } else {
                    "Select..."@
                },
                None => "Select..."@,
            }),
    {
        match self.selected_playlist {
            Some(i) => if i < self.config.playlists.len() {
                self.config.playlists[i].name.as_str()
            } else {
                "Select..."
            },
            None => "Select...",
        }
    }
}

/// Starting processing and then stopping it, with no entry finishing in
/// between, gives back the queue as it was, whenever nothing was running
/// before the start (as holds whenever processing is off).
pub proof fn lemma_stop_undoes_start(q: Seq<QueueItem>)
    requires
        none_running(q),
    ensures
        stopped(started(q)) == q,
{
    assert forall|i: int| 0 <= i < q.len() implies stopped(started(q))[i] == q[i] by {
        assert(q[i].status != Status::Running);
    }
    assert(stopped(started(q)) =~= q);
}

/// When processing starts with nothing running, the entries that run are
/// exactly those that were pending; none is left pending; finished entries
/// are untouched; and an entry changes in nothing but its status.
pub proof fn lemma_start_runs_exactly_pending(q: Seq<QueueItem>, i: int)
    requires
        none_running(q),
        0 <= i < q.len(),
    ensures
        started(q).len() == q.len(),
        (started(q)[i].status == Status::Running) == (q[i].status == Status::Pending),
        started(q)[i].status != Status::Pending,
        q[i].status.is_finished() ==> started(q)[i] == q[i],
        started(q)[i] == with_status(q[i], started(q)[i].status),
{
    assert(q[i].status != Status::Running);
}

/// Starting and stopping processing never touch an entry that is done or
/// failed.
pub proof fn lemma_finished_entries_stay(it: QueueItem)
    requires
        it.status.is_finished(),
    ensures
        start_item(it) == it,
        stop_item(it) == it,
{
}

/// The progress count is the number of entries that are done or failed:
/// it equals the length of the queue filtered to those entries, so pending
/// and running entries never add to it, a queue without finished entries
/// counts zero, and appending an entry adds one exactly when that entry is
/// done or failed.
pub proof fn lemma_finished_count_counts_finished(q: Seq<QueueItem>, it: QueueItem)
    ensures
        finished_count(q) == q.filter(
            |e: QueueItem| e.status == Status::Done || e.status == Status::Failed,
        ).len(),
        finished_count(q) <= q.len(),
        (forall|i: int|
            0 <= i < q.len() ==> (#[trigger] q[i]).status == Status::Pending || q[i].status
                == Status::Running) ==> finished_count(q) == 0,
        finished_count(q.push(it)) == finished_count(q) + if it.status == Status::Done || it.status
            == Status::Failed {
            1int
        } else {
            0int
        },
    decreases q.len(),
{
    reveal(Seq::filter);
    let pred = |e: QueueItem| e.status == Status::Done || e.status == Status::Failed;
    if q.len() > 0 {
        lemma_finished_count_counts_finished(q.drop_last(), it);
        if forall|i: int|
            0 <= i < q.len() ==> (#[trigger] q[i]).status == Status::Pending || q[i].status
                == Status::Running {
            assert forall|i: int| 0 <= i < q.drop_last().len() implies (#[trigger] q.drop_last()[
                i
            ]).status == Status::Pending || q.drop_last()[i].status == Status::Running by {
                assert(q.drop_last()[i] == q[i]);
            }
            assert(q.last() == q[q.len() - 1]);
        }
    }
    assert(q.push(it).drop_last() =~= q);
}

/// A reported entry is done exactly when the run succeeded, failed
/// otherwise, records the reported error, and keeps its link, playlist,
/// source and format.
pub proof fn lemma_finish_entry_records_outcome(it: QueueItem, success: bool, error: Option<String>)
    ensures
        (finish_entry(it, success, error).status == Status::Done) == success,
        (finish_entry(it, success, error).status == Status::Failed) == !success,
        finish_entry(it, success, error).error == error,
        finish_entry(it, success, error).url == it.url,
        finish_entry(it, success, error).playlist_name == it.playlist_name,
        finish_entry(it, success, error).source == it.source,
        finish_entry(it, success, error).format == it.format,
{
}

/// A queued link becomes a pending entry with no error, for the given link,
/// playlist and format, whose source is read from the link.
pub proof fn lemma_new_entry_is_pending(url: String, name: String, format: AudioFormat)
    ensures
        new_entry(url, name, format).status == Status::Pending,
        new_entry(url, name, format).error is None,
        new_entry(url, name, format).url == url,
        new_entry(url, name, format).playlist_name == name,
        new_entry(url, name, format).format == format,
        new_entry(url, name, format).source == source_of(url@),
{
}

/// Processing counts as over exactly when every entry is done or failed:
/// one pending or running entry keeps it going.
pub proof fn lemma_all_finished_means_no_pending_or_running(q: Seq<QueueItem>)
    ensures
        all_finished(q) <==> forall|i: int|
            0 <= i < q.len() ==> (#[trigger] q[i]).status != Status::Pending && q[i].status
                != Status::Running,
{
    if !all_finished(q) {
        let i = choose|i: int| 0 <= i < q.len() && !(#[trigger] q[i]).status.is_finished();
        assert(q[i].status == Status::Pending || q[i].status == Status::Running);
    }
}

/// Adding a playlist that passed the form's checks keeps the playlist
/// names distinct, ignoring ASCII case.
pub proof fn lemma_accepted_names_stay_distinct(
    pl: Seq<Playlist>,
    name: Seq<char>,
    path: Seq<char>,
    p: Playlist,
)
    requires
        names_distinct(pl),
        new_playlist_error(pl, name, path) is None,
        p.name@ == trimmed(name),
    ensures
        names_distinct(pl.push(p)),
{
    let q = pl.push(p);
    assert forall|i: int, j: int|
        0 <= i < q.len() && 0 <= j < q.len() && i != j implies !eq_ignore_ascii_case(
        #[trigger] q[i].name@,
        #[trigger] q[j].name@,
    ) by {
        if i == pl.len() {
            assert(q[j] == pl[j]);
            if eq_ignore_ascii_case(q[i].name@, q[j].name@) {
                assert(eq_ignore_ascii_case(pl[j].name@, trimmed(name)));
                assert(name_taken(pl, trimmed(name)));
            }
        } else if j == pl.len() {
            assert(q[i] == pl[i]);
            if eq_ignore_ascii_case(q[i].name@, q[j].name@) {
                assert(eq_ignore_ascii_case(pl[i].name@, trimmed(name)));
                assert(name_taken(pl, trimmed(name)));
            }
        } else {
            assert(q[i] == pl[i] && q[j] == pl[j]);
        }
    }
}

} // verus!
