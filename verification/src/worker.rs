//! What the download worker decides: which program to run for an entry and
//! with which arguments, and whether a finished run counts as a success.

use vstd::prelude::*;

use crate::config::{target_dir_of, Config};
use crate::queue::{format_arg, QueueItem, Source, Status};
use crate::text::{has_substring, lines_of, str_contains, str_lines, str_trim, trimmed};

verus! {

/// A program to run and its arguments.
#[derive(Clone, Debug)]
pub struct CommandPlan {
    pub program: String,
    pub args: Vec<String>,
}

/// The characters of each string.
pub open spec fn strings_view(v: Seq<String>) -> Seq<Seq<char>> {
    v.map_values(|s: String| s@)
}

/// The characters of an optional string.
pub open spec fn opt_string_view(o: Option<String>) -> Option<Seq<char>> {
    match o {
        Some(s) => Some(s@),
        None => None,
    }
}

/// The file name pattern handed to spotdl: tracks go into `dir`, named
/// after artist and title.
pub open spec fn spotdl_output(dir: Seq<char>) -> Seq<char> {
    dir + "/{artist} - {title}.{output-ext}"@
}

/// The program and arguments that fetch `item` into `dir`: spotdl for a
/// Spotify link, in the entry's format; scdl for a SoundCloud link, named by
/// title; nothing for an unknown link.
pub open spec fn plan_of(item: QueueItem, dir: Seq<char>) -> Option<(Seq<char>, Seq<Seq<char>>)> {
    match item.source {
        Source::Spotify => Some(
            (
                "spotdl"@,
                seq![
                    "download"@,
                    item.url@,
                    "--format"@,
                    format_arg(item.format),
                    "--output"@,
                    spotdl_output(dir),
                ],
            ),
        ),
        Source::SoundCloud => Some(
            (
                "scdl"@,
                seq!["-l"@, item.url@, "--path"@, dir, "--name-format"@, "%(title)s"@],
            ),
        ),
        Source::Unknown => None,
    }
}

/// A plan seen as plain text.
pub open spec fn plan_view(p: Option<CommandPlan>) -> Option<(Seq<char>, Seq<Seq<char>>)> {
    match p {
        Some(c) => Some((c.program@, strings_view(c.args@))),
        None => None,
    }
}

fn push_str(v: &mut Vec<String>, s: &str)
    ensures
        strings_view(final(v)@) == strings_view(old(v)@).push(s@),
{
    v.push(s.to_owned());
    proof {
        assert(strings_view(v@) =~= strings_view(old(v)@).push(s@));
    }
}

/// The command that fetches `item` into `target_dir`, or `None` for a link
/// of unknown source.
pub fn plan_command(item: &QueueItem, target_dir: &str) -> (r: Option<CommandPlan>)
    ensures
        plan_view(r) == plan_of(*item, target_dir@),
{
    match item.source {
        Source::Spotify => {
            let mut args: Vec<String> = Vec::new();
            let mut output = target_dir.to_owned();
            output.append("/{artist} - {title}.{output-ext}");
            push_str(&mut args, "download");
            push_str(&mut args, item.url.as_str());
            push_str(&mut args, "--format");
            push_str(&mut args, item.format.spotdl_arg());
            push_str(&mut args, "--output");
            push_str(&mut args, output.as_str());
            proof {
                assert(strings_view(args@) =~= plan_of(*item, target_dir@).unwrap().1);
            }
            Some(CommandPlan { program: "spotdl".to_owned(), args })
        },
        Source::SoundCloud => {
            let mut args: Vec<String> = Vec::new();
            push_str(&mut args, "-l");
            push_str(&mut args, item.url.as_str());
            push_str(&mut args, "--path");
            push_str(&mut args, target_dir);
            push_str(&mut args, "--name-format");
            push_str(&mut args, "%(title)s");
            proof {
                assert(strings_view(args@) =~= plan_of(*item, target_dir@).unwrap().1);
            }
            Some(CommandPlan { program: "scdl".to_owned(), args })
        },
        Source::Unknown => None,
    }
}

/// The worker's step for entry `i` of its copy of the queue: a running entry
/// is fetched into its playlist's folder (looked up by exact name, the empty
/// folder when the playlist is gone); any other entry, and one of unknown
/// source, is skipped.
pub fn job_for(items: &Vec<QueueItem>, config: &Config, i: usize) -> (r: Option<CommandPlan>)
    requires
        i < items.len(),
    ensures
        plan_view(r) == (if items@[i as int].status == Status::Running {
            plan_of(
                items@[i as int],
                target_dir_of(config.playlists@, items@[i as int].playlist_name@),
            )
        } else {
            None
        }),
{
    let item = &items[i];
    match item.status {
        Status::Running => {
            let dir = config.target_dir(&item.playlist_name);
            plan_command(item, dir.as_str())
        },
        _ => None,
    }
}

/// The worker's next move.
#[derive(Clone, Debug)]
pub enum WorkerAction {
    /// Run `plan` for entry `index`.
    Run { index: usize, plan: CommandPlan },
    /// Stop; when `cancelled`, report that processing was stopped.
    Stop { cancelled: bool },
}

/// Entry `it` is one the worker fetches: it is running and its source is known.
pub open spec fn runnable(it: QueueItem) -> bool {
    it.status == Status::Running && it.source != Source::Unknown
}

/// Some entry of `items` at or after `from` is running.
pub open spec fn running_from(items: Seq<QueueItem>, from: int) -> bool {
    exists|j: int| from <= j < items.len() && (#[trigger] items[j]).status == Status::Running
}

/// Some entry of `items` at or after `from` is one the worker fetches.
pub open spec fn runnable_from(items: Seq<QueueItem>, from: int) -> bool {
    exists|j: int| from <= j < items.len() && runnable(#[trigger] items[j])
}

/// The worker's move when it has dealt with the entries before `from` of its
/// copy of the queue and `cancel_requested` says whether the user pressed
/// stop. With no running entry left it stops quietly; otherwise a stop
/// request ends it with a report; otherwise it runs the first running entry
/// of known source (entries of unknown source are passed over), in its
/// playlist's folder.
pub fn next_action(items: &Vec<QueueItem>, config: &Config, from: usize, cancel_requested: bool) -> (r:
    WorkerAction)
    ensures
        !running_from(items@, from as int) ==> r == (WorkerAction::Stop { cancelled: false }),
        running_from(items@, from as int) && cancel_requested ==> r == (WorkerAction::Stop {
            cancelled: true,
        }),
        running_from(items@, from as int) && !cancel_requested && !runnable_from(
            items@,
            from as int,
        ) ==> r == (WorkerAction::Stop { cancelled: false }),
        r matches WorkerAction::Run { index, plan } ==> {
            &&& !cancel_requested
            &&& from <= index < items@.len()
            &&& runnable(items@[index as int])
            &&& forall|j: int| from <= j < index ==> !runnable(#[trigger] items@[j])
            &&& plan_view(Some(plan)) == plan_of(
                items@[index as int],
                target_dir_of(config.playlists@, items@[index as int].playlist_name@),
            )
        },
        running_from(items@, from as int) && !cancel_requested && runnable_from(
            items@,
            from as int,
        ) ==> r is Run,
{
    let n: usize = items.len();
    let mut i: usize = from;
    let mut seen_running = false;
    while i < n
        invariant
            n == items@.len(),
            from <= i,
            seen_running ==> running_from(items@, from as int) && !cancel_requested,
            forall|j: int| from <= j < i ==> !runnable(#[trigger] items@[j]),
            !seen_running ==> forall|j: int|
                from <= j < i ==> (#[trigger] items@[j]).status != Status::Running,
        decreases n - i,
    {
        if items[i].status == Status::Running {
            if cancel_requested {
                return WorkerAction::Stop { cancelled: true };
            }
            seen_running = true;
            match job_for(items, config, i) {
                Some(plan) => {
                    return WorkerAction::Run { index: i, plan };
                },
                None => {},
            }
        }
        i = i + 1;
    }
    WorkerAction::Stop { cancelled: false }
}

/// What a finished run of a download program left behind.
#[derive(Clone, Debug)]
pub struct RunOutcome {
    /// Standard output, then standard error under a separator line.
    pub log: String,
    /// The first line of the log that reports an error, trimmed.
    pub error_line: Option<String>,
    /// Whether the entry counts as fetched.
    pub success: bool,
}

/// Standard output followed, when standard error is not empty, by a
/// separator line and standard error.
pub open spec fn combined_log(stdout: Seq<char>, stderr: Seq<char>) -> Seq<char> {
    if stderr.len() == 0 {
        stdout
    } else {
        stdout + "\n--- stderr ---\n"@ + stderr
    }
}

/// The log starts with everything printed on standard output and ends with
/// everything printed on standard error; it is standard output alone
/// exactly when standard error is empty.
pub proof fn lemma_log_keeps_both_streams(stdout: Seq<char>, stderr: Seq<char>)
    ensures
        combined_log(stdout, stderr).subrange(0, stdout.len() as int) == stdout,
        combined_log(stdout, stderr).subrange(
            combined_log(stdout, stderr).len() - stderr.len(),
            combined_log(stdout, stderr).len() as int,
        ) == stderr,
        stderr.len() == 0 <==> combined_log(stdout, stderr) == stdout,
        stderr.len() > 0 ==> combined_log(stdout, stderr).len() > stdout.len() + stderr.len(),
{
    let l = combined_log(stdout, stderr);
    assert(l.subrange(0, stdout.len() as int) =~= stdout);
    assert(l.subrange(l.len() - stderr.len(), l.len() as int) =~= stderr);
    reveal_strlit("\n--- stderr ---\n");
    if stderr.len() > 0 {
        assert(l.len() != stdout.len());
    }
}

/// The first of `lines` that contains `ERROR:`, trimmed.
pub open spec fn first_error_line(lines: Seq<Seq<char>>) -> Option<Seq<char>>
    decreases lines.len(),
{
    if lines.len() == 0 {
        None
    } else if has_substring(lines[0], "ERROR:"@) {
        Some(trimmed(lines[0]))
    } else {
        first_error_line(lines.drop_first())
    }
}

proof fn lemma_first_error_line_step(lines: Seq<Seq<char>>, i: int)
    requires
        0 <= i < lines.len(),
        !has_substring(lines[i], "ERROR:"@),
    ensures
        first_error_line(lines.skip(i)) == first_error_line(lines.skip(i + 1)),
{
    assert(lines.skip(i).drop_first() =~= lines.skip(i + 1));
}

/// The first line that contains `ERROR:`, trimmed, or `None` when no line
/// does.
pub fn find_error_line(lines: &Vec<String>) -> (r: Option<String>)
    ensures
        opt_string_view(r) == first_error_line(strings_view(lines@)),
        r is Some <==> exists|k: int|
            0 <= k < lines@.len() && has_substring(#[trigger] lines@[k]@, "ERROR:"@),
{
    proof {
        lemma_error_line_is_first_match(strings_view(lines@));
        assert forall|k: int| 0 <= k < lines@.len() implies #[trigger] lines@[k]@ == strings_view(
            lines@,
        )[k] by {}
        if exists|k: int| 0 <= k < lines@.len() && has_substring(#[trigger] lines@[k]@, "ERROR:"@) {
            let k = choose|k: int|
                0 <= k < lines@.len() && has_substring(#[trigger] lines@[k]@, "ERROR:"@);
            assert(strings_view(lines@)[k] == lines@[k]@);
        }
    }
    let ghost all = strings_view(lines@);
    let n: usize = lines.len();
    let mut i: usize = 0;
    assert(all.skip(0) =~= all);
    while i < n
        invariant
            n == lines.len(),
            all == strings_view(lines@),
            0 <= i <= n,
            first_error_line(all) == first_error_line(all.skip(i as int)),
        decreases n - i,
    {
        let line = lines[i].as_str();
        if str_contains(line, "ERROR:") {
            return Some(str_trim(line).to_owned());
        }
        proof {
            lemma_first_error_line_step(all, i as int);
        }
        i = i + 1;
    }
    None
}

/// Judges a finished run from what it printed, whether it exited with
/// success, and whether it was stopped. Exit status alone is not trusted:
/// a run that printed an `ERROR:` line failed even when it exited with
/// success.
pub fn judge_run(stdout: &str, stderr: &str, exited_ok: bool, cancelled: bool) -> (r: RunOutcome)
    ensures
        r.log@ == combined_log(stdout@, stderr@),
        opt_string_view(r.error_line) == first_error_line(lines_of(r.log@)),
        r.success == (!cancelled && exited_ok && r.error_line is None),
        r.success ==> forall|k: int|
            0 <= k < lines_of(r.log@).len() ==> !has_substring(
                #[trigger] lines_of(r.log@)[k],
                "ERROR:"@,
            ),
{
    let mut log = stdout.to_owned();
    if !stderr.is_empty() {
        log.append("\n--- stderr ---\n");
        log.append(stderr);
    }
    let lines = str_lines(log.as_str());
    proof {
        assert(strings_view(lines@) =~= lines_of(log@));
    }
    let error_line = find_error_line(&lines);
    proof {
        lemma_error_line_is_first_match(lines_of(log@));
    }
    let success = !cancelled && exited_ok && error_line.is_none();
    RunOutcome { log, error_line, success }
}

/// A Spotify entry is fetched by spotdl with the entry's link, the
/// `--format` flag immediately followed by the spotdl name of the entry's
/// format (whatever the format), and the output pattern inside the
/// playlist's folder.
pub proof fn lemma_spotify_plan_passes_format(item: QueueItem, dir: Seq<char>)
    requires
        item.source == Source::Spotify,
    ensures
        plan_of(item, dir) is Some,
        plan_of(item, dir).unwrap().0 == "spotdl"@,
        plan_of(item, dir).unwrap().1.len() == 6,
        plan_of(item, dir).unwrap().1[0] == "download"@,
        plan_of(item, dir).unwrap().1[1] == item.url@,
        plan_of(item, dir).unwrap().1[2] == "--format"@,
        plan_of(item, dir).unwrap().1[3] == format_arg(item.format),
        plan_of(item, dir).unwrap().1[4] == "--output"@,
        plan_of(item, dir).unwrap().1[5] == dir + "/{artist} - {title}.{output-ext}"@,
        plan_of(item, dir).unwrap().1[5].subrange(0, dir.len() as int) == dir,
{
    let out = plan_of(item, dir).unwrap().1[5];
    assert(out.subrange(0, dir.len() as int) =~= dir);
}

/// A SoundCloud entry is fetched by scdl with the entry's link, the
/// playlist's folder as path, and tracks named by title.
pub proof fn lemma_soundcloud_plan(item: QueueItem, dir: Seq<char>)
    requires
        item.source == Source::SoundCloud,
    ensures
        plan_of(item, dir) is Some,
        plan_of(item, dir).unwrap().0 == "scdl"@,
        plan_of(item, dir).unwrap().1.len() == 6,
        plan_of(item, dir).unwrap().1[0] == "-l"@,
        plan_of(item, dir).unwrap().1[1] == item.url@,
        plan_of(item, dir).unwrap().1[2] == "--path"@,
        plan_of(item, dir).unwrap().1[3] == dir,
        plan_of(item, dir).unwrap().1[4] == "--name-format"@,
        plan_of(item, dir).unwrap().1[5] == "%(title)s"@,
{
}

/// Two Spotify entries that differ only in their format get the same
/// command except for the value after `--format`, and distinct formats give
/// distinct values there.
pub proof fn lemma_format_changes_only_format_arg(a: QueueItem, b: QueueItem, dir: Seq<char>)
    requires
        a.source == Source::Spotify,
        b.source == Source::Spotify,
        a.url == b.url,
        a.format != b.format,
    ensures
        plan_of(a, dir).unwrap().0 == plan_of(b, dir).unwrap().0,
        forall|k: int|
            0 <= k < 6 && k != 3 ==> plan_of(a, dir).unwrap().1[k] == plan_of(b, dir).unwrap().1[k],
        plan_of(a, dir).unwrap().1[3] != plan_of(b, dir).unwrap().1[3],
{
    reveal_strlit("flac");
    reveal_strlit("mp3");
    reveal_strlit("opus");
    reveal_strlit("m4a");
    reveal_strlit("ogg");
    reveal_strlit("wav");
    let fa = format_arg(a.format);
    let fb = format_arg(b.format);
    assert(fa.len() != fb.len() || fa[0] != fb[0] || fa[1] != fb[1]);
}

/// The error line is found exactly when some line contains `ERROR:`
/// anywhere in it, and it is then the first such line, trimmed.
pub proof fn lemma_error_line_is_first_match(lines: Seq<Seq<char>>)
    ensures
        first_error_line(lines) is Some <==> exists|k: int|
            0 <= k < lines.len() && has_substring(#[trigger] lines[k], "ERROR:"@),
        forall|k: int|
            0 <= k < lines.len() && has_substring(#[trigger] lines[k], "ERROR:"@) && (forall|j: int|
                0 <= j < k ==> !has_substring(#[trigger] lines[j], "ERROR:"@)) ==> first_error_line(
                lines,
            ) == Some(trimmed(lines[k])),
    decreases lines.len(),
{
    if lines.len() > 0 {
        let rest = lines.drop_first();
        lemma_error_line_is_first_match(rest);
        assert forall|k: int|
            0 <= k < lines.len() && has_substring(#[trigger] lines[k], "ERROR:"@) && (forall|j: int|
                0 <= j < k ==> !has_substring(#[trigger] lines[j], "ERROR:"@)) implies first_error_line(
            lines,
        ) == Some(trimmed(lines[k])) by {
            if k > 0 {
                assert(!has_substring(lines[0], "ERROR:"@));
                assert(rest[k - 1] == lines[k]);
                assert forall|j: int| 0 <= j < k - 1 implies !has_substring(
                    #[trigger] rest[j],
                    "ERROR:"@,
                ) by {
                    assert(rest[j] == lines[j + 1]);
                }
            }
        }
        if exists|k: int| 0 <= k < lines.len() && has_substring(#[trigger] lines[k], "ERROR:"@) {
            let k = choose|k: int| 0 <= k < lines.len() && has_substring(#[trigger] lines[k], "ERROR:"@);
            if k > 0 && !has_substring(lines[0], "ERROR:"@) {
                assert(rest[k - 1] == lines[k]);
            }
        }
        if exists|k: int| 0 <= k < rest.len() && has_substring(#[trigger] rest[k], "ERROR:"@) {
            let k = choose|k: int| 0 <= k < rest.len() && has_substring(#[trigger] rest[k], "ERROR:"@);
            assert(lines[k + 1] == rest[k]);
        }
    }
}

/// A run whose log has a line containing `ERROR:` anywhere has an error
/// line, so it is never judged a success.
pub proof fn lemma_error_in_log_means_failure(log: Seq<char>, k: int)
    requires
        0 <= k < lines_of(log).len(),
        has_substring(lines_of(log)[k], "ERROR:"@),
    ensures
        first_error_line(lines_of(log)) is Some,
{
    lemma_error_line_is_first_match(lines_of(log));
}

/// The word that opens the status message for a finished entry.
pub fn outcome_verb(success: bool) -> (r: &'static str)
    ensures
        r@ == (if success {
            "Processed"@
        } else {
            "Failed"@
        }),
{
    if success {
        "Processed"
    } else {
        "Failed"
    }
}

} // verus!
