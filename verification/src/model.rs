//! What a request does to a cache folder, when every action is performed
//! faithfully: a model of the files and of the remote, the run of an
//! operation in it, and what holds of such runs.

use crate::cache::BTCache;
use crate::encoding::{base64_bytes, lemma_base64_round_trip, Alphabet};
use crate::error::CacheError;
use crate::protocol::{
    ActionView, CacheFileView, EventView, FetchOutcome, Goal, OperationView, OutputView,
    Presence, ProgressView, Stage,
};
use crate::transport::is_absolute_url;
use vstd::prelude::*;

verus! {

/// The files of the cache folder, each with its bytes.
pub struct Files {
    pub content: Map<CacheFileView, Seq<u8>>,
}

/// The remote: the body that answers a GET request to a URL with a token.
/// A request that has no entry fails.
pub struct Remote {
    pub bodies: Map<(Seq<char>, Option<Seq<char>>), Seq<u8>>,
}

impl Files {
    /// Whether the file exists.
    pub open spec fn holds(self, file: CacheFileView) -> bool {
        self.content.contains_key(file)
    }

    /// The files after `action` was performed, and the event that reports on
    /// it. An existence check answers truly, a fetch writes the whole body
    /// where the remote gives one, a deletion fails where there is no file,
    /// and so does reading.
    pub open spec fn perform(self, remote: Remote, action: ActionView) -> (Files, EventView) {
        match action {
            ActionView::Probe { file } => (
                self,
                EventView::Probed(
                    if self.holds(file) {
                        Presence::Present
                    } else {
                        Presence::Absent
                    },
                ),
            ),
            ActionView::Fetch { url, token, file, probe_failed } => if remote.bodies.contains_key(
                (url, token),
            ) {
                (
                    Files { content: self.content.insert(file, remote.bodies[(url, token)]) },
                    EventView::Fetched(FetchOutcome::Stored),
                )
            } else {
                (self, EventView::Fetched(FetchOutcome::TransportFailed))
            },
            ActionView::Remove { file } => if self.holds(file) {
                (Files { content: self.content.remove(file) }, EventView::Removed(true))
            } else {
                (self, EventView::Removed(false))
            },
            ActionView::Load { file } => (
                self,
                EventView::Loaded(
                    if self.holds(file) {
                        Some(self.content[file])
                    } else {
                        None
                    },
                ),
            ),
        }
    }
}

/// A request that was run to its end.
pub struct Run {
    /// How the request ended.
    pub result: Result<OutputView, CacheError>,
    /// The files after it.
    pub files: Files,
    /// The actions that were performed for it, in their order.
    pub actions: Seq<ActionView>,
}

/// The greatest number of actions that an operation at `stage` still asks for.
pub open spec fn actions_left(stage: Stage) -> nat {
    match stage {
        Stage::ProbingForRemoval => 5,
        Stage::Removing => 4,
        Stage::ProbingForFetch => 3,
        Stage::Fetching { .. } => 2,
        Stage::Loading => 1,
    }
}

/// The run of `op` on `files`: each action that the operation asks for is
/// performed, and its event handed back, until the request has ended.
pub open spec fn run(op: OperationView, files: Files, remote: Remote) -> Run
    decreases actions_left(op.stage),
{
    let action = op.action();
    let (after, event) = files.perform(remote, action);
    match op.step(event) {
        ProgressView::Finished(result) => Run { result, files: after, actions: seq![action] },
        ProgressView::Pending(next) => {
            let rest = run(next, after, remote);
            Run { result: rest.result, files: rest.files, actions: seq![action] + rest.actions }
        },
    }
}

/// Every report on the action that an operation asked for moves the request
/// on: it ends, or it is left with fewer actions to ask for. A report on
/// another action leaves the operation as it was. So a request ends after
/// five actions at most, whatever is reported.
pub proof fn lemma_every_answer_moves_on(op: OperationView, event: EventView)
    ensures
        op.awaits(event) ==> (op.step(event) matches ProgressView::Pending(next)
            ==> actions_left(next.stage) < actions_left(op.stage) && next == op.at(next.stage)),
        !op.awaits(event) ==> op.step(event) == ProgressView::Pending(op),
{
}

/// Performing an action yields a report on that action.
pub proof fn lemma_perform_answers(op: OperationView, files: Files, remote: Remote)
    ensures
        op.awaits(files.perform(remote, op.action()).1),
{
}

/// Once the path of a key's file was handed out, asking again gives the same
/// path with one existence check and nothing else: nothing is fetched, the
/// files stay as they are, and neither the source, the token nor the state of
/// the remote matters any more.
pub proof fn lemma_hit_needs_no_fetch(
    cache: BTCache,
    key: Seq<char>,
    url: Seq<char>,
    token: Option<Seq<char>>,
    files: Files,
    remote: Remote,
    later_url: Seq<char>,
    later_token: Option<Seq<char>>,
    later_remote: Remote,
)
    requires
        run(cache.request(Goal::Locate, url, key, token), files, remote).result is Ok,
    ensures
        ({
            let first = run(cache.request(Goal::Locate, url, key, token), files, remote);
            let second = run(
                cache.request(Goal::Locate, later_url, key, later_token),
                first.files,
                later_remote,
            );
            &&& second.result == first.result
            &&& second.files == first.files
            &&& second.actions == seq![ActionView::Probe { file: cache.slot(key) }]
        }),
{
    reveal_with_fuel(run, 3);
}

/// A key whose slot is empty is fetched exactly once: after the existence
/// check comes one fetch, from the source and with the token of the request,
/// and no further action. The request succeeds exactly when the source is a
/// valid URL, the remote answers and the path has a text; the file then holds
/// the bytes that were fetched. A source that is no valid URL ends the
/// request before anything is fetched.
pub proof fn lemma_miss_fetches_once(
    cache: BTCache,
    key: Seq<char>,
    url: Seq<char>,
    token: Option<Seq<char>>,
    files: Files,
    remote: Remote,
)
    requires
        !files.holds(cache.slot(key)),
    ensures
        ({
            let file = cache.slot(key);
            let done = run(cache.request(Goal::Locate, url, key, token), files, remote);
            &&& is_absolute_url(url) ==> done.actions == seq![
                ActionView::Probe { file },
                ActionView::Fetch { url, token, file, probe_failed: false },
            ]
            &&& !is_absolute_url(url) ==> done.actions == seq![ActionView::Probe { file }]
                && done.result == Err::<OutputView, CacheError>(CacheError::InvalidSource)
                && done.files == files
            &&& done.result is Ok <==> is_absolute_url(url) && remote.bodies.contains_key(
                (url, token),
            ) && file.path() is Some
            &&& done.result is Ok ==> done.result == Ok::<OutputView, CacheError>(
                OutputView::Path(file.path().unwrap()),
            ) && done.files.holds(file) && done.files.content[file] == remote.bodies[(url, token)]
        }),
{
    reveal_with_fuel(run, 3);
}

/// Invalidating a key that has no cached file fails with `NotFound`, after
/// one existence check, and changes nothing.
pub proof fn lemma_invalidate_absent_fails(
    cache: BTCache,
    key: Seq<char>,
    files: Files,
    remote: Remote,
)
    requires
        !files.holds(cache.slot(key)),
    ensures
        ({
            let done = run(cache.request(Goal::Invalidate, key, key, None), files, remote);
            &&& done.result == Err::<OutputView, CacheError>(CacheError::NotFound)
            &&& done.files == files
            &&& done.actions == seq![ActionView::Probe { file: cache.slot(key) }]
        }),
{
    reveal_with_fuel(run, 2);
}

/// Invalidating a cached key deletes its file, so that a second invalidation
/// fails with `NotFound`, and a request for the path that follows fetches
/// anew: where the source is a valid URL it performs one existence check and
/// one fetch, and where the remote answers it succeeds and leaves the fetched
/// bytes in the file. A file whose path has no text is not deleted: the
/// invalidation fails with `PathEncoding`.
pub proof fn lemma_invalidate_then_fetch(
    cache: BTCache,
    key: Seq<char>,
    url: Seq<char>,
    token: Option<Seq<char>>,
    files: Files,
    remote: Remote,
)
    requires
        files.holds(cache.slot(key)),
    ensures
        ({
            let file = cache.slot(key);
            let gone = run(cache.request(Goal::Invalidate, key, key, None), files, remote);
            let twice = run(cache.request(Goal::Invalidate, key, key, None), gone.files, remote);
            let again = run(cache.request(Goal::Locate, url, key, token), gone.files, remote);
            &&& file.path() is None ==> gone.result == Err::<OutputView, CacheError>(
                CacheError::PathEncoding,
            ) && gone.files == files
            &&& file.path() is Some ==> {
                &&& gone.result == Ok::<OutputView, CacheError>(OutputView::Invalidated)
                &&& gone.actions == seq![ActionView::Probe { file }, ActionView::Remove { file }]
                &&& gone.files.content == files.content.remove(file)
                &&& twice.result == Err::<OutputView, CacheError>(CacheError::NotFound)
                &&& is_absolute_url(url) ==> again.actions == seq![
                    ActionView::Probe { file },
                    ActionView::Fetch { url, token, file, probe_failed: false },
                ]
                &&& is_absolute_url(url) && remote.bodies.contains_key((url, token))
                    ==> again.result == Ok::<OutputView, CacheError>(
                    OutputView::Path(file.path().unwrap()),
                ) && again.files.holds(file) && again.files.content[file] == remote.bodies[(
                    url,
                    token,
                )]
            }
        }),
{
    reveal_with_fuel(run, 3);
    let gone = run(cache.request(Goal::Invalidate, key, key, None), files, remote);
    if cache.slot(key).path() is Some {
        lemma_invalidate_absent_fails(cache, key, gone.files, remote);
        lemma_miss_fetches_once(cache, key, url, token, gone.files, remote);
    }
}

/// Refreshing a cached key performs exactly one deletion and then exactly one
/// fetch, whatever source it is given, provided the source is a valid URL:
/// existence check, deletion, existence check, fetch. It succeeds exactly
/// when the remote answers, and the file then holds the fetched bytes. With a
/// source that is no valid URL the file is deleted and nothing is fetched.
/// A file whose path has no text is left alone: the request fails with
/// `PathEncoding`.
pub proof fn lemma_refresh_deletes_then_fetches(
    cache: BTCache,
    key: Seq<char>,
    url: Seq<char>,
    token: Option<Seq<char>>,
    files: Files,
    remote: Remote,
)
    requires
        files.holds(cache.slot(key)),
    ensures
        ({
            let file = cache.slot(key);
            let done = run(cache.request(Goal::Refresh, url, key, token), files, remote);
            &&& file.path() is None ==> done.result == Err::<OutputView, CacheError>(
                CacheError::PathEncoding,
            ) && done.files == files
            &&& file.path() is Some ==> {
                &&& is_absolute_url(url) ==> done.actions == seq![
                    ActionView::Probe { file },
                    ActionView::Remove { file },
                    ActionView::Probe { file },
                    ActionView::Fetch { url, token, file, probe_failed: false },
                ]
                &&& !is_absolute_url(url) ==> done.actions == seq![
                    ActionView::Probe { file },
                    ActionView::Remove { file },
                    ActionView::Probe { file },
                ] && done.result == Err::<OutputView, CacheError>(CacheError::InvalidSource)
                    && done.files.content == files.content.remove(file)
                &&& done.result is Ok <==> is_absolute_url(url) && remote.bodies.contains_key(
                    (url, token),
                )
                &&& done.result is Ok ==> done.result == Ok::<OutputView, CacheError>(
                    OutputView::Path(file.path().unwrap()),
                ) && done.files.holds(file) && done.files.content[file] == remote.bodies[(
                    url,
                    token,
                )]
            }
        }),
{
    reveal_with_fuel(run, 5);
}

/// Refreshing a key that has no cached file fails with `NotFound` and
/// fetches nothing.
pub proof fn lemma_refresh_absent_fails(
    cache: BTCache,
    key: Seq<char>,
    url: Seq<char>,
    token: Option<Seq<char>>,
    files: Files,
    remote: Remote,
)
    requires
        !files.holds(cache.slot(key)),
    ensures
        ({
            let done = run(cache.request(Goal::Refresh, url, key, token), files, remote);
            &&& done.result == Err::<OutputView, CacheError>(CacheError::NotFound)
            &&& done.files == files
            &&& done.actions == seq![ActionView::Probe { file: cache.slot(key) }]
        }),
{
    reveal_with_fuel(run, 2);
}

/// The content that a request hands out is the standard base64 text of the
/// bytes in the key's file: decoded, it gives exactly those bytes.
pub proof fn lemma_content_decodes_to_file(
    cache: BTCache,
    key: Seq<char>,
    url: Seq<char>,
    token: Option<Seq<char>>,
    files: Files,
    remote: Remote,
)
    ensures
        ({
            let file = cache.slot(key);
            let done = run(cache.request(Goal::Load, url, key, token), files, remote);
            done.result matches Ok(output) ==> output matches OutputView::Content(text)
                && done.files.holds(file) && base64_bytes(text, Alphabet::Standard, true) == Some(
                done.files.content[file],
            )
        }),
{
    reveal_with_fuel(run, 4);
    let done = run(cache.request(Goal::Load, url, key, token), files, remote);
    if done.result is Ok {
        lemma_base64_round_trip(done.files.content[cache.slot(key)], Alphabet::Standard, true);
    }
}

} // verus!
