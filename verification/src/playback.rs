//! Folder playback: the queue that plays the messages of a folder one at a
//! time, moving on when the current message is reported done.

use vstd::prelude::*;
use crate::models::{messages_view, MessageConfig, MessageView};
use crate::text::{clone_texts, str_eq, texts};

verus! {

/// The mathematical value of a [`FolderPlaybackQueue`].
pub struct QueueView {
    pub folder_id: Seq<char>,
    pub message_ids: Seq<Seq<char>>,
    pub current_index: nat,
}

/// The messages of a folder that are being played, and how far the playing
/// has come.
#[derive(Debug, PartialEq, Eq)]
pub struct FolderPlaybackQueue {
    pub folder_id: String,
    pub message_ids: Vec<String>,
    pub current_index: usize,
}

impl View for FolderPlaybackQueue {
    type V = QueueView;

    open spec fn view(&self) -> QueueView {
        QueueView {
            folder_id: self.folder_id@,
            message_ids: texts(self.message_ids@),
            current_index: self.current_index as nat,
        }
    }
}

/// The value of a queue that may be absent.
pub open spec fn opt_queue(queue: Option<FolderPlaybackQueue>) -> Option<QueueView> {
    match queue {
        Some(q) => Some(q@),
        None => None,
    }
}

impl QueueView {
    /// A queue that is present points at one of its messages.
    pub open spec fn valid(self) -> bool {
        self.current_index < self.message_ids.len()
    }

    /// The id of the message that is being played.
    pub open spec fn current(self) -> Option<Seq<char>> {
        if self.current_index < self.message_ids.len() {
            Some(self.message_ids[self.current_index as int])
        } else {
            None
        }
    }
}

/// Whether a queue that may be absent is valid.
pub open spec fn valid_queue(queue: Option<QueueView>) -> bool {
    queue matches Some(q) ==> q.valid()
}

/// The queue after a folder with the given messages is started: a folder
/// without messages changes nothing, any other replaces whatever was played.
pub open spec fn started(
    queue: Option<QueueView>,
    folder_id: Seq<char>,
    message_ids: Seq<Seq<char>>,
) -> Option<QueueView> {
    if message_ids.len() == 0 {
        queue
    } else {
        Some(QueueView { folder_id, message_ids, current_index: 0 })
    }
}

/// Whether a report that `message_id` is done moves the queue: only where it
/// names the message that is being played.
pub open spec fn applies(queue: Option<QueueView>, message_id: Seq<char>) -> bool {
    queue matches Some(q) && q.current() == Some(message_id)
}

/// The queue after a report that `message_id` is done. A report that does not
/// apply changes nothing. One that applies moves to the next message, and
/// ends the queue after the last.
pub open spec fn advanced(queue: Option<QueueView>, message_id: Seq<char>) -> Option<QueueView> {
    if applies(queue, message_id) {
        let q = queue->0;
        if q.current_index + 1 < q.message_ids.len() {
            Some(QueueView { current_index: q.current_index + 1, ..q })
        } else {
            None
        }
    } else {
        queue
    }
}

/// The id of the message to play after a report that `message_id` is done:
/// the next of the queue, where the report applies and there is a next.
pub open spec fn next_after(queue: Option<QueueView>, message_id: Seq<char>) -> Option<Seq<char>> {
    if applies(queue, message_id) && queue->0.current_index + 1 < queue->0.message_ids.len() {
        Some(queue->0.message_ids[(queue->0.current_index + 1) as int])
    } else {
        None
    }
}

/// What can happen to the playback of a folder.
pub enum PlaybackEvent {
    /// A folder with the given id and messages is started.
    Start(Seq<char>, Seq<Seq<char>>),
    /// The message with the given id is reported done, or was stopped by hand.
    Done(Seq<char>),
    /// The playback is cancelled.
    Cancel,
}

/// The queue after one event.
pub open spec fn step(queue: Option<QueueView>, event: PlaybackEvent) -> Option<QueueView> {
    match event {
        PlaybackEvent::Start(folder_id, message_ids) => started(queue, folder_id, message_ids),
        PlaybackEvent::Done(message_id) => advanced(queue, message_id),
        PlaybackEvent::Cancel => None,
    }
}

/// The queue after a run of events.
pub open spec fn run(queue: Option<QueueView>, events: Seq<PlaybackEvent>) -> Option<QueueView>
    decreases events.len(),
{
    if events.len() == 0 {
        queue
    } else {
        step(run(queue, events.drop_last()), events.last())
    }
}

/// Whether every event of a run is a report that a message is done.
pub open spec fn only_reports(events: Seq<PlaybackEvent>) -> bool {
    forall|i: int| 0 <= i < events.len() ==> (#[trigger] events[i]) is Done
}

/// Whatever happens, a queue that is present points at one of its messages:
/// the index never reaches the number of messages while the queue exists.
pub proof fn lemma_run_valid(queue: Option<QueueView>, events: Seq<PlaybackEvent>)
    requires
        valid_queue(queue),
    ensures
        valid_queue(run(queue, events)),
    decreases events.len(),
{
    if events.len() > 0 {
        lemma_run_valid(queue, events.drop_last());
    }
}

/// While messages are reported done, the queue stays the same folder with the
/// same messages, and its index never goes back; the queue ends only after
/// its last message.
pub proof fn lemma_reports_monotonic(queue: Option<QueueView>, events: Seq<PlaybackEvent>)
    requires
        valid_queue(queue),
        only_reports(events),
    ensures
        match run(queue, events) {
            Some(after) => queue matches Some(before) && after.folder_id == before.folder_id
                && after.message_ids == before.message_ids && before.current_index
                <= after.current_index < after.message_ids.len(),
            None => true,
        },
    decreases events.len(),
{
    if events.len() > 0 {
        let front = events.drop_last();
        assert(forall|i: int| 0 <= i < front.len() ==> front[i] == events[i]);
        lemma_reports_monotonic(queue, front);
        assert(events.last() is Done);
    }
}

/// One report moves the index by at most one, and only a report on the last
/// message ends the queue.
pub proof fn lemma_advanced_step(queue: Option<QueueView>, message_id: Seq<char>)
    requires
        valid_queue(queue),
    ensures
        match (queue, advanced(queue, message_id)) {
            (Some(before), Some(after)) => after.folder_id == before.folder_id
                && after.message_ids == before.message_ids && (after.current_index
                == before.current_index || after.current_index == before.current_index + 1)
                && after.valid(),
            (Some(before), None) => applies(queue, message_id) && before.current_index + 1
                == before.message_ids.len(),
            (None, after) => after is None,
        },
{
}

/// A report on a message that is not the one being played changes nothing.
pub proof fn lemma_stale_report(queue: Option<QueueView>, message_id: Seq<char>)
    requires
        !applies(queue, message_id),
    ensures
        advanced(queue, message_id) == queue,
        next_after(queue, message_id) is None,
{
}

/// A report that is repeated after it moved the queue changes nothing more,
/// unless the next message has the same id.
pub proof fn lemma_repeated_report(queue: Option<QueueView>, message_id: Seq<char>)
    requires
        applies(queue, message_id),
        next_after(queue, message_id) != Some(message_id),
    ensures
        advanced(advanced(queue, message_id), message_id) == advanced(queue, message_id),
{
}

/// The position of the first message with the given id.
pub open spec fn find_message_index(messages: Seq<MessageView>, id: Seq<char>) -> Option<int>
    decreases messages.len(),
{
    if messages.len() == 0 {
        None
    } else if messages.last().id == id && find_message_index(messages.drop_last(), id) is None {
        Some(messages.len() - 1)
    } else {
        find_message_index(messages.drop_last(), id)
    }
}

/// The first message with the given id.
pub open spec fn find_message(messages: Seq<MessageView>, id: Seq<char>) -> Option<MessageView> {
    match find_message_index(messages, id) {
        Some(i) => Some(messages[i]),
        None => None,
    }
}

/// What `find_message_index` finds: the first position with the id, or
/// nothing where no message has it.
pub proof fn lemma_find_message_index(messages: Seq<MessageView>, id: Seq<char>)
    ensures
        match find_message_index(messages, id) {
            Some(i) => 0 <= i < messages.len() && messages[i].id == id && forall|j: int|
                0 <= j < i ==> (#[trigger] messages[j]).id != id,
            None => forall|j: int| 0 <= j < messages.len() ==> (#[trigger] messages[j]).id != id,
        },
    decreases messages.len(),
{
    if messages.len() > 0 {
        let front = messages.drop_last();
        lemma_find_message_index(front, id);
        assert(forall|j: int| 0 <= j < front.len() ==> front[j] == messages[j]);
    }
}

/// A copy of the first message with the given id.
pub fn lookup_message(messages: &Vec<MessageConfig>, id: &str) -> (found: Option<MessageConfig>)
    ensures
        match found {
            Some(m) => find_message(messages_view(messages@), id@) == Some(m@),
            None => find_message(messages_view(messages@), id@) is None,
        },
{
    let mut i: usize = 0;
    while i < messages.len()
        invariant
            i <= messages.len(),
            forall|j: int| 0 <= j < i ==> (#[trigger] messages_view(messages@)[j]).id != id@,
        decreases messages.len() - i,
    {
        if str_eq(messages[i].id.as_str(), id) {
            proof {
                lemma_find_message_index(messages_view(messages@), id@);
                assert(messages_view(messages@)[i as int].id == id@);
            }
            return Some(messages[i].clone());
        }
        i += 1;
    }
    proof {
        lemma_find_message_index(messages_view(messages@), id@);
    }
    None
}

impl Clone for FolderPlaybackQueue {
    /// A copy with the same value.
    fn clone(&self) -> (copy: FolderPlaybackQueue)
        ensures
            copy@ == self@,
    {
        FolderPlaybackQueue {
            folder_id: self.folder_id.clone(),
            message_ids: clone_texts(&self.message_ids),
            current_index: self.current_index,
        }
    }
}

/// Copies a queue that may be absent.
pub fn clone_opt_queue(queue: &Option<FolderPlaybackQueue>) -> (copy: Option<FolderPlaybackQueue>)
    ensures
        opt_queue(copy) == opt_queue(*queue),
{
    match queue {
        Some(q) => Some(q.clone()),
        None => None,
    }
}

/// Starts the playback of a folder with the given messages and says which
/// message to play first. A folder without messages changes nothing.
pub fn start_queue(
    queue: &mut Option<FolderPlaybackQueue>,
    folder_id: &str,
    message_ids: Vec<String>,
) -> (first: Option<String>)
    ensures
        opt_queue(*final(queue)) == started(
            opt_queue(*old(queue)),
            folder_id@,
            texts(message_ids@),
        ),
        match first {
            Some(id) => message_ids@.len() > 0 && id@ == message_ids@[0]@,
            None => message_ids@.len() == 0,
        },
{
    if message_ids.len() == 0 {
        None
    } else {
        let first = message_ids[0].clone();
        *queue = Some(
            FolderPlaybackQueue {
                folder_id: String::from_str(folder_id),
                message_ids,
                current_index: 0,
            },
        );
        Some(first)
    }
}

/// Takes a report that `message_id` is done and says which message to play
/// next. Only a report on the message that is being played moves the queue.
pub fn advance_queue(queue: &mut Option<FolderPlaybackQueue>, message_id: &str) -> (next: Option<
    String,
>)
    ensures
        opt_queue(*final(queue)) == advanced(opt_queue(*old(queue)), message_id@),
        match next {
            Some(id) => next_after(opt_queue(*old(queue)), message_id@) == Some(id@),
            None => next_after(opt_queue(*old(queue)), message_id@) is None,
        },
{
    let mut next: Option<String> = None;
    let mut finished = false;
    match queue {
        Some(q) => {
            if q.current_index < q.message_ids.len() && str_eq(
                q.message_ids[q.current_index].as_str(),
                message_id,
            ) {
                if q.current_index + 1 < q.message_ids.len() {
                    q.current_index = q.current_index + 1;
                    next = Some(q.message_ids[q.current_index].clone());
                } else {
                    finished = true;
                }
            }
        },
        None => {},
    }
    if finished {
        *queue = None;
    }
    next
}

} // verus!
