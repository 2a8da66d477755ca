//! The progress protocol: the messages a run's worker emits and the
//! well-formedness of a run's message history — at most one terminal message
//! (`Complete` or `Error`), and nothing after it.

use vstd::prelude::*;

verus! {

/// One message of the progress channel, as the worker emits it and the
/// observer consumes it.
#[derive(Debug)]
pub enum UpdateMsg {
    /// A human-readable stage description.
    Status(String),
    /// The number of regular files the merge stage will process.
    TotalFiles(usize),
    /// One unit of work done: a 1-based counter, the stage's total, and the
    /// name of the entry or file just handled.
    Progress(usize, usize, String),
    /// The run finished successfully. Terminal.
    Complete,
    /// The run failed; the text describes why. Terminal.
    Error(String),
}

/// The mathematical value of an [`UpdateMsg`].
pub enum MsgV {
    Status { text: Seq<char> },
    TotalFiles { count: int },
    Progress { current: int, total: int, name: Seq<char> },
    Complete,
    Error { message: Seq<char> },
}

impl View for UpdateMsg {
    type V = MsgV;

    open spec fn view(&self) -> MsgV {
        match self {
            UpdateMsg::Status(text) => MsgV::Status { text: text@ },
            UpdateMsg::TotalFiles(count) => MsgV::TotalFiles { count: *count as int },
            UpdateMsg::Progress(current, total, name) => MsgV::Progress {
                current: *current as int,
                total: *total as int,
                name: name@,
            },
            UpdateMsg::Complete => MsgV::Complete,
            UpdateMsg::Error(message) => MsgV::Error { message: message@ },
        }
    }
}

/// A terminal message ends the run: nothing may follow it.
pub open spec fn is_terminal(m: MsgV) -> bool {
    m is Complete || m is Error
}

/// A history is well formed when a terminal message can only stand last.
pub open spec fn terminal_only_last(h: Seq<MsgV>) -> bool {
    forall|i: int| 0 <= i < h.len() && is_terminal(#[trigger] h[i]) ==> i == h.len() - 1
}

/// A history in which no terminal message occurs at all: the shape of every
/// run that is still going.
pub open spec fn no_terminal(h: Seq<MsgV>) -> bool {
    forall|i: int| 0 <= i < h.len() ==> !is_terminal(#[trigger] h[i])
}

/// Appending a non-terminal message keeps a history terminal-free.
pub proof fn lemma_no_terminal_push(h: Seq<MsgV>, m: MsgV)
    requires
        no_terminal(h),
        !is_terminal(m),
    ensures
        no_terminal(h.push(m)),
{
    assert forall|i: int| 0 <= i < h.push(m).len() implies !is_terminal(#[trigger] h.push(m)[i]) by {
        if i < h.len() {
            assert(h.push(m)[i] == h[i]);
        }
    }
}

/// The `Progress` messages of one stage: the i-th (0-based) carries
/// `current` i + 1, the stage's constant `total`, and the i-th name.
pub open spec fn progress_msgs(names: Seq<Seq<char>>, total: int) -> Seq<MsgV> {
    Seq::new(names.len(), |i: int| MsgV::Progress { current: i + 1, total, name: names[i] })
}

/// A history of non-terminal messages stays well formed when a message is
/// appended.
pub proof fn lemma_terminal_only_last_push(h: Seq<MsgV>, m: MsgV)
    requires
        no_terminal(h),
    ensures
        terminal_only_last(h.push(m)),
        is_terminal(m) ==> forall|i: int|
            0 <= i < h.push(m).len() - 1 ==> !is_terminal(#[trigger] h.push(m)[i]),
{
    assert forall|i: int| 0 <= i < h.push(m).len() && is_terminal(#[trigger] h.push(m)[i])
        implies i == h.push(m).len() - 1 by {
        if i < h.len() {
            assert(h.push(m)[i] == h[i]);
        }
    }
}

/// Extending the names of a stage by one extends its `Progress` sequence by
/// one message.
pub proof fn lemma_progress_msgs_push(names: Seq<Seq<char>>, total: int, name: Seq<char>)
    ensures
        progress_msgs(names.push(name), total) == progress_msgs(names, total).push(
            MsgV::Progress { current: names.len() as int + 1, total, name },
        ),
{
    assert(progress_msgs(names.push(name), total) =~= progress_msgs(names, total).push(
        MsgV::Progress { current: names.len() as int + 1, total, name },
    ));
}

} // verus!
