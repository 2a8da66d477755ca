//! The update orchestrator: one run as a state machine. The driver outside
//! this crate performs the archive, directory and file work and reports each
//! outcome; every decision — what to emit on the progress channel, which
//! payload root to use, where each file's bytes go, how the running
//! executable is handled — is made here, and the whole message history of the
//! run is pinned by the `wf` invariant: phases advance one way, and exactly
//! one terminal message (`Complete` or `Error`) ends the run.

use vstd::prelude::*;

use crate::errors::UpdateError;
use crate::merge::{
    plan_file, disposition_of, staged_suffix, Disposition, DispositionV, SelfReplacePolicy,
};
use crate::messages::{
    is_terminal, lemma_no_terminal_push, lemma_progress_msgs_push, lemma_terminal_only_last_push,
    no_terminal, progress_msgs, terminal_only_last, MsgV, UpdateMsg,
};
use crate::paths::{join_path, last_comp};
use crate::resolver::{not_found_text, resolve_payload_root};

verus! {

/// Where a run stands. Transitions are one-directional and non-repeating.
pub enum Phase {
    /// Created; inputs not yet validated.
    Idle,
    /// Inputs validated; the driver is opening the archive.
    Opening,
    /// Entries are being extracted into the scratch area.
    Extracting,
    /// Extraction finished; the payload root is being resolved.
    Resolving,
    /// The payload root is known; the driver is listing its regular files.
    Listing,
    /// Listed files are being merged into the target directory.
    Copying,
    /// The run succeeded. Terminal.
    Done,
    /// The run failed. Terminal.
    Failed,
}

/// One update run. The driver feeds it the outcome of each piece of outside
/// work; it hands back the messages to emit, in order, and the planned file
/// dispositions.
pub struct Engine {
    /// Path of the update package. Configuration.
    pub package_path: String,
    /// Target installation directory, if the caller supplied one.
    /// Configuration.
    pub target_path: Option<String>,
    /// Inner-path hint for the payload resolver; empty means none.
    /// Configuration.
    pub inner_path: String,
    /// Name of the conventional top-level payload directory the resolver
    /// falls back to. Configuration.
    pub conventional_name: String,
    /// File name of the currently running executable. Configuration.
    pub exe_name: String,
    /// How the file matching the running executable is handled.
    /// Configuration.
    pub policy: SelfReplacePolicy,
    /// Where the run stands.
    pub phase: Phase,
    /// The validated target directory; set when the run starts.
    pub target: String,
    /// The scratch directory the archive is extracted into; set when the
    /// archive is opened.
    pub scratch: String,
    /// Number of entries in the archive.
    pub extract_total: usize,
    /// Entries extracted so far.
    pub extract_current: usize,
    /// Regular files under the payload root, relative to it, in walk order.
    pub files: Vec<String>,
    /// Files merged so far.
    pub copy_current: usize,
    /// Names of the archive entries reported so far, in order.
    pub extract_names: Ghost<Seq<Seq<char>>>,
    /// Every message emitted so far, in order.
    pub history: Ghost<Seq<MsgV>>,
    /// The dispositions planned so far, one per merged file, in order.
    pub actions: Ghost<Seq<DispositionV>>,
}

/// The views of the listed payload files.
pub open spec fn file_views(files: Seq<String>) -> Seq<Seq<char>> {
    files.map_values(|s: String| s@)
}

/// The merge plan over a sequence of relative paths: one disposition per
/// file, each a function of the run's configuration and that path alone.
pub open spec fn plan_views(
    target: Seq<char>,
    rels: Seq<Seq<char>>,
    exe_name: Seq<char>,
    policy: SelfReplacePolicy,
) -> Seq<DispositionV> {
    rels.map_values(|r: Seq<char>| disposition_of(target, r, exe_name, policy))
}

/// The status text of the extraction stage.
pub open spec fn extracting_text() -> Seq<char> {
    "Extracting update package..."@
}

/// The status text of the merge stage.
pub open spec fn copying_text() -> Seq<char> {
    "Copying files..."@
}

/// The failure text when no package path was supplied.
pub open spec fn missing_package_text() -> Seq<char> {
    "No update package path was provided"@
}

/// The failure text when no target directory was supplied.
pub open spec fn missing_target_text() -> Seq<char> {
    "No target directory was provided"@
}

/// The messages of the extraction stage emitted so far: its status line,
/// then one `Progress` per entry handled.
pub open spec fn extract_stage(e: Engine) -> Seq<MsgV> {
    seq![MsgV::Status { text: extracting_text() }] + progress_msgs(
        e.extract_names@,
        e.extract_total as int,
    )
}

/// The messages of the merge stage emitted so far: its status line, the one
/// `TotalFiles` of the run, then one `Progress` per file handled.
pub open spec fn copy_stage(e: Engine) -> Seq<MsgV> {
    seq![
        MsgV::Status { text: copying_text() },
        MsgV::TotalFiles { count: e.files@.len() as int },
    ] + progress_msgs(file_views(e.files@).take(e.copy_current as int), e.files@.len() as int)
}

/// The run invariant: the phase determines the exact shape of the history,
/// and a terminal message can only stand last.
pub open spec fn wf(e: Engine) -> bool {
    &&& terminal_only_last(e.history@)
    &&& match e.phase {
        Phase::Idle => e.history@ == Seq::<MsgV>::empty(),
        Phase::Opening => e.history@ == Seq::<MsgV>::empty(),
        Phase::Extracting => {
            &&& e.extract_current == e.extract_names@.len()
            &&& e.extract_current <= e.extract_total
            &&& e.history@ == extract_stage(e)
            &&& no_terminal(e.history@)
        },
        Phase::Resolving => {
            &&& e.extract_current == e.extract_names@.len()
            &&& e.extract_current == e.extract_total
            &&& e.history@ == extract_stage(e)
            &&& no_terminal(e.history@)
        },
        Phase::Listing => {
            &&& e.extract_current == e.extract_names@.len()
            &&& e.extract_current == e.extract_total
            &&& e.history@ == extract_stage(e)
            &&& no_terminal(e.history@)
        },
        Phase::Copying => {
            &&& e.extract_current == e.extract_names@.len()
            &&& e.extract_current == e.extract_total
            &&& e.copy_current <= e.files@.len()
            &&& e.history@ == extract_stage(e) + copy_stage(e)
            &&& no_terminal(e.history@)
            &&& e.actions@ == plan_views(
                e.target@,
                file_views(e.files@).take(e.copy_current as int),
                e.exe_name@,
                e.policy,
            )
        },
        Phase::Done => {
            &&& e.extract_current == e.extract_names@.len()
            &&& e.extract_current == e.extract_total
            &&& e.copy_current == e.files@.len()
            &&& e.history@ == extract_stage(e) + copy_stage(e) + seq![MsgV::Complete]
            &&& no_terminal(extract_stage(e) + copy_stage(e))
            &&& e.actions@ == plan_views(
                e.target@,
                file_views(e.files@),
                e.exe_name@,
                e.policy,
            )
        },
        Phase::Failed => {
            &&& e.history@.len() > 0
            &&& e.history@.last() is Error
            &&& no_terminal(e.history@.take(e.history@.len() - 1))
        },
    }
}

/// The configuration fields never change after construction.
pub open spec fn same_config(a: Engine, b: Engine) -> bool {
    &&& a.package_path == b.package_path
    &&& a.target_path == b.target_path
    &&& a.inner_path == b.inner_path
    &&& a.conventional_name == b.conventional_name
    &&& a.exe_name == b.exe_name
    &&& a.policy == b.policy
}

impl Engine {
    /// A fresh run over the given inputs. Nothing has been emitted.
    pub fn new(
        package_path: String,
        target_path: Option<String>,
        inner_path: String,
        conventional_name: String,
        exe_name: String,
        policy: SelfReplacePolicy,
    ) -> (e: Engine)
        ensures
            wf(e),
            e.phase is Idle,
            e.history@ == Seq::<MsgV>::empty(),
            e.package_path == package_path,
            e.target_path == target_path,
            e.inner_path == inner_path,
            e.conventional_name == conventional_name,
            e.exe_name == exe_name,
            e.policy == policy,
    {
        Engine {
            package_path,
            target_path,
            inner_path,
            conventional_name,
            exe_name,
            policy,
            phase: Phase::Idle,
            target: String::new(),
            scratch: String::new(),
            extract_total: 0,
            extract_current: 0,
            files: Vec::new(),
            copy_current: 0,
            extract_names: Ghost(Seq::empty()),
            history: Ghost(Seq::empty()),
            actions: Ghost(Seq::empty()),
        }
    }

    /// Fails the run: emits the one terminal `Error` message, carrying the
    /// failure's text. The driver calls this the moment any outside work
    /// fails; no message ever follows it.
    pub fn fail(&mut self, err: UpdateError) -> (m: UpdateMsg)
        requires
            wf(*old(self)),
            !(old(self).phase is Done),
            !(old(self).phase is Failed),
        ensures
            wf(*final(self)),
            same_config(*old(self), *final(self)),
            final(self).phase is Failed,
            final(self).target == old(self).target,
            final(self).scratch == old(self).scratch,
            final(self).extract_total == old(self).extract_total,
            final(self).extract_current == old(self).extract_current,
            final(self).extract_names@ == old(self).extract_names@,
            final(self).files@ == old(self).files@,
            final(self).copy_current == old(self).copy_current,
            m@ == (MsgV::Error { message: err.message_view() }),
            final(self).history@ == old(self).history@.push(m@),
    {
        let text = String::from_str(err.message());
        let m = UpdateMsg::Error(text);
        proof {
            lemma_terminal_only_last_push(self.history@, m@);
            assert(self.history@.push(m@).take(self.history@.push(m@).len() - 1)
                =~= self.history@);
        }
        self.history = Ghost(self.history@.push(m@));
        self.phase = Phase::Failed;
        m
    }

    /// Validates the inputs and starts the run. A missing package path or
    /// target directory fails the run with `InvalidInput`; otherwise the
    /// driver may open the archive.
    pub fn start(&mut self) -> (msgs: Vec<UpdateMsg>)
        requires
            wf(*old(self)),
            old(self).phase is Idle,
        ensures
            wf(*final(self)),
            same_config(*old(self), *final(self)),
            old(self).package_path@.len() == 0 ==> {
                &&& final(self).phase is Failed
                &&& msgs@.len() == 1
                &&& msgs@[0]@ == (MsgV::Error { message: missing_package_text() })
                &&& final(self).history@ == old(self).history@.push(msgs@[0]@)
            },
            old(self).package_path@.len() > 0 ==> match old(self).target_path {
                Option::None => {
                    &&& final(self).phase is Failed
                    &&& msgs@.len() == 1
                    &&& msgs@[0]@ == (MsgV::Error { message: missing_target_text() })
                    &&& final(self).history@ == old(self).history@.push(msgs@[0]@)
                },
                Option::Some(t) => {
                    &&& final(self).phase is Opening
                    &&& msgs@.len() == 0
                    &&& final(self).target@ == t@
                    &&& final(self).history@ == old(self).history@
                },
            },
    {
        if self.package_path.unicode_len() == 0 {
            let m = self.fail(
                UpdateError::InvalidInput(String::from_str("No update package path was provided")),
            );
            let mut msgs: Vec<UpdateMsg> = Vec::new();
            msgs.push(m);
            return msgs;
        }
        let target = match &self.target_path {
            Option::Some(t) => t.clone(),
            Option::None => {
                let m = self.fail(
                    UpdateError::InvalidInput(
                        String::from_str("No target directory was provided"),
                    ),
                );
                let mut msgs: Vec<UpdateMsg> = Vec::new();
                msgs.push(m);
                return msgs;
            },
        };
        self.target = target;
        self.phase = Phase::Opening;
        Vec::new()
    }

    /// The driver opened the archive in a fresh scratch directory and counted
    /// its entries: extraction begins, announced by the stage's status line.
    pub fn archive_opened(&mut self, scratch: String, entry_count: usize) -> (msgs: Vec<
        UpdateMsg,
    >)
        requires
            wf(*old(self)),
            old(self).phase is Opening,
        ensures
            wf(*final(self)),
            same_config(*old(self), *final(self)),
            final(self).phase is Extracting,
            final(self).target == old(self).target,
            final(self).scratch@ == scratch@,
            final(self).extract_total == entry_count,
            final(self).extract_current == 0,
            final(self).extract_names@ == Seq::<Seq<char>>::empty(),
            msgs@.len() == 1,
            msgs@[0]@ == (MsgV::Status { text: extracting_text() }),
            final(self).history@ == old(self).history@.push(msgs@[0]@),
    {
        self.scratch = scratch;
        self.extract_total = entry_count;
        self.extract_current = 0;
        self.extract_names = Ghost(Seq::empty());
        let m = UpdateMsg::Status(String::from_str("Extracting update package..."));
        let ghost mv = m@;
        self.history = Ghost(self.history@.push(mv));
        self.phase = Phase::Extracting;
        proof {
            assert(progress_msgs(self.extract_names@, self.extract_total as int)
                =~= Seq::<MsgV>::empty());
            assert(self.history@ =~= extract_stage(*self));
            assert(no_terminal(self.history@));
        }
        let mut msgs: Vec<UpdateMsg> = Vec::new();
        msgs.push(m);
        msgs
    }

    /// One archive entry is about to be handled, directory entries included:
    /// emits the entry's `Progress` message, whose 1-based counter advances
    /// by one and whose total stays the archive's entry count.
    pub fn entry_event(&mut self, name: String) -> (m: UpdateMsg)
        requires
            wf(*old(self)),
            old(self).phase is Extracting,
            old(self).extract_current < old(self).extract_total,
        ensures
            wf(*final(self)),
            same_config(*old(self), *final(self)),
            final(self).phase is Extracting,
            final(self).target == old(self).target,
            final(self).scratch == old(self).scratch,
            final(self).extract_total == old(self).extract_total,
            final(self).extract_current == old(self).extract_current + 1,
            final(self).extract_names@ == old(self).extract_names@.push(name@),
            m@ == (MsgV::Progress {
                current: old(self).extract_current as int + 1,
                total: old(self).extract_total as int,
                name: name@,
            }),
            final(self).history@ == old(self).history@.push(m@),
    {
        let ghost nv = name@;
        let current = self.extract_current + 1;
        let m = UpdateMsg::Progress(current, self.extract_total, name);
        let ghost mv = m@;
        proof {
            lemma_progress_msgs_push(self.extract_names@, self.extract_total as int, nv);
            lemma_no_terminal_push(self.history@, mv);
        }
        self.extract_current = current;
        self.extract_names = Ghost(self.extract_names@.push(nv));
        self.history = Ghost(self.history@.push(mv));
        proof {
            assert(self.history@ =~= extract_stage(*self));
        }
        m
    }

    /// Every entry has been handled: extraction is over, resolution begins.
    pub fn extraction_done(&mut self)
        requires
            wf(*old(self)),
            old(self).phase is Extracting,
            old(self).extract_current == old(self).extract_total,
        ensures
            wf(*final(self)),
            same_config(*old(self), *final(self)),
            final(self).phase is Resolving,
            final(self).target == old(self).target,
            final(self).scratch == old(self).scratch,
            final(self).extract_total == old(self).extract_total,
            final(self).extract_current == old(self).extract_current,
            final(self).extract_names@ == old(self).extract_names@,
            final(self).history@ == old(self).history@,
    {
        self.phase = Phase::Resolving;
        proof {
            assert(extract_stage(*self) =~= extract_stage(*old(self)));
        }
    }

    /// Resolves the payload root. The driver, which alone can look at the
    /// disk, reports whether `scratch/inner_path` and
    /// `scratch/conventional_name` exist; the three-tier policy of
    /// [`resolve_payload_root`] picks the root, and a missing hinted
    /// directory fails the run with `NotFound`.
    pub fn resolve(&mut self, hint_exists: bool, conventional_exists: bool) -> (r: Result<
        String,
        UpdateMsg,
    >)
        requires
            wf(*old(self)),
            old(self).phase is Resolving,
        ensures
            wf(*final(self)),
            same_config(*old(self), *final(self)),
            final(self).target == old(self).target,
            final(self).scratch == old(self).scratch,
            final(self).extract_total == old(self).extract_total,
            final(self).extract_current == old(self).extract_current,
            final(self).extract_names@ == old(self).extract_names@,
            old(self).inner_path@.len() > 0 && hint_exists ==> (r matches Ok(root) && {
                &&& root@ == join_path(old(self).scratch@, old(self).inner_path@)
                &&& final(self).phase is Listing
                &&& final(self).history@ == old(self).history@
            }),
            old(self).inner_path@.len() > 0 && !hint_exists ==> (r matches Err(m) && {
                &&& m@ == (MsgV::Error { message: not_found_text(old(self).inner_path@) })
                &&& final(self).phase is Failed
                &&& final(self).history@ == old(self).history@.push(m@)
            }),
            old(self).inner_path@.len() == 0 && conventional_exists ==> (r matches Ok(root) && {
                &&& root@ == join_path(old(self).scratch@, old(self).conventional_name@)
                &&& final(self).phase is Listing
                &&& final(self).history@ == old(self).history@
            }),
            old(self).inner_path@.len() == 0 && !conventional_exists ==> (r matches Ok(root) && {
                &&& root@ == old(self).scratch@
                &&& final(self).phase is Listing
                &&& final(self).history@ == old(self).history@
            }),
    {
        let resolved = resolve_payload_root(
            self.scratch.as_str(),
            self.inner_path.as_str(),
            hint_exists,
            self.conventional_name.as_str(),
            conventional_exists,
        );
        match resolved {
            Result::Ok(root) => {
                self.phase = Phase::Listing;
                proof {
                    assert(extract_stage(*self) =~= extract_stage(*old(self)));
                }
                Result::Ok(root)
            },
            Result::Err(e) => {
                let m = self.fail(e);
                Result::Err(m)
            },
        }
    }

    /// The driver walked the payload root and listed its regular files,
    /// relative to the root, in walk order: the merge stage begins, announced
    /// by its status line and the run's one `TotalFiles` message, whose count
    /// is the number of listed files.
    pub fn files_listed(&mut self, files: Vec<String>) -> (msgs: Vec<UpdateMsg>)
        requires
            wf(*old(self)),
            old(self).phase is Listing,
        ensures
            wf(*final(self)),
            same_config(*old(self), *final(self)),
            final(self).phase is Copying,
            final(self).target == old(self).target,
            final(self).scratch == old(self).scratch,
            final(self).extract_total == old(self).extract_total,
            final(self).extract_current == old(self).extract_current,
            final(self).extract_names@ == old(self).extract_names@,
            final(self).files@ == files@,
            final(self).copy_current == 0,
            msgs@.len() == 2,
            msgs@[0]@ == (MsgV::Status { text: copying_text() }),
            msgs@[1]@ == (MsgV::TotalFiles { count: files@.len() as int }),
            final(self).history@ == old(self).history@.push(msgs@[0]@).push(msgs@[1]@),
    {
        self.files = files;
        self.copy_current = 0;
        self.actions = Ghost(Seq::empty());
        let m0 = UpdateMsg::Status(String::from_str("Copying files..."));
        let m1 = UpdateMsg::TotalFiles(self.files.len());
        let ghost m0v = m0@;
        let ghost m1v = m1@;
        proof {
            lemma_no_terminal_push(self.history@, m0v);
            lemma_no_terminal_push(self.history@.push(m0v), m1v);
        }
        self.history = Ghost(self.history@.push(m0v).push(m1v));
        self.phase = Phase::Copying;
        proof {
            assert(file_views(self.files@).take(self.copy_current as int)
                =~= Seq::<Seq<char>>::empty());
            assert(progress_msgs(
                file_views(self.files@).take(self.copy_current as int),
                self.files@.len() as int,
            ) =~= Seq::<MsgV>::empty());
            assert(self.actions@ =~= plan_views(
                self.target@,
                file_views(self.files@).take(self.copy_current as int),
                self.exe_name@,
                self.policy,
            ));
            assert(self.history@ =~= extract_stage(*self) + copy_stage(*self));
        }
        let mut msgs: Vec<UpdateMsg> = Vec::new();
        msgs.push(m0);
        msgs.push(m1);
        msgs
    }

    /// Plans the next payload file and emits its `Progress` message. The
    /// disposition is [`disposition_of`] the target directory, the file's
    /// relative path, the running executable's name and the active policy;
    /// the message's 1-based counter advances by one, its total stays the
    /// listed file count, and its name is the file's relative path. The
    /// matching file is counted and reported like every other, whichever
    /// policy is active.
    pub fn next_file(&mut self) -> (r: (Disposition, UpdateMsg))
        requires
            wf(*old(self)),
            old(self).phase is Copying,
            old(self).copy_current < old(self).files@.len(),
        ensures
            wf(*final(self)),
            same_config(*old(self), *final(self)),
            final(self).phase is Copying,
            final(self).target == old(self).target,
            final(self).scratch == old(self).scratch,
            final(self).extract_total == old(self).extract_total,
            final(self).extract_current == old(self).extract_current,
            final(self).extract_names@ == old(self).extract_names@,
            final(self).files@ == old(self).files@,
            final(self).copy_current == old(self).copy_current + 1,
            r.0@ == disposition_of(
                old(self).target@,
                old(self).files@[old(self).copy_current as int]@,
                old(self).exe_name@,
                old(self).policy,
            ),
            r.1@ == (MsgV::Progress {
                current: old(self).copy_current as int + 1,
                total: old(self).files@.len() as int,
                name: old(self).files@[old(self).copy_current as int]@,
            }),
            final(self).history@ == old(self).history@.push(r.1@),
            final(self).actions@ == old(self).actions@.push(r.0@),
    {
        let total = self.files.len();
        let rel = self.files[self.copy_current].clone();
        let d = plan_file(self.target.as_str(), rel.as_str(), self.exe_name.as_str(), self.policy);
        let ghost relv = rel@;
        let current = self.copy_current + 1;
        let m = UpdateMsg::Progress(current, total, rel);
        let ghost mv = m@;
        proof {
            lemma_progress_msgs_push(
                file_views(self.files@).take(self.copy_current as int),
                self.files@.len() as int,
                relv,
            );
            assert(file_views(self.files@).take(current as int) =~= file_views(
                self.files@,
            ).take(self.copy_current as int).push(relv));
            lemma_no_terminal_push(self.history@, mv);
        }
        self.copy_current = current;
        self.history = Ghost(self.history@.push(mv));
        self.actions = Ghost(self.actions@.push(d@));
        proof {
            assert(self.history@ =~= extract_stage(*self) + copy_stage(*self));
            assert(self.actions@ =~= plan_views(
                self.target@,
                file_views(self.files@).take(self.copy_current as int),
                self.exe_name@,
                self.policy,
            ));
        }
        (d, m)
    }

    /// Every listed file has been handled: the run succeeds, with its one
    /// `Complete` message.
    pub fn finish(&mut self) -> (m: UpdateMsg)
        requires
            wf(*old(self)),
            old(self).phase is Copying,
            old(self).copy_current == old(self).files@.len(),
        ensures
            wf(*final(self)),
            same_config(*old(self), *final(self)),
            final(self).phase is Done,
            final(self).target == old(self).target,
            final(self).scratch == old(self).scratch,
            final(self).extract_total == old(self).extract_total,
            final(self).extract_current == old(self).extract_current,
            final(self).extract_names@ == old(self).extract_names@,
            final(self).files@ == old(self).files@,
            final(self).copy_current == old(self).copy_current,
            m@ == MsgV::Complete,
            final(self).history@ == old(self).history@.push(MsgV::Complete),
    {
        proof {
            lemma_terminal_only_last_push(self.history@, MsgV::Complete);
        }
        self.history = Ghost(self.history@.push(MsgV::Complete));
        self.phase = Phase::Done;
        proof {
            assert(extract_stage(*self) =~= extract_stage(*old(self)));
            assert(copy_stage(*self) =~= copy_stage(*old(self)));
            assert(self.history@ =~= extract_stage(*self) + copy_stage(*self) + seq![
                MsgV::Complete,
            ]);
            assert(file_views(self.files@).take(self.copy_current as int) =~= file_views(
                self.files@,
            ));
        }
        UpdateMsg::Complete
    }
}

/// Law: for an archive with N entries (directory entries included), the
/// extraction stage emits exactly N `Progress` messages after its status
/// line, with `current` running 1..N in order, `total` constant at N, and
/// the i-th message carrying the i-th entry's stored name.
pub proof fn lemma_extraction_progress(e: Engine)
    requires
        wf(e),
        e.phase is Resolving || e.phase is Listing,
    ensures
        e.history@.len() == 1 + e.extract_total,
        forall|i: int| 0 <= i < e.extract_total ==> e.history@[1 + i] == (MsgV::Progress {
            current: i + 1,
            total: e.extract_total as int,
            name: e.extract_names@[i],
        }),
{
    assert(e.history@ == extract_stage(e));
    assert forall|i: int| 0 <= i < e.extract_total implies e.history@[1 + i] == (MsgV::Progress {
        current: i + 1,
        total: e.extract_total as int,
        name: e.extract_names@[i],
    }) by {
        assert(e.history@[1 + i] == progress_msgs(e.extract_names@, e.extract_total as int)[i]);
    }
}

/// Law: in a successful run's history, `TotalFiles` appears exactly once —
/// at the head of the merge stage, strictly before every merge `Progress`
/// message — and its count equals the number of regular files listed under
/// the payload root.
pub proof fn lemma_total_files_once(e: Engine)
    requires
        wf(e),
        e.phase is Done,
    ensures
        e.history@.len() == 4 + e.extract_total + e.files@.len(),
        e.history@[2 + e.extract_total] == (MsgV::TotalFiles { count: e.files@.len() as int }),
        forall|i: int|
            0 <= i < e.history@.len() && #[trigger] e.history@[i] is TotalFiles ==> i == 2
                + e.extract_total,
        forall|j: int| 0 <= j < e.files@.len() ==> e.history@[3 + e.extract_total + j] == (
        MsgV::Progress {
            current: j + 1,
            total: e.files@.len() as int,
            name: file_views(e.files@)[j],
        }),
{
    let n = e.extract_total as int;
    let f = e.files@.len() as int;
    let x = extract_stage(e);
    let c = copy_stage(e);
    assert(file_views(e.files@).take(e.copy_current as int) =~= file_views(e.files@));
    assert(x.len() == 1 + n);
    assert(c.len() == 2 + f);
    assert(e.history@ == x + c + seq![MsgV::Complete]);
    assert(e.history@.len() == 4 + n + f);
    assert(e.history@[2 + n] == c[1]);
    assert forall|j: int| 0 <= j < f implies e.history@[3 + n + j] == (MsgV::Progress {
        current: j + 1,
        total: f,
        name: file_views(e.files@)[j],
    }) by {
        assert(e.history@[3 + n + j] == c[2 + j]);
        assert(c[2 + j] == progress_msgs(file_views(e.files@).take(e.copy_current as int), f)[j]);
    }
    assert forall|i: int|
        0 <= i < e.history@.len() && #[trigger] e.history@[i] is TotalFiles implies i == 2 + n by {
        if i < 1 + n {
            assert(e.history@[i] == x[i]);
            if i > 0 {
                assert(x[i] == progress_msgs(e.extract_names@, n)[i - 1]);
            }
        } else if i < 3 + n + f {
            assert(e.history@[i] == c[i - (1 + n)]);
            if i - (1 + n) >= 2 {
                assert(c[i - (1 + n)] == progress_msgs(
                    file_views(e.files@).take(e.copy_current as int),
                    f,
                )[i - (3 + n)]);
            }
        }
    }
}

/// Law: `Complete` is emitted exactly once, as the run's last message, and —
/// whenever the merge stage had at least one file — directly after a
/// `Progress` message whose `current` equals its `total`.
pub proof fn lemma_complete_once(e: Engine)
    requires
        wf(e),
        e.phase is Done,
    ensures
        e.history@.len() > 0,
        e.history@.last() == MsgV::Complete,
        forall|i: int|
            0 <= i < e.history@.len() && #[trigger] e.history@[i] is Complete ==> i
                == e.history@.len() - 1,
        e.files@.len() > 0 ==> e.history@[e.history@.len() - 2] == (MsgV::Progress {
            current: e.files@.len() as int,
            total: e.files@.len() as int,
            name: file_views(e.files@).last(),
        }),
{
    let n = e.extract_total as int;
    let f = e.files@.len() as int;
    let x = extract_stage(e);
    let c = copy_stage(e);
    let prefix = x + c;
    assert(file_views(e.files@).take(e.copy_current as int) =~= file_views(e.files@));
    assert(e.history@ == prefix + seq![MsgV::Complete]);
    assert(e.history@.last() == MsgV::Complete);
    assert forall|i: int|
        0 <= i < e.history@.len() && #[trigger] e.history@[i] is Complete implies i
        == e.history@.len() - 1 by {
        if i < prefix.len() {
            assert(e.history@[i] == prefix[i]);
            assert(!is_terminal(prefix[i]));
        }
    }
    if f > 0 {
        assert(e.history@[e.history@.len() - 2] == c[1 + f]);
        assert(c[1 + f] == progress_msgs(file_views(e.files@).take(e.copy_current as int), f)[f
            - 1]);
    }
}

/// Law: when a run fails, its `Error` message is the run's last — no
/// `Progress`, `Complete` or other message follows it — and in every run a
/// terminal message can only stand last.
pub proof fn lemma_error_is_last(e: Engine)
    requires
        wf(e),
    ensures
        terminal_only_last(e.history@),
        e.phase is Failed ==> e.history@.len() > 0 && e.history@.last() is Error,
        e.phase is Failed ==> forall|i: int|
            0 <= i < e.history@.len() - 1 ==> !(#[trigger] e.history@[i] is Error) && !(
            e.history@[i] is Complete),
{
    if e.phase is Failed {
        let h = e.history@;
        assert forall|i: int| 0 <= i < h.len() - 1 implies !(#[trigger] h[i] is Error) && !(h[i]
            is Complete) by {
            assert(h.take(h.len() - 1)[i] == h[i]);
            assert(!is_terminal(h.take(h.len() - 1)[i]));
        }
    }
}

/// Law: a successful run plans exactly one disposition per listed file, in
/// walk order, each [`disposition_of`] the run's configuration and that
/// file's relative path alone; in particular every file whose name does not
/// match the running executable's — every non-conflicting file — is written
/// to exactly `target/rel`, the same relative location it held under the
/// payload root, so performing the plan leaves that file's bytes there.
pub proof fn lemma_round_trip_plan(e: Engine)
    requires
        wf(e),
        e.phase is Done,
    ensures
        e.actions@.len() == e.files@.len(),
        forall|j: int| 0 <= j < e.files@.len() ==> e.actions@[j] == disposition_of(
            e.target@,
            file_views(e.files@)[j],
            e.exe_name@,
            e.policy,
        ),
        forall|j: int|
            0 <= j < e.files@.len() && last_comp(file_views(e.files@)[j]) != e.exe_name@
                ==> e.actions@[j] == (DispositionV::Write {
                dest: join_path(e.target@, file_views(e.files@)[j]),
            }),
{
}

/// Law: in a successful run, the file matching the running executable's
/// name is never written to its live destination: under the skip policy its
/// disposition carries no destination at all, and under the deferred-replace
/// policy it is staged under the suffixed sibling path — while, by
/// [`lemma_total_files_once`], it is counted in the total and reported by a
/// `Progress` message like any other file.
pub proof fn lemma_self_replace_run(e: Engine)
    requires
        wf(e),
        e.phase is Done,
    ensures
        forall|j: int|
            0 <= j < e.files@.len() && last_comp(#[trigger] file_views(e.files@)[j])
                == e.exe_name@ ==> match e.policy {
                SelfReplacePolicy::Skip => e.actions@[j] is Skipped,
                SelfReplacePolicy::DeferredReplace => e.actions@[j] == (DispositionV::Staged {
                    dest: join_path(e.target@, file_views(e.files@)[j]) + staged_suffix(),
                }),
            },
{
}

/// Law: the run is deterministic in its inputs — two successful runs that
/// saw the same archive entries and listed the same payload files emit
/// identical message histories; since each write's destination is
/// [`disposition_of`] the same inputs, an unchanged re-run also plans the
/// same overwrites, so running the engine twice leaves the same contents.
pub proof fn lemma_rerun_same_history(e1: Engine, e2: Engine)
    requires
        wf(e1),
        wf(e2),
        e1.phase is Done,
        e2.phase is Done,
        e1.extract_total == e2.extract_total,
        e1.extract_names@ == e2.extract_names@,
        file_views(e1.files@) == file_views(e2.files@),
    ensures
        e1.history@ == e2.history@,
        e1.target@ == e2.target@ && e1.exe_name@ == e2.exe_name@ && e1.policy == e2.policy
            ==> e1.actions@ == e2.actions@,
{
    assert(e1.files@.len() == file_views(e1.files@).len());
    assert(e2.files@.len() == file_views(e2.files@).len());
    assert(extract_stage(e1) == extract_stage(e2));
    assert(file_views(e1.files@).take(e1.copy_current as int) == file_views(e2.files@).take(
        e2.copy_current as int,
    ));
    assert(copy_stage(e1) == copy_stage(e2));
}

} // verus!
