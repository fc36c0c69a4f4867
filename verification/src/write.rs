//! The plan by which a stub document reaches its destination.
//!
//! The text is first written to a staging file beside the destination and
//! then moved over it in one step, so that the destination holds the whole
//! text or is left as it was. The plan decides what is done next; the
//! program that runs it touches the files and reports how each step went.

use crate::error::BindingError;
use crate::render::render_document;
use crate::stub::StubDocument;
use vstd::prelude::*;

verus! {

/// Where a write stands.
#[derive(Clone, Copy, Debug, PartialEq, Eq, Structural)]
pub enum WritePhase {
    /// The text is to be written to the staging file.
    Staging,
    /// The staging file holds the text and is to be moved over the
    /// destination.
    Committing,
    /// A step failed and the staging file is to be removed.
    Discarding,
    /// The destination holds the text.
    Written,
    /// The write failed and the destination is as it was.
    Failed,
}

/// What the program that runs a plan has to do next.
#[derive(Clone, Copy, Debug, PartialEq, Eq, Structural)]
pub enum WriteAction {
    /// Create the staging file and write the whole text to it.
    Stage,
    /// Move the staging file over the destination, in one step.
    Commit,
    /// Remove the staging file, if it is there.
    Discard,
    /// Nothing: the write has ended.
    Stop,
}

/// The action that each phase asks for.
pub open spec fn action_of(phase: WritePhase) -> WriteAction {
    match phase {
        WritePhase::Staging => WriteAction::Stage,
        WritePhase::Committing => WriteAction::Commit,
        WritePhase::Discarding => WriteAction::Discard,
        WritePhase::Written => WriteAction::Stop,
        WritePhase::Failed => WriteAction::Stop,
    }
}

/// The phase that follows when the action of `phase` has been tried and
/// `succeeded` says how it went. A failed step leads to the removal of the
/// staging file, and from there to the failed end whether or not the removal
/// succeeded.
pub open spec fn next_phase(phase: WritePhase, succeeded: bool) -> WritePhase {
    match phase {
        WritePhase::Staging => if succeeded {
            WritePhase::Committing
        } else {
            WritePhase::Discarding
        },
        WritePhase::Committing => if succeeded {
            WritePhase::Written
        } else {
            WritePhase::Discarding
        },
        WritePhase::Discarding => WritePhase::Failed,
        WritePhase::Written => WritePhase::Written,
        WritePhase::Failed => WritePhase::Failed,
    }
}

/// The phase that a write reaches from `phase` when its steps go as
/// `outcomes` says, one after the other.
pub open spec fn phase_after(phase: WritePhase, outcomes: Seq<bool>) -> WritePhase
    decreases outcomes.len(),
{
    if outcomes.len() == 0 {
        phase
    } else {
        next_phase(phase_after(phase, outcomes.drop_last()), outcomes.last())
    }
}

/// A write ends within three steps, however they go. It ends with the text
/// at the destination where staging and commit both succeeded, and fails
/// otherwise. The destination is touched by the commit alone, and the commit
/// is tried only as the second step, after the staging succeeded.
pub proof fn lemma_write_whole_or_not_at_all(outcomes: Seq<bool>)
    requires
        outcomes.len() >= 3,
    ensures
        phase_after(WritePhase::Staging, outcomes) == if outcomes[0] && outcomes[1] {
            WritePhase::Written
        } else {
            WritePhase::Failed
        },
        forall|n: int|
            0 <= n <= outcomes.len() && action_of(
                #[trigger] phase_after(WritePhase::Staging, outcomes.take(n)),
            ) == WriteAction::Commit ==> n == 1 && outcomes[0],
    decreases outcomes.len(),
{
    let start = WritePhase::Staging;
    assert forall|n: int| 0 <= n <= outcomes.len() implies #[trigger] phase_after(
        start,
        outcomes.take(n),
    ) == (if n == 0 {
        start
    } else if n == 1 {
        next_phase(start, outcomes[0])
    } else if n == 2 {
        next_phase(next_phase(start, outcomes[0]), outcomes[1])
    } else if outcomes[0] && outcomes[1] {
        WritePhase::Written
    } else {
        WritePhase::Failed
    }) by {
        lemma_phase_after_prefix(outcomes, n);
    }
    assert(outcomes.take(outcomes.len() as int) =~= outcomes);
}

/// The phases of the first steps of a write.
proof fn lemma_phase_after_prefix(outcomes: Seq<bool>, n: int)
    requires
        0 <= n <= outcomes.len(),
    ensures
        phase_after(WritePhase::Staging, outcomes.take(n)) == (if n == 0 {
            WritePhase::Staging
        } else if n == 1 {
            next_phase(WritePhase::Staging, outcomes[0])
        } else if n == 2 {
            next_phase(next_phase(WritePhase::Staging, outcomes[0]), outcomes[1])
        } else if outcomes[0] && outcomes[1] {
            WritePhase::Written
        } else {
            WritePhase::Failed
        }),
    decreases n,
{
    if n > 0 {
        lemma_phase_after_prefix(outcomes, n - 1);
        assert(outcomes.take(n).drop_last() =~= outcomes.take(n - 1));
        assert(outcomes.take(n).last() == outcomes[n - 1]);
    }
}

/// The mathematical value of a [`WritePlan`].
pub struct WritePlanView {
    pub destination: Seq<char>,
    pub staging: Seq<char>,
    pub text: Seq<char>,
    pub phase: WritePhase,
}

/// The path of the staging file of a destination: the destination's path
/// with `.tmp` behind it.
pub open spec fn staging_path_of(destination: Seq<char>) -> Seq<char> {
    destination + ".tmp"@
}

/// The name of the file that holds the stub of a module: the module's name
/// with `.pyi` behind it.
pub open spec fn stub_file_name_of(module: Seq<char>) -> Seq<char> {
    module + ".pyi"@
}

/// The name of the file that holds the stub of the module of the given name.
pub fn stub_file_name(module: &str) -> (name: String)
    ensures
        name@ == stub_file_name_of(module@),
{
    let mut name = String::from_str(module);
    name.append(".pyi");
    name
}

/// The write of one document to one destination.
#[derive(Debug)]
pub struct WritePlan {
    destination: String,
    staging: String,
    text: String,
    phase: WritePhase,
}

impl View for WritePlan {
    type V = WritePlanView;

    closed spec fn view(&self) -> WritePlanView {
        WritePlanView {
            destination: self.destination@,
            staging: self.staging@,
            text: self.text@,
            phase: self.phase,
        }
    }
}

impl WritePlan {
    /// The plan that writes the text of `document` to `destination`, with
    /// nothing done yet.
    pub fn new(document: &StubDocument, destination: &str) -> (plan: WritePlan)
        ensures
            plan@ == (WritePlanView {
                destination: destination@,
                staging: staging_path_of(destination@),
                text: render_document(document@),
                phase: WritePhase::Staging,
            }),
    {
        let mut staging = String::from_str(destination);
        staging.append(".tmp");
        WritePlan {
            destination: String::from_str(destination),
            staging,
            text: document.text(),
            phase: WritePhase::Staging,
        }
    }

    /// The path of the destination.
    pub fn destination(&self) -> (path: &String)
        ensures
            path@ == self@.destination,
    {
        &self.destination
    }

    /// The path of the staging file.
    pub fn staging(&self) -> (path: &String)
        ensures
            path@ == self@.staging,
    {
        &self.staging
    }

    /// The text to write.
    pub fn text(&self) -> (text: &String)
        ensures
            text@ == self@.text,
    {
        &self.text
    }

    /// Where the write stands.
    pub fn phase(&self) -> (phase: WritePhase)
        ensures
            phase == self@.phase,
    {
        self.phase
    }

    /// What is to be done next.
    pub fn action(&self) -> (action: WriteAction)
        ensures
            action == action_of(self@.phase),
    {
        match self.phase {
            WritePhase::Staging => WriteAction::Stage,
            WritePhase::Committing => WriteAction::Commit,
            WritePhase::Discarding => WriteAction::Discard,
            WritePhase::Written => WriteAction::Stop,
            WritePhase::Failed => WriteAction::Stop,
        }
    }

    /// Takes note of how the action went that the plan asked for.
    pub fn advance(&mut self, succeeded: bool)
        ensures
            final(self)@ == (WritePlanView {
                phase: next_phase(old(self)@.phase, succeeded),
                ..old(self)@
            }),
    {
        self.phase = match self.phase {
            WritePhase::Staging => if succeeded {
                WritePhase::Committing
            } else {
                WritePhase::Discarding
            },
            WritePhase::Committing => if succeeded {
                WritePhase::Written
            } else {
                WritePhase::Discarding
            },
            WritePhase::Discarding => WritePhase::Failed,
            WritePhase::Written => WritePhase::Written,
            WritePhase::Failed => WritePhase::Failed,
        };
    }

    /// How the write ended: `None` while it has not ended, `Ok` where the
    /// destination holds the text, and else the failure, which names the
    /// destination.
    pub fn outcome(&self) -> (outcome: Option<Result<(), BindingError>>)
        ensures
            match self@.phase {
                WritePhase::Written => outcome == Some(Ok::<(), BindingError>(())),
                WritePhase::Failed => outcome matches Some(Err(error)) && error@ == (
                crate::error::BindingErrorView::WriteFailure { path: self@.destination }),
                _ => outcome is None,
            },
    {
        match self.phase {
            WritePhase::Written => Some(Ok(())),
            WritePhase::Failed => Some(
                Err(BindingError::WriteFailure { path: self.destination.clone() }),
            ),
            _ => None,
        }
    }
}

} // verus!
