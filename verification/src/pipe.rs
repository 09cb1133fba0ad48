//! The pipe that clients connect to, which is for the user alone.

use vstd::prelude::*;

verus! {

pub const GENERIC_READ: u32 = 0x8000_0000;

pub const GENERIC_WRITE: u32 = 0x4000_0000;

pub const SET_ACCESS: i32 = 2;

pub const NO_INHERITANCE: u32 = 0;

pub const TRUSTEE_IS_SID: i32 = 0;

pub const TRUSTEE_IS_USER: i32 = 1;

pub const TOKEN_QUERY: u32 = 8;

pub const SECURITY_DESCRIPTOR_REVISION: u32 = 1;

/// Who may do what with the pipe. The only entry is for the user whose token was read.
#[derive(Debug, Clone, Copy, PartialEq, Eq, Structural)]
pub struct AccessPlan {
    pub permissions: u32,
    pub mode: i32,
    pub inheritance: u32,
    pub trustee_form: i32,
    pub trustee_type: i32,
}

/// The user may read and write.
pub open spec fn user_access_plan() -> AccessPlan {
    AccessPlan {
        permissions: GENERIC_READ | GENERIC_WRITE,
        mode: SET_ACCESS,
        inheritance: NO_INHERITANCE,
        trustee_form: TRUSTEE_IS_SID,
        trustee_type: TRUSTEE_IS_USER,
    }
}

/// Gives the user leave to read and write.
pub fn user_access() -> (r: AccessPlan)
    ensures
        r == user_access_plan(),
        r.permissions == 0xc000_0000,
{
    proof {
        assert(0x8000_0000u32 | 0x4000_0000u32 == 0xc000_0000u32) by (bit_vector);
    }
    AccessPlan {
        permissions: GENERIC_READ | GENERIC_WRITE,
        mode: SET_ACCESS,
        inheritance: NO_INHERITANCE,
        trustee_form: TRUSTEE_IS_SID,
        trustee_type: TRUSTEE_IS_USER,
    }
}

/// Why there is no pipe.
#[derive(Debug, Clone, Copy, PartialEq, Eq, Structural)]
pub enum PipeError {
    /// A call to the system failed while access was set up.
    Security,
    /// The system did not tell how much there is to read of the token.
    TokenLength,
    /// The system did not make the pipe.
    Create,
}

impl PipeError {
    pub open spec fn text(self) -> Option<Seq<char>> {
        match self {
            PipeError::TokenLength => Some("failed to query token user information length"@),
            _ => None,
        }
    }

    pub open spec fn context_text(self) -> Option<Seq<char>> {
        match self {
            PipeError::Create => None,
            _ => Some("failed to create user security desc"@),
        }
    }

    /// What went wrong, where the system does not tell.
    pub fn message(&self) -> (r: Option<&'static str>)
        ensures
            match r {
                Some(text) => self.text() == Some(text@),
                None => self.text() is None,
            },
    {
        match self {
            PipeError::TokenLength => Some("failed to query token user information length"),
            _ => None,
        }
    }

    /// What was being done, where that is said.
    pub fn context(&self) -> (r: Option<&'static str>)
        ensures
            match r {
                Some(text) => self.context_text() == Some(text@),
                None => self.context_text() is None,
            },
    {
        match self {
            PipeError::Create => None,
            _ => Some("failed to create user security desc"),
        }
    }
}

/// What came back from the system.
#[derive(Debug, Clone, Copy, PartialEq, Eq, Structural)]
pub enum PipeReply {
    /// Whether the call succeeded.
    Done(bool),
    /// How many bytes there are to read.
    Length(u32),
}

/// How far the making of a pipe has come, and so what to ask of the system.
#[derive(Debug, Clone, Copy, PartialEq, Eq, Structural)]
pub enum PipeStage {
    /// Open the token of this process.
    OpenToken { access: u32 },
    /// Ask how much there is to read of the token's user.
    QueryLength,
    /// Read the token's user into so many bytes.
    ReadUser { length: u32 },
    /// Make the list of who may do what.
    BuildAcl(AccessPlan),
    InitDescriptor { revision: u32 },
    /// Give the descriptor the list, which is there and was not defaulted.
    SetDacl { present: bool, defaulted: bool },
    CloseToken { error: Option<PipeError> },
    /// Make the pipe with the descriptor.
    CreatePipe { first: bool, attributes_length: u32, inherit_handle: bool },
    FreeAcl { error: Option<PipeError> },
    Finished { error: Option<PipeError> },
}

/// The making of a pipe.
#[derive(Debug, Clone, Copy, PartialEq, Eq, Structural)]
pub struct PipeSetup {
    /// Whether the pipe has to be the first under its name.
    pub first: bool,
    pub stage: PipeStage,
}

impl PipeSetup {
    /// Whether `reply` answers what is asked.
    pub open spec fn awaits(self, reply: PipeReply) -> bool {
        match self.stage {
            PipeStage::QueryLength => reply is Length,
            PipeStage::Finished { .. } => false,
            _ => reply is Done,
        }
    }

    /// Where the making stands after `reply`.
    pub open spec fn next(self, reply: PipeReply) -> PipeStage {
        let done = reply == PipeReply::Done(true);
        let failed = PipeStage::CloseToken { error: Some(PipeError::Security) };
        match self.stage {
            PipeStage::OpenToken { .. } => if done {
                PipeStage::QueryLength
            } else {
                PipeStage::Finished { error: Some(PipeError::Security) }
            },
            PipeStage::QueryLength => match reply {
                PipeReply::Length(length) => if length == 0 {
                    PipeStage::CloseToken { error: Some(PipeError::TokenLength) }
                } else {
                    PipeStage::ReadUser { length }
                },
                _ => failed,
            },
            PipeStage::ReadUser { .. } => if done {
                PipeStage::BuildAcl(user_access_plan())
            } else {
                failed
            },
            PipeStage::BuildAcl(_) => if done {
                PipeStage::InitDescriptor { revision: SECURITY_DESCRIPTOR_REVISION }
            } else {
                failed
            },
            PipeStage::InitDescriptor { .. } => if done {
                PipeStage::SetDacl { present: true, defaulted: false }
            } else {
                failed
            },
            PipeStage::SetDacl { .. } => if done {
                PipeStage::CloseToken { error: None }
            } else {
                failed
            },
            PipeStage::CloseToken { error } => match error {
                None => PipeStage::CreatePipe {
                    first: self.first,
                    attributes_length: 1,
                    inherit_handle: false,
                },
                Some(_) => PipeStage::Finished { error },
            },
            PipeStage::CreatePipe { .. } => PipeStage::FreeAcl {
                error: if done {
                    None
                } else {
                    Some(PipeError::Create)
                },
            },
            PipeStage::FreeAcl { error } => PipeStage::Finished { error },
            over => over,
        }
    }

    /// Tells what came back from the system.
    pub fn advance(&mut self, reply: PipeReply)
        requires
            old(self).awaits(reply),
        ensures
            *final(self) == (PipeSetup { stage: old(self).next(reply), ..*old(self) }),
    {
        let done = match reply {
            PipeReply::Done(done) => done,
            PipeReply::Length(_) => false,
        };
        let failed = PipeStage::CloseToken { error: Some(PipeError::Security) };
        self.stage =
        match self.stage {
            PipeStage::OpenToken { .. } => if done {
                PipeStage::QueryLength
            } else {
                PipeStage::Finished { error: Some(PipeError::Security) }
            },
            PipeStage::QueryLength => match reply {
                PipeReply::Length(length) => if length == 0 {
                    PipeStage::CloseToken { error: Some(PipeError::TokenLength) }
                } else {
                    PipeStage::ReadUser { length }
                },
                _ => failed,
            },
            PipeStage::ReadUser { .. } => if done {
                PipeStage::BuildAcl(user_access())
            } else {
                failed
            },
            PipeStage::BuildAcl(_) => if done {
                PipeStage::InitDescriptor { revision: SECURITY_DESCRIPTOR_REVISION }
            } else {
                failed
            },
            PipeStage::InitDescriptor { .. } => if done {
                PipeStage::SetDacl { present: true, defaulted: false }
            } else {
                failed
            },
            PipeStage::SetDacl { .. } => if done {
                PipeStage::CloseToken { error: None }
            } else {
                failed
            },
            PipeStage::CloseToken { error } => match error {
                None => PipeStage::CreatePipe {
                    first: self.first,
                    attributes_length: 1,
                    inherit_handle: false,
                },
                Some(_) => PipeStage::Finished { error },
            },
            PipeStage::CreatePipe { .. } => PipeStage::FreeAcl {
                error: if done {
                    None
                } else {
                    Some(PipeError::Create)
                },
            },
            PipeStage::FreeAcl { error } => PipeStage::Finished { error },
            over => over,
        };
    }
}

/// A pipe of which nothing is made.
pub open spec fn pipe_start(first: bool) -> PipeSetup {
    PipeSetup { first, stage: PipeStage::OpenToken { access: TOKEN_QUERY } }
}

/// Begins to make a pipe.
pub fn create_ipc_server(first: bool) -> (r: PipeSetup)
    ensures
        r == pipe_start(first),
{
    PipeSetup { first, stage: PipeStage::OpenToken { access: TOKEN_QUERY } }
}

/// The making of a pipe after `replies`.
pub open spec fn pipe_run(first: bool, replies: Seq<PipeReply>) -> PipeSetup
    decreases replies.len(),
{
    if replies.len() == 0 {
        pipe_start(first)
    } else {
        let setup = pipe_run(first, replies.drop_last());
        PipeSetup { stage: setup.next(replies.last()), ..setup }
    }
}

/// Whether each of `replies` answers what was asked.
pub open spec fn pipe_awaits(first: bool, replies: Seq<PipeReply>) -> bool
    decreases replies.len(),
{
    replies.len() == 0 || (pipe_awaits(first, replies.drop_last()) && pipe_run(
        first,
        replies.drop_last(),
    ).awaits(replies.last()))
}

/// Whether the token is open, and whether a descriptor that refers to the list is in place.
pub open spec fn pipe_holds(first: bool, replies: Seq<PipeReply>) -> (bool, bool)
    decreases replies.len(),
{
    if replies.len() == 0 {
        (false, false)
    } else {
        let (token, acl) = pipe_holds(first, replies.drop_last());
        match pipe_run(first, replies.drop_last()).stage {
            PipeStage::OpenToken { .. } => (replies.last() == PipeReply::Done(true), acl),
            PipeStage::SetDacl { .. } => (token, replies.last() == PipeReply::Done(true)),
            PipeStage::CloseToken { .. } => (false, acl),
            PipeStage::FreeAcl { .. } => (token, false),
            _ => (token, acl),
        }
    }
}

/// A pipe is made only with a descriptor that gives the user, and nobody else, leave to read and
/// write. The list it refers to outlives the call that makes the pipe and is given up after it,
/// and a token that was opened is closed, whether there is a pipe or not.
pub proof fn law_pipe_for_user_alone(first: bool, replies: Seq<PipeReply>)
    requires
        pipe_awaits(first, replies),
    ensures
        match pipe_run(first, replies).stage {
            PipeStage::BuildAcl(plan) => plan == user_access_plan(),
            PipeStage::CreatePipe { first: asked, .. } => asked == first && pipe_holds(first, replies)
                == (false, true),
            PipeStage::FreeAcl { .. } => pipe_holds(first, replies) == (false, true),
            PipeStage::Finished { .. } => pipe_holds(first, replies) == (false, false),
            _ => true,
        },
{
    lemma_pipe(first, replies);
}

proof fn lemma_pipe(first: bool, replies: Seq<PipeReply>)
    requires
        pipe_awaits(first, replies),
    ensures
        ({
            let setup = pipe_run(first, replies);
            let holds = pipe_holds(first, replies);
            &&& setup.first == first
            &&& match setup.stage {
                PipeStage::OpenToken { .. } => holds == (false, false),
                PipeStage::BuildAcl(plan) => holds == (true, false) && plan == user_access_plan(),
                PipeStage::CloseToken { error } => holds == (true, error is None),
                PipeStage::CreatePipe { first: asked, .. } => asked == first && holds == (false, true),
                PipeStage::FreeAcl { .. } => holds == (false, true),
                PipeStage::Finished { .. } => holds == (false, false),
                _ => holds == (true, false),
            }
        }),
    decreases replies.len(),
{
    if replies.len() > 0 {
        lemma_pipe(first, replies.drop_last());
    }
}

/// What is asked next follows from what was asked and what came back: as many bytes are read of
/// the token as there are, a pipe is made as the first of its name exactly where that was wanted,
/// and a failure is kept until the token is closed or the list is freed.
pub proof fn law_pipe_leads_on(setup: PipeSetup, reply: PipeReply)
    requires
        setup.awaits(reply),
    ensures
        match (setup.stage, reply) {
            (PipeStage::QueryLength, PipeReply::Length(length)) => if length > 0 {
                setup.next(reply) == (PipeStage::ReadUser { length })
            } else {
                setup.next(reply) == (PipeStage::CloseToken {
                    error: Some(PipeError::TokenLength),
                })
            },
            (PipeStage::CloseToken { error: None }, _) => setup.next(reply) == (
            PipeStage::CreatePipe {
                first: setup.first,
                attributes_length: 1,
                inherit_handle: false,
            }),
            (PipeStage::CloseToken { error }, _) => setup.next(reply) == (PipeStage::Finished {
                error,
            }),
            (PipeStage::FreeAcl { error }, _) => setup.next(reply) == (PipeStage::Finished {
                error,
            }),
            (PipeStage::CreatePipe { .. }, PipeReply::Done(true)) => setup.next(reply) == (
            PipeStage::FreeAcl { error: None }),
            (PipeStage::CreatePipe { .. }, _) => setup.next(reply) == (PipeStage::FreeAcl {
                error: Some(PipeError::Create),
            }),
            (PipeStage::OpenToken { .. }, PipeReply::Done(true)) => setup.next(reply)
                is QueryLength,
            (PipeStage::OpenToken { .. }, _) => setup.next(reply) == (PipeStage::Finished {
                error: Some(PipeError::Security),
            }),
            (_, PipeReply::Done(false)) => setup.next(reply) == (PipeStage::CloseToken {
                error: Some(PipeError::Security),
            }),
            (PipeStage::ReadUser { .. }, _) => setup.next(reply) matches PipeStage::BuildAcl(plan)
                && plan.permissions == 0xc000_0000 && plan.mode == 2 && plan.inheritance == 0
                && plan.trustee_form == 0 && plan.trustee_type == 1,
            (PipeStage::BuildAcl(_), _) => setup.next(reply) == (PipeStage::InitDescriptor {
                revision: 1,
            }),
            (PipeStage::InitDescriptor { .. }, _) => setup.next(reply) == (PipeStage::SetDacl {
                present: true,
                defaulted: false,
            }),
            (PipeStage::SetDacl { .. }, _) => setup.next(reply) == (PipeStage::CloseToken {
                error: None,
            }),
            _ => false,
        },
        pipe_start(setup.first).first == setup.first,
        pipe_start(setup.first).stage == (PipeStage::OpenToken { access: 8 }),
{
    assert(0x8000_0000u32 | 0x4000_0000u32 == 0xc000_0000u32) by (bit_vector);
}

/// What was being done is told of every failure but that of making the pipe itself, and what went
/// wrong where the system does not tell.
pub proof fn law_pipe_error_told(error: PipeError)
    ensures
        error.context_text() is None <==> error is Create,
        error.text() is Some <==> error is TokenLength,
{
}

} // verus!
