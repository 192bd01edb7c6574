//! The review loop's state machine: a single 1-indexed page cursor,
//! the transition table from operator commands to cursor moves,
//! warnings and actions, and the policy for choosing a version to
//! validate.

use crate::client::IndexError;
use crate::commands::Command;
use crate::model::Version;
use crate::page_in_range;
use vstd::prelude::*;

verus! {

/// What the operator asked the dashboard to do. Only the pending
/// review listing exists; rejection is reserved and unimplemented.
#[derive(Clone, Copy, Debug, PartialEq, Eq, Structural)]
pub enum AdminAction {
    ListPending,
}

/// A review session about to start: the credential every remote call
/// will carry, and the cursor, which always starts at the first page.
pub struct ReviewSession {
    pub token: String,
    pub page: i32,
}

/// Open the moderation dashboard: without a token the session is
/// refused before any network call; with one, the requested action
/// starts a review session at the first page.
pub fn admin_dashboard(action: AdminAction, index_token: &Option<String>) -> (r: Result<
    ReviewSession,
    IndexError,
>)
    ensures
        r is Ok <==> index_token is Some,
        r matches Err(e) ==> e == IndexError::NotLoggedIn,
        r matches Ok(s) ==> s.page == 1 && Some(s.token) == *index_token,
{
    let token = match index_token {
        Some(t) => t.clone(),
        None => {
            return Err(IndexError::NotLoggedIn);
        },
    };
    match action {
        AdminAction::ListPending => Ok(ReviewSession { token, page: 1 }),
    }
}

/// A non-fatal complaint about operator input; the loop reports it and
/// continues unchanged.
#[derive(Clone, Copy, Debug, PartialEq, Eq, Structural)]
pub enum Warning {
    InvalidPage,
    InvalidInput,
    InvalidVersion,
}

pub open spec fn spec_warning_text(w: Warning) -> Seq<char> {
    match w {
        Warning::InvalidPage => "Invalid page number"@,
        Warning::InvalidInput => "Invalid input"@,
        Warning::InvalidVersion => "Invalid version"@,
    }
}

impl Warning {
    /// The text of the warning shown to the operator.
    pub fn message(&self) -> (r: &'static str)
        ensures
            r@ == spec_warning_text(*self),
    {
        match self {
            Warning::InvalidPage => "Invalid page number",
            Warning::InvalidInput => "Invalid input",
            Warning::InvalidVersion => "Invalid version",
        }
    }
}

/// What one command asks the loop to do next.
#[derive(Clone, Copy, Debug, PartialEq, Eq, Structural)]
pub enum Directive {
    /// Continue with this cursor (possibly unchanged by a boundary
    /// no-op).
    Move(i32),
    /// Report a warning and continue with the cursor unchanged.
    Warned(Warning),
    /// Start the validation flow on the current submission.
    BeginValidate,
    /// The reserved reject command: deliberately no effect.
    Ignore,
    /// Leave the loop normally.
    Stop,
}

/// The transition table of the review loop, given the current cursor,
/// the total the last fetch reported, and one command.
pub open spec fn spec_dispatch(page: i32, count: i32, cmd: Command) -> Directive {
    match cmd {
        Command::Next => if page < count {
            Directive::Move((page + 1) as i32)
        } else {
            Directive::Move(page)
        },
        Command::Prev => if page > 1 {
            Directive::Move((page - 1) as i32)
        } else {
            Directive::Move(page)
        },
        Command::Goto(n) => if 1 <= n && n <= count {
            Directive::Move(n)
        } else {
            Directive::Warned(Warning::InvalidPage)
        },
        Command::Validate => Directive::BeginValidate,
        Command::Reject => Directive::Ignore,
        Command::Quit => Directive::Stop,
        Command::Unknown => Directive::Warned(Warning::InvalidInput),
    }
}

/// Apply one operator command to the cursor. Navigation saturates at
/// the boundaries, an out-of-range jump only warns, and unrecognized
/// input only warns; every cursor this hands back is again in range.
pub fn dispatch_command(page: i32, count: i32, cmd: &Command) -> (d: Directive)
    requires
        page_in_range(page as int, count as int),
    ensures
        d == spec_dispatch(page, count, *cmd),
        d matches Directive::Move(q) ==> page_in_range(q as int, count as int),
{
    match *cmd {
        Command::Next => if page < count {
            Directive::Move(page + 1)
        } else {
            Directive::Move(page)
        },
        Command::Prev => if page > 1 {
            Directive::Move(page - 1)
        } else {
            Directive::Move(page)
        },
        Command::Goto(n) => if 1 <= n && n <= count {
            Directive::Move(n)
        } else {
            Directive::Warned(Warning::InvalidPage)
        },
        Command::Validate => Directive::BeginValidate,
        Command::Reject => Directive::Ignore,
        Command::Quit => Directive::Stop,
        Command::Unknown => Directive::Warned(Warning::InvalidInput),
    }
}

/// From an interior page, `n` moves one forward and `p` one back; at
/// the last page `n` holds still, and at the first page `p` holds
/// still.
pub proof fn lemma_neighbor_navigation(page: i32, count: i32)
    requires
        page_in_range(page as int, count as int),
    ensures
        page < count ==> spec_dispatch(page, count, Command::Next) == Directive::Move(
            (page + 1) as i32,
        ),
        page == count ==> spec_dispatch(page, count, Command::Next) == Directive::Move(page),
        page > 1 ==> spec_dispatch(page, count, Command::Prev) == Directive::Move(
            (page - 1) as i32,
        ),
        page == 1 ==> spec_dispatch(page, count, Command::Prev) == Directive::Move(page),
{
}

/// From an interior page, going forward and then back returns to the
/// page the loop started at.
pub proof fn lemma_next_then_prev(page: i32, count: i32)
    requires
        1 <= page < count,
    ensures
        spec_dispatch(page, count, Command::Next) matches Directive::Move(q) ==> spec_dispatch(
            q,
            count,
            Command::Prev,
        ) == Directive::Move(page),
{
}

/// An integer command moves the cursor to exactly the named page when
/// it is between 1 and the reported total, and otherwise leaves the
/// state alone with an invalid-page warning.
pub proof fn lemma_goto_exact(page: i32, count: i32, n: i32)
    requires
        page_in_range(page as int, count as int),
    ensures
        page_in_range(n as int, count as int) ==> spec_dispatch(page, count, Command::Goto(n))
            == Directive::Move(n),
        !page_in_range(n as int, count as int) ==> spec_dispatch(page, count, Command::Goto(n))
            == Directive::Warned(Warning::InvalidPage),
{
}

/// Every move the transition table yields stays between 1 and the
/// reported total: the cursor never leaves the valid range.
pub proof fn lemma_dispatch_stays_in_range(page: i32, count: i32, cmd: Command)
    requires
        page_in_range(page as int, count as int),
    ensures
        spec_dispatch(page, count, cmd) matches Directive::Move(q) ==> page_in_range(
            q as int,
            count as int,
        ),
{
}

/// Whether an iteration of the loop shows anything: a fetch that
/// reports no pending submissions ends the session before any
/// rendering or command reading.
#[derive(Clone, Copy, Debug, PartialEq, Eq, Structural)]
pub enum LoopStep {
    /// Announce that nothing is pending and leave the loop.
    NoPending,
    /// Render the fetched submission and read a command.
    Display,
}

/// Decide, from the total a fetch reported, whether the loop enters
/// its render-and-command cycle at all: a zero total ends the session
/// immediately.
pub fn begin_iteration(count: i32) -> (s: LoopStep)
    ensures
        s == LoopStep::NoPending <==> count == 0,
{
    if count == 0 {
        LoopStep::NoPending
    } else {
        LoopStep::Display
    }
}

/// How the validate command proceeds on the current submission.
#[derive(Clone, Copy, Debug, PartialEq, Eq, Structural)]
pub enum ValidatePlan {
    /// Exactly one version: validate it with no further prompt.
    Immediate,
    /// Any other number of versions: prompt for a version string.
    NeedPrompt,
}

pub open spec fn spec_plan_validation(versions: Seq<Version>) -> ValidatePlan {
    if versions.len() == 1 {
        ValidatePlan::Immediate
    } else {
        ValidatePlan::NeedPrompt
    }
}

/// Decide whether validation may proceed without a prompt: only a
/// submission with exactly one version is validated immediately.
pub fn plan_validation(versions: &Vec<Version>) -> (p: ValidatePlan)
    ensures
        p == spec_plan_validation(versions@),
{
    if versions.len() == 1 {
        ValidatePlan::Immediate
    } else {
        ValidatePlan::NeedPrompt
    }
}

/// The first version whose version string equals the input exactly,
/// if any.
pub open spec fn spec_first_match(versions: Seq<Version>, input: Seq<char>) -> Option<int>
    decreases versions.len(),
{
    if versions.len() == 0 {
        None
    } else if versions[0].version@ == input {
        Some(0)
    } else {
        match spec_first_match(versions.drop_first(), input) {
            Some(i) => Some(i + 1),
            None => None,
        }
    }
}

/// A found match names an in-range version whose string is exactly the
/// input; no match means no version carries that string.
pub proof fn lemma_first_match_exact(versions: Seq<Version>, input: Seq<char>)
    ensures
        spec_first_match(versions, input) matches Some(i) ==> 0 <= i < versions.len()
            && versions[i].version@ == input,
        spec_first_match(versions, input) is None ==> forall|j: int|
            0 <= j < versions.len() ==> versions[j].version@ != input,
    decreases versions.len(),
{
    if versions.len() > 0 {
        lemma_first_match_exact(versions.drop_first(), input);
        if spec_first_match(versions, input) is None {
            assert forall|j: int| 0 <= j < versions.len() implies versions[j].version@
                != input by {
                if j > 0 {
                    assert(versions.drop_first()[j - 1] == versions[j]);
                }
            }
        }
    }
}

/// Find the version whose version string matches the prompted input
/// exactly; an inexact input matches nothing.
pub fn choose_version(versions: &Vec<Version>, input: &str) -> (r: Option<usize>)
    ensures
        match r {
            Some(i) => spec_first_match(versions@, input@) == Some(i as int),
            None => spec_first_match(versions@, input@) is None,
        },
{
    let wanted = input.to_owned();
    let n = versions.len();
    let mut i: usize = 0;
    proof {
        assert(versions@.skip(0) =~= versions@);
    }
    while i < n
        invariant
            0 <= i <= n,
            n == versions@.len(),
            wanted@ == input@,
            forall|j: int| 0 <= j < i ==> versions@[j].version@ != input@,
            spec_first_match(versions@, input@) == match spec_first_match(
                versions@.skip(i as int),
                input@,
            ) {
                Some(k) => Some(k + i),
                None => None::<int>,
            },
        decreases n - i,
    {
        if versions[i].version == wanted {
            proof {
                assert(versions@.skip(i as int)[0] == versions@[i as int]);
            }
            return Some(i);
        }
        proof {
            assert(versions@.skip(i as int)[0] == versions@[i as int]);
            assert(versions@.skip(i as int).drop_first() =~= versions@.skip(i as int + 1));
        }
        i = i + 1;
    }
    proof {
        assert(versions@.skip(n as int).len() == 0);
    }
    None
}

/// Validation on a submission with exactly one version never prompts;
/// with any other number it prompts, and a prompted input is accepted
/// only when it matches one version's string exactly.
pub proof fn lemma_validation_prompt_policy(versions: Seq<Version>, input: Seq<char>)
    ensures
        versions.len() == 1 ==> spec_plan_validation(versions) == ValidatePlan::Immediate,
        versions.len() != 1 ==> spec_plan_validation(versions) == ValidatePlan::NeedPrompt,
        spec_first_match(versions, input) matches Some(i) ==> 0 <= i < versions.len()
            && versions[i].version@ == input,
        spec_first_match(versions, input) is None ==> forall|j: int|
            0 <= j < versions.len() ==> versions[j].version@ != input,
{
    lemma_first_match_exact(versions, input);
}

} // verus!
