//! The per-chat dialogue state machine.
//!
//! Each (mirror, chat) pair owns one `State`.  A command arriving in the
//! resting state may transition into `CreateMirror` or `Notify`; the one
//! follow-up message consumed there always returns the chat to `Start`,
//! whatever the message was.  Privileged commands are gated on the
//! sender's role in the shared user registry.

use vstd::prelude::*;

use crate::commands::{spec_parse_command, Command};
use crate::registry::{has_user, is_admin_in, promoted, started, UserRegistry};
use crate::token::token_syntax_ok;

verus! {

/// The dialogue state of one chat on one mirror.
#[derive(Clone, Copy, Debug, PartialEq, Eq, Structural)]
pub enum State {
    /// Resting state: text is parsed as a command.
    Start,
    /// Waiting for the candidate token of a new mirror.
    CreateMirror,
    /// Waiting for the message to broadcast.
    Notify,
}

impl Default for State {
    /// A chat with no recorded dialogue rests in `Start`.
    fn default() -> (r: State)
        ensures
            r == State::Start,
    {
        State::Start
    }
}

/// Every user-facing reply the core can issue.
#[derive(Clone, Copy, Debug, PartialEq, Eq, Structural)]
pub enum Reply {
    /// Greeting after `/start`.
    Greeting,
    /// A privileged command from a non-admin sender.
    NotAdmin,
    /// Prompt for a mirror credential.
    TypeToken,
    /// Prompt for a broadcast message.
    TypeMessage,
    /// `/addadmin` aimed at a user who is already an admin.
    AlreadyAdmin,
    /// `/addadmin` aimed at a user the registry does not hold.
    NoSuchUser,
    /// A candidate token failing the token grammar.
    InvalidToken,
    /// A candidate token rejected by the provider's liveness check.
    TokenExpired,
    /// A new mirror was registered and its listener started.
    MirrorAdded,
    /// A follow-up in `CreateMirror` carrying no text.
    NoTokenSent,
    /// A follow-up in `Notify` carrying no text.
    NoTextToSend,
    /// Acknowledgment after a broadcast round.
    SendingCompleted,
}

impl Reply {
    /// The wording sent to the chat for each reply.
    pub open spec fn spec_text(self) -> Seq<char> {
        match self {
            Reply::Greeting => "Starting Message"@,
            Reply::NotAdmin => "You are not admin"@,
            Reply::TypeToken => "Type token"@,
            Reply::TypeMessage => "Type message you want to send to users"@,
            Reply::AlreadyAdmin => "This user is already an admin"@,
            Reply::NoSuchUser => "No such user in database"@,
            Reply::InvalidToken => "Invalid token"@,
            Reply::TokenExpired => "Token is expired"@,
            Reply::MirrorAdded => "You added new mirror"@,
            Reply::NoTokenSent => "You didn't send a token"@,
            Reply::NoTextToSend => "No text to send"@,
            Reply::SendingCompleted => "Sending completed"@,
        }
    }

    /// The reply's wording as a string slice.
    pub fn text(&self) -> (s: &'static str)
        ensures
            s@ == self.spec_text(),
    {
        match self {
            Reply::Greeting => "Starting Message",
            Reply::NotAdmin => "You are not admin",
            Reply::TypeToken => "Type token",
            Reply::TypeMessage => "Type message you want to send to users",
            Reply::AlreadyAdmin => "This user is already an admin",
            Reply::NoSuchUser => "No such user in database",
            Reply::InvalidToken => "Invalid token",
            Reply::TokenExpired => "Token is expired",
            Reply::MirrorAdded => "You added new mirror",
            Reply::NoTokenSent => "You didn't send a token",
            Reply::NoTextToSend => "No text to send",
            Reply::SendingCompleted => "Sending completed",
        }
    }
}

/// The state a command received in `Start` leads to: only an admin's
/// `/createmirror` or `/notify` leaves the resting state.
pub open spec fn next_state_for(users: Seq<crate::structs::UserV>, sender: u64, cmd: Command) -> State {
    match cmd {
        Command::CreateMirror => if is_admin_in(users, sender) {
            State::CreateMirror
        } else {
            State::Start
        },
        Command::Notify => if is_admin_in(users, sender) {
            State::Notify
        } else {
            State::Start
        },
        _ => State::Start,
    }
}

/// The reply a command received in `Start` draws; `None` for a silent
/// success (a completed promotion).
pub open spec fn reply_for(users: Seq<crate::structs::UserV>, sender: u64, cmd: Command) -> Option<
    Reply,
> {
    match cmd {
        Command::Start => Some(Reply::Greeting),
        Command::CreateMirror => Some(
            if is_admin_in(users, sender) {
                Reply::TypeToken
            } else {
                Reply::NotAdmin
            },
        ),
        Command::Notify => Some(
            if is_admin_in(users, sender) {
                Reply::TypeMessage
            } else {
                Reply::NotAdmin
            },
        ),
        Command::AddAdmin(target) => if !is_admin_in(users, sender) {
            Some(Reply::NotAdmin)
        } else if !has_user(users, target) {
            Some(Reply::NoSuchUser)
        } else if is_admin_in(users, target) {
            Some(Reply::AlreadyAdmin)
        } else {
            None
        },
    }
}

/// How a command received in `Start` changes the user registry: `/start`
/// upserts the sender; an admin's `/addadmin` promotes an existing
/// non-admin target; everything else leaves it untouched.
pub open spec fn users_after(
    users: Seq<crate::structs::UserV>,
    sender: u64,
    cmd: Command,
    mirror_token: Seq<char>,
) -> Seq<crate::structs::UserV> {
    match cmd {
        Command::Start => started(users, sender, mirror_token),
        Command::AddAdmin(target) => if is_admin_in(users, sender) && has_user(users, target)
            && !is_admin_in(users, target) {
            promoted(users, target)
        } else {
            users
        },
        _ => users,
    }
}

/// No command changes the role of an existing record, except that an
/// admin's `/addadmin` sets the target's role to `"admin"`; in
/// particular, a non-admin sender can never escalate anybody.
pub proof fn lemma_role_escalation_needs_admin(
    users: Seq<crate::structs::UserV>,
    sender: u64,
    cmd: Command,
    mirror_token: Seq<char>,
    i: int,
)
    requires
        0 <= i < users.len(),
    ensures
        users_after(users, sender, cmd, mirror_token).len() >= users.len(),
        users_after(users, sender, cmd, mirror_token)[i].role == users[i].role || (cmd matches
        Command::AddAdmin(target) && is_admin_in(users, sender) && users[i].user_id == target
            && users_after(users, sender, cmd, mirror_token)[i].role == "admin"@),
{
}

/// Handles one command arriving in the resting state on the mirror bound
/// to `mirror_token`, sent by `sender`.
///
/// Returns the next dialogue state of the chat and the reply owed, and
/// applies the command's registry effect.
pub fn handle_command(
    users: &mut UserRegistry,
    mirror_token: &String,
    sender: u64,
    cmd: &Command,
) -> (r: (State, Option<Reply>))
    requires
        old(users).wf(),
    ensures
        final(users).wf(),
        r.0 == next_state_for(old(users)@, sender, *cmd),
        r.1 == reply_for(old(users)@, sender, *cmd),
        final(users)@ == users_after(old(users)@, sender, *cmd, mirror_token@),
{
    match cmd {
        Command::Start => {
            users.start_user(sender, mirror_token);
            (State::Start, Some(Reply::Greeting))
        },
        Command::CreateMirror => {
            if users.is_admin(sender) {
                (State::CreateMirror, Some(Reply::TypeToken))
            } else {
                (State::Start, Some(Reply::NotAdmin))
            }
        },
        Command::Notify => {
            if users.is_admin(sender) {
                (State::Notify, Some(Reply::TypeMessage))
            } else {
                (State::Start, Some(Reply::NotAdmin))
            }
        },
        Command::AddAdmin(target) => {
            if !users.is_admin(sender) {
                (State::Start, Some(Reply::NotAdmin))
            } else if !users.contains_user(*target) {
                (State::Start, Some(Reply::NoSuchUser))
            } else if users.is_admin(*target) {
                (State::Start, Some(Reply::AlreadyAdmin))
            } else {
                users.promote(*target);
                (State::Start, None)
            }
        },
    }
}

/// What the caller must do with the one follow-up message consumed in
/// `CreateMirror` or `Notify`.
pub enum FollowUpAction {
    /// Nothing beyond sending the reply.
    Inform,
    /// Run the provider's liveness check on this candidate token, then
    /// complete the registration with `fleet::create_mirror`.
    Probe(String),
    /// Fan this message body out to every user's recorded mirrors.
    Broadcast(String),
}

/// What handling the one follow-up message of `CreateMirror` or `Notify`
/// must yield: the chat back in `Start`, and the reply and action the
/// message calls for.
pub open spec fn follow_up_post(
    state: State,
    text: Option<Seq<char>>,
    r: (State, Option<Reply>, FollowUpAction),
) -> bool {
    &&& r.0 == State::Start
    &&& (state == State::CreateMirror ==> match text {
        None => r.1 == Some(Reply::NoTokenSent) && r.2 is Inform,
        Some(t) => {
            if token_syntax_ok(t) {
                &&& r.1 == None::<Reply>
                &&& r.2 matches FollowUpAction::Probe(tok) && tok@ == t
            } else {
                r.1 == Some(Reply::InvalidToken) && r.2 is Inform
            }
        },
    })
    &&& (state == State::Notify ==> match text {
        None => r.1 == Some(Reply::NoTextToSend) && r.2 is Inform,
        Some(t) => {
            &&& r.1 == None::<Reply>
            &&& r.2 matches FollowUpAction::Broadcast(body) && body@ == t
        },
    })
}

/// The view of an optional text body.
pub open spec fn text_view(text: Option<&String>) -> Option<Seq<char>> {
    match text {
        Some(t) => Some(t@),
        None => None,
    }
}

/// Handles the one follow-up message awaited in `CreateMirror` or
/// `Notify`; `text` is the message's text body, if it has one.
///
/// The chat always returns to `Start`, whatever the message held.
pub fn handle_follow_up(state: &State, text: Option<&String>) -> (r: (
    State,
    Option<Reply>,
    FollowUpAction,
))
    requires
        *state == State::CreateMirror || *state == State::Notify,
    ensures
        r.0 == State::Start,
        follow_up_post(*state, text_view(text), r),
{
    match state {
        State::CreateMirror => {
            match text {
                None => (State::Start, Some(Reply::NoTokenSent), FollowUpAction::Inform),
                Some(t) => {
                    if crate::token::is_valid_token(t.as_str()) {
                        (State::Start, None, FollowUpAction::Probe(t.clone()))
                    } else {
                        (State::Start, Some(Reply::InvalidToken), FollowUpAction::Inform)
                    }
                },
            }
        },
        _ => {
            match text {
                None => (State::Start, Some(Reply::NoTextToSend), FollowUpAction::Inform),
                Some(t) => (State::Start, None, FollowUpAction::Broadcast(t.clone())),
            }
        },
    }
}

/// Routes one incoming message of a private chat, given the chat's
/// current dialogue state.
///
/// In `Start` the text is parsed as a command (anything unrecognized is
/// ignored without reply or effect); in `CreateMirror` and `Notify` the
/// message is the awaited follow-up input.
pub fn handle_message(
    users: &mut UserRegistry,
    state: &State,
    mirror_token: &String,
    sender: u64,
    text: Option<&String>,
) -> (r: (State, Option<Reply>, FollowUpAction))
    requires
        old(users).wf(),
    ensures
        final(users).wf(),
        *state == State::Start ==> match spec_parsed(text_view(text)) {
            Some(cmd) => {
                &&& r.0 == next_state_for(old(users)@, sender, cmd)
                &&& r.1 == reply_for(old(users)@, sender, cmd)
                &&& r.2 is Inform
                &&& final(users)@ == users_after(old(users)@, sender, cmd, mirror_token@)
            },
            None => {
                &&& r.0 == State::Start
                &&& r.1 == None::<Reply>
                &&& r.2 is Inform
                &&& final(users)@ == old(users)@
            },
        },
        *state != State::Start ==> follow_up_post(*state, text_view(text), r) && final(users)@
            == old(users)@,
{
    match state {
        State::Start => {
            let cmd = match text {
                Some(t) => crate::commands::parse_command(t.as_str()),
                None => None,
            };
            match cmd {
                Some(c) => {
                    let (next, reply) = handle_command(users, mirror_token, sender, &c);
                    (next, reply, FollowUpAction::Inform)
                },
                None => (State::Start, None, FollowUpAction::Inform),
            }
        },
        _ => {
            let r = handle_follow_up(state, text);
            r
        },
    }
}

/// The command a message's optional text body parses to, if any.
pub open spec fn spec_parsed(text: Option<Seq<char>>) -> Option<Command> {
    match text {
        Some(t) => spec_parse_command(t),
        None => None,
    }
}

} // verus!
