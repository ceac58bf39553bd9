//! Fleet orchestration: registering new mirrors and the bootstrap pass.
//!
//! The provider's liveness check is an outside call; its verdict reaches
//! these functions as a plain boolean, and the functions are verified for
//! either verdict.  A `true` result of `create_mirror`, and of
//! `bootstrap_mirror`, tells the caller to start one new listener.

use vstd::prelude::*;

use crate::registry::{deactivated, has_token, BotRegistry};
use crate::structs::{BotV, DBBot};
use crate::token::token_syntax_ok;

verus! {

/// Why a mirror registration was refused.
#[derive(Clone, Copy, Debug, PartialEq, Eq, Structural)]
pub enum MirrorError {
    /// The candidate token does not match the token grammar.
    InvalidTokenFormat,
    /// The provider's liveness check rejected the credential.
    TokenRejected,
}

/// Registers a new mirror credential on behalf of `requesting_user`.
///
/// `live` is the verdict of the provider's liveness check on `candidate`.
/// A syntactically ill-formed token is refused before that verdict is
/// looked at; a well-formed, live token is recorded as an active bot
/// record, and `Ok` tells the caller to start exactly one new listener.
pub fn create_mirror(
    bots: &mut BotRegistry,
    candidate: &String,
    requesting_user: u64,
    live: bool,
) -> (r: Result<(), MirrorError>)
    requires
        old(bots).wf(),
        token_syntax_ok(candidate@) && live ==> !has_token(old(bots)@, candidate@),
    ensures
        final(bots).wf(),
        !token_syntax_ok(candidate@) ==> r == Err::<(), MirrorError>(MirrorError::InvalidTokenFormat)
            && final(bots)@ == old(bots)@,
        token_syntax_ok(candidate@) && !live ==> r == Err::<(), MirrorError>(
            MirrorError::TokenRejected,
        ) && final(bots)@ == old(bots)@,
        token_syntax_ok(candidate@) && live ==> r == Ok::<(), MirrorError>(()) && final(bots)@
            == old(bots)@.push(
            BotV { token: candidate@, created_by: requesting_user, is_active: true },
        ),
{
    if !crate::token::is_valid_token(candidate.as_str()) {
        return Err(MirrorError::InvalidTokenFormat);
    }
    if !live {
        return Err(MirrorError::TokenRejected);
    }
    let record = DBBot { token: candidate.clone(), created_by: requesting_user, is_active: true };
    bots.insert_bot(record);
    Ok(())
}

/// The reply owed to the requesting admin for each outcome of a mirror
/// registration.
pub fn mirror_reply(r: &Result<(), MirrorError>) -> (reply: crate::dialogue::Reply)
    ensures
        reply == (match r {
            Ok(_) => crate::dialogue::Reply::MirrorAdded,
            Err(MirrorError::InvalidTokenFormat) => crate::dialogue::Reply::InvalidToken,
            Err(MirrorError::TokenRejected) => crate::dialogue::Reply::TokenExpired,
        }),
{
    match r {
        Ok(_) => crate::dialogue::Reply::MirrorAdded,
        Err(MirrorError::InvalidTokenFormat) => crate::dialogue::Reply::InvalidToken,
        Err(MirrorError::TokenRejected) => crate::dialogue::Reply::TokenExpired,
    }
}

/// One step of the bootstrap pass over the active credentials: a live
/// credential keeps its record and gets a listener; a dead one is flagged
/// inactive and gets none.  Bootstrap never aborts on a dead credential.
pub fn bootstrap_mirror(bots: &mut BotRegistry, token: &String, live: bool) -> (spawn: bool)
    ensures
        spawn == live,
        live ==> final(bots)@ == old(bots)@,
        !live ==> final(bots)@ == deactivated(old(bots)@, token@),
        final(bots).wf() == old(bots).wf(),
{
    if live {
        true
    } else {
        bots.deactivate(token);
        false
    }
}

} // verus!
