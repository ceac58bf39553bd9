use mirror_fleet::broadcast::{broadcast_account, broadcast_plan};
use mirror_fleet::commands::Command;
use mirror_fleet::dialogue::{
    handle_command, handle_follow_up, handle_message, FollowUpAction, Reply, State,
};
use mirror_fleet::fleet::{bootstrap_mirror, create_mirror, mirror_reply, MirrorError};
use mirror_fleet::registry::{BotRegistry, UserRegistry};
use mirror_fleet::structs::{DBBot, DBUser};

const LIVE_TOKEN: &str = "123456789:ABCDEFGHIJabcdefghij0123456789ABCDE";

fn user(id: u64, role: &str, active_in: &[&str], is_active: bool) -> DBUser {
    DBUser {
        user_id: id,
        role: role.to_string(),
        active_in: active_in.iter().map(|t| t.to_string()).collect(),
        created_mirrors: Vec::new(),
        is_active,
    }
}

fn bot(token: &str, created_by: u64, is_active: bool) -> DBBot {
    DBBot { token: token.to_string(), created_by, is_active }
}

fn users_of(records: Vec<DBUser>) -> UserRegistry {
    UserRegistry { users: records }
}

fn bots_of(records: Vec<DBBot>) -> BotRegistry {
    BotRegistry { bots: records }
}

#[test]
fn is_admin_false_for_absent_user() {
    let reg = users_of(vec![user(1, "admin", &[], true)]);
    assert!(!reg.is_admin(42));
}

#[test]
fn is_admin_false_for_default_role() {
    let reg = users_of(vec![user(42, "default", &[], true)]);
    assert!(!reg.is_admin(42));
}

#[test]
fn is_admin_true_for_admin_role() {
    let reg = users_of(vec![user(7, "admin", &[], true)]);
    assert!(reg.is_admin(7));
}

#[test]
fn start_creates_default_user_bound_to_mirror() {
    let mut reg = UserRegistry::new();
    reg.start_user(5, &"tokA".to_string());
    assert_eq!(reg.users.len(), 1);
    assert_eq!(reg.users[0].user_id, 5);
    assert_eq!(reg.users[0].role, "default");
    assert_eq!(reg.users[0].active_in, vec!["tokA".to_string()]);
    assert!(reg.users[0].created_mirrors.is_empty());
    assert!(reg.users[0].is_active);
}

#[test]
fn start_reactivates_and_records_new_mirror() {
    let mut reg = users_of(vec![user(5, "admin", &["tokA"], false)]);
    reg.start_user(5, &"tokB".to_string());
    assert_eq!(reg.users.len(), 1);
    assert_eq!(reg.users[0].role, "admin");
    assert!(reg.users[0].is_active);
    assert_eq!(reg.users[0].active_in, vec!["tokA".to_string(), "tokB".to_string()]);
}

#[test]
fn start_keeps_known_mirror_unduplicated() {
    let mut reg = users_of(vec![user(5, "default", &["tokA"], true)]);
    reg.start_user(5, &"tokA".to_string());
    assert_eq!(reg.users[0].active_in, vec!["tokA".to_string()]);
}

#[test]
fn non_admin_create_mirror_refused_without_transition() {
    let mut reg = users_of(vec![user(42, "default", &[], true)]);
    let (next, reply) = handle_command(&mut reg, &"tokA".to_string(), 42, &Command::CreateMirror);
    assert_eq!(next, State::Start);
    assert_eq!(reply, Some(Reply::NotAdmin));
    assert_eq!(reply.unwrap().text(), "You are not admin");
    assert_eq!(reg.users[0].role, "default");
}

#[test]
fn admin_create_mirror_prompts_for_token() {
    let mut reg = users_of(vec![user(7, "admin", &[], true)]);
    let (next, reply) = handle_command(&mut reg, &"tokA".to_string(), 7, &Command::CreateMirror);
    assert_eq!(next, State::CreateMirror);
    assert_eq!(reply, Some(Reply::TypeToken));
    assert_eq!(reply.unwrap().text(), "Type token");
}

#[test]
fn admin_notify_prompts_for_message() {
    let mut reg = users_of(vec![user(7, "admin", &[], true)]);
    let (next, reply) = handle_command(&mut reg, &"tokA".to_string(), 7, &Command::Notify);
    assert_eq!(next, State::Notify);
    assert_eq!(reply, Some(Reply::TypeMessage));
}

#[test]
fn add_admin_by_non_admin_leaves_target_role_unchanged() {
    let mut reg = users_of(vec![
        user(42, "default", &[], true),
        user(99, "default", &[], true),
    ]);
    let (next, reply, action) = handle_message(
        &mut reg,
        &State::Start,
        &"tokA".to_string(),
        42,
        Some(&"/addadmin 99".to_string()),
    );
    assert_eq!(next, State::Start);
    assert_eq!(reply, Some(Reply::NotAdmin));
    assert!(matches!(action, FollowUpAction::Inform));
    assert_eq!(reg.users[1].role, "default");
}

#[test]
fn add_admin_promotes_existing_default_user() {
    let mut reg = users_of(vec![
        user(7, "admin", &[], true),
        user(99, "default", &[], true),
    ]);
    let (next, reply) = handle_command(&mut reg, &"tokA".to_string(), 7, &Command::AddAdmin(99));
    assert_eq!(next, State::Start);
    assert_eq!(reply, None);
    assert_eq!(reg.users[1].role, "admin");
}

#[test]
fn add_admin_on_admin_reports_no_op() {
    let mut reg = users_of(vec![
        user(7, "admin", &[], true),
        user(8, "admin", &[], true),
    ]);
    let (next, reply) = handle_command(&mut reg, &"tokA".to_string(), 7, &Command::AddAdmin(8));
    assert_eq!(next, State::Start);
    assert_eq!(reply, Some(Reply::AlreadyAdmin));
    assert_eq!(reg.users[1].role, "admin");
}

#[test]
fn add_admin_on_unknown_user_reports_missing() {
    let mut reg = users_of(vec![user(7, "admin", &[], true)]);
    let (_, reply) = handle_command(&mut reg, &"tokA".to_string(), 7, &Command::AddAdmin(99));
    assert_eq!(reply, Some(Reply::NoSuchUser));
    assert_eq!(reply.unwrap().text(), "No such user in database");
}

#[test]
fn start_command_registers_sender_and_greets() {
    let mut reg = UserRegistry::new();
    let (next, reply, _) = handle_message(
        &mut reg,
        &State::Start,
        &"tokA".to_string(),
        5,
        Some(&"/start".to_string()),
    );
    assert_eq!(next, State::Start);
    assert_eq!(reply, Some(Reply::Greeting));
    assert_eq!(reg.users.len(), 1);
    assert_eq!(reg.users[0].user_id, 5);
}

#[test]
fn unrecognized_text_in_start_ignored() {
    let mut reg = users_of(vec![user(42, "default", &[], true)]);
    let (next, reply, _) = handle_message(
        &mut reg,
        &State::Start,
        &"tokA".to_string(),
        42,
        Some(&"hello".to_string()),
    );
    assert_eq!(next, State::Start);
    assert_eq!(reply, None);
    assert_eq!(reg.users.len(), 1);
    assert_eq!(reg.users[0].role, "default");
}

#[test]
fn follow_up_always_returns_to_start() {
    let (next, _, _) = handle_follow_up(&State::CreateMirror, Some(&"garbage".to_string()));
    assert_eq!(next, State::Start);
    let (next, _, _) = handle_follow_up(&State::CreateMirror, None);
    assert_eq!(next, State::Start);
    let (next, _, _) = handle_follow_up(&State::Notify, Some(&"Hello users".to_string()));
    assert_eq!(next, State::Start);
    let (next, _, _) = handle_follow_up(&State::Notify, None);
    assert_eq!(next, State::Start);
}

#[test]
fn follow_up_without_text_reports_missing_input() {
    let (_, reply, _) = handle_follow_up(&State::CreateMirror, None);
    assert_eq!(reply, Some(Reply::NoTokenSent));
    assert_eq!(reply.unwrap().text(), "You didn't send a token");
    let (_, reply, _) = handle_follow_up(&State::Notify, None);
    assert_eq!(reply, Some(Reply::NoTextToSend));
}

#[test]
fn follow_up_with_invalid_token_refused() {
    let (next, reply, action) =
        handle_follow_up(&State::CreateMirror, Some(&"not-a-token".to_string()));
    assert_eq!(next, State::Start);
    assert_eq!(reply, Some(Reply::InvalidToken));
    assert!(matches!(action, FollowUpAction::Inform));
}

#[test]
fn follow_up_with_valid_token_asks_for_probe() {
    let (next, reply, action) =
        handle_follow_up(&State::CreateMirror, Some(&LIVE_TOKEN.to_string()));
    assert_eq!(next, State::Start);
    assert_eq!(reply, None);
    match action {
        FollowUpAction::Probe(tok) => assert_eq!(tok, LIVE_TOKEN),
        _ => panic!("expected a probe"),
    }
}

#[test]
fn follow_up_in_notify_carries_message_out() {
    let (_, _, action) = handle_follow_up(&State::Notify, Some(&"Hello users".to_string()));
    match action {
        FollowUpAction::Broadcast(body) => assert_eq!(body, "Hello users"),
        _ => panic!("expected a broadcast"),
    }
}

#[test]
fn live_valid_token_inserts_one_active_record() {
    let mut bots = BotRegistry::new();
    let r = create_mirror(&mut bots, &LIVE_TOKEN.to_string(), 7, true);
    assert_eq!(r, Ok(()));
    assert_eq!(mirror_reply(&r), Reply::MirrorAdded);
    assert_eq!(mirror_reply(&r).text(), "You added new mirror");
    assert_eq!(bots.bots.len(), 1);
    assert_eq!(bots.bots[0].token, LIVE_TOKEN);
    assert_eq!(bots.bots[0].created_by, 7);
    assert!(bots.bots[0].is_active);
}

#[test]
fn ill_formed_token_inserts_nothing() {
    let mut bots = BotRegistry::new();
    let r = create_mirror(&mut bots, &"short:token".to_string(), 7, true);
    assert_eq!(r, Err(MirrorError::InvalidTokenFormat));
    assert_eq!(mirror_reply(&r), Reply::InvalidToken);
    assert!(bots.bots.is_empty());
}

#[test]
fn dead_token_inserts_nothing() {
    let mut bots = BotRegistry::new();
    let r = create_mirror(&mut bots, &LIVE_TOKEN.to_string(), 7, false);
    assert_eq!(r, Err(MirrorError::TokenRejected));
    assert_eq!(mirror_reply(&r), Reply::TokenExpired);
    assert!(bots.bots.is_empty());
}

#[test]
fn bootstrap_keeps_live_credentials_and_flags_dead_ones() {
    let mut bots = bots_of(vec![bot("tokA", 0, true), bot("tokB", 7, true)]);
    assert!(bootstrap_mirror(&mut bots, &"tokA".to_string(), true));
    assert!(bots.bots[0].is_active);
    assert!(!bootstrap_mirror(&mut bots, &"tokB".to_string(), false));
    assert!(!bots.bots[1].is_active);
    assert!(bots.bots[0].is_active);
}

#[test]
fn active_tokens_lists_only_active_records() {
    let bots = bots_of(vec![
        bot("tokA", 0, true),
        bot("tokB", 7, false),
        bot("tokC", 7, true),
    ]);
    assert_eq!(bots.active_tokens(), vec!["tokA".to_string(), "tokC".to_string()]);
}

#[test]
fn plan_covers_each_user_token_pair_once() {
    let reg = users_of(vec![
        user(1, "default", &["tokA", "tokB"], true),
        user(2, "default", &["tokB"], false),
    ]);
    let plan = broadcast_plan(&reg);
    let pairs: Vec<(u64, String)> =
        plan.iter().map(|d| (d.user_id, d.token.clone())).collect();
    assert_eq!(
        pairs,
        vec![
            (1, "tokA".to_string()),
            (1, "tokB".to_string()),
            (2, "tokB".to_string()),
        ]
    );
}

#[test]
fn silent_mirror_goes_inactive_and_reached_one_stays() {
    // Two users on both mirrors; every delivery through tokA fails and
    // every one through tokB succeeds.
    let reg = users_of(vec![
        user(1, "default", &["tokA", "tokB"], true),
        user(2, "default", &["tokA", "tokB"], true),
    ]);
    let mut bots = bots_of(vec![bot("tokA", 0, true), bot("tokB", 0, true)]);
    let plan = broadcast_plan(&reg);
    let outcomes: Vec<bool> = plan.iter().map(|d| d.token == "tokB").collect();
    broadcast_account(&mut bots, &plan, &outcomes);
    assert!(!bots.bots[0].is_active);
    assert!(bots.bots[1].is_active);
}

#[test]
fn accounting_twice_keeps_silent_mirror_inactive() {
    let reg = users_of(vec![user(1, "default", &["tokA"], true)]);
    let mut bots = bots_of(vec![bot("tokA", 0, true)]);
    let plan = broadcast_plan(&reg);
    let outcomes = vec![false];
    broadcast_account(&mut bots, &plan, &outcomes);
    assert!(!bots.bots[0].is_active);
    broadcast_account(&mut bots, &plan, &outcomes);
    assert!(!bots.bots[0].is_active);
}

#[test]
fn unplanned_token_keeps_its_record() {
    let reg = users_of(vec![user(1, "default", &["tokA"], true)]);
    let mut bots = bots_of(vec![bot("tokA", 0, true), bot("tokC", 0, true)]);
    let plan = broadcast_plan(&reg);
    let outcomes = vec![true];
    broadcast_account(&mut bots, &plan, &outcomes);
    assert!(bots.bots[0].is_active);
    assert!(bots.bots[1].is_active);
}

#[test]
fn dialogue_rests_in_start_by_default() {
    assert_eq!(State::default(), State::Start);
}

#[test]
fn reply_wordings() {
    assert_eq!(Reply::Greeting.text(), "Starting Message");
    assert_eq!(Reply::TypeMessage.text(), "Type message you want to send to users");
    assert_eq!(Reply::AlreadyAdmin.text(), "This user is already an admin");
    assert_eq!(Reply::InvalidToken.text(), "Invalid token");
    assert_eq!(Reply::TokenExpired.text(), "Token is expired");
    assert_eq!(Reply::NoTextToSend.text(), "No text to send");
    assert_eq!(Reply::SendingCompleted.text(), "Sending completed");
}

#[test]
fn admin_token_scenario_end_to_end() {
    // An admin asks to create a mirror, answers with a live well-formed
    // token, and the fleet gains one active record.
    let mut users = users_of(vec![user(7, "admin", &[], true)]);
    let mut bots = BotRegistry::new();
    let (next, reply, _) = handle_message(
        &mut users,
        &State::Start,
        &"tokA".to_string(),
        7,
        Some(&"/createmirror".to_string()),
    );
    assert_eq!(next, State::CreateMirror);
    assert_eq!(reply, Some(Reply::TypeToken));
    let (next, reply, action) =
        handle_message(&mut users, &next, &"tokA".to_string(), 7, Some(&LIVE_TOKEN.to_string()));
    assert_eq!(next, State::Start);
    assert_eq!(reply, None);
    let tok = match action {
        FollowUpAction::Probe(tok) => tok,
        _ => panic!("expected a probe"),
    };
    let r = create_mirror(&mut bots, &tok, 7, true);
    assert_eq!(mirror_reply(&r), Reply::MirrorAdded);
    assert_eq!(bots.bots.len(), 1);
    assert!(bots.bots[0].is_active);
}
