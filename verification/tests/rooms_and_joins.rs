use matrix_bot_test::autojoin::{decide_invite, InviteDecision, JoinBackoff, MAX_JOIN_DELAY};
use matrix_bot_test::rooms::{
    echo_reply, encrypted_dm_with, find_room_with_owner, has_member, scan_room,
    starts_verification, MessageKind, RoomChoice, RoomPreset, RoomScan,
};
use matrix_bot_test::session::{
    needs_verification, plan_init, ClientSession, InitPlan, OwnerTrust, SessionMode,
};
use matrix_bot_test::config::Config;

fn s(x: &str) -> String {
    x.to_string()
}

#[test]
fn invites_only_from_owner_to_bot() {
    let bot = s("@bot:example.org");
    let owner = s("@owner:example.org");
    let other = s("@mallory:example.org");
    assert_eq!(decide_invite(None, &bot, &owner, &owner), InviteDecision::NotLoggedIn);
    assert_eq!(decide_invite(Some(bot.clone()), &other, &owner, &owner), InviteDecision::NotForUs);
    assert_eq!(decide_invite(Some(bot.clone()), &bot, &other, &owner), InviteDecision::NotFromOwner);
    assert_eq!(decide_invite(Some(bot.clone()), &bot, &owner, &owner), InviteDecision::Join);
}

#[test]
fn join_backoff_schedule() {
    let mut backoff = JoinBackoff::new();
    let mut waits = Vec::new();
    loop {
        let (wait, next) = backoff.after_failure();
        waits.push(wait);
        match next {
            Some(b) => backoff = b,
            None => break,
        }
    }
    assert_eq!(waits, vec![2, 4, 8, 16, 32, 64, 128, 256, 512, 1024, 2048]);
    assert_eq!(waits.iter().sum::<u64>(), 4094);
    // A join that succeeds after three failures waits 2 + 4 + 8 seconds.
    let mut backoff = JoinBackoff::new();
    let mut waited = 0;
    for _ in 0..3 {
        let (wait, next) = backoff.after_failure();
        waited += wait;
        backoff = next.unwrap();
    }
    assert_eq!(waited, 14);
    assert_eq!(MAX_JOIN_DELAY, 3600);
    assert_eq!(JoinBackoff::new().delay(), 2);
}

#[test]
fn room_search() {
    let owner = s("@owner:example.org");
    let rooms = vec![
        Some(vec![s("@bot:example.org")]),
        Some(vec![s("@bot:example.org"), owner.clone()]),
        Some(vec![owner.clone()]),
    ];
    assert_eq!(find_room_with_owner(true, &rooms, &owner), Some(RoomChoice::Direct));
    assert_eq!(find_room_with_owner(false, &rooms, &owner), Some(RoomChoice::Joined(1)));
    // A room whose members cannot be read is skipped.
    let broken = vec![Some(vec![s("@bot:example.org")]), None, Some(vec![owner.clone()])];
    assert_eq!(find_room_with_owner(false, &broken, &owner), Some(RoomChoice::Joined(2)));
    assert_eq!(find_room_with_owner(false, &vec![None, Some(vec![owner.clone()])], &owner), Some(RoomChoice::Joined(1)));
    assert_eq!(find_room_with_owner(false, &vec![None, Some(vec![s("a")])], &owner), None);
    assert_eq!(find_room_with_owner(false, &vec![], &owner), None);
    assert_eq!(scan_room(None, &owner), RoomScan::Continue);
    assert_eq!(scan_room(Some(&vec![owner.clone()]), &owner), RoomScan::Found);
    assert_eq!(scan_room(Some(&vec![]), &owner), RoomScan::Continue);
    assert!(has_member(&vec![s("a"), owner.clone()], &owner));
    assert!(!has_member(&vec![s("a")], &owner));
}

#[test]
fn echo_replies() {
    let me = Some(s("@bot:example.org"));
    let owner = s("@owner:example.org");
    let text = MessageKind::Text(s("hello"));
    assert_eq!(echo_reply(true, &text, &owner, &me), Some(s("Echo: hello")));
    assert_eq!(echo_reply(true, &text, &owner, &None), Some(s("Echo: hello")));
    assert_eq!(echo_reply(false, &text, &owner, &me), None);
    assert_eq!(echo_reply(true, &text, &s("@bot:example.org"), &me), None);
    assert_eq!(echo_reply(true, &MessageKind::Other, &owner, &me), None);
    assert_eq!(echo_reply(true, &MessageKind::VerificationRequest, &owner, &me), None);
    assert!(starts_verification(&MessageKind::VerificationRequest));
    assert!(!starts_verification(&text));
}

#[test]
fn encrypted_room_for_owner() {
    let room = encrypted_dm_with(&s("@owner:example.org"));
    assert_eq!(room.invite, vec![s("@owner:example.org")]);
    assert!(room.is_direct);
    assert_eq!(room.preset, RoomPreset::PrivateChat);
    assert!(room.encrypted);
}

#[test]
fn session_plans() {
    assert_eq!(plan_init(false, false), InitPlan { create_data_dir: true, mode: SessionMode::Login });
    assert_eq!(plan_init(true, true), InitPlan { create_data_dir: false, mode: SessionMode::Restore });
    assert!(SessionMode::Login.is_new_session());
    assert!(!SessionMode::Restore.is_new_session());
    assert!(needs_verification(true, OwnerTrust::Verified));
    assert!(needs_verification(false, OwnerTrust::Unverified));
    assert!(!needs_verification(false, OwnerTrust::Verified));
    assert!(!needs_verification(false, OwnerTrust::Unknown));
}

#[test]
fn login_session_record() {
    let config = Config::from_env(
        Some(s("@bot:example.org")),
        Some(s("pw")),
        Some(s("@owner:example.org")),
        Some(s("https://example.org/")),
        Some(s("store")),
    )
    .unwrap();
    let session = ClientSession::for_login(&config, "/home/bot");
    assert_eq!(session.homeserver, "https://example.org/");
    assert_eq!(session.db_path, "/home/bot/.cache/matrix-bot-test/data/sqlite_store");
    assert_eq!(session.passphrase, "store");
}
