use rosu::events::{
    channel_of, handle_ban, handle_notification, handle_password_change, handle_username_change,
    FeedChannel,
};
use rosu::login::{cached_verdict, PasswordCache};
use rosu::packets::{notification, server_restart};
use rosu::players::PlayerList;
use rosu::session::User;
use rosu::status::Privileges;

fn players() -> PlayerList {
    let mut p = PlayerList::new();
    p.add_player(User::new(1, "a".to_string(), "t".to_string(), Privileges::from_value(1)));
    p
}

#[test]
fn feed_channels() {
    assert_eq!(channel_of("peppy:ban"), Some(FeedChannel::Ban));
    assert_eq!(channel_of("peppy:change_pass"), Some(FeedChannel::ChangePassword));
    assert_eq!(channel_of("peppy:notification"), Some(FeedChannel::Notification));
    assert_eq!(channel_of("peppy:change_username"), Some(FeedChannel::ChangeUsername));
    assert_eq!(channel_of("peppy:bot_msg"), Some(FeedChannel::BotMessage));
    assert_eq!(channel_of("peppy:disconnect"), Some(FeedChannel::Disconnect));
    assert_eq!(channel_of("peppy:other"), None);
}

#[test]
fn ban_restricts_and_restarts() {
    let mut p = players();
    handle_ban(&mut p, 1, Privileges::from_value(0));
    handle_ban(&mut p, 9, Privileges::from_value(0));
    let mut u = p.take(0);
    assert!(u.restricted());
    assert_eq!(u.dequeue(), server_restart(0));
}

#[test]
fn username_change_notifies() {
    let mut p = players();
    handle_username_change(&mut p, 1, "zed");
    let mut u = p.take(0);
    let mut expected = notification("Your username has been changed to zed!");
    expected.extend(server_restart(0));
    assert_eq!(u.dequeue(), expected);
}

#[test]
fn notification_is_queued() {
    let mut p = players();
    handle_notification(&mut p, 1, "hello");
    handle_notification(&mut p, 2, "nobody");
    let mut u = p.take(0);
    assert_eq!(u.dequeue(), notification("hello"));
}

#[test]
fn password_change_forgets_cache() {
    let hash = bcrypt::hash("pw", 4).unwrap();
    let mut cache = PasswordCache::new();
    cache.insert("pw", &hash);
    cache.insert("again", &hash);
    cache.insert("other", "h2");
    handle_password_change(&mut cache, "missing");
    assert_eq!(cached_verdict(&cache, "pw", &hash), Some(true));
    handle_password_change(&mut cache, &hash);
    assert_eq!(cached_verdict(&cache, "pw", &hash), None);
    assert_eq!(cached_verdict(&cache, "again", &hash), None);
    assert_eq!(cached_verdict(&cache, "other", "h2"), Some(true));
}
