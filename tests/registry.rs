use rosu::channel::Channel;
use rosu::players::PlayerList;
use rosu::session::{PacketQueue, StoreOp, User};
use rosu::status::Privileges;

fn user(id: i32, name: &str, token: &str) -> User {
    User::new(id, name.to_string(), token.to_string(), Privileges::from_value(1))
}

#[test]
fn reinsert_replaces_same_id() {
    let mut players = PlayerList::new();
    players.add_player(user(1, "old", "t1"));
    players.add_player(user(2, "other", "t2"));
    assert_eq!(players.player_count(), 2);
    players.add_player(user(1, "new", "t3"));
    assert_eq!(players.player_count(), 2);
    let i = players.get_id(1).unwrap();
    assert_eq!(players.get(i).username, "new");
    assert_eq!(players.get_username("old"), None);
    assert_eq!(players.get_token("t1"), None);
    assert_eq!(players.get_token("t3"), Some(i));
}

#[test]
fn lookups_by_name_and_token() {
    let mut players = PlayerList::new();
    players.add_player(user(1, "Alice", "aa"));
    players.add_player(user(2, "bob", "bb"));
    assert_eq!(players.get_username("bob"), Some(1));
    assert_eq!(players.get_username("alice"), None);
    assert_eq!(players.get_token("aa"), Some(0));
    assert_eq!(players.get_id(3), None);
}

#[test]
fn remove_deregisters() {
    let mut players = PlayerList::new();
    players.add_player(user(1, "a", "x"));
    players.add_player(user(2, "b", "y"));
    players.remove(1);
    assert_eq!(players.player_count(), 1);
    assert_eq!(players.get_id(1), None);
    players.remove(42);
    assert_eq!(players.player_count(), 1);
}

#[test]
fn broadcast_reaches_everyone() {
    let mut players = PlayerList::new();
    players.add_player(user(1, "a", "x"));
    players.add_player(user(2, "b", "y"));
    players.enqueue(&[1, 2]);
    players.enqueue_to(&vec![2], &[3]);
    let mut a = players.take(0);
    let mut b = players.take(0);
    assert_eq!(a.dequeue(), vec![1, 2]);
    assert_eq!(b.dequeue(), vec![1, 2, 3]);
    assert_eq!(b.dequeue(), Vec::<u8>::new());
}

#[test]
fn queue_drains_once() {
    let mut q = PacketQueue::new();
    q.enqueue(&[1]);
    q.enqueue(&[2, 3]);
    assert_eq!(q.dequeue(), vec![1, 2, 3]);
    assert_eq!(q.dequeue(), Vec::<u8>::new());
}

#[test]
fn friends_add_and_remove() {
    let mut u = user(1, "a", "x");
    assert_eq!(u.add_friend(5), StoreOp::AddFriend { user: 1, target: 5 });
    assert_eq!(u.friends, vec![5]);
    assert_eq!(u.remove_friend(6), None);
    assert_eq!(u.remove_friend(5), Some(StoreOp::RemoveFriend { user: 1, target: 5 }));
    assert!(u.friends.is_empty());
}

#[test]
fn channel_membership_and_messages() {
    let mut players = PlayerList::new();
    players.add_player(user(1, "a", "x"));
    players.add_player(user(2, "b", "y"));
    let mut chan = Channel {
        id: 1,
        name: "#osu".to_string(),
        description: String::new(),
        users: vec![],
        autojoin: true,
    };
    let a = user(1, "a", "x");
    chan.add_user(&a);
    chan.add_user(&a);
    assert_eq!(chan.users, vec![1]);
    chan.send_message_userid(&mut players, 2, "hey".to_string());
    chan.send_message_userid(&mut players, 9, "nobody".to_string());
    let mut first = players.take(0);
    let expected = rosu::packets::channel_message("b".to_string(), 2, "hey".to_string(), "#osu".to_string());
    assert_eq!(first.dequeue(), expected);
    let mut second = players.take(0);
    assert!(second.dequeue().is_empty());
    chan.remove_user(1);
    assert!(chan.users.is_empty());
}

#[test]
fn channel_removal_drops_every_listing() {
    let mut chan = Channel {
        id: 2,
        name: "#lobby".to_string(),
        description: String::new(),
        users: vec![1, 3, 1, 4, 1],
        autojoin: false,
    };
    chan.remove_user(1);
    assert_eq!(chan.users, vec![3, 4]);
    assert_eq!(chan.name, "#lobby");
}
