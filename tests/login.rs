use rosu::login::{
    check_password, cached_verdict, client_ip, complete_login, geoloc_for_code, geoloc_of, login_malformed,
    login_unknown_user, login_wrong_password, parse_login, PasswordCache,
};
use rosu::constants::CountryCodes;
use rosu::packets::{notification, user_id};
use rosu::reader::Reader;
use rosu::server::Server;
use rosu::session::User;
use rosu::status::Privileges;
use rosu::text::{decimal_string, parse_i32, replace_spaces, safe_username, split_chars};

const RECORD: &str = "alice\npw\n20230101|5|0|abc:def:ghi:jkl:mno|0\n";

fn packet_ids(body: &[u8]) -> Vec<i32> {
    let mut r = Reader::new(body.to_vec());
    let mut ids = Vec::new();
    while !r.empty() {
        let (id, len) = r.read_header().unwrap();
        ids.push(id);
        r.incr_offset(len as usize);
    }
    ids
}

#[test]
fn parses_login_record() {
    let req = parse_login(RECORD.as_bytes()).unwrap();
    assert_eq!(req.username, "alice");
    assert_eq!(req.password, "pw");
    assert_eq!(req.osu_ver, "20230101");
    assert_eq!(req.utc_offset, 5);
    assert_eq!(req.osu_md5, "abc");
    assert_eq!(req.mac_md5, "ghi");
    assert_eq!(req.uninstall_md5, "jkl");
    assert_eq!(req.disk_md5, "mn");
    assert!(!req.private_dms);
    let dm = parse_login("a\nb\nv|-3|x|1:2:3:4:5:|1\n".as_bytes()).unwrap();
    assert_eq!(dm.utc_offset, -3);
    assert_eq!(dm.disk_md5, "5");
    assert!(dm.private_dms);
}

#[test]
fn rejects_malformed_records() {
    assert!(parse_login(b"alice\npw\n").is_none());
    assert!(parse_login("alice\npw\n1|5|0|a:b:c:d:e\n".as_bytes()).is_none());
    assert!(parse_login("alice\npw\n1|x|0|a:b:c:d:e:|0\n".as_bytes()).is_none());
    assert!(parse_login("alice\npw\n1|5|0|a:b:c:d|0\n".as_bytes()).is_none());
    assert!(parse_login(&[0xff, b'\n', b'\n', b'\n']).is_none());
    assert!(parse_login("a\nb\nv|99999999999|x|1:2:3:4:5:|1\n".as_bytes()).is_none());
}

#[test]
fn parses_integers() {
    let c = |s: &str| s.chars().collect::<Vec<char>>();
    assert_eq!(parse_i32(&c("0")), Some(0));
    assert_eq!(parse_i32(&c("+12")), Some(12));
    assert_eq!(parse_i32(&c("-2147483648")), Some(i32::MIN));
    assert_eq!(parse_i32(&c("2147483647")), Some(i32::MAX));
    assert_eq!(parse_i32(&c("2147483648")), None);
    assert_eq!(parse_i32(&c("")), None);
    assert_eq!(parse_i32(&c("-")), None);
    assert_eq!(parse_i32(&c("1a")), None);
    assert_eq!(parse_i32(&c("12345678901234567890")), None);
}

#[test]
fn splits_text() {
    let c: Vec<char> = "a|b||c".chars().collect();
    let parts = split_chars(&c, '|');
    assert_eq!(parts.len(), 4);
    assert_eq!(parts[2], Vec::<char>::new());
    assert_eq!(split_chars(&[], '|').len(), 1);
}

#[test]
fn text_helpers() {
    assert_eq!(decimal_string(0), "0");
    assert_eq!(decimal_string(1205), "1205");
    assert_eq!(replace_spaces("a b  c"), "a_b__c");
    assert_eq!(safe_username("Some User"), "some_user");
}

#[test]
fn geolocation_codes() {
    assert_eq!(geoloc_of("us"), CountryCodes::US.value());
    assert_eq!(geoloc_of("Jp"), CountryCodes::JP.value());
    assert_eq!(geoloc_of("zz"), CountryCodes::XX.value());
    assert_eq!(geoloc_for_code("US"), CountryCodes::US.value());
    assert_eq!(geoloc_for_code("us"), CountryCodes::XX.value());
}

#[test]
fn password_check_and_cache() {
    let hash = bcrypt::hash("pw", 4).unwrap();
    let mut cache = PasswordCache::new();
    assert_eq!(cached_verdict(&cache, "pw", &hash), None);
    assert!(!check_password(&mut cache, "nope", &hash));
    assert_eq!(cached_verdict(&cache, "nope", &hash), None);
    assert!(check_password(&mut cache, "pw", &hash));
    assert_eq!(cached_verdict(&cache, "pw", &hash), Some(true));
    assert_eq!(cached_verdict(&cache, "pw", "other"), Some(false));
    assert!(!check_password(&mut cache, "pw", "other"));
    assert!(!check_password(&mut cache, "x", "not a bcrypt hash"));
    cache.remove("pw");
    assert_eq!(cached_verdict(&cache, "pw", &hash), None);
}

#[test]
fn successful_login() {
    let req = parse_login(RECORD.as_bytes()).unwrap();
    let hash = bcrypt::hash("pw", 4).unwrap();
    let mut cache = PasswordCache::new();
    assert!(check_password(&mut cache, &req.password, &hash));
    let mut user = User::new(3, req.username.clone(), String::new(), Privileges::from_value(1));
    user.password_md5 = hash;
    user.utc_offset = req.utc_offset;
    let mut server = Server::new();
    let reply = complete_login(&mut server, user, "1ms");
    assert_ne!(reply.token, "no");
    assert_eq!(reply.token.len(), 36);
    assert_eq!(packet_ids(&reply.body), vec![75, 5, 71, 89, 76, 72, 92, 83, 11, 24]);
    assert_eq!(&reply.body[..11], &[75, 0, 0, 4, 0, 0, 0, 19, 0, 0, 0]);
    assert_eq!(&reply.body[11..22], user_id(3).as_slice());
    let tail = notification("Welcome to ROsu!\n\nTime Elapsed: 1ms\nPlayers online: 1");
    assert!(reply.body.ends_with(&tail));
    assert_eq!(server.players.get_token(&reply.token), server.players.get_id(3));
    assert_eq!(server.players.get_token(&reply.token), Some(0));
    let second = complete_login(
        &mut server,
        User::new(4, "bob".to_string(), String::new(), Privileges::from_value(1)),
        "2ms",
    );
    assert_ne!(second.token, reply.token);
    assert_eq!(server.players.player_count(), 2);
}

#[test]
fn wrong_password_login() {
    let hash = bcrypt::hash("other", 4).unwrap();
    let mut cache = PasswordCache::new();
    assert!(!check_password(&mut cache, "pw", &hash));
    let reply = login_wrong_password();
    assert_eq!(reply.token, "no");
    let mut expected = user_id(-1);
    expected.extend(notification("Incorrect password"));
    assert_eq!(reply.body, expected);
    assert_eq!(packet_ids(&reply.body), vec![5, 24]);
}

#[test]
fn failed_login_replies() {
    let unknown = login_unknown_user();
    assert_eq!(unknown.token, "no");
    assert_eq!(unknown.body, user_id(-1));
    let bad = login_malformed();
    assert_eq!(bad.token, "no");
    assert!(bad.body.is_empty());
}

#[test]
fn client_address_priority() {
    assert_eq!(client_ip(Some("1.1.1.1"), Some("2.2.2.2,3.3.3.3"), Some("4.4.4.4")), Some("1.1.1.1".to_string()));
    assert_eq!(client_ip(None, Some("2.2.2.2, 3.3.3.3"), Some("4.4.4.4")), Some("2.2.2.2".to_string()));
    assert_eq!(client_ip(None, Some("2.2.2.2"), Some("4.4.4.4")), Some("4.4.4.4".to_string()));
    assert_eq!(client_ip(None, None, Some("4.4.4.4")), Some("4.4.4.4".to_string()));
    assert_eq!(client_ip(None, Some("2.2.2.2"), None), None);
}

#[test]
fn client_privilege_byte() {
    assert_eq!(Privileges::from_value(1).client_bits(), 1);
    assert_eq!(Privileges::from_value(1 | 4).client_bits(), 5);
    assert_eq!(Privileges::from_value(4).client_bits(), 4);
    assert_eq!(Privileges::from_value(2).client_bits(), 0);
}
