//! First contact: the plaintext login record, password checks with their
//! cache, and the reply that opens a session.
use vstd::prelude::*;
use vstd::string::StringExecFns;
use vstd::utf8::{decode_utf8, valid_utf8};

use crate::codec::string_from_utf8;
use crate::constants::{CountryCodes, Packets};
use crate::packets::{
    bancho_privileges, channel_info_end, friends_list, le_of, main_menu_icon, notification,
    packet_bytes, protocol_version, silence_end, user_id, user_presence, user_stats,
};
use crate::players::{first_index, token_is};
use crate::server::Server;
use crate::session::User;
use crate::text::{
    chars_of, decimal, decimal_string, parse_i32, parse_i32_spec, split_chars, split_on,
    string_of, upper_of, uppercase,
};

verus! {

/// A login record, as the client sends it.
pub struct LoginRequest {
    pub username: String,
    pub password: String,
    pub osu_ver: String,
    pub utc_offset: i32,
    pub osu_md5: String,
    pub mac_md5: String,
    pub uninstall_md5: String,
    pub disk_md5: String,
    pub private_dms: bool,
}

/// `s` without its last character, if it has one.
pub open spec fn chop(s: Seq<char>) -> Seq<char> {
    if s.len() == 0 {
        s
    } else {
        s.drop_last()
    }
}

/// The parts of a login record: four lines (name, password, client
/// information, and an unused one); the client information has five
/// `|`-separated fields (version, UTC offset, unused, client hashes ended by
/// one extra character, private-message flag); the hashes are
/// `:`-separated, five at least.
pub open spec fn login_parts(s: Seq<char>) -> Option<
    (Seq<char>, Seq<char>, Seq<char>, i32, Seq<Seq<char>>, bool),
> {
    let lines = split_on(s, '\n');
    if lines.len() != 4 {
        None
    } else {
        let info = split_on(lines[2], '|');
        if info.len() != 5 {
            None
        } else {
            match parse_i32_spec(info[1]) {
                None => None,
                Some(offset) => {
                    let hashes = split_on(chop(info[3]), ':');
                    if hashes.len() < 5 {
                        None
                    } else {
                        Some((lines[0], lines[1], info[0], offset, hashes, info[4] == seq!['1']))
                    }
                },
            }
        }
    }
}

/// Parses a login record; `None` for a body that is not UTF-8 or not shaped
/// as a login record.
pub fn parse_login(data: &[u8]) -> (r: Option<LoginRequest>)
    ensures
        r is Some <==> valid_utf8(data@) && login_parts(decode_utf8(data@)) is Some,
        r matches Some(req) ==> {
            let (name, password, version, offset, hashes, private_dms) = login_parts(
                decode_utf8(data@),
            )->Some_0;
            &&& req.username@ == name
            &&& req.password@ == password
            &&& req.osu_ver@ == version
            &&& req.utc_offset == offset
            &&& req.osu_md5@ == hashes[0]
            &&& req.mac_md5@ == hashes[2]
            &&& req.uninstall_md5@ == hashes[3]
            &&& req.disk_md5@ == hashes[4]
            &&& req.private_dms == private_dms
        },
{
    let mut bytes: Vec<u8> = Vec::new();
    crate::codec::append_bytes(&mut bytes, data);
    assert(bytes@ =~= data@);
    let text = match string_from_utf8(bytes) {
        Some(t) => t,
        None => return None,
    };
    proof {
        vstd::utf8::encode_utf8_decode_utf8(text@);
    }
    let chars = chars_of(text.as_str());
    let lines = split_chars(chars.as_slice(), '\n');
    if lines.len() != 4 {
        return None;
    }
    let info = split_chars(lines[2].as_slice(), '|');
    if info.len() != 5 {
        return None;
    }
    let offset = match parse_i32(info[1].as_slice()) {
        Some(v) => v,
        None => return None,
    };
    let mut block: Vec<char> = Vec::new();
    let mut i: usize = 0;
    let end: usize = if info[3].len() == 0 {
        0
    } else {
        info[3].len() - 1
    };
    while i < end
        invariant
            i <= end,
            end == chop(info@[3]@).len(),
            block@ == chop(info@[3]@).subrange(0, i as int),
            info@.len() == 5,
        decreases end - i,
    {
        block.push(info[3][i]);
        i = i + 1;
        assert(block@ =~= chop(info@[3]@).subrange(0, i as int));
    }
    assert(block@ =~= chop(info@[3]@));
    let hashes = split_chars(block.as_slice(), ':');
    if hashes.len() < 5 {
        return None;
    }
    let flag = &info[4];
    let private_dms = flag.len() == 1 && flag[0] == '1';
    proof {
        if private_dms {
            assert(info@[4]@ =~= seq!['1']);
        }
    }
    Some(
        LoginRequest {
            username: string_of(lines[0].as_slice()),
            password: string_of(lines[1].as_slice()),
            osu_ver: string_of(info[0].as_slice()),
            utc_offset: offset,
            osu_md5: string_of(hashes[0].as_slice()),
            mac_md5: string_of(hashes[2].as_slice()),
            uninstall_md5: string_of(hashes[3].as_slice()),
            disk_md5: string_of(hashes[4].as_slice()),
            private_dms: private_dms,
        },
    )
}

/// What `bcrypt::verify` returns for a password and a stored hash: `Some`
/// of its verdict, `None` for an error.
pub uninterp spec fn bcrypt_verdict(password: Seq<char>, hash: Seq<char>) -> Option<bool>;

#[verifier::external_type_specification]
#[verifier::external_body]
pub struct ExBcryptError(bcrypt::BcryptError);

/// Relies on `bcrypt::verify`: whether `password` hashes to `hash`, or an
/// error for a hash it cannot read; a function of the two alone.
#[verifier::external_body]
fn bcrypt_verify(password: &str, hash: &str) -> (r: Result<bool, bcrypt::BcryptError>)
    ensures
        r matches Ok(b) ==> bcrypt_verdict(password@, hash@) == Some(b),
        r is Err ==> bcrypt_verdict(password@, hash@) is None,
{
    bcrypt::verify(password, hash)
}

/// Passwords verified before, each with the stored hash it matched.
pub struct PasswordCache {
    entries: Vec<(String, String)>,
}

/// Index of the first entry for `key`; -1 when none.
pub open spec fn key_index(s: Seq<(Seq<char>, Seq<char>)>, key: Seq<char>) -> int
    decreases s.len(),
{
    if s.len() == 0 {
        -1
    } else if s.last().0 == key && key_index(s.drop_last(), key) < 0 {
        s.len() - 1
    } else {
        key_index(s.drop_last(), key)
    }
}

/// The hash cached for `key`.
pub open spec fn cache_lookup(s: Seq<(Seq<char>, Seq<char>)>, key: Seq<char>) -> Option<Seq<char>> {
    let i = key_index(s, key);
    if 0 <= i < s.len() {
        Some(s[i].1)
    } else {
        None
    }
}

/// The entries after caching `value` for `key`: the first entry for `key`
/// takes it, or a new entry is added at the end.
pub open spec fn cache_insert(s: Seq<(Seq<char>, Seq<char>)>, key: Seq<char>, value: Seq<char>) -> Seq<
    (Seq<char>, Seq<char>),
> {
    let i = key_index(s, key);
    if 0 <= i < s.len() {
        s.update(i, (key, value))
    } else {
        s.push((key, value))
    }
}

/// The entries whose cached hash is not `hash`, in order.
pub open spec fn without_hash(s: Seq<(Seq<char>, Seq<char>)>, hash: Seq<char>) -> Seq<
    (Seq<char>, Seq<char>),
>
    decreases s.len(),
{
    if s.len() == 0 {
        s
    } else if s.last().1 == hash {
        without_hash(s.drop_last(), hash)
    } else {
        without_hash(s.drop_last(), hash).push(s.last())
    }
}

pub proof fn lemma_key_index(s: Seq<(Seq<char>, Seq<char>)>, key: Seq<char>, i: int)
    requires
        0 <= i <= s.len(),
        forall|j: int| 0 <= j < i ==> s[j].0 != key,
        i == s.len() || s[i].0 == key,
    ensures
        key_index(s, key) == (if i == s.len() {
            -1
        } else {
            i
        }),
    decreases s.len(),
{
    if s.len() > 0 {
        if i == s.len() {
            lemma_key_index(s.drop_last(), key, i - 1);
        } else if i == s.len() - 1 {
            lemma_key_index(s.drop_last(), key, i);
        } else {
            lemma_key_index(s.drop_last(), key, i);
        }
    }
}

pub proof fn lemma_key_index_found(s: Seq<(Seq<char>, Seq<char>)>, key: Seq<char>)
    ensures
        key_index(s, key) >= -1,
        key_index(s, key) >= 0 ==> key_index(s, key) < s.len() && s[key_index(s, key)].0 == key
            && forall|j: int| 0 <= j < key_index(s, key) ==> (#[trigger] s[j]).0 != key,
        key_index(s, key) < 0 ==> forall|j: int| 0 <= j < s.len() ==> (#[trigger] s[j]).0 != key,
    decreases s.len(),
{
    if s.len() > 0 {
        let t = s.drop_last();
        lemma_key_index_found(t, key);
        let k = key_index(s, key);
        if k >= 0 {
            assert forall|j: int| 0 <= j < k implies (#[trigger] s[j]).0 != key by {
                assert(s[j] == t[j]);
            }
            if k < t.len() {
                assert(s[k] == t[k]);
            }
        } else {
            assert forall|j: int| 0 <= j < s.len() implies (#[trigger] s[j]).0 != key by {
                if j < t.len() {
                    assert(s[j] == t[j]);
                }
            }
        }
    }
}

impl PasswordCache {
    pub closed spec fn entries(&self) -> Seq<(Seq<char>, Seq<char>)> {
        self.entries@.map_values(|e: (String, String)| (e.0@, e.1@))
    }

    pub fn new() -> (r: Self)
        ensures
            r.entries() == Seq::<(Seq<char>, Seq<char>)>::empty(),
    {
        let r = Self { entries: Vec::new() };
        assert(r.entries() =~= Seq::<(Seq<char>, Seq<char>)>::empty());
        r
    }

    fn find(&self, key: &String) -> (r: Option<usize>)
        ensures
            match r {
                Some(i) => i == key_index(self.entries(), key@) && i < self.entries().len(),
                None => key_index(self.entries(), key@) == -1,
            },
    {
        let mut i: usize = 0;
        while i < self.entries.len()
            invariant
                i <= self.entries@.len(),
                forall|j: int| 0 <= j < i ==> self.entries()[j].0 != key@,
            decreases self.entries@.len() - i,
        {
            if self.entries[i].0 == *key {
                proof {
                    lemma_key_index(self.entries(), key@, i as int);
                }
                return Some(i);
            }
            i = i + 1;
        }
        proof {
            lemma_key_index(self.entries(), key@, i as int);
        }
        None
    }

    /// The hash cached for `password`.
    pub fn get(&self, password: &str) -> (r: Option<String>)
        ensures
            match cache_lookup(self.entries(), password@) {
                Some(h) => r matches Some(s) && s@ == h,
                None => r is None,
            },
    {
        let key = password.to_owned();
        match self.find(&key) {
            Some(i) => Some(self.entries[i].1.clone()),
            None => None,
        }
    }

    /// Caches `hash` for `password`, in place of what was cached for it.
    pub fn insert(&mut self, password: &str, hash: &str)
        ensures
            final(self).entries() == cache_insert(old(self).entries(), password@, hash@),
            cache_lookup(final(self).entries(), password@) == Some(hash@),
    {
        let key = password.to_owned();
        let value = hash.to_owned();
        proof {
            lemma_key_index_found(self.entries(), password@);
        }
        let ghost before = self.entries();
        match self.find(&key) {
            Some(i) => {
                self.entries.set(i, (key, value));
                assert(self.entries() =~= before.update(i as int, (password@, hash@)));
                proof {
                    assert forall|j: int| 0 <= j < i implies self.entries()[j].0 != password@ by {
                        assert(self.entries()[j] == before[j]);
                    }
                    lemma_key_index(self.entries(), password@, i as int);
                }
            },
            None => {
                self.entries.push((key, value));
                assert(self.entries() =~= before.push((password@, hash@)));
                proof {
                    let n = self.entries().len() - 1;
                    assert(self.entries()[n] == (password@, hash@));
                    assert forall|j: int| 0 <= j < n implies self.entries()[j].0 != password@ by {
                        assert(self.entries()[j] == before[j]);
                    }
                    lemma_key_index(self.entries(), password@, n);
                }
            },
        }
    }

    /// Forgets every password cached with `hash`.
    pub fn forget_hash(&mut self, hash: &str)
        ensures
            final(self).entries() == without_hash(old(self).entries(), hash@),
    {
        let target = hash.to_owned();
        let mut kept: Vec<(String, String)> = Vec::new();
        let mut i: usize = 0;
        while i < self.entries.len()
            invariant
                i <= self.entries@.len(),
                target@ == hash@,
                kept@.map_values(|e: (String, String)| (e.0@, e.1@)) == without_hash(
                    self.entries().subrange(0, i as int),
                    hash@,
                ),
            decreases self.entries@.len() - i,
        {
            let ghost sub = self.entries().subrange(0, i + 1);
            proof {
                assert(sub.drop_last() =~= self.entries().subrange(0, i as int));
            }
            if self.entries[i].1 != target {
                let entry = (self.entries[i].0.clone(), self.entries[i].1.clone());
                kept.push(entry);
                assert(kept@.map_values(|e: (String, String)| (e.0@, e.1@)) =~= without_hash(
                    sub,
                    hash@,
                ));
            }
            i = i + 1;
        }
        assert(self.entries().subrange(0, i as int) =~= self.entries());
        self.entries = kept;
    }

    /// Forgets what was cached for `password`.
    pub fn remove(&mut self, password: &str)
        ensures
            key_index(old(self).entries(), password@) < 0 ==> final(self).entries() == old(
                self,
            ).entries(),
            key_index(old(self).entries(), password@) >= 0 ==> final(self).entries() == old(
                self,
            ).entries().remove(key_index(old(self).entries(), password@)),
    {
        let key = password.to_owned();
        match self.find(&key) {
            Some(i) => {
                self.entries.remove(i);
                assert(self.entries() =~= old(self).entries().remove(i as int));
            },
            None => {},
        }
    }
}

/// What the cache says of `password` against the stored hash: `None` when it
/// has nothing for it, else whether the cached hash is the stored one.
pub fn cached_verdict(cache: &PasswordCache, password: &str, stored_hash: &str) -> (r: Option<bool>)
    ensures
        r == (match cache_lookup(cache.entries(), password@) {
            Some(h) => Some(h == stored_hash@),
            None => None,
        }),
{
    match cache.get(password) {
        Some(h) => {
            let stored = stored_hash.to_owned();
            Some(h == stored)
        },
        None => None,
    }
}

/// Checks a password against the stored hash, through the cache first; a
/// password found valid is cached with the hash.
pub fn check_password(cache: &mut PasswordCache, password: &str, stored_hash: &str) -> (r: bool)
    ensures
        match cache_lookup(old(cache).entries(), password@) {
            Some(h) => r == (h == stored_hash@),
            None => r == (bcrypt_verdict(password@, stored_hash@) == Some(true)),
        },
        final(cache).entries() == (if r {
            cache_insert(old(cache).entries(), password@, stored_hash@)
        } else {
            old(cache).entries()
        }),
        r ==> cache_lookup(final(cache).entries(), password@) == Some(stored_hash@),
{
    let valid = match cached_verdict(cache, password, stored_hash) {
        Some(v) => v,
        None => match bcrypt_verify(password, stored_hash) {
            Ok(v) => v,
            Err(_) => false,
        },
    };
    if valid {
        cache.insert(password, stored_hash);
    }
    valid
}

/// The byte that stands for a country code, already upper case; unknown
/// codes stand for `XX`.
pub open spec fn geoloc_for(code: Seq<char>) -> u8 {
    match CountryCodes::spec_from_code(vstd::utf8::encode_utf8(code)) {
        Some(c) => c.spec_value(),
        None => CountryCodes::XX.spec_value(),
    }
}

/// The geolocation byte of an upper-case country code.
pub fn geoloc_for_code(code: &str) -> (r: u8)
    ensures
        r == geoloc_for(code@),
{
    match CountryCodes::from_code(code.as_bytes()) {
        Some(c) => c.value(),
        None => CountryCodes::XX.value(),
    }
}

/// The geolocation byte of a country code in any case.
pub fn geoloc_of(country: &str) -> (r: u8)
    ensures
        r == geoloc_for(upper_of(country@)),
{
    let upper = uppercase(country);
    geoloc_for_code(upper.as_str())
}

/// The address a login came from: the trusted proxy's header when present;
/// else the first hop of the forwarded-for chain when it has several, and the
/// direct-IP header when it has one hop or is absent.
pub open spec fn spec_client_ip(
    proxy: Option<Seq<char>>,
    forwarded: Option<Seq<char>>,
    direct: Option<Seq<char>>,
) -> Option<Seq<char>> {
    match proxy {
        Some(p) => Some(p),
        None => match forwarded {
            Some(f) => if split_on(f, ',').len() != 1 {
                Some(split_on(f, ',')[0])
            } else {
                direct
            },
            None => direct,
        },
    }
}

/// Picks the client's address from the proxy headers.
pub fn client_ip(proxy: Option<&str>, forwarded: Option<&str>, direct: Option<&str>) -> (r: Option<
    String,
>)
    ensures
        match spec_client_ip(
            match proxy {
                Some(p) => Some(p@),
                None => None,
            },
            match forwarded {
                Some(f) => Some(f@),
                None => None,
            },
            match direct {
                Some(x) => Some(x@),
                None => None,
            },
        ) {
            Some(ip) => r matches Some(s) && s@ == ip,
            None => r is None,
        },
{
    if let Some(p) = proxy {
        return Some(p.to_owned());
    }
    if let Some(f) = forwarded {
        let chars = chars_of(f);
        let hops = split_chars(chars.as_slice(), ',');
        proof {
            crate::text::lemma_split_on_nonempty(chars@, ',');
            assert(hops@[0]@ == split_on(f@, ',')[0]);
        }
        if hops.len() != 1 {
            return Some(string_of(hops[0].as_slice()));
        }
    }
    match direct {
        Some(x) => Some(x.to_owned()),
        None => None,
    }
}

/// Relies on `uuid::Uuid::new_v4` and its `Display`: a random token, written
/// in the 36-character hyphenated form.
#[verifier::external_body]
fn new_token() -> (r: String)
    ensures
        r@.len() == 36,
{
    uuid::Uuid::new_v4().to_string()
}

/// Reply to a login: the session token, or `no`, and the packets.
pub struct LoginReply {
    pub token: String,
    pub body: Vec<u8>,
}

/// How often a fresh token is drawn before a login gives up.
pub const TOKEN_ATTEMPTS: usize = 4;

/// Protocol version announced at login.
pub const PROTOCOL_VERSION: i32 = 19;

fn refused(body: Vec<u8>) -> (r: LoginReply)
    ensures
        r.token@ == "no"@,
        r.body@ == body@,
{
    LoginReply { token: String::from_str("no"), body: body }
}

/// Reply to a body that is no login record: no session, nothing sent.
pub fn login_malformed() -> (r: LoginReply)
    ensures
        r.token@ == "no"@,
        r.body@ == Seq::<u8>::empty(),
{
    refused(Vec::new())
}

/// Reply to an unknown user: no session, and the id -1.
pub fn login_unknown_user() -> (r: LoginReply)
    ensures
        r.token@ == "no"@,
        r.body@ == packet_bytes(Packets::CHO_USER_ID, le_of(-1i32)),
{
    refused(user_id(-1))
}

/// Reply to a wrong password: no session, the id -1 and a notification.
pub fn login_wrong_password() -> (r: LoginReply)
    ensures
        r.token@ == "no"@,
        r.body@ == packet_bytes(Packets::CHO_USER_ID, le_of(-1i32))
            + crate::packets::packet_bytes(
            Packets::CHO_NOTIFICATION,
            crate::codec::osu_string_bytes("Incorrect password"@),
        ),
{
    let mut body = user_id(-1);
    let note = notification("Incorrect password");
    crate::codec::append_bytes(&mut body, note.as_slice());
    refused(body)
}

/// The welcome text: elapsed time and the number of sessions.
pub open spec fn welcome_text(elapsed: Seq<char>, online: nat) -> Seq<char> {
    "Welcome to ROsu!\n\nTime Elapsed: "@ + elapsed + "\nPlayers online: "@ + decimal(online)
}

/// The packets that open a session, in order: protocol version, id,
/// privileges, end of the channel list, menu icon, friends, silence end,
/// presence, statistics, then the welcome notification.
pub open spec fn login_body(u: User, elapsed: Seq<char>, online: nat) -> Seq<u8> {
    packet_bytes(Packets::CHO_PROTOCOL_VERSION, le_of(PROTOCOL_VERSION)) + packet_bytes(
        Packets::CHO_USER_ID,
        le_of(u.id),
    ) + packet_bytes(Packets::CHO_PRIVILEGES, le_of(u.bancho_priv as i32)) + packet_bytes(
        Packets::CHO_CHANNEL_INFO_END,
        Seq::empty(),
    ) + packet_bytes(
        Packets::CHO_MAIN_MENU_ICON,
        crate::codec::osu_string_bytes(""@ + "|"@ + ""@),
    ) + packet_bytes(Packets::CHO_FRIENDS_LIST, crate::codec::i32_list_bytes(u.friends@))
        + packet_bytes(Packets::CHO_SILENCE_END, le_of(0i32)) + packet_bytes(
        Packets::CHO_USER_PRESENCE,
        crate::packets::presence_payload(u),
    ) + packet_bytes(Packets::CHO_USER_STATS, crate::packets::stats_payload(u)) + packet_bytes(
        Packets::CHO_NOTIFICATION,
        crate::codec::osu_string_bytes(welcome_text(elapsed, online)),
    )
}

/// Opens a session for a user whose password was accepted: gives it a fresh
/// token, registers it (replacing any session with its id) and builds the
/// reply. `elapsed` is the time the login took, as text.
pub fn complete_login(server: &mut Server, user: User, elapsed: &str) -> (r: LoginReply)
    requires
        old(server).wf(),
    ensures
        final(server).wf(),
        r.token@.len() != 36 ==> {
            &&& r.token@ == "no"@
            &&& r.body@ == Seq::<u8>::empty()
            &&& *final(server) == *old(server)
        },
        r.token@.len() == 36 ==> {
            let s = final(server).players.sessions();
            let i = final(server).players.index_of(user.id);
            let u = s[i];
            &&& final(server).players.registered(user.id)
            &&& u.token@ == r.token@
            &&& u == (User { token: u.token, ..user })
            &&& r.body@ == login_body(u, elapsed@, s.len())
            &&& forall|k: int| 0 <= k < s.len() && k != i ==> (#[trigger] s[k]).token@ != r.token@
            &&& first_index(s, token_is(r.token@)) == i
        },
{
    let mut user = user;
    let mut token = new_token();
    let mut attempts: usize = 1;
    while server.players.get_token(token.as_str()).is_some() && attempts < TOKEN_ATTEMPTS
        invariant
            token@.len() == 36,
            attempts <= TOKEN_ATTEMPTS,
        decreases TOKEN_ATTEMPTS - attempts,
    {
        token = new_token();
        attempts = attempts + 1;
    }
    if server.players.get_token(token.as_str()).is_some() {
        proof {
            reveal_strlit("no");
        }
        return refused(Vec::new());
    }
    proof {
        let s = server.players.sessions();
        crate::players::lemma_first_index_found(s, token_is(token@));
        assert forall|k: int| 0 <= k < s.len() implies (#[trigger] s[k]).token@ != token@ by {
            assert(!token_is(token@)(s[k]));
        }
        server.players.lemma_index_of(user.id);
    }
    let ghost others = server.players.sessions();
    user.token = token.clone();
    let mut body = protocol_version(PROTOCOL_VERSION);
    crate::codec::append_bytes(&mut body, user_id(user.id).as_slice());
    crate::codec::append_bytes(&mut body, bancho_privileges(user.bancho_priv as i32).as_slice());
    crate::codec::append_bytes(&mut body, channel_info_end().as_slice());
    crate::codec::append_bytes(&mut body, main_menu_icon("", "").as_slice());
    crate::codec::append_bytes(&mut body, friends_list(&user).as_slice());
    crate::codec::append_bytes(&mut body, silence_end(0).as_slice());
    crate::codec::append_bytes(&mut body, user_presence(&user).as_slice());
    crate::codec::append_bytes(&mut body, user_stats(&user).as_slice());
    let ghost registered = user;
    server.players.add_player(user);
    let online = server.players.player_count();
    let text = String::from_str("Welcome to ROsu!\n\nTime Elapsed: ").concat(elapsed).concat(
        "\nPlayers online: ",
    ).concat(decimal_string(online as u64).as_str());
    crate::codec::append_bytes(&mut body, notification(text.as_str()).as_slice());
    proof {
        assert(registered.token@ == token@);
        let s = server.players.sessions();
        let i = server.players.index_of(registered.id);
        server.players.lemma_index_of(registered.id);
        assert forall|k: int| 0 <= k < s.len() && k != i implies (#[trigger] s[k]).token@ != token@ by {
            assert(s[k] == others[k]);
        }
        assert forall|k: int| 0 <= k < i implies !token_is(token@)(#[trigger] s[k]) by {
            assert(s[k].token@ != token@);
        }
        crate::players::lemma_first_index(s, token_is(token@), i);
    }
    assert(body@ =~= login_body(registered, elapsed@, online as nat));
    LoginReply { token: token, body: body }
}

} // verus!
