use vstd::prelude::*;
use crate::decimal::{decimal_int, lemma_decimal_int_injective, push_i64};
use crate::error::ErrorHandling;
use crate::text::opt_view;
use crate::voice::{state_of_code, VoiceState};

verus! {

pub const SCHEMA_HEAD: &'static str = "CREATE SCHEMA IF NOT EXISTS guild_";
pub const SCHEMA_TAIL: &'static str = "";

pub const VOICE_TABLE_HEAD: &'static str = "CREATE TABLE IF NOT EXISTS guild_";
pub const VOICE_TABLE_TAIL: &'static str = ".voice_state (\n        id              SERIAL PRIMARY KEY,\n        message_id       BIGINT NOT NULL,\n        channel_id      BIGINT NOT NULL,\n        author_id       BIGINT NOT NULL,\n        state           VARCHAR NOT NULL,\n        timestamp       TIMESTAMPTZ NOT NULL\n    )";

pub const INSERT_VOICE_HEAD: &'static str = "\n            INSERT INTO guild_";
pub const INSERT_VOICE_TAIL: &'static str = ".voice_state (message_id, channel_id, author_id, state, timestamp)\n            VALUES ($1, $2, $3, $4, $5)\n            ";

pub const MESSAGE_TABLE_HEAD: &'static str = "CREATE TABLE IF NOT EXISTS guild_";
pub const MESSAGE_TABLE_TAIL: &'static str = ".typed_messages (\n        message_id       BIGINT PRIMARY KEY,\n        channel_id      BIGINT NOT NULL,\n        author_id       BIGINT NOT NULL,\n        author_insignia TEXT,\n        contents         TEXT,\n        message_type    TEXT,\n        timestamp       TIMESTAMPTZ NOT NULL\n    )";

pub const INSERT_MESSAGE_HEAD: &'static str = "\n            INSERT INTO guild_";
pub const INSERT_MESSAGE_TAIL: &'static str = ".typed_messages (message_id, channel_id, author_id, author_insignia, contents, message_type, timestamp)\n            VALUES ($1, $2, $3, $4, $5, $6, $7)\n            ON CONFLICT (message_id) DO NOTHING\n            ";

pub const VOICE_QUERY_HEAD: &'static str = "SELECT * FROM guild_";
pub const VOICE_QUERY_TAIL: &'static str = ".voice_state\n                ORDER BY timestamp DESC";

/// A statement about one guild's schema: the guild id, printed as `{}`
/// prints an `i64`, between a fixed head and tail.
pub open spec fn guild_statement(head: Seq<char>, guild_id: int, tail: Seq<char>) -> Seq<char> {
    head + decimal_int(guild_id) + tail
}

fn build_guild_statement(head: &str, guild_id: i64, tail: &str) -> (res: String)
    ensures
        res@ == guild_statement(head@, guild_id as int, tail@),
{
    let mut s = head.to_owned();
    push_i64(&mut s, guild_id);
    s.append(tail);
    s
}

/// Creates the guild's own schema if it does not exist yet.
pub fn create_schema_sql(guild_id: i64) -> (res: String)
    ensures
        res@ == guild_statement(SCHEMA_HEAD@, guild_id as int, SCHEMA_TAIL@),
{
    build_guild_statement(SCHEMA_HEAD, guild_id, SCHEMA_TAIL)
}

/// Creates the table of the guild's voice states if it does not exist yet.
pub fn voice_state_table_sql(guild_id: i64) -> (res: String)
    ensures
        res@ == guild_statement(VOICE_TABLE_HEAD@, guild_id as int, VOICE_TABLE_TAIL@),
{
    build_guild_statement(VOICE_TABLE_HEAD, guild_id, VOICE_TABLE_TAIL)
}

/// Records a voice state; its five parameters are the message, channel and author ids, the state code and the time.
pub fn insert_voice_state_sql(guild_id: i64) -> (res: String)
    ensures
        res@ == guild_statement(INSERT_VOICE_HEAD@, guild_id as int, INSERT_VOICE_TAIL@),
{
    build_guild_statement(INSERT_VOICE_HEAD, guild_id, INSERT_VOICE_TAIL)
}

/// Creates the table of the guild's logged messages if it does not exist yet.
pub fn typed_messages_table_sql(guild_id: i64) -> (res: String)
    ensures
        res@ == guild_statement(MESSAGE_TABLE_HEAD@, guild_id as int, MESSAGE_TABLE_TAIL@),
{
    build_guild_statement(MESSAGE_TABLE_HEAD, guild_id, MESSAGE_TABLE_TAIL)
}

/// Logs a message once; its seven parameters are the message, channel and author ids, the author's name, the text, the command label and the time.
pub fn insert_typed_message_sql(guild_id: i64) -> (res: String)
    ensures
        res@ == guild_statement(INSERT_MESSAGE_HEAD@, guild_id as int, INSERT_MESSAGE_TAIL@),
{
    build_guild_statement(INSERT_MESSAGE_HEAD, guild_id, INSERT_MESSAGE_TAIL)
}

/// Reads the guild's voice states, newest first.
pub fn voice_state_query_sql(guild_id: i64) -> (res: String)
    ensures
        res@ == guild_statement(VOICE_QUERY_HEAD@, guild_id as int, VOICE_QUERY_TAIL@),
{
    build_guild_statement(VOICE_QUERY_HEAD, guild_id, VOICE_QUERY_TAIL)
}

/// A guild statement is the head, then the guild id as `{}` prints it,
/// then the tail, each at its own place.
pub proof fn lemma_guild_statement_layout(head: Seq<char>, guild_id: int, tail: Seq<char>)
    ensures
        ({
            let t = guild_statement(head, guild_id, tail);
            let d = decimal_int(guild_id);
            &&& t.len() == head.len() + d.len() + tail.len()
            &&& t.subrange(0, head.len() as int) == head
            &&& t.subrange(head.len() as int, (head.len() + d.len()) as int) == d
            &&& t.subrange((head.len() + d.len()) as int, t.len() as int) == tail
        }),
{
    let t = guild_statement(head, guild_id, tail);
    let d = decimal_int(guild_id);
    assert(t.subrange(0, head.len() as int) =~= head);
    assert(t.subrange(head.len() as int, (head.len() + d.len()) as int) =~= d);
    assert(t.subrange((head.len() + d.len()) as int, t.len() as int) =~= tail);
}

/// Statements about distinct guilds are distinct: each guild's data stays in
/// its own schema.
pub proof fn lemma_guild_statement_injective(head: Seq<char>, a: int, b: int, tail: Seq<char>)
    requires
        guild_statement(head, a, tail) == guild_statement(head, b, tail),
    ensures
        a == b,
{
    let sa = guild_statement(head, a, tail);
    let sb = guild_statement(head, b, tail);
    let da = decimal_int(a);
    let db = decimal_int(b);
    assert(sa.len() == head.len() + da.len() + tail.len());
    assert(sb.len() == head.len() + db.len() + tail.len());
    assert(da.len() == db.len());
    assert(da =~= sa.subrange(head.len() as int, (head.len() + da.len()) as int));
    assert(db =~= sb.subrange(head.len() as int, (head.len() + db.len()) as int));
    lemma_decimal_int_injective(a, b);
}

/// The environment variable that names the database user.
pub const POSTGRES_USER: &'static str = "POSTGRES_USER";
/// The environment variable that names the database host.
pub const POSTGRES_HOST: &'static str = "POSTGRES_HOST";
/// The environment variable that holds the database password.
pub const POSTGRES_PASSWORD: &'static str = "POSTGRES_PASSWORD";

/// The connection string handed to the database client.
pub open spec fn connection_text(host: Seq<char>, user: Seq<char>, password: Seq<char>) -> Seq<char> {
    "host="@ + host + " user="@ + user + " password="@ + password
}

/// Builds the connection string from the three settings.
pub fn connection_string(host: &str, user: &str, password: &str) -> (res: String)
    ensures
        res@ == connection_text(host@, user@, password@),
{
    let mut s = "host=".to_owned();
    s.append(host);
    s.append(" user=");
    s.append(user);
    s.append(" password=");
    s.append(password);
    s
}

/// The connection string carries each setting whole and in place: it is
/// `host=`, the host, ` user=`, the user, ` password=` and the password,
/// each piece at its own position, and nothing else.
pub proof fn lemma_connection_text_layout(host: Seq<char>, user: Seq<char>, password: Seq<char>)
    ensures
        ({
            let t = connection_text(host, user, password);
            let u0 = 5 + host.len();
            let u1 = u0 + 6;
            let p0 = u1 + user.len();
            let p1 = p0 + 10;
            &&& t.len() == host.len() + user.len() + password.len() + 21
            &&& t.subrange(0, 5) == seq!['h', 'o', 's', 't', '=']
            &&& t.subrange(5, u0 as int) == host
            &&& t.subrange(u0 as int, u1 as int) == seq![' ', 'u', 's', 'e', 'r', '=']
            &&& t.subrange(u1 as int, p0 as int) == user
            &&& t.subrange(p0 as int, p1 as int) == seq![' ', 'p', 'a', 's', 's', 'w', 'o', 'r', 'd', '=']
            &&& t.subrange(p1 as int, t.len() as int) == password
        }),
{
    reveal_strlit("host=");
    reveal_strlit(" user=");
    reveal_strlit(" password=");
    let a: Seq<char> = "host="@;
    let b: Seq<char> = " user="@;
    let c: Seq<char> = " password="@;
    assert(a =~= seq!['h', 'o', 's', 't', '=']);
    assert(b =~= seq![' ', 'u', 's', 'e', 'r', '=']);
    assert(c =~= seq![' ', 'p', 'a', 's', 's', 'w', 'o', 'r', 'd', '=']);
    let t = connection_text(host, user, password);
    let u0 = 5 + host.len();
    let u1 = u0 + 6;
    let p0 = u1 + user.len();
    let p1 = p0 + 10;
    assert(t.subrange(0, 5) =~= a);
    assert(t.subrange(5, u0 as int) =~= host);
    assert(t.subrange(u0 as int, u1 as int) =~= b);
    assert(t.subrange(u1 as int, p0 as int) =~= user);
    assert(t.subrange(p0 as int, p1 as int) =~= c);
    assert(t.subrange(p1 as int, t.len() as int) =~= password);
}

/// Different settings give different connection strings: the string
/// determines the host, the user and the password.
pub proof fn lemma_connection_text_injective(
    h1: Seq<char>,
    u1: Seq<char>,
    p1: Seq<char>,
    h2: Seq<char>,
    u2: Seq<char>,
    p2: Seq<char>,
)
    requires
        connection_text(h1, u1, p1) == connection_text(h2, u2, p2),
        h1.len() == h2.len(),
        u1.len() == u2.len(),
    ensures
        h1 == h2,
        u1 == u2,
        p1 == p2,
{
    lemma_connection_text_layout(h1, u1, p1);
    lemma_connection_text_layout(h2, u2, p2);
}

/// What deciding the connection yields: the connection string, or the name
/// of the first environment variable (user, then password, then host) that
/// is missing.
pub open spec fn settings_outcome(
    user: Option<Seq<char>>,
    password: Option<Seq<char>>,
    host: Option<Seq<char>>,
) -> Result<Seq<char>, Seq<char>> {
    match (user, password, host) {
        (None, _, _) => Err(POSTGRES_USER@),
        (Some(_), None, _) => Err(POSTGRES_PASSWORD@),
        (Some(_), Some(_), None) => Err(POSTGRES_HOST@),
        (Some(u), Some(p), Some(h)) => Ok(connection_text(h, u, p)),
    }
}

/// The connection result seen as text: the string, or the name of the
/// missing variable.
/// The connection succeeds exactly when all three variables are set, and
/// otherwise names the first missing one in the order user, password, host.
pub proof fn lemma_settings_outcome_order(
    user: Option<Seq<char>>,
    password: Option<Seq<char>>,
    host: Option<Seq<char>>,
)
    ensures
        settings_outcome(user, password, host) is Ok <==> (user is Some && password is Some
            && host is Some),
        user is None ==> settings_outcome(user, password, host) == Err::<Seq<char>, Seq<char>>(
            seq!['P', 'O', 'S', 'T', 'G', 'R', 'E', 'S', '_', 'U', 'S', 'E', 'R'],
        ),
        user is Some && password is None ==> settings_outcome(user, password, host) == Err::<
            Seq<char>,
            Seq<char>,
        >(seq!['P', 'O', 'S', 'T', 'G', 'R', 'E', 'S', '_', 'P', 'A', 'S', 'S', 'W', 'O', 'R', 'D']),
        user is Some && password is Some && host is None ==> settings_outcome(user, password, host)
            == Err::<Seq<char>, Seq<char>>(
            seq!['P', 'O', 'S', 'T', 'G', 'R', 'E', 'S', '_', 'H', 'O', 'S', 'T'],
        ),
        user is Some && password is Some && host is Some ==> settings_outcome(user, password, host)
            == Ok::<Seq<char>, Seq<char>>(connection_text(host->0, user->0, password->0)),
{
    reveal_strlit("POSTGRES_USER");
    reveal_strlit("POSTGRES_PASSWORD");
    reveal_strlit("POSTGRES_HOST");
    assert(POSTGRES_USER@ =~= seq!['P', 'O', 'S', 'T', 'G', 'R', 'E', 'S', '_', 'U', 'S', 'E', 'R']);
    assert(POSTGRES_PASSWORD@ =~= seq![
        'P', 'O', 'S', 'T', 'G', 'R', 'E', 'S', '_', 'P', 'A', 'S', 'S', 'W', 'O', 'R', 'D',
    ]);
    assert(POSTGRES_HOST@ =~= seq!['P', 'O', 'S', 'T', 'G', 'R', 'E', 'S', '_', 'H', 'O', 'S', 'T']);
}

pub open spec fn settings_view(r: Result<String, ErrorHandling>) -> Result<Seq<char>, Seq<char>> {
    match r {
        Ok(s) => Ok(s@),
        Err(ErrorHandling::StdEnv { varname }) => Err(varname@),
        Err(_) => Err(seq![]),
    }
}

/// Decides the connection from the values of the three environment
/// variables (`None` where one is unset).
pub fn connection_settings(
    user: Option<String>,
    password: Option<String>,
    host: Option<String>,
) -> (res: Result<String, ErrorHandling>)
    ensures
        settings_view(res) == settings_outcome(opt_view(user), opt_view(password), opt_view(host)),
{
    let user = match user {
        Some(u) => u,
        None => {
            return Err(ErrorHandling::StdEnv { varname: POSTGRES_USER.to_owned() });
        },
    };
    let password = match password {
        Some(p) => p,
        None => {
            return Err(ErrorHandling::StdEnv { varname: POSTGRES_PASSWORD.to_owned() });
        },
    };
    let host = match host {
        Some(h) => h,
        None => {
            return Err(ErrorHandling::StdEnv { varname: POSTGRES_HOST.to_owned() });
        },
    };
    Ok(connection_string(host.as_str(), user.as_str(), password.as_str()))
}

/// The value that `x as i64` gives for a `u64`: the same number where it
/// fits, else the number less 2^64.
pub open spec fn wrapped_i64(x: u64) -> int {
    if x <= i64::MAX {
        x as int
    } else {
        x as int - 0x1_0000_0000_0000_0000
    }
}

/// Converts a Discord id to the `BIGINT` under which it is stored, as
/// `as i64` does.
pub fn snowflake_to_i64(x: u64) -> (res: i64)
    ensures
        res as int == wrapped_i64(x),
{
    if x <= 0x7fff_ffff_ffff_ffffu64 {
        x as i64
    } else {
        let high: u64 = x - 0x8000_0000_0000_0000u64;
        (high as i64) + i64::MIN
    }
}

/// The stored number is the id itself taken modulo 2^64 into the range of
/// an `i64`: the one number of that range that differs from the id by a
/// multiple of 2^64.
pub proof fn lemma_wrapped_i64_is_modular(x: u64)
    ensures
        i64::MIN <= wrapped_i64(x) <= i64::MAX,
        (x as int - wrapped_i64(x)) % 0x1_0000_0000_0000_0000 == 0,
{
}

/// Distinct ids are stored as distinct numbers.
pub proof fn lemma_snowflake_injective(a: u64, b: u64)
    requires
        wrapped_i64(a) == wrapped_i64(b),
    ensures
        a == b,
{
}

/// The state that the newest stored code gives, read from the codes newest
/// first; `None` when nothing is stored.
pub fn latest_voice_state(codes: &Vec<String>) -> (res: Option<VoiceState>)
    ensures
        codes@.len() == 0 ==> res is None,
        codes@.len() > 0 ==> res == Some(state_of_code(codes@[0]@)),
{
    if codes.len() == 0 {
        None
    } else {
        Some(VoiceState::from_code(codes[0].as_str()))
    }
}

} // verus!
