//! The persistence boundary: the statements that write and read the rows of
//! the storage schema, and the reading of rows from their columns. A
//! statement is text with numbered placeholders and the values bound to them;
//! running it against a store is the caller's part.

use crate::records::{
    Player, PlayerEvent, PlayerEventRow, PlayerRow, Server, ServerEvent, ServerEventRow,
    ServerRow, ServerSettings, ServerSettingsRow, Session,
};
use crate::timestamp::{
    format_timestamp, parse_timestamp, parsed_seconds, rendered_seconds, text_view, timestamp_of,
    TimestampError, TIMESTAMP_FORMAT,
};
use vstd::prelude::*;

verus! {

/// Upserts a server by its address.
pub const INSERT_SERVER: &'static str = "INSERT OR IGNORE INTO servers (address) VALUES (?1)";

/// Reads a server by its id.
pub const SELECT_SERVER: &'static str = "SELECT * FROM servers WHERE server_id = ?1";

/// Reads a server by its address.
pub const SELECT_SERVER_BY_ADDRESS: &'static str = "SELECT * FROM servers WHERE address = ?1";

/// Appends a settings row.
pub const INSERT_SERVER_SETTINGS: &'static str =
    "INSERT INTO server_settings (server_id, name, max_players, current_map, vac_status, has_password, game_version, bots, created_at) VALUES (?1, ?2, ?3, ?4, ?5, ?6, ?7, ?8, ?9)";

/// Reads the latest settings row of a server.
pub const SELECT_SERVER_SETTINGS: &'static str =
    "SELECT * FROM server_settings WHERE server_id = ?1 ORDER BY created_at DESC, setting_id DESC LIMIT 1";

/// Upserts an entity by its name.
pub const INSERT_PLAYER: &'static str = "INSERT OR IGNORE INTO entities (name) VALUES (?1)";

/// Reads an entity by its id.
pub const SELECT_PLAYER: &'static str = "SELECT * FROM entities WHERE entity_id = ?1";

/// Reads an entity by its name.
pub const SELECT_PLAYER_BY_NAME: &'static str = "SELECT * FROM entities WHERE name = ?1";

/// Appends a session.
pub const INSERT_SESSION: &'static str =
    "INSERT INTO sessions (server_id, entity_id, score, duration, joined_at, left_at) VALUES (?1, ?2, ?3, ?4, ?5, ?6)";

/// Reads a session by its id.
pub const SELECT_SESSION: &'static str = "SELECT * FROM sessions WHERE session_id = ?1";

/// Reads every session.
pub const SELECT_ALL_SESSIONS: &'static str = "SELECT * FROM sessions";

/// Appends a server event.
pub const INSERT_SERVER_EVENT: &'static str =
    "INSERT INTO server_events (server_id, event_type, event_data, created_at) VALUES (?1, ?2, ?3, ?4)";

/// Reads a server event by its id.
pub const SELECT_SERVER_EVENT: &'static str = "SELECT * FROM server_events WHERE event_id = ?1";

/// Reads every server event.
pub const SELECT_ALL_SERVER_EVENTS: &'static str = "SELECT * FROM server_events";

/// Appends a player event.
pub const INSERT_PLAYER_EVENT: &'static str =
    "INSERT INTO player_events (server_id, entity_id, event_type, event_data, created_at) VALUES (?1, ?2, ?3, ?4, ?5)";

/// Reads a player event by its id.
pub const SELECT_PLAYER_EVENT: &'static str = "SELECT * FROM player_events WHERE event_id = ?1";

/// A value bound to a placeholder or held by a column. A flag is the integer
/// 1 or 0.
#[derive(Debug, Clone, PartialEq, Eq)]
pub enum SqlValue {
    Null,
    Integer(i64),
    Text(String),
}

/// Mathematical value of a [`SqlValue`].
pub enum SqlValueView {
    Null,
    Integer(i64),
    Text(Seq<char>),
}

impl View for SqlValue {
    type V = SqlValueView;

    open spec fn view(&self) -> SqlValueView {
        match *self {
            SqlValue::Null => SqlValueView::Null,
            SqlValue::Integer(i) => SqlValueView::Integer(i),
            SqlValue::Text(t) => SqlValueView::Text(t@),
        }
    }
}

impl DeepView for SqlValue {
    type V = SqlValueView;

    open spec fn deep_view(&self) -> SqlValueView {
        self@
    }
}

/// A statement and the values of its placeholders, `?1` first.
#[derive(Debug, Clone, PartialEq, Eq)]
pub struct Statement {
    pub sql: String,
    pub params: Vec<SqlValue>,
}

/// Mathematical value of a [`Statement`].
pub struct StatementView {
    pub sql: Seq<char>,
    pub params: Seq<SqlValueView>,
}

impl View for Statement {
    type V = StatementView;

    open spec fn view(&self) -> StatementView {
        StatementView { sql: self.sql@, params: self.params.deep_view() }
    }
}

/// Why a row could not be written or read.
#[derive(Debug, Clone, Copy, PartialEq, Eq)]
pub enum SqlError {
    /// A row read from the store has not the columns of its table.
    RowShape,
    /// A timestamp read from the store is not in the stored layout.
    MalformedTimestamp,
    /// A timestamp to write lies outside the calendar.
    TimestampOutOfRange,
    /// A duration to write is more than the store's integers hold.
    DurationOutOfRange,
}

/// View of a statement that may have failed to build.
pub open spec fn statement_result_view(r: Result<Statement, SqlError>) -> Result<
    StatementView,
    SqlError,
> {
    match r {
        Ok(s) => Ok(s@),
        Err(e) => Err(e),
    }
}

/// The flag `b` as the store holds it.
pub open spec fn flag(b: bool) -> SqlValueView {
    SqlValueView::Integer(
        if b {
            1
        } else {
            0
        },
    )
}

/// The integer `i` as the store holds it.
pub open spec fn integer(i: int) -> SqlValueView
    recommends
        i64::MIN <= i <= i64::MAX,
{
    SqlValueView::Integer(i as i64)
}

fn statement(sql: &str, params: Vec<SqlValue>) -> (st: Statement)
    ensures
        st@ == (StatementView { sql: sql@, params: params.deep_view() }),
{
    Statement { sql: sql.to_owned(), params }
}

fn flag_value(b: bool) -> (v: SqlValue)
    ensures
        v@ == flag(b),
{
    SqlValue::Integer(
        if b {
            1
        } else {
            0
        },
    )
}

/// The statement that upserts a server row: a second insert of the same
/// address is ignored.
pub fn insert_server(server: &Server) -> (st: Statement)
    ensures
        st@ == (StatementView {
            sql: INSERT_SERVER@,
            params: seq![SqlValueView::Text(server.address@)],
        }),
{
    let params = vec![SqlValue::Text(server.address.clone())];
    assert(params.deep_view() =~= seq![SqlValueView::Text(server.address@)]);
    statement(INSERT_SERVER, params)
}

/// The statement that reads the server row with the given id.
pub fn get_server(server_id: i32) -> (st: Statement)
    ensures
        st@ == (StatementView { sql: SELECT_SERVER@, params: seq![integer(server_id as int)] }),
{
    let params = vec![SqlValue::Integer(server_id as i64)];
    assert(params.deep_view() =~= seq![integer(server_id as int)]);
    statement(SELECT_SERVER, params)
}

/// The statement that reads the server row with the given address.
pub fn get_server_by_addr(address: String) -> (st: Statement)
    ensures
        st@ == (StatementView {
            sql: SELECT_SERVER_BY_ADDRESS@,
            params: seq![SqlValueView::Text(address@)],
        }),
{
    let ghost text = address@;
    let params = vec![SqlValue::Text(address)];
    assert(params.deep_view() =~= seq![SqlValueView::Text(text)]);
    statement(SELECT_SERVER_BY_ADDRESS, params)
}

/// The statement that appends `settings`, its timestamp rendered as `created_at`.
pub open spec fn settings_insert(settings: ServerSettingsRow, created_at: Option<Seq<char>>) -> Result<
    StatementView,
    SqlError,
> {
    match created_at {
        Some(at) => Ok(
            StatementView {
                sql: INSERT_SERVER_SETTINGS@,
                params: seq![
                    integer(settings.server_id as int),
                    SqlValueView::Text(settings.name),
                    integer(settings.max_players as int),
                    SqlValueView::Text(settings.current_map),
                    flag(settings.vac_status),
                    flag(settings.has_password),
                    SqlValueView::Text(settings.game_version),
                    integer(settings.bots as int),
                    SqlValueView::Text(at),
                ],
            },
        ),
        None => Err(SqlError::TimestampOutOfRange),
    }
}

/// Builds the statement that appends a settings row, given the text of its
/// timestamp where it has one.
pub fn settings_statement(settings: &ServerSettings, created_at: Option<String>) -> (st: Result<
    Statement,
    SqlError,
>)
    ensures
        statement_result_view(st) == settings_insert(settings@, text_view(created_at)),
{
    match created_at {
        Some(at) => {
            let ghost text = at@;
            let params = vec![
                SqlValue::Integer(settings.server_id as i64),
                SqlValue::Text(settings.name.clone()),
                SqlValue::Integer(settings.max_players as i64),
                SqlValue::Text(settings.current_map.clone()),
                flag_value(settings.vac_status),
                flag_value(settings.has_password),
                SqlValue::Text(settings.game_version.clone()),
                SqlValue::Integer(settings.bots as i64),
                SqlValue::Text(at),
            ];
            assert(params.deep_view() =~= settings_insert(settings@, Some(text))->Ok_0.params);
            Ok(statement(INSERT_SERVER_SETTINGS, params))
        },
        None => Err(SqlError::TimestampOutOfRange),
    }
}

/// The statement that appends a settings row.
pub fn insert_server_settings(settings: &ServerSettings) -> (st: Result<Statement, SqlError>)
    ensures
        statement_result_view(st) == settings_insert(
            settings@,
            rendered_seconds(settings.created_at, TIMESTAMP_FORMAT@),
        ),
{
    settings_statement(settings, format_timestamp(settings.created_at))
}

/// The statement that reads the latest settings row of a server.
pub fn get_server_settings(server_id: i32) -> (st: Statement)
    ensures
        st@ == (StatementView {
            sql: SELECT_SERVER_SETTINGS@,
            params: seq![integer(server_id as int)],
        }),
{
    let params = vec![SqlValue::Integer(server_id as i64)];
    assert(params.deep_view() =~= seq![integer(server_id as int)]);
    statement(SELECT_SERVER_SETTINGS, params)
}

/// The statement that upserts an entity row: a second insert of the same
/// name is ignored.
pub fn insert_player(player: &Player) -> (st: Statement)
    ensures
        st@ == (StatementView {
            sql: INSERT_PLAYER@,
            params: seq![SqlValueView::Text(player.name@)],
        }),
{
    let params = vec![SqlValue::Text(player.name.clone())];
    assert(params.deep_view() =~= seq![SqlValueView::Text(player.name@)]);
    statement(INSERT_PLAYER, params)
}

/// The statement that reads the entity row with the given id.
pub fn get_player(player_id: i32) -> (st: Statement)
    ensures
        st@ == (StatementView { sql: SELECT_PLAYER@, params: seq![integer(player_id as int)] }),
{
    let params = vec![SqlValue::Integer(player_id as i64)];
    assert(params.deep_view() =~= seq![integer(player_id as int)]);
    statement(SELECT_PLAYER, params)
}

/// The statement that reads the entity row with the given name.
pub fn get_player_by_name(name: String) -> (st: Statement)
    ensures
        st@ == (StatementView {
            sql: SELECT_PLAYER_BY_NAME@,
            params: seq![SqlValueView::Text(name@)],
        }),
{
    let ghost text = name@;
    let params = vec![SqlValue::Text(name)];
    assert(params.deep_view() =~= seq![SqlValueView::Text(text)]);
    statement(SELECT_PLAYER_BY_NAME, params)
}

/// The statement that appends `session`, its two timestamps rendered as
/// `joined_at` and `left_at`.
pub open spec fn session_insert(
    session: Session,
    joined_at: Option<Seq<char>>,
    left_at: Option<Seq<char>>,
) -> Result<StatementView, SqlError> {
    if session.duration > i64::MAX {
        Err(SqlError::DurationOutOfRange)
    } else {
        match (joined_at, left_at) {
            (Some(joined), Some(left)) => Ok(
                StatementView {
                    sql: INSERT_SESSION@,
                    params: seq![
                        integer(session.server_id as int),
                        integer(session.player_id as int),
                        integer(session.score as int),
                        integer(session.duration as int),
                        SqlValueView::Text(joined),
                        SqlValueView::Text(left),
                    ],
                },
            ),
            _ => Err(SqlError::TimestampOutOfRange),
        }
    }
}

/// Builds the statement that appends a session row, given the texts of its
/// timestamps where they have one.
pub fn session_statement(
    session: &Session,
    joined_at: Option<String>,
    left_at: Option<String>,
) -> (st: Result<Statement, SqlError>)
    ensures
        statement_result_view(st) == session_insert(
            *session,
            text_view(joined_at),
            text_view(left_at),
        ),
{
    if session.duration > i64::MAX as u64 {
        return Err(SqlError::DurationOutOfRange);
    }
    match (joined_at, left_at) {
        (Some(joined), Some(left)) => {
            let ghost expected = session_insert(*session, Some(joined@), Some(left@))->Ok_0;
            let params = vec![
                SqlValue::Integer(session.server_id as i64),
                SqlValue::Integer(session.player_id as i64),
                SqlValue::Integer(session.score as i64),
                SqlValue::Integer(session.duration as i64),
                SqlValue::Text(joined),
                SqlValue::Text(left),
            ];
            assert(params.deep_view() =~= expected.params);
            Ok(statement(INSERT_SESSION, params))
        },
        _ => Err(SqlError::TimestampOutOfRange),
    }
}

/// The statement that appends a session row.
pub fn insert_session(session: &Session) -> (st: Result<Statement, SqlError>)
    ensures
        statement_result_view(st) == session_insert(
            *session,
            rendered_seconds(session.joined_at, TIMESTAMP_FORMAT@),
            rendered_seconds(session.left_at, TIMESTAMP_FORMAT@),
        ),
{
    session_statement(
        session,
        format_timestamp(session.joined_at),
        format_timestamp(session.left_at),
    )
}

/// The statement that reads the session row with the given id.
pub fn get_session(session_id: i32) -> (st: Statement)
    ensures
        st@ == (StatementView { sql: SELECT_SESSION@, params: seq![integer(session_id as int)] }),
{
    let params = vec![SqlValue::Integer(session_id as i64)];
    assert(params.deep_view() =~= seq![integer(session_id as int)]);
    statement(SELECT_SESSION, params)
}

/// The statement that reads every session row.
pub fn get_all_sessions() -> (st: Statement)
    ensures
        st@ == (StatementView { sql: SELECT_ALL_SESSIONS@, params: Seq::empty() }),
{
    let params: Vec<SqlValue> = Vec::new();
    assert(params.deep_view() =~= Seq::empty());
    statement(SELECT_ALL_SESSIONS, params)
}

/// The statement that appends `event`, its timestamp rendered as `created_at`.
pub open spec fn server_event_insert(event: ServerEventRow, created_at: Option<Seq<char>>) -> Result<
    StatementView,
    SqlError,
> {
    match created_at {
        Some(at) => Ok(
            StatementView {
                sql: INSERT_SERVER_EVENT@,
                params: seq![
                    integer(event.server_id as int),
                    SqlValueView::Text(event.event_type),
                    SqlValueView::Text(event.event_data),
                    SqlValueView::Text(at),
                ],
            },
        ),
        None => Err(SqlError::TimestampOutOfRange),
    }
}

/// Builds the statement that appends a server event row, given the text of
/// its timestamp where it has one.
pub fn server_event_statement(event: &ServerEvent, created_at: Option<String>) -> (st: Result<
    Statement,
    SqlError,
>)
    ensures
        statement_result_view(st) == server_event_insert(event@, text_view(created_at)),
{
    match created_at {
        Some(at) => {
            let ghost expected = server_event_insert(event@, Some(at@))->Ok_0;
            let params = vec![
                SqlValue::Integer(event.server_id as i64),
                SqlValue::Text(event.event_type.clone()),
                SqlValue::Text(event.event_data.clone()),
                SqlValue::Text(at),
            ];
            assert(params.deep_view() =~= expected.params);
            Ok(statement(INSERT_SERVER_EVENT, params))
        },
        None => Err(SqlError::TimestampOutOfRange),
    }
}

/// The statement that appends a server event row.
pub fn insert_server_event(event: &ServerEvent) -> (st: Result<Statement, SqlError>)
    ensures
        statement_result_view(st) == server_event_insert(
            event@,
            rendered_seconds(event.created_at, TIMESTAMP_FORMAT@),
        ),
{
    server_event_statement(event, format_timestamp(event.created_at))
}

/// The statement that reads the server event row with the given id.
pub fn get_server_event(event_id: i32) -> (st: Statement)
    ensures
        st@ == (StatementView {
            sql: SELECT_SERVER_EVENT@,
            params: seq![integer(event_id as int)],
        }),
{
    let params = vec![SqlValue::Integer(event_id as i64)];
    assert(params.deep_view() =~= seq![integer(event_id as int)]);
    statement(SELECT_SERVER_EVENT, params)
}

/// The statement that reads every server event row.
pub fn get_all_server_events() -> (st: Statement)
    ensures
        st@ == (StatementView { sql: SELECT_ALL_SERVER_EVENTS@, params: Seq::empty() }),
{
    let params: Vec<SqlValue> = Vec::new();
    assert(params.deep_view() =~= Seq::empty());
    statement(SELECT_ALL_SERVER_EVENTS, params)
}

/// The statement that appends `event`, its timestamp rendered as `created_at`.
pub open spec fn player_event_insert(event: PlayerEventRow, created_at: Option<Seq<char>>) -> Result<
    StatementView,
    SqlError,
> {
    match created_at {
        Some(at) => Ok(
            StatementView {
                sql: INSERT_PLAYER_EVENT@,
                params: seq![
                    integer(event.server_id as int),
                    integer(event.player_id as int),
                    SqlValueView::Text(event.event_type),
                    SqlValueView::Text(event.event_data),
                    SqlValueView::Text(at),
                ],
            },
        ),
        None => Err(SqlError::TimestampOutOfRange),
    }
}

/// Builds the statement that appends a player event row, given the text of
/// its timestamp where it has one.
pub fn player_event_statement(event: &PlayerEvent, created_at: Option<String>) -> (st: Result<
    Statement,
    SqlError,
>)
    ensures
        statement_result_view(st) == player_event_insert(event@, text_view(created_at)),
{
    match created_at {
        Some(at) => {
            let ghost expected = player_event_insert(event@, Some(at@))->Ok_0;
            let params = vec![
                SqlValue::Integer(event.server_id as i64),
                SqlValue::Integer(event.player_id as i64),
                SqlValue::Text(event.event_type.clone()),
                SqlValue::Text(event.event_data.clone()),
                SqlValue::Text(at),
            ];
            assert(params.deep_view() =~= expected.params);
            Ok(statement(INSERT_PLAYER_EVENT, params))
        },
        None => Err(SqlError::TimestampOutOfRange),
    }
}

/// The statement that appends a player event row.
pub fn insert_player_event(event: &PlayerEvent) -> (st: Result<Statement, SqlError>)
    ensures
        statement_result_view(st) == player_event_insert(
            event@,
            rendered_seconds(event.created_at, TIMESTAMP_FORMAT@),
        ),
{
    player_event_statement(event, format_timestamp(event.created_at))
}

/// The statement that reads the player event row with the given id.
pub fn get_player_event(event_id: i32) -> (st: Statement)
    ensures
        st@ == (StatementView {
            sql: SELECT_PLAYER_EVENT@,
            params: seq![integer(event_id as int)],
        }),
{
    let params = vec![SqlValue::Integer(event_id as i64)];
    assert(params.deep_view() =~= seq![integer(event_id as int)]);
    statement(SELECT_PLAYER_EVENT, params)
}

/// Column `i` of `row` where it holds an integer.
pub open spec fn integer_at(row: Seq<SqlValueView>, i: int) -> Option<i64> {
    if 0 <= i < row.len() {
        match row[i] {
            SqlValueView::Integer(v) => Some(v),
            _ => None,
        }
    } else {
        None
    }
}

/// Column `i` of `row` where it holds text.
pub open spec fn text_at(row: Seq<SqlValueView>, i: int) -> Option<Seq<char>> {
    if 0 <= i < row.len() {
        match row[i] {
            SqlValueView::Text(t) => Some(t),
            _ => None,
        }
    } else {
        None
    }
}

/// Column `i` of `row` where it holds an integer of 32 bits.
pub open spec fn id_at(row: Seq<SqlValueView>, i: int) -> Option<i32> {
    match integer_at(row, i) {
        Some(v) => if i32::MIN <= v <= i32::MAX {
            Some(v as i32)
        } else {
            None
        },
        None => None,
    }
}

/// Column `i` of `row` where it holds an integer from 0 to 255.
pub open spec fn byte_at(row: Seq<SqlValueView>, i: int) -> Option<u8> {
    match integer_at(row, i) {
        Some(v) => if 0 <= v <= u8::MAX {
            Some(v as u8)
        } else {
            None
        },
        None => None,
    }
}

/// Column `i` of `row` where it holds an integer that is not negative.
pub open spec fn count_at(row: Seq<SqlValueView>, i: int) -> Option<u64> {
    match integer_at(row, i) {
        Some(v) => if 0 <= v {
            Some(v as u64)
        } else {
            None
        },
        None => None,
    }
}

/// Column `i` of `row` where it holds a flag: any integer but 0 is a set flag.
pub open spec fn flag_at(row: Seq<SqlValueView>, i: int) -> Option<bool> {
    match integer_at(row, i) {
        Some(v) => Some(v != 0),
        None => None,
    }
}

fn integer_column(row: &Vec<SqlValue>, i: usize) -> (v: Option<i64>)
    ensures
        v == integer_at(row.deep_view(), i as int),
{
    if i < row.len() {
        match &row[i] {
            SqlValue::Integer(v) => Some(*v),
            _ => None,
        }
    } else {
        None
    }
}

fn text_column(row: &Vec<SqlValue>, i: usize) -> (t: Option<&String>)
    ensures
        match t {
            Some(t) => text_at(row.deep_view(), i as int) == Some(t@),
            None => text_at(row.deep_view(), i as int).is_none(),
        },
{
    if i < row.len() {
        match &row[i] {
            SqlValue::Text(t) => Some(t),
            _ => None,
        }
    } else {
        None
    }
}

fn id_column(row: &Vec<SqlValue>, i: usize) -> (v: Option<i32>)
    ensures
        v == id_at(row.deep_view(), i as int),
{
    match integer_column(row, i) {
        Some(v) => if -2147483648 <= v && v <= 2147483647 {
            Some(v as i32)
        } else {
            None
        },
        None => None,
    }
}

fn byte_column(row: &Vec<SqlValue>, i: usize) -> (v: Option<u8>)
    ensures
        v == byte_at(row.deep_view(), i as int),
{
    match integer_column(row, i) {
        Some(v) => if 0 <= v && v <= 255 {
            Some(v as u8)
        } else {
            None
        },
        None => None,
    }
}

fn count_column(row: &Vec<SqlValue>, i: usize) -> (v: Option<u64>)
    ensures
        v == count_at(row.deep_view(), i as int),
{
    match integer_column(row, i) {
        Some(v) => if 0 <= v {
            Some(v as u64)
        } else {
            None
        },
        None => None,
    }
}

fn flag_column(row: &Vec<SqlValue>, i: usize) -> (v: Option<bool>)
    ensures
        v == flag_at(row.deep_view(), i as int),
{
    match integer_column(row, i) {
        Some(v) => Some(v != 0),
        None => None,
    }
}

/// View of a row that may have failed to read.
pub open spec fn row_result_view<T: View>(r: Result<T, SqlError>) -> Result<T::V, SqlError> {
    match r {
        Ok(row) => Ok(row@),
        Err(e) => Err(e),
    }
}

/// What reading column `i` of `row` as a timestamp gives: what chrono reads
/// from its text in the stored layout, and a malformed timestamp where the
/// column holds no text.
pub open spec fn moment_at(row: Seq<SqlValueView>, i: int) -> Result<i64, TimestampError> {
    match text_at(row, i) {
        Some(text) => timestamp_of(parsed_seconds(text, TIMESTAMP_FORMAT@)),
        None => Err(TimestampError::Malformed),
    }
}

fn moment_column(row: &Vec<SqlValue>, i: usize) -> (at: Result<i64, TimestampError>)
    ensures
        at == moment_at(row.deep_view(), i as int),
{
    match text_column(row, i) {
        Some(text) => parse_timestamp(text.as_str()),
        None => Err(TimestampError::Malformed),
    }
}

/// The server row that the columns `(server_id, address)` make.
pub open spec fn server_of_row(row: Seq<SqlValueView>) -> Result<ServerRow, SqlError> {
    match (id_at(row, 0), text_at(row, 1)) {
        (Some(server_id), Some(address)) => Ok(ServerRow { server_id, address }),
        _ => Err(SqlError::RowShape),
    }
}

/// The entity row that the columns `(entity_id, name)` make.
pub open spec fn player_of_row(row: Seq<SqlValueView>) -> Result<PlayerRow, SqlError> {
    match (id_at(row, 0), text_at(row, 1)) {
        (Some(player_id), Some(name)) => Ok(PlayerRow { player_id, name }),
        _ => Err(SqlError::RowShape),
    }
}

/// The settings row that the ten columns of the table make, given what
/// reading its timestamp gave. A column of the wrong kind is reported before
/// a malformed timestamp.
pub open spec fn settings_of_row(
    row: Seq<SqlValueView>,
    created_at: Result<i64, TimestampError>,
) -> Result<ServerSettingsRow, SqlError> {
    match (
        id_at(row, 0),
        id_at(row, 1),
        text_at(row, 2),
        id_at(row, 3),
        text_at(row, 4),
        flag_at(row, 5),
        flag_at(row, 6),
        text_at(row, 7),
        byte_at(row, 8),
        text_at(row, 9),
    ) {
        (
            Some(setting_id),
            Some(server_id),
            Some(name),
            Some(max_players),
            Some(current_map),
            Some(vac_status),
            Some(has_password),
            Some(game_version),
            Some(bots),
            Some(_),
        ) => match created_at {
            Ok(at) => Ok(
                ServerSettingsRow {
                    setting_id,
                    server_id,
                    name,
                    max_players,
                    current_map,
                    vac_status,
                    has_password,
                    game_version,
                    bots,
                    created_at: at,
                },
            ),
            Err(_) => Err(SqlError::MalformedTimestamp),
        },
        _ => Err(SqlError::RowShape),
    }
}

/// The session row that the seven columns of the table make, given what
/// reading its two timestamps gave.
pub open spec fn session_of_row(
    row: Seq<SqlValueView>,
    joined_at: Result<i64, TimestampError>,
    left_at: Result<i64, TimestampError>,
) -> Result<Session, SqlError> {
    match (
        id_at(row, 0),
        id_at(row, 1),
        id_at(row, 2),
        id_at(row, 3),
        count_at(row, 4),
        text_at(row, 5),
        text_at(row, 6),
    ) {
        (
            Some(session_id),
            Some(server_id),
            Some(player_id),
            Some(score),
            Some(duration),
            Some(_),
            Some(_),
        ) => match (joined_at, left_at) {
            (Ok(joined), Ok(left)) => Ok(
                Session {
                    session_id,
                    server_id,
                    player_id,
                    score,
                    duration,
                    joined_at: joined,
                    left_at: left,
                },
            ),
            _ => Err(SqlError::MalformedTimestamp),
        },
        _ => Err(SqlError::RowShape),
    }
}

/// The server event row that the five columns of the table make, given what
/// reading its timestamp gave.
pub open spec fn server_event_of_row(
    row: Seq<SqlValueView>,
    created_at: Result<i64, TimestampError>,
) -> Result<ServerEventRow, SqlError> {
    match (id_at(row, 0), id_at(row, 1), text_at(row, 2), text_at(row, 3), text_at(row, 4)) {
        (Some(event_id), Some(server_id), Some(event_type), Some(event_data), Some(_)) => {
            match created_at {
                Ok(at) => Ok(
                    ServerEventRow { event_id, server_id, event_type, event_data, created_at: at },
                ),
                Err(_) => Err(SqlError::MalformedTimestamp),
            }
        },
        _ => Err(SqlError::RowShape),
    }
}

/// The player event row that the six columns of the table make, given what
/// reading its timestamp gave.
pub open spec fn player_event_of_row(
    row: Seq<SqlValueView>,
    created_at: Result<i64, TimestampError>,
) -> Result<PlayerEventRow, SqlError> {
    match (
        id_at(row, 0),
        id_at(row, 1),
        id_at(row, 2),
        text_at(row, 3),
        text_at(row, 4),
        text_at(row, 5),
    ) {
        (
            Some(event_id),
            Some(server_id),
            Some(player_id),
            Some(event_type),
            Some(event_data),
            Some(_),
        ) => match created_at {
            Ok(at) => Ok(
                PlayerEventRow {
                    event_id,
                    server_id,
                    player_id,
                    event_type,
                    event_data,
                    created_at: at,
                },
            ),
            Err(_) => Err(SqlError::MalformedTimestamp),
        },
        _ => Err(SqlError::RowShape),
    }
}

/// Reads a server row from its columns.
pub fn map_to_server(row: &Vec<SqlValue>) -> (server: Result<Server, SqlError>)
    ensures
        row_result_view(server) == server_of_row(row.deep_view()),
{
    match (id_column(row, 0), text_column(row, 1)) {
        (Some(server_id), Some(address)) => Ok(Server { server_id, address: address.clone() }),
        _ => Err(SqlError::RowShape),
    }
}

/// Reads an entity row from its columns.
pub fn map_to_player(row: &Vec<SqlValue>) -> (player: Result<Player, SqlError>)
    ensures
        row_result_view(player) == player_of_row(row.deep_view()),
{
    match (id_column(row, 0), text_column(row, 1)) {
        (Some(player_id), Some(name)) => Ok(Player { player_id, name: name.clone() }),
        _ => Err(SqlError::RowShape),
    }
}

/// Assembles a settings row from its columns, given what reading its
/// timestamp gave.
pub fn settings_from_row(row: &Vec<SqlValue>, created_at: Result<i64, TimestampError>) -> (settings:
    Result<ServerSettings, SqlError>)
    ensures
        row_result_view(settings) == settings_of_row(row.deep_view(), created_at),
{
    let setting_id = id_column(row, 0);
    let server_id = id_column(row, 1);
    let name = text_column(row, 2);
    let max_players = id_column(row, 3);
    let current_map = text_column(row, 4);
    let vac_status = flag_column(row, 5);
    let has_password = flag_column(row, 6);
    let game_version = text_column(row, 7);
    let bots = byte_column(row, 8);
    let stamp = text_column(row, 9);
    if setting_id.is_none() || server_id.is_none() || name.is_none() || max_players.is_none()
        || current_map.is_none() || vac_status.is_none() || has_password.is_none()
        || game_version.is_none() || bots.is_none() || stamp.is_none() {
        return Err(SqlError::RowShape);
    }
    match created_at {
        Ok(at) => Ok(
            ServerSettings {
                setting_id: setting_id.unwrap(),
                server_id: server_id.unwrap(),
                name: name.unwrap().clone(),
                max_players: max_players.unwrap(),
                current_map: current_map.unwrap().clone(),
                vac_status: vac_status.unwrap(),
                has_password: has_password.unwrap(),
                game_version: game_version.unwrap().clone(),
                bots: bots.unwrap(),
                created_at: at,
            },
        ),
        Err(_) => Err(SqlError::MalformedTimestamp),
    }
}

/// Reads a settings row from its columns.
pub fn map_to_server_settings(row: &Vec<SqlValue>) -> (settings: Result<ServerSettings, SqlError>)
    ensures
        row_result_view(settings) == settings_of_row(
            row.deep_view(),
            moment_at(row.deep_view(), 9),
        ),
{
    settings_from_row(row, moment_column(row, 9))
}

/// Assembles a session row from its columns, given what reading its two
/// timestamps gave.
pub fn session_from_row(
    row: &Vec<SqlValue>,
    joined_at: Result<i64, TimestampError>,
    left_at: Result<i64, TimestampError>,
) -> (session: Result<Session, SqlError>)
    ensures
        session == session_of_row(row.deep_view(), joined_at, left_at),
{
    let session_id = id_column(row, 0);
    let server_id = id_column(row, 1);
    let player_id = id_column(row, 2);
    let score = id_column(row, 3);
    let duration = count_column(row, 4);
    let joined_text = text_column(row, 5);
    let left_text = text_column(row, 6);
    if session_id.is_none() || server_id.is_none() || player_id.is_none() || score.is_none()
        || duration.is_none() || joined_text.is_none() || left_text.is_none() {
        return Err(SqlError::RowShape);
    }
    match (joined_at, left_at) {
        (Ok(joined), Ok(left)) => Ok(
            Session {
                session_id: session_id.unwrap(),
                server_id: server_id.unwrap(),
                player_id: player_id.unwrap(),
                score: score.unwrap(),
                duration: duration.unwrap(),
                joined_at: joined,
                left_at: left,
            },
        ),
        _ => Err(SqlError::MalformedTimestamp),
    }
}

/// Reads a session row from its columns.
pub fn map_to_session(row: &Vec<SqlValue>) -> (session: Result<Session, SqlError>)
    ensures
        session == session_of_row(
            row.deep_view(),
            moment_at(row.deep_view(), 5),
            moment_at(row.deep_view(), 6),
        ),
{
    session_from_row(row, moment_column(row, 5), moment_column(row, 6))
}

/// Assembles a server event row from its columns, given what reading its
/// timestamp gave.
pub fn server_event_from_row(row: &Vec<SqlValue>, created_at: Result<i64, TimestampError>) -> (event:
    Result<ServerEvent, SqlError>)
    ensures
        row_result_view(event) == server_event_of_row(row.deep_view(), created_at),
{
    let event_id = id_column(row, 0);
    let server_id = id_column(row, 1);
    let event_type = text_column(row, 2);
    let event_data = text_column(row, 3);
    let stamp = text_column(row, 4);
    if event_id.is_none() || server_id.is_none() || event_type.is_none() || event_data.is_none()
        || stamp.is_none() {
        return Err(SqlError::RowShape);
    }
    match created_at {
        Ok(at) => Ok(
            ServerEvent {
                event_id: event_id.unwrap(),
                server_id: server_id.unwrap(),
                event_type: event_type.unwrap().clone(),
                event_data: event_data.unwrap().clone(),
                created_at: at,
            },
        ),
        Err(_) => Err(SqlError::MalformedTimestamp),
    }
}

/// Reads a server event row from its columns.
pub fn map_to_server_event(row: &Vec<SqlValue>) -> (event: Result<ServerEvent, SqlError>)
    ensures
        row_result_view(event) == server_event_of_row(
            row.deep_view(),
            moment_at(row.deep_view(), 4),
        ),
{
    server_event_from_row(row, moment_column(row, 4))
}

/// Assembles a player event row from its columns, given what reading its
/// timestamp gave.
pub fn player_event_from_row(row: &Vec<SqlValue>, created_at: Result<i64, TimestampError>) -> (event:
    Result<PlayerEvent, SqlError>)
    ensures
        row_result_view(event) == player_event_of_row(row.deep_view(), created_at),
{
    let event_id = id_column(row, 0);
    let server_id = id_column(row, 1);
    let player_id = id_column(row, 2);
    let event_type = text_column(row, 3);
    let event_data = text_column(row, 4);
    let stamp = text_column(row, 5);
    if event_id.is_none() || server_id.is_none() || player_id.is_none() || event_type.is_none()
        || event_data.is_none() || stamp.is_none() {
        return Err(SqlError::RowShape);
    }
    match created_at {
        Ok(at) => Ok(
            PlayerEvent {
                event_id: event_id.unwrap(),
                server_id: server_id.unwrap(),
                player_id: player_id.unwrap(),
                event_type: event_type.unwrap().clone(),
                event_data: event_data.unwrap().clone(),
                created_at: at,
            },
        ),
        Err(_) => Err(SqlError::MalformedTimestamp),
    }
}

/// Reads a player event row from its columns.
pub fn map_to_player_event(row: &Vec<SqlValue>) -> (event: Result<PlayerEvent, SqlError>)
    ensures
        row_result_view(event) == player_event_of_row(
            row.deep_view(),
            moment_at(row.deep_view(), 5),
        ),
{
    player_event_from_row(row, moment_column(row, 5))
}

} // verus!
