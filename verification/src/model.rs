//! The records that travel over the wire: track status, configuration and the
//! message envelope, each with the schema that reads it from JSON.
//!
//! A record is read from a JSON object by field name, or from a JSON array
//! that holds every field in declaration order. Unknown members of an object
//! are ignored. An optional text or number may be missing from an object or
//! be `null`; anything of another kind fails the whole record.

use crate::json::{
    item_values, lemma_array_view, lemma_member_at, lemma_object_view, member_of, member_values,
    Json, JsonValue, Member,
};
use vstd::prelude::*;

verus! {

/// The value behind an optional reference.
pub open spec fn value_of(v: Option<&Json>) -> Option<JsonValue> {
    match v {
        Some(j) => Some(j@),
        None => None,
    }
}

/// The characters of an optional text.
pub open spec fn optional_chars(t: Option<String>) -> Option<Seq<char>> {
    match t {
        Some(s) => Some(s@),
        None => None,
    }
}

/// The characters of each text of a sequence.
pub open spec fn text_views(texts: Seq<String>) -> Seq<Seq<char>> {
    Seq::new(texts.len(), |i: int| texts[i]@)
}

/// Whether `j` has the outer shape of a record of `width` fields: any
/// object, or an array of exactly `width` items.
pub open spec fn record_shape(j: JsonValue, width: nat) -> bool {
    match j {
        JsonValue::Object(_) => true,
        JsonValue::Array(items) => items.len() == width,
        _ => false,
    }
}

/// The field of a record: the first member called `name` of an object, or the
/// item at `position` of an array.
pub open spec fn record_field(j: JsonValue, name: Seq<char>, position: int) -> Option<JsonValue> {
    match j {
        JsonValue::Object(members) => member_of(members, name),
        JsonValue::Array(items) => if 0 <= position < items.len() {
            Some(items[position])
        } else {
            None
        },
        _ => None,
    }
}

/// A required boolean.
pub open spec fn flag_of(v: Option<JsonValue>) -> Option<bool> {
    match v {
        Some(JsonValue::Bool(b)) => Some(b),
        _ => None,
    }
}

/// A required text.
pub open spec fn text_of(v: Option<JsonValue>) -> Option<Seq<char>> {
    match v {
        Some(JsonValue::Text(s)) => Some(s),
        _ => None,
    }
}

/// An optional text: absent when the field is missing or `null`.
pub open spec fn optional_text_of(v: Option<JsonValue>) -> Option<Option<Seq<char>>> {
    match v {
        None => Some(None),
        Some(JsonValue::Null) => Some(None),
        Some(JsonValue::Text(s)) => Some(Some(s)),
        _ => None,
    }
}

/// An optional number: absent when the field is missing or `null`.
pub open spec fn optional_number_of(v: Option<JsonValue>) -> Option<Option<serde_json::Number>> {
    match v {
        None => Some(None),
        Some(JsonValue::Null) => Some(None),
        Some(JsonValue::Number(n)) => Some(Some(n)),
        _ => None,
    }
}

/// Whether every item is a text.
pub open spec fn all_text(items: Seq<JsonValue>) -> bool {
    forall|i: int| 0 <= i < items.len() ==> (#[trigger] items[i]) is Text
}

/// The texts of a sequence of text items.
pub open spec fn texts_of(items: Seq<JsonValue>) -> Seq<Seq<char>> {
    Seq::new(items.len(), |i: int| items[i]->Text_0)
}

/// A required list of texts.
pub open spec fn text_list_of(v: Option<JsonValue>) -> Option<Seq<Seq<char>>> {
    match v {
        Some(JsonValue::Array(items)) => if all_text(items) {
            Some(texts_of(items))
        } else {
            None
        },
        _ => None,
    }
}

/// Whether `j` has the outer shape of a record of `width` fields.
pub fn has_record_shape(j: &Json, width: usize) -> (r: bool)
    ensures
        r == record_shape(j@, width as nat),
{
    match j {
        Json::Object(members) => {
            proof {
                lemma_object_view(*members);
            }
            true
        },
        Json::Array(items) => {
            proof {
                lemma_array_view(*items);
            }
            items.len() == width
        },
        _ => false,
    }
}

/// Looks up a field of a record by name in an object, by position in an
/// array.
pub fn field_of<'a>(j: &'a Json, name: &str, position: usize) -> (r: Option<&'a Json>)
    ensures
        value_of(r) == record_field(j@, name@, position as int),
{
    match j {
        Json::Object(members) => {
            proof {
                lemma_object_view(*members);
            }
            Json::member(members, name)
        },
        Json::Array(items) => {
            proof {
                lemma_array_view(*items);
            }
            if position < items.len() {
                Some(&items[position])
            } else {
                None
            }
        },
        _ => None,
    }
}

/// Reads a required boolean.
pub fn read_flag(v: Option<&Json>) -> (r: Option<bool>)
    ensures
        r == flag_of(value_of(v)),
{
    match v {
        Some(j) => match j {
            Json::Bool(b) => Some(*b),
            _ => None,
        },
        None => None,
    }
}

/// Reads a required text.
pub fn read_text(v: Option<&Json>) -> (r: Option<String>)
    ensures
        optional_chars(r) == text_of(value_of(v)),
{
    match v {
        Some(j) => match j {
            Json::Text(s) => Some(s.clone()),
            _ => None,
        },
        None => None,
    }
}

/// Reads an optional text.
pub fn read_optional_text(v: Option<&Json>) -> (r: Option<Option<String>>)
    ensures
        r is Some <==> optional_text_of(value_of(v)) is Some,
        r matches Some(t) ==> optional_text_of(value_of(v)) == Some(optional_chars(t)),
{
    match v {
        Some(j) => match j {
            Json::Null => Some(None),
            Json::Text(s) => Some(Some(s.clone())),
            _ => None,
        },
        None => Some(None),
    }
}

/// Reads an optional number.
pub fn read_optional_number(v: Option<&Json>) -> (r: Option<Option<serde_json::Number>>)
    ensures
        r == optional_number_of(value_of(v)),
{
    match v {
        Some(j) => match j {
            Json::Null => Some(None),
            Json::Number(n) => Some(Some(n.clone())),
            _ => None,
        },
        None => Some(None),
    }
}

/// Reads a required list of texts.
pub fn read_text_list(v: Option<&Json>) -> (r: Option<Vec<String>>)
    ensures
        r is Some <==> text_list_of(value_of(v)) is Some,
        r matches Some(list) ==> text_list_of(value_of(v)) == Some(text_views(list@)),
{
    match v {
        Some(j) => match j {
            Json::Array(items) => {
                proof {
                    lemma_array_view(*items);
                }
                let ghost values = item_values(items@);
                let mut list: Vec<String> = Vec::new();
                let mut i: usize = 0;
                while i < items.len()
                    invariant
                        0 <= i <= items.len(),
                        values == item_values(items@),
                        value_of(v) == Some(JsonValue::Array(values)),
                        list@.len() == i,
                        forall|k: int| 0 <= k < i ==> (#[trigger] values[k]) is Text,
                        forall|k: int| 0 <= k < i ==> (#[trigger] list@[k])@ == values[k]->Text_0,
                    decreases items.len() - i,
                {
                    match &items[i] {
                        Json::Text(s) => {
                            list.push(s.clone());
                        },
                        _ => {
                            assert(!(values[i as int] is Text));
                            return None;
                        },
                    }
                    i += 1;
                }
                assert(text_views(list@) =~= texts_of(values));
                Some(list)
            },
            _ => None,
        },
        None => None,
    }
}

/// Copies an optional text.
pub fn copy_optional_text(t: &Option<String>) -> (r: Option<String>)
    ensures
        optional_chars(r) == optional_chars(*t),
{
    match t {
        Some(s) => Some(s.clone()),
        None => None,
    }
}

/// Copies a list of texts.
pub fn copy_text_list(list: &Vec<String>) -> (r: Vec<String>)
    ensures
        text_views(r@) == text_views(list@),
{
    let mut out: Vec<String> = Vec::new();
    let mut i: usize = 0;
    while i < list.len()
        invariant
            0 <= i <= list.len(),
            out@.len() == i,
            forall|k: int| 0 <= k < i ==> (#[trigger] out@[k])@ == list@[k]@,
        decreases list.len() - i,
    {
        out.push(list[i].clone());
        i += 1;
    }
    assert(text_views(out@) =~= text_views(list@));
    out
}

/// One snapshot of what the helper detected as playing.
#[derive(Debug, Clone, PartialEq)]
pub struct TrackStatus {
    pub playing: bool,
    pub reason: Option<String>,
    pub title: Option<String>,
    pub artist: Option<String>,
    pub album: Option<String>,
    pub cover_url: Option<String>,
    pub source: Option<String>,
    pub position_ms: Option<serde_json::Number>,
    pub duration_ms: Option<serde_json::Number>,
    pub track_id: Option<String>,
    pub file_path: Option<String>,
}

/// The mathematical value of a [`TrackStatus`].
pub struct TrackStatusView {
    pub playing: bool,
    pub reason: Option<Seq<char>>,
    pub title: Option<Seq<char>>,
    pub artist: Option<Seq<char>>,
    pub album: Option<Seq<char>>,
    pub cover_url: Option<Seq<char>>,
    pub source: Option<Seq<char>>,
    pub position_ms: Option<serde_json::Number>,
    pub duration_ms: Option<serde_json::Number>,
    pub track_id: Option<Seq<char>>,
    pub file_path: Option<Seq<char>>,
}

impl View for TrackStatus {
    type V = TrackStatusView;

    open spec fn view(&self) -> TrackStatusView {
        TrackStatusView {
            playing: self.playing,
            reason: optional_chars(self.reason),
            title: optional_chars(self.title),
            artist: optional_chars(self.artist),
            album: optional_chars(self.album),
            cover_url: optional_chars(self.cover_url),
            source: optional_chars(self.source),
            position_ms: self.position_ms,
            duration_ms: self.duration_ms,
            track_id: optional_chars(self.track_id),
            file_path: optional_chars(self.file_path),
        }
    }
}

/// Number of fields of a track status.
pub const TRACK_STATUS_WIDTH: usize = 11;

/// The track status that a payload holds, if it fits the schema.
pub open spec fn track_status_of(j: JsonValue) -> Option<TrackStatusView> {
    let playing = flag_of(record_field(j, "playing"@, 0));
    let reason = optional_text_of(record_field(j, "reason"@, 1));
    let title = optional_text_of(record_field(j, "title"@, 2));
    let artist = optional_text_of(record_field(j, "artist"@, 3));
    let album = optional_text_of(record_field(j, "album"@, 4));
    let cover_url = optional_text_of(record_field(j, "coverUrl"@, 5));
    let source = optional_text_of(record_field(j, "source"@, 6));
    let position_ms = optional_number_of(record_field(j, "positionMs"@, 7));
    let duration_ms = optional_number_of(record_field(j, "durationMs"@, 8));
    let track_id = optional_text_of(record_field(j, "trackId"@, 9));
    let file_path = optional_text_of(record_field(j, "filePath"@, 10));
    if record_shape(j, TRACK_STATUS_WIDTH as nat) && playing is Some && reason is Some && title is Some
        && artist is Some && album is Some && cover_url is Some && source is Some && position_ms is Some
        && duration_ms is Some && track_id is Some && file_path is Some {
        Some(
            TrackStatusView {
                playing: playing->0,
                reason: reason->0,
                title: title->0,
                artist: artist->0,
                album: album->0,
                cover_url: cover_url->0,
                source: source->0,
                position_ms: position_ms->0,
                duration_ms: duration_ms->0,
                track_id: track_id->0,
                file_path: file_path->0,
            },
        )
    } else {
        None
    }
}

/// The views of an optional track status.
pub open spec fn optional_status(s: Option<TrackStatus>) -> Option<TrackStatusView> {
    match s {
        Some(t) => Some(t@),
        None => None,
    }
}

impl TrackStatus {
    /// Reads a track status from a payload. Succeeds exactly on the payloads
    /// that fit the schema.
    pub fn from_json(j: &Json) -> (r: Option<TrackStatus>)
        ensures
            optional_status(r) == track_status_of(j@),
    {
        if !has_record_shape(j, TRACK_STATUS_WIDTH) {
            return None;
        }
        let playing = match read_flag(field_of(j, "playing", 0)) {
            Some(v) => v,
            None => { return None; },
        };
        let reason = match read_optional_text(field_of(j, "reason", 1)) {
            Some(v) => v,
            None => { return None; },
        };
        let title = match read_optional_text(field_of(j, "title", 2)) {
            Some(v) => v,
            None => { return None; },
        };
        let artist = match read_optional_text(field_of(j, "artist", 3)) {
            Some(v) => v,
            None => { return None; },
        };
        let album = match read_optional_text(field_of(j, "album", 4)) {
            Some(v) => v,
            None => { return None; },
        };
        let cover_url = match read_optional_text(field_of(j, "coverUrl", 5)) {
            Some(v) => v,
            None => { return None; },
        };
        let source = match read_optional_text(field_of(j, "source", 6)) {
            Some(v) => v,
            None => { return None; },
        };
        let position_ms = match read_optional_number(field_of(j, "positionMs", 7)) {
            Some(v) => v,
            None => { return None; },
        };
        let duration_ms = match read_optional_number(field_of(j, "durationMs", 8)) {
            Some(v) => v,
            None => { return None; },
        };
        let track_id = match read_optional_text(field_of(j, "trackId", 9)) {
            Some(v) => v,
            None => { return None; },
        };
        let file_path = match read_optional_text(field_of(j, "filePath", 10)) {
            Some(v) => v,
            None => { return None; },
        };
        Some(
            TrackStatus {
                playing,
                reason,
                title,
                artist,
                album,
                cover_url,
                source,
                position_ms,
                duration_ms,
                track_id,
                file_path,
            },
        )
    }

    /// An independent copy with the same value.
    pub fn copy(&self) -> (r: TrackStatus)
        ensures
            r@ == self@,
    {
        TrackStatus {
            playing: self.playing,
            reason: copy_optional_text(&self.reason),
            title: copy_optional_text(&self.title),
            artist: copy_optional_text(&self.artist),
            album: copy_optional_text(&self.album),
            cover_url: copy_optional_text(&self.cover_url),
            source: copy_optional_text(&self.source),
            position_ms: match &self.position_ms {
                Some(n) => Some(n.clone()),
                None => None,
            },
            duration_ms: match &self.duration_ms {
                Some(n) => Some(n.clone()),
                None => None,
            },
            track_id: copy_optional_text(&self.track_id),
            file_path: copy_optional_text(&self.file_path),
        }
    }
}

/// The settings that the user edits and the helper applies.
#[derive(Debug, Clone, PartialEq)]
pub struct AppConfig {
    pub music_folders: Vec<String>,
    pub discord_client_id: Option<String>,
    pub copyparty_api_key: Option<String>,
    pub copyparty_url: Option<String>,
    pub copyparty_path: Option<String>,
    pub theme: Option<String>,
}

/// The mathematical value of an [`AppConfig`].
pub struct AppConfigView {
    pub music_folders: Seq<Seq<char>>,
    pub discord_client_id: Option<Seq<char>>,
    pub copyparty_api_key: Option<Seq<char>>,
    pub copyparty_url: Option<Seq<char>>,
    pub copyparty_path: Option<Seq<char>>,
    pub theme: Option<Seq<char>>,
}

impl View for AppConfig {
    type V = AppConfigView;

    open spec fn view(&self) -> AppConfigView {
        AppConfigView {
            music_folders: text_views(self.music_folders@),
            discord_client_id: optional_chars(self.discord_client_id),
            copyparty_api_key: optional_chars(self.copyparty_api_key),
            copyparty_url: optional_chars(self.copyparty_url),
            copyparty_path: optional_chars(self.copyparty_path),
            theme: optional_chars(self.theme),
        }
    }
}

/// Number of fields of a configuration.
pub const APP_CONFIG_WIDTH: usize = 6;

/// The configuration that a payload holds, if it fits the schema.
pub open spec fn app_config_of(j: JsonValue) -> Option<AppConfigView> {
    let music_folders = text_list_of(record_field(j, "musicFolders"@, 0));
    let discord_client_id = optional_text_of(record_field(j, "discordClientId"@, 1));
    let copyparty_api_key = optional_text_of(record_field(j, "copypartyApiKey"@, 2));
    let copyparty_url = optional_text_of(record_field(j, "copypartyUrl"@, 3));
    let copyparty_path = optional_text_of(record_field(j, "copypartyPath"@, 4));
    let theme = optional_text_of(record_field(j, "theme"@, 5));
    if record_shape(j, APP_CONFIG_WIDTH as nat) && music_folders is Some && discord_client_id is Some
        && copyparty_api_key is Some && copyparty_url is Some && copyparty_path is Some && theme
        is Some {
        Some(
            AppConfigView {
                music_folders: music_folders->0,
                discord_client_id: discord_client_id->0,
                copyparty_api_key: copyparty_api_key->0,
                copyparty_url: copyparty_url->0,
                copyparty_path: copyparty_path->0,
                theme: theme->0,
            },
        )
    } else {
        None
    }
}

/// The JSON value of an optional text: the text, or `null`.
pub open spec fn optional_text_json(t: Option<Seq<char>>) -> JsonValue {
    match t {
        Some(s) => JsonValue::Text(s),
        None => JsonValue::Null,
    }
}

/// The JSON array of a list of texts.
pub open spec fn text_list_json(list: Seq<Seq<char>>) -> JsonValue {
    JsonValue::Array(Seq::new(list.len(), |i: int| JsonValue::Text(list[i])))
}

/// The JSON object that a configuration is sent as: every field, by name.
pub open spec fn config_json(c: AppConfigView) -> JsonValue {
    JsonValue::Object(
        seq![
            ("musicFolders"@, text_list_json(c.music_folders)),
            ("discordClientId"@, optional_text_json(c.discord_client_id)),
            ("copypartyApiKey"@, optional_text_json(c.copyparty_api_key)),
            ("copypartyUrl"@, optional_text_json(c.copyparty_url)),
            ("copypartyPath"@, optional_text_json(c.copyparty_path)),
            ("theme"@, optional_text_json(c.theme)),
        ],
    )
}

/// A configuration that is written as JSON and read back is the same
/// configuration: every field survives, absent ones included.
pub proof fn lemma_config_round_trip(c: AppConfigView)
    ensures
        app_config_of(config_json(c)) == Some(c),
{
    reveal_strlit("musicFolders");
    reveal_strlit("discordClientId");
    reveal_strlit("copypartyApiKey");
    reveal_strlit("copypartyUrl");
    reveal_strlit("copypartyPath");
    reveal_strlit("theme");
    let members = config_json(c)->Object_0;
    assert("musicFolders"@.len() == 12 && "discordClientId"@.len() == 15 && "copypartyApiKey"@.len()
        == 15 && "copypartyUrl"@.len() == 12 && "copypartyPath"@.len() == 13 && "theme"@.len()
        == 5);
    assert("copypartyUrl"@[0] != "musicFolders"@[0]);
    assert("discordClientId"@[0] != "copypartyApiKey"@[0]);
    assert("copypartyUrl"@[9] != "copypartyApiKey"@[9]);
    assert("copypartyPath"@[9] != "copypartyApiKey"@[9]);
    assert("copypartyPath"@[9] != "copypartyUrl"@[9]);
    lemma_member_at(members, 0, "musicFolders"@);
    lemma_member_at(members, 1, "discordClientId"@);
    lemma_member_at(members, 2, "copypartyApiKey"@);
    lemma_member_at(members, 3, "copypartyUrl"@);
    lemma_member_at(members, 4, "copypartyPath"@);
    lemma_member_at(members, 5, "theme"@);
    let items = text_list_json(c.music_folders)->Array_0;
    assert(all_text(items));
    assert(texts_of(items) =~= c.music_folders);
}

/// The views of an optional configuration.
pub open spec fn optional_config(c: Option<AppConfig>) -> Option<AppConfigView> {
    match c {
        Some(t) => Some(t@),
        None => None,
    }
}

fn optional_text_to_json(t: &Option<String>) -> (r: Json)
    ensures
        r@ == optional_text_json(optional_chars(*t)),
{
    match t {
        Some(s) => Json::Text(s.clone()),
        None => Json::Null,
    }
}

fn text_list_to_json(list: &Vec<String>) -> (r: Json)
    ensures
        r@ == text_list_json(text_views(list@)),
{
    let mut items: Vec<Json> = Vec::new();
    let mut i: usize = 0;
    while i < list.len()
        invariant
            0 <= i <= list.len(),
            items@.len() == i,
            forall|k: int| 0 <= k < i ==> (#[trigger] items@[k])@ == JsonValue::Text(list@[k]@),
        decreases list.len() - i,
    {
        items.push(Json::Text(list[i].clone()));
        i += 1;
    }
    proof {
        lemma_array_view(items);
        assert(item_values(items@) =~= Seq::new(
            text_views(list@).len(),
            |i: int| JsonValue::Text(text_views(list@)[i]),
        ));
    }
    Json::Array(items)
}

fn member(key: &str, value: Json) -> (r: Member)
    ensures
        r@ == (key@, value@),
{
    Member { key: key.to_owned(), value }
}

impl AppConfig {
    /// Reads a configuration from a payload. Succeeds exactly on the payloads
    /// that fit the schema.
    pub fn from_json(j: &Json) -> (r: Option<AppConfig>)
        ensures
            optional_config(r) == app_config_of(j@),
    {
        if !has_record_shape(j, APP_CONFIG_WIDTH) {
            return None;
        }
        let music_folders = match read_text_list(field_of(j, "musicFolders", 0)) {
            Some(v) => v,
            None => { return None; },
        };
        let discord_client_id = match read_optional_text(field_of(j, "discordClientId", 1)) {
            Some(v) => v,
            None => { return None; },
        };
        let copyparty_api_key = match read_optional_text(field_of(j, "copypartyApiKey", 2)) {
            Some(v) => v,
            None => { return None; },
        };
        let copyparty_url = match read_optional_text(field_of(j, "copypartyUrl", 3)) {
            Some(v) => v,
            None => { return None; },
        };
        let copyparty_path = match read_optional_text(field_of(j, "copypartyPath", 4)) {
            Some(v) => v,
            None => { return None; },
        };
        let theme = match read_optional_text(field_of(j, "theme", 5)) {
            Some(v) => v,
            None => { return None; },
        };
        Some(
            AppConfig {
                music_folders,
                discord_client_id,
                copyparty_api_key,
                copyparty_url,
                copyparty_path,
                theme,
            },
        )
    }

    /// The JSON object that carries this configuration to the helper.
    pub fn to_json(&self) -> (r: Json)
        ensures
            r@ == config_json(self@),
    {
        let mut members: Vec<Member> = Vec::new();
        members.push(member("musicFolders", text_list_to_json(&self.music_folders)));
        members.push(member("discordClientId", optional_text_to_json(&self.discord_client_id)));
        members.push(member("copypartyApiKey", optional_text_to_json(&self.copyparty_api_key)));
        members.push(member("copypartyUrl", optional_text_to_json(&self.copyparty_url)));
        members.push(member("copypartyPath", optional_text_to_json(&self.copyparty_path)));
        members.push(member("theme", optional_text_to_json(&self.theme)));
        proof {
            lemma_object_view(members);
            assert(member_values(members@) =~= config_json(self@)->Object_0);
        }
        Json::Object(members)
    }

    /// An independent copy with the same value.
    pub fn copy(&self) -> (r: AppConfig)
        ensures
            r@ == self@,
    {
        AppConfig {
            music_folders: copy_text_list(&self.music_folders),
            discord_client_id: copy_optional_text(&self.discord_client_id),
            copyparty_api_key: copy_optional_text(&self.copyparty_api_key),
            copyparty_url: copy_optional_text(&self.copyparty_url),
            copyparty_path: copy_optional_text(&self.copyparty_path),
            theme: copy_optional_text(&self.theme),
        }
    }
}

/// The envelope of one inbound message.
#[derive(Debug, PartialEq)]
pub struct ProtocolMessage {
    /// The message type, which selects how the payload is read.
    pub kind: String,
    pub payload: Json,
}

/// The mathematical value of a [`ProtocolMessage`].
pub struct ProtocolMessageView {
    pub kind: Seq<char>,
    pub payload: JsonValue,
}

impl View for ProtocolMessage {
    type V = ProtocolMessageView;

    open spec fn view(&self) -> ProtocolMessageView {
        ProtocolMessageView { kind: self.kind@, payload: self.payload@ }
    }
}

/// Number of fields of an envelope.
pub const ENVELOPE_WIDTH: usize = 2;

/// The envelope that a JSON value holds, if it is one: a text `type` and a
/// `payload` of any kind, `null` included.
pub open spec fn envelope_of(j: JsonValue) -> Option<ProtocolMessageView> {
    let kind = text_of(record_field(j, "type"@, 0));
    let payload = record_field(j, "payload"@, 1);
    if record_shape(j, ENVELOPE_WIDTH as nat) && kind is Some && payload is Some {
        Some(ProtocolMessageView { kind: kind->0, payload: payload->0 })
    } else {
        None
    }
}

/// The views of an optional envelope.
pub open spec fn optional_message(m: Option<ProtocolMessage>) -> Option<ProtocolMessageView> {
    match m {
        Some(t) => Some(t@),
        None => None,
    }
}

/// Position of the first member of `members` whose key is `key`.
pub open spec fn member_position(members: Seq<(Seq<char>, JsonValue)>, key: Seq<char>) -> Option<
    int,
>
    decreases members.len(),
{
    if members.len() == 0 {
        None
    } else if members[0].0 == key {
        Some(0)
    } else {
        match member_position(members.drop_first(), key) {
            Some(i) => Some(i + 1),
            None => None,
        }
    }
}

/// The position that [`member_position`] finds holds what [`member_of`]
/// finds.
pub proof fn lemma_member_position(members: Seq<(Seq<char>, JsonValue)>, key: Seq<char>)
    ensures
        member_position(members, key) is Some <==> member_of(members, key) is Some,
        member_position(members, key) matches Some(i) ==> 0 <= i < members.len() && member_of(
            members,
            key,
        ) == Some(members[i].1),
    decreases members.len(),
{
    if members.len() > 0 && members[0].0 != key {
        lemma_member_position(members.drop_first(), key);
    }
}

fn find_member(members: &Vec<Member>, key: &str) -> (r: Option<usize>)
    ensures
        r is Some <==> member_position(member_values(members@), key@) is Some,
        r matches Some(i) ==> member_position(member_values(members@), key@) == Some(i as int),
{
    let mut i: usize = 0;
    assert(member_values(members@).subrange(0, members.len() as int) == member_values(members@));
    while i < members.len()
        invariant
            0 <= i <= members.len(),
            member_position(member_values(members@), key@) == match member_position(
                member_values(members@).subrange(i as int, members.len() as int),
                key@,
            ) {
                Some(k) => Some(k + i),
                None => None,
            },
        decreases members.len() - i,
    {
        let ghost rest = member_values(members@).subrange(i as int, members.len() as int);
        proof {
            assert(rest[0] == member_values(members@)[i as int]);
            assert(rest.drop_first() == member_values(members@).subrange(
                i + 1,
                members.len() as int,
            ));
        }
        if crate::text::same_text(members[i].key.as_str(), key) {
            return Some(i);
        }
        i += 1;
    }
    None
}

impl ProtocolMessage {
    /// Reads an envelope out of a JSON value, taking the payload as it
    /// stands. Succeeds exactly on the values that are envelopes.
    pub fn from_json(j: Json) -> (r: Option<ProtocolMessage>)
        ensures
            optional_message(r) == envelope_of(j@),
    {
        let kind = match read_text(field_of(&j, "type", 0)) {
            Some(k) => k,
            None => { return None; },
        };
        match j {
            Json::Object(members) => {
                let mut members = members;
                proof {
                    lemma_object_view(members);
                    lemma_member_position(member_values(members@), "payload"@);
                }
                match find_member(&members, "payload") {
                    Some(i) => {
                        let taken = members.remove(i);
                        Some(ProtocolMessage { kind, payload: taken.value })
                    },
                    None => None,
                }
            },
            Json::Array(items) => {
                let mut items = items;
                proof {
                    lemma_array_view(items);
                }
                if items.len() == ENVELOPE_WIDTH {
                    let payload = items.remove(1);
                    Some(ProtocolMessage { kind, payload })
                } else {
                    None
                }
            },
            _ => None,
        }
    }
}

} // verus!
