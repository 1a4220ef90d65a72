//! Built-in tools: reading the time, opening an application, the output
//! volume and the music player. What they run is an AppleScript or a
//! command line; building it, and reading its outcome, is done here.
use vstd::prelude::*;
use crate::brain::{ToolDef, ToolDefView};
use crate::tools::{AssistantTool, EntryView, Registry, self_described};
use crate::json::{Json, JsonValue, array, obj1, obj2, obj3, obj4, str_array, empty_object};
use crate::security::Permission;
use crate::text::{decimal, decimal_string, trimmed, trim, without_char, remove_char, str_eq};

verus! {

/// `{"type": "string", "description": description}`.
pub open spec fn string_param(description: Seq<char>) -> Json {
    Json::Object(seq![("type"@, Json::Str("string"@)), ("description"@, Json::Str(description))])
}

/// `{"type": "object", "properties": properties}`.
pub open spec fn object_schema(properties: Json) -> Json {
    Json::Object(seq![("type"@, Json::Str("object"@)), ("properties"@, properties)])
}

/// `{"type": "object", "properties": properties, "required": [required]}`.
pub open spec fn object_schema_requiring(properties: Json, required: Seq<char>) -> Json {
    Json::Object(
        seq![
            ("type"@, Json::Str("object"@)),
            ("properties"@, properties),
            ("required"@, Json::Array(seq![Json::Str(required)])),
        ],
    )
}

pub(crate) fn string_param_value(description: &str) -> (r: JsonValue)
    ensures
        r@ == string_param(description@),
{
    obj2("type", JsonValue::from_str("string"), "description", JsonValue::from_str(description))
}

pub(crate) fn object_schema_value(properties: JsonValue) -> (r: JsonValue)
    ensures
        r@ == object_schema(properties@),
{
    obj2("type", JsonValue::from_str("object"), "properties", properties)
}

pub(crate) fn object_schema_requiring_value(properties: JsonValue, required: &str) -> (r:
    JsonValue)
    ensures
        r@ == object_schema_requiring(properties@, required@),
{
    let req = array(vec![JsonValue::from_str(required)]);
    assert(req@->Array_0 =~= seq![Json::Str(required@)]);
    obj3("type", JsonValue::from_str("object"), "properties", properties, "required", req)
}

/// A tool definition as the language model sees it.
pub open spec fn def_view(name: Seq<char>, description: Seq<char>, parameters: Json) -> ToolDefView {
    ToolDefView { name, description, parameters }
}

// ---------------------------------------------------------------- get_time

/// Gives the user's current date and time.
pub struct GetTime;

pub const GET_TIME_NAME: &'static str = "get_time";

pub const GET_TIME_DESCRIPTION: &'static str = "Donne la date et l'heure actuelles de l'utilisateur.";

/// The parameters of `get_time`: none.
pub open spec fn get_time_schema() -> Json {
    object_schema(Json::Object(Seq::empty()))
}

/// A date and time of day on the user's clock, to the minute.
pub struct LocalTime {
    pub year: i32,
    pub month: u32,
    pub day: u32,
    pub hour: u32,
    pub minute: u32,
}

/// Whether `year` is a leap year of the Gregorian calendar.
pub open spec fn leap_year(year: int) -> bool {
    year % 4 == 0 && (year % 100 != 0 || year % 400 == 0)
}

/// The number of days of `month` (1 to 12) in `year`.
pub open spec fn days_in_month(year: int, month: int) -> int {
    if month == 2 {
        if leap_year(year) {
            29
        } else {
            28
        }
    } else if month == 4 || month == 6 || month == 9 || month == 11 {
        30
    } else {
        31
    }
}

/// The earliest year a calendar date can have.
pub const MIN_YEAR: i32 = -262143;

/// The latest year a calendar date can have.
pub const MAX_YEAR: i32 = 262142;

impl LocalTime {
    /// The fields name an existing minute of the calendar: the year within
    /// the calendar's range, the month 1 to 12, the day within the month,
    /// leap years included, the hour below 24 and the minute below 60.
    pub open spec fn valid(&self) -> bool {
        &&& MIN_YEAR <= self.year <= MAX_YEAR
        &&& 1 <= self.month <= 12
        &&& 1 <= self.day <= days_in_month(self.year as int, self.month as int)
        &&& self.hour < 24
        &&& self.minute < 60
    }

    /// The time with these fields, when they name an existing minute.
    pub fn new(year: i32, month: u32, day: u32, hour: u32, minute: u32) -> (r: Option<LocalTime>)
        ensures
            r is Some <==> (LocalTime { year, month, day, hour, minute }).valid(),
            r matches Some(t) ==> t == (LocalTime { year, month, day, hour, minute }),
    {
        let t = LocalTime { year, month, day, hour, minute };
        if year < MIN_YEAR || year > MAX_YEAR || month < 1 || month > 12 || hour >= 24 || minute >= 60
            || day < 1 {
            return None;
        }
        let leap: bool = year % 4 == 0 && (year % 100 != 0 || year % 400 == 0);
        assert(leap == leap_year(year as int)) by {
            assert(year % 4 == (year as int) % 4);
        }
        let days: u32 = if month == 2 {
            if leap {
                29
            } else {
                28
            }
        } else if month == 4 || month == 6 || month == 9 || month == 11 {
            30
        } else {
            31
        };
        if day > days {
            None
        } else {
            Some(t)
        }
    }
}

/// Every day of the Gregorian calendar is accepted, and no other: 31 days
/// in January, March, May, July, August, October and December, 30 in
/// April, June, September and November, and 29 in February of a leap year
/// (a multiple of 4 that is not a multiple of 100, or a multiple of 400),
/// 28 in February of other years.
pub proof fn law_calendar_days(t: LocalTime)
    ensures
        t.valid() <==> {
            &&& MIN_YEAR <= t.year <= MAX_YEAR
            &&& t.hour < 24
            &&& t.minute < 60
            &&& 1 <= t.day
            &&& (t.month == 1 || t.month == 3 || t.month == 5 || t.month == 7 || t.month == 8
                || t.month == 10 || t.month == 12) ==> t.day <= 31
            &&& (t.month == 4 || t.month == 6 || t.month == 9 || t.month == 11) ==> t.day <= 30
            &&& (t.month == 2 && (t.year % 4 == 0 && (t.year % 100 != 0 || t.year % 400 == 0)))
                ==> t.day <= 29
            &&& (t.month == 2 && !(t.year % 4 == 0 && (t.year % 100 != 0 || t.year % 400 == 0)))
                ==> t.day <= 28
            &&& 1 <= t.month <= 12
        },
{
}

/// The text chrono writes for the given minute with the pattern
/// `%A %d %B %Y, %H:%M`: weekday, day, month, year, hour and minute.
pub uninterp spec fn time_text(year: i32, month: u32, day: u32, hour: u32, minute: u32) -> Seq<
    char,
>;

/// chrono's `NaiveDateTime::format("%A %d %B %Y, %H:%M")` on the minute
/// `t`. Its result is stated as `time_text` of the fields and nothing more:
/// the weekday and the names of days and months are left to chrono. The
/// date and the time of day both exist, as `valid` requires, so neither
/// `from_ymd_opt` nor `and_hms_opt` gives `None`.
#[verifier::external_body]
pub fn format_time(t: &LocalTime) -> (r: String)
    requires
        t.valid(),
    ensures
        r@ == time_text(t.year, t.month, t.day, t.hour, t.minute),
{
    let date = chrono::NaiveDate::from_ymd_opt(t.year, t.month, t.day).unwrap();
    let at = date.and_hms_opt(t.hour, t.minute, 0).unwrap();
    at.format("%A %d %B %Y, %H:%M").to_string()
}

impl GetTime {
    pub fn name(&self) -> (r: &'static str)
        ensures
            r@ == GET_TIME_NAME@,
    {
        GET_TIME_NAME
    }

    pub fn description(&self) -> (r: &'static str)
        ensures
            r@ == GET_TIME_DESCRIPTION@,
    {
        GET_TIME_DESCRIPTION
    }

    /// Reading the time changes nothing.
    pub fn level(&self) -> (r: Permission)
        ensures
            r == Permission::Read,
    {
        Permission::Read
    }

    pub fn parameters(&self) -> (r: JsonValue)
        ensures
            r@ == get_time_schema(),
    {
        object_schema_value(empty_object())
    }

    pub fn definition(&self) -> (r: ToolDef)
        ensures
            r@ == def_view(GET_TIME_NAME@, GET_TIME_DESCRIPTION@, get_time_schema()),
    {
        ToolDef {
            name: String::from_str(GET_TIME_NAME),
            description: String::from_str(GET_TIME_DESCRIPTION),
            parameters: self.parameters(),
        }
    }

    /// What the tool answers at the minute `now`: the date and time, as
    /// chrono writes them.
    pub fn reply(&self, now: &LocalTime) -> (r: String)
        requires
            now.valid(),
        ensures
            r@ == time_text(now.year, now.month, now.day, now.hour, now.minute),
    {
        format_time(now)
    }
}

// -------------------------------------------------------- open_application

/// Opens an application on the user's computer.
pub struct OpenApplication;

pub const OPEN_APPLICATION_NAME: &'static str = "open_application";

pub const OPEN_APPLICATION_DESCRIPTION: &'static str = "Ouvre une application sur l'ordinateur de l'utilisateur.";

pub const APP_NAME_DESCRIPTION: &'static str = "Nom de l'application, ex: Safari, Musique, Terminal";

pub const MISSING_NAME: &'static str = "paramètre 'name' manquant";

/// The parameters of `open_application`: a required application name.
pub open spec fn open_application_schema() -> Json {
    object_schema_requiring(
        Json::Object(seq![("name"@, string_param(APP_NAME_DESCRIPTION@))]),
        "name"@,
    )
}

/// What opening `name` answers: `Ok` when the command succeeded.
pub open spec fn open_outcome_of(name: Seq<char>, success: bool) -> Result<Seq<char>, Seq<char>> {
    if success {
        Ok("Application "@ + name + " ouverte."@)
    } else {
        Err("impossible d'ouvrir '"@ + name + "'"@)
    }
}

impl OpenApplication {
    pub fn name(&self) -> (r: &'static str)
        ensures
            r@ == OPEN_APPLICATION_NAME@,
    {
        OPEN_APPLICATION_NAME
    }

    pub fn description(&self) -> (r: &'static str)
        ensures
            r@ == OPEN_APPLICATION_DESCRIPTION@,
    {
        OPEN_APPLICATION_DESCRIPTION
    }

    /// Opening an application can be undone.
    pub fn level(&self) -> (r: Permission)
        ensures
            r == Permission::Reversible,
    {
        Permission::Reversible
    }

    pub fn parameters(&self) -> (r: JsonValue)
        ensures
            r@ == open_application_schema(),
    {
        let props = obj1("name", string_param_value(APP_NAME_DESCRIPTION));
        object_schema_requiring_value(props, "name")
    }

    pub fn definition(&self) -> (r: ToolDef)
        ensures
            r@ == def_view(
                OPEN_APPLICATION_NAME@,
                OPEN_APPLICATION_DESCRIPTION@,
                open_application_schema(),
            ),
    {
        ToolDef {
            name: String::from_str(OPEN_APPLICATION_NAME),
            description: String::from_str(OPEN_APPLICATION_DESCRIPTION),
            parameters: self.parameters(),
        }
    }

    /// The application to open: the string argument `name`.
    pub fn app_name(&self, args: &JsonValue) -> (r: Result<String, String>)
        ensures
            match args@.field("name"@).as_str() {
                Some(n) => r matches Ok(s) && s@ == n,
                None => r matches Err(e) && e@ == MISSING_NAME@,
            },
    {
        match args.get_str("name") {
            Some(n) => Ok(n.to_owned()),
            None => Err(String::from_str(MISSING_NAME)),
        }
    }

    /// The arguments of `open`: `-a name` (fails cleanly when the
    /// application does not exist).
    pub fn command_args(&self, name: &str) -> (r: Vec<String>)
        ensures
            r@.len() == 2,
            r@[0]@ == "-a"@,
            r@[1]@ == name@,
    {
        vec![String::from_str("-a"), name.to_owned()]
    }

    /// What the tool answers once `open` has run.
    pub fn outcome(&self, name: &str, success: bool) -> (r: Result<String, String>)
        ensures
            match open_outcome_of(name@, success) {
                Ok(t) => r matches Ok(s) && s@ == t,
                Err(t) => r matches Err(e) && e@ == t,
            },
    {
        if success {
            let mut s = String::from_str("Application ");
            s.append(name);
            s.append(" ouverte.");
            Ok(s)
        } else {
            let mut e = String::from_str("impossible d'ouvrir '");
            e.append(name);
            e.append("'");
            Err(e)
        }
    }
}

// -------------------------------------------------------------- set_volume

/// Sets the computer's output volume, from 0 (mute) to 100 (maximum).
pub struct SetVolume;

pub const SET_VOLUME_NAME: &'static str = "set_volume";

pub const SET_VOLUME_DESCRIPTION: &'static str = "Règle le volume sonore de l'ordinateur de 0 (muet) à 100 (maximum).";

pub const LEVEL_DESCRIPTION: &'static str = "Niveau de volume en pourcentage";

pub const MISSING_LEVEL: &'static str = "paramètre 'level' manquant";

pub const LEVEL_OUT_OF_RANGE: &'static str = "le niveau doit être entre 0 et 100";

/// The parameters of `set_volume`: a required integer level from 0 to 100.
pub open spec fn set_volume_schema() -> Json {
    object_schema_requiring(
        Json::Object(
            seq![
                ("level"@, Json::Object(
                    seq![
                        ("type"@, Json::Str("integer"@)),
                        ("minimum"@, Json::Int(0)),
                        ("maximum"@, Json::Int(100)),
                        ("description"@, Json::Str(LEVEL_DESCRIPTION@)),
                    ],
                )),
            ],
        ),
        "level"@,
    )
}

/// The level asked for, or why it is refused.
pub open spec fn volume_level_of(args: Json) -> Result<i64, Seq<char>> {
    match args.field("level"@).as_i64() {
        None => Err(MISSING_LEVEL@),
        Some(l) => if 0 <= l <= 100 {
            Ok(l)
        } else {
            Err(LEVEL_OUT_OF_RANGE@)
        },
    }
}

impl SetVolume {
    pub fn name(&self) -> (r: &'static str)
        ensures
            r@ == SET_VOLUME_NAME@,
    {
        SET_VOLUME_NAME
    }

    pub fn description(&self) -> (r: &'static str)
        ensures
            r@ == SET_VOLUME_DESCRIPTION@,
    {
        SET_VOLUME_DESCRIPTION
    }

    /// Changing the volume can be undone.
    pub fn level(&self) -> (r: Permission)
        ensures
            r == Permission::Reversible,
    {
        Permission::Reversible
    }

    pub fn parameters(&self) -> (r: JsonValue)
        ensures
            r@ == set_volume_schema(),
    {
        let level = obj4(
            "type",
            JsonValue::from_str("integer"),
            "minimum",
            JsonValue::Int(0),
            "maximum",
            JsonValue::Int(100),
            "description",
            JsonValue::from_str(LEVEL_DESCRIPTION),
        );
        object_schema_requiring_value(obj1("level", level), "level")
    }

    pub fn definition(&self) -> (r: ToolDef)
        ensures
            r@ == def_view(SET_VOLUME_NAME@, SET_VOLUME_DESCRIPTION@, set_volume_schema()),
    {
        ToolDef {
            name: String::from_str(SET_VOLUME_NAME),
            description: String::from_str(SET_VOLUME_DESCRIPTION),
            parameters: self.parameters(),
        }
    }

    /// The level asked for: the integer argument `level`, from 0 to 100.
    pub fn requested_level(&self, args: &JsonValue) -> (r: Result<u8, String>)
        ensures
            match volume_level_of(args@) {
                Ok(l) => r matches Ok(v) && v as i64 == l,
                Err(t) => r matches Err(e) && e@ == t,
            },
    {
        match args.get_i64("level") {
            None => Err(String::from_str(MISSING_LEVEL)),
            Some(l) => if 0 <= l && l <= 100 {
                Ok(l as u8)
            } else {
                Err(String::from_str(LEVEL_OUT_OF_RANGE))
            },
        }
    }

    /// The AppleScript that sets the volume to `level`.
    pub fn script(&self, level: u8) -> (r: String)
        ensures
            r@ == "set volume output volume "@ + decimal(level as nat),
    {
        let mut s = String::from_str("set volume output volume ");
        let d = decimal_string(level as u64);
        s.append(d.as_str());
        s
    }

    /// What the tool answers once the volume is set.
    pub fn reply(&self, level: u8) -> (r: String)
        ensures
            r@ == "Volume réglé à "@ + decimal(level as nat) + " %."@,
    {
        let mut s = String::from_str("Volume réglé à ");
        let d = decimal_string(level as u64);
        s.append(d.as_str());
        s.append(" %.");
        s
    }
}

// -------------------------------------------------------------- play_music

/// Controls Apple Music: play/pause without a query, search and play with one.
pub struct PlayMusic;

pub const PLAY_MUSIC_NAME: &'static str = "play_music";

pub const PLAY_MUSIC_DESCRIPTION: &'static str = "Contrôle Apple Music (l'app Musique). Sans query : lecture/pause. Avec query : cherche et joue. Actions disponibles: play (défaut), pause, next, previous.";

pub const QUERY_DESCRIPTION: &'static str = "Titre, artiste ou album à chercher dans la bibliothèque Apple Music. Omis pour simplement lecture/pause.";

pub const ACTION_DESCRIPTION: &'static str = "Action de contrôle, défaut: play";

pub const PAUSE_SCRIPT: &'static str = "tell application \"Music\" to pause";

pub const NEXT_SCRIPT: &'static str = "tell application \"Music\" to next track";

pub const PREVIOUS_SCRIPT: &'static str = "tell application \"Music\" to previous track";

pub const PLAYPAUSE_SCRIPT: &'static str = "tell application \"Music\" to playpause";

pub const SEARCH_SCRIPT_HEAD: &'static str = "tell application \"Music\"\n                    set results to (search playlist \"Library\" for \"";

pub const SEARCH_SCRIPT_TAIL: &'static str = "\")\n                    if length of results > 0 then\n                        play item 1 of results\n                        return name of item 1 of results\n                    else\n                        return \"\"\n                    end if\n                end tell";

/// The parameters of `play_music`: an optional query and an optional action.
pub open spec fn play_music_schema() -> Json {
    object_schema(
        Json::Object(
            seq![
                ("query"@, string_param(QUERY_DESCRIPTION@)),
                ("action"@, Json::Object(
                    seq![
                        ("type"@, Json::Str("string"@)),
                        ("enum"@, Json::Array(
                            seq![
                                Json::Str("play"@),
                                Json::Str("pause"@),
                                Json::Str("next"@),
                                Json::Str("previous"@),
                            ],
                        )),
                        ("description"@, Json::Str(ACTION_DESCRIPTION@)),
                    ],
                )),
            ],
        ),
    )
}

/// The action asked for: the string argument `action`, `play` by default.
pub open spec fn music_action_of(args: Json) -> Seq<char> {
    match args.field("action"@).as_str() {
        Some(a) => a,
        None => "play"@,
    }
}

/// The query asked for: the string argument `query` when it is not empty.
pub open spec fn music_query_of(args: Json) -> Option<Seq<char>> {
    match args.field("query"@).as_str() {
        Some(q) => if q.len() > 0 {
            Some(q)
        } else {
            None
        },
        None => None,
    }
}

/// The AppleScript for an action and a query: pause, next and previous
/// whatever the query; else a library search for the query (without its
/// double quotes) when there is one; else play/pause.
pub open spec fn music_script_of(action: Seq<char>, query: Option<Seq<char>>) -> Seq<char> {
    if action == "pause"@ {
        PAUSE_SCRIPT@
    } else if action == "next"@ {
        NEXT_SCRIPT@
    } else if action == "previous"@ {
        PREVIOUS_SCRIPT@
    } else {
        match query {
            Some(q) => SEARCH_SCRIPT_HEAD@ + without_char(q, '"') + SEARCH_SCRIPT_TAIL@,
            None => PLAYPAUSE_SCRIPT@,
        }
    }
}

/// Pause, next and previous always run their own command, whatever the
/// query; any other action without a query toggles play and pause.
pub proof fn law_music_commands(action: Seq<char>, query: Option<Seq<char>>)
    ensures
        music_script_of("pause"@, query) == PAUSE_SCRIPT@,
        music_script_of("next"@, query) == NEXT_SCRIPT@,
        music_script_of("previous"@, query) == PREVIOUS_SCRIPT@,
        action != "pause"@ && action != "next"@ && action != "previous"@ ==> music_script_of(
            action,
            None,
        ) == PLAYPAUSE_SCRIPT@,
{
    reveal_strlit("pause");
    reveal_strlit("next");
    reveal_strlit("previous");
    assert("next"@.len() != "pause"@.len());
    assert("previous"@.len() != "pause"@.len());
    assert("previous"@.len() != "next"@.len());
}

/// The music reply: with a query, what the search played, or that nothing
/// was found for that query when it printed nothing; without a query, the
/// action that ran.
pub proof fn law_music_replies(action: Seq<char>, q: Seq<char>, out: Seq<char>)
    ensures
        out.len() > 0 ==> music_reply_of(action, Some(q), out) == "Lecture : "@ + out,
        out.len() == 0 ==> music_reply_of(action, Some(q), out) == "Rien trouvé pour « "@ + q
            + " » dans la bibliothèque."@,
        music_reply_of("pause"@, None, out) == "Musique en pause."@,
        music_reply_of("next"@, None, out) == "Piste suivante."@,
        music_reply_of("previous"@, None, out) == "Piste précédente."@,
        action != "pause"@ && action != "next"@ && action != "previous"@ ==> music_reply_of(
            action,
            None,
            out,
        ) == "Lecture/pause basculé."@,
{
    reveal_strlit("pause");
    reveal_strlit("next");
    reveal_strlit("previous");
    assert("next"@.len() != "pause"@.len());
    assert("previous"@.len() != "pause"@.len());
    assert("previous"@.len() != "next"@.len());
}

/// Removing a character keeps every other character, in order: it is the
/// filter of the text on the characters that differ from it.
pub proof fn law_without_char_is_a_filter(q: Seq<char>, c: char)
    ensures
        without_char(q, c) == q.filter(|x: char| x != c),
    decreases q.len(),
{
    reveal(Seq::filter);
    if q.len() > 0 {
        law_without_char_is_a_filter(q.drop_last(), c);
    }
}

/// A search plays what was asked for: for any action other than pause, next
/// and previous, a query gives the search script around the query with its
/// double quotes, and only those, taken out; a query without double quotes
/// is searched for exactly as it is.
pub proof fn law_search_keeps_the_query(action: Seq<char>, q: Seq<char>)
    requires
        action != "pause"@,
        action != "next"@,
        action != "previous"@,
    ensures
        music_script_of(action, Some(q)) == SEARCH_SCRIPT_HEAD@ + q.filter(|x: char| x != '"')
            + SEARCH_SCRIPT_TAIL@,
        (forall|i: int| 0 <= i < q.len() ==> q[i] != '"') ==> music_script_of(action, Some(q))
            == SEARCH_SCRIPT_HEAD@ + q + SEARCH_SCRIPT_TAIL@,
{
    law_without_char_is_a_filter(q, '"');
    if forall|i: int| 0 <= i < q.len() ==> q[i] != '"' {
        lemma_no_char_kept_whole(q, '"');
    }
}

proof fn lemma_no_char_kept_whole(q: Seq<char>, c: char)
    requires
        forall|i: int| 0 <= i < q.len() ==> q[i] != c,
    ensures
        without_char(q, c) == q,
    decreases q.len(),
{
    if q.len() > 0 {
        lemma_no_char_kept_whole(q.drop_last(), c);
        assert(q.drop_last().push(q.last()) =~= q);
    }
}

/// What the tool answers once the script printed `out`. With a query, it
/// says what the script printed, or that nothing was found when it printed
/// nothing; without one, it names the action.
pub open spec fn music_reply_of(action: Seq<char>, query: Option<Seq<char>>, out: Seq<char>) -> Seq<
    char,
> {
    match query {
        Some(q) => if out.len() == 0 {
            "Rien trouvé pour « "@ + q + " » dans la bibliothèque."@
        } else {
            "Lecture : "@ + out
        },
        None => if action == "pause"@ {
            "Musique en pause."@
        } else if action == "next"@ {
            "Piste suivante."@
        } else if action == "previous"@ {
            "Piste précédente."@
        } else {
            "Lecture/pause basculé."@
        },
    }
}

impl PlayMusic {
    pub fn name(&self) -> (r: &'static str)
        ensures
            r@ == PLAY_MUSIC_NAME@,
    {
        PLAY_MUSIC_NAME
    }

    pub fn description(&self) -> (r: &'static str)
        ensures
            r@ == PLAY_MUSIC_DESCRIPTION@,
    {
        PLAY_MUSIC_DESCRIPTION
    }

    /// Controlling the music can be undone.
    pub fn level(&self) -> (r: Permission)
        ensures
            r == Permission::Reversible,
    {
        Permission::Reversible
    }

    pub fn parameters(&self) -> (r: JsonValue)
        ensures
            r@ == play_music_schema(),
    {
        let actions = str_array(&["play", "pause", "next", "previous"]);
        assert(seq!["play", "pause", "next", "previous"].map_values(|s: &str| Json::Str(s@)) =~= seq![
            Json::Str("play"@),
            Json::Str("pause"@),
            Json::Str("next"@),
            Json::Str("previous"@),
        ]);
        let action = obj3(
            "type",
            JsonValue::from_str("string"),
            "enum",
            actions,
            "description",
            JsonValue::from_str(ACTION_DESCRIPTION),
        );
        let props = obj2("query", string_param_value(QUERY_DESCRIPTION), "action", action);
        object_schema_value(props)
    }

    pub fn definition(&self) -> (r: ToolDef)
        ensures
            r@ == def_view(PLAY_MUSIC_NAME@, PLAY_MUSIC_DESCRIPTION@, play_music_schema()),
    {
        ToolDef {
            name: String::from_str(PLAY_MUSIC_NAME),
            description: String::from_str(PLAY_MUSIC_DESCRIPTION),
            parameters: self.parameters(),
        }
    }

    /// The action asked for, `play` by default.
    pub fn action(&self, args: &JsonValue) -> (r: String)
        ensures
            r@ == music_action_of(args@),
    {
        match args.get_str("action") {
            Some(a) => a.to_owned(),
            None => String::from_str("play"),
        }
    }

    /// The query asked for, when there is a non-empty one.
    pub fn query(&self, args: &JsonValue) -> (r: Option<String>)
        ensures
            r is None <==> music_query_of(args@) is None,
            r matches Some(q) ==> music_query_of(args@) == Some(q@),
    {
        match args.get_str("query") {
            Some(q) => if q.is_empty() {
                None
            } else {
                Some(q.to_owned())
            },
            None => None,
        }
    }

    /// The AppleScript to run.
    pub fn script(&self, action: &str, query: Option<&str>) -> (r: String)
        ensures
            r@ == music_script_of(
                action@,
                match query {
                    Some(q) => Some(q@),
                    None => None,
                },
            ),
    {
        if str_eq(action, "pause") {
            String::from_str(PAUSE_SCRIPT)
        } else if str_eq(action, "next") {
            String::from_str(NEXT_SCRIPT)
        } else if str_eq(action, "previous") {
            String::from_str(PREVIOUS_SCRIPT)
        } else {
            match query {
                Some(q) => {
                    let mut s = String::from_str(SEARCH_SCRIPT_HEAD);
                    let cleaned = remove_char(q, '"');
                    s.append(cleaned.as_str());
                    s.append(SEARCH_SCRIPT_TAIL);
                    s
                },
                None => String::from_str(PLAYPAUSE_SCRIPT),
            }
        }
    }

    /// What the tool answers once the script printed `out`.
    pub fn reply(&self, action: &str, query: Option<&str>, out: &str) -> (r: String)
        ensures
            r@ == music_reply_of(
                action@,
                match query {
                    Some(q) => Some(q@),
                    None => None,
                },
                out@,
            ),
    {
        match query {
            Some(q) => if out.is_empty() {
                let mut s = String::from_str("Rien trouvé pour « ");
                s.append(q);
                s.append(" » dans la bibliothèque.");
                s
            } else {
                let mut s = String::from_str("Lecture : ");
                s.append(out);
                s
            },
            None => if str_eq(action, "pause") {
                String::from_str("Musique en pause.")
            } else if str_eq(action, "next") {
                String::from_str("Piste suivante.")
            } else if str_eq(action, "previous") {
                String::from_str("Piste précédente.")
            } else {
                String::from_str("Lecture/pause basculé.")
            },
        }
    }
}

// ---------------------------------------------------------------- registry

/// The registry of the first version: time, applications, volume, music.
pub fn mvp_registry() -> (r: Registry<AssistantTool>)
    ensures
        r@ == Map::<Seq<char>, EntryView<AssistantTool>>::empty().insert(
            GET_TIME_NAME@,
            EntryView {
                def: def_view(GET_TIME_NAME@, GET_TIME_DESCRIPTION@, get_time_schema()),
                level: Permission::Read,
                tool: AssistantTool::GetTime(GetTime),
            },
        ).insert(
            OPEN_APPLICATION_NAME@,
            EntryView {
                def: def_view(
                    OPEN_APPLICATION_NAME@,
                    OPEN_APPLICATION_DESCRIPTION@,
                    open_application_schema(),
                ),
                level: Permission::Reversible,
                tool: AssistantTool::OpenApplication(OpenApplication),
            },
        ).insert(
            SET_VOLUME_NAME@,
            EntryView {
                def: def_view(SET_VOLUME_NAME@, SET_VOLUME_DESCRIPTION@, set_volume_schema()),
                level: Permission::Reversible,
                tool: AssistantTool::SetVolume(SetVolume),
            },
        ).insert(
            PLAY_MUSIC_NAME@,
            EntryView {
                def: def_view(PLAY_MUSIC_NAME@, PLAY_MUSIC_DESCRIPTION@, play_music_schema()),
                level: Permission::Reversible,
                tool: AssistantTool::PlayMusic(PlayMusic),
            },
        ),
        self_described(r@),
{
    let mut reg = Registry::new();
    reg.register(AssistantTool::GetTime(GetTime));
    reg.register(AssistantTool::OpenApplication(OpenApplication));
    reg.register(AssistantTool::SetVolume(SetVolume));
    reg.register(AssistantTool::PlayMusic(PlayMusic));
    reg
}

// --------------------------------------------------------------- osascript

/// The arguments of `osascript` for a script: `-e script`.
pub fn osascript_args(script: &str) -> (r: Vec<String>)
    ensures
        r@.len() == 2,
        r@[0]@ == "-e"@,
        r@[1]@ == script@,
{
    vec![String::from_str("-e"), script.to_owned()]
}

/// What running an AppleScript gives: its output, trimmed, when it
/// succeeded; else the failure with its error output, trimmed.
pub fn osascript_outcome(success: bool, stdout: &str, stderr: &str) -> (r: Result<String, String>)
    ensures
        success ==> (r matches Ok(out) && out@ == trimmed(stdout@)),
        !success ==> (r matches Err(e) && e@ == "osascript a échoué: "@ + trimmed(stderr@)),
{
    if success {
        Ok(trim(stdout))
    } else {
        let mut e = String::from_str("osascript a échoué: ");
        let t = trim(stderr);
        e.append(t.as_str());
        Err(e)
    }
}

/// The library search cannot be broken out of: the query placed between
/// the script's double quotes holds no double quote, whatever was asked.
pub proof fn law_search_query_has_no_quote(q: Seq<char>)
    ensures
        forall|i: int| 0 <= i < without_char(q, '"').len() ==> without_char(q, '"')[i] != '"',
    decreases q.len(),
{
    if q.len() > 0 {
        law_search_query_has_no_quote(q.drop_last());
        let w = without_char(q.drop_last(), '"');
        if q.last() != '"' {
            assert forall|i: int| 0 <= i < w.push(q.last()).len() implies w.push(q.last())[i] != '"' by {
                if i < w.len() {
                    assert(w.push(q.last())[i] == w[i]);
                }
            }
        }
    }
}

} // verus!
