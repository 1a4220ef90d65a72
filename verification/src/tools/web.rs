//! Network tools: the current weather from Open-Meteo (open, no key) and web
//! search through a self-hosted SearXNG instance. The requests go out from
//! the caller; what is asked and what the answers mean is decided here.
use vstd::prelude::*;
use crate::brain::ToolDef;
use crate::config::WebToolsConfig;
use crate::json::{Json, JsonValue, json_text, obj1};
use crate::security::Permission;
use crate::text::{join, first_chars, take_chars, trim_end_of, trim_end_matches};
use crate::tools::{AssistantTool, EntryView, Registry, self_described};
use crate::tools::builtin::{
    def_view, object_schema, object_schema_requiring, object_schema_value,
    object_schema_requiring_value, string_param, string_param_value,
};

verus! {

/// Timeout of every HTTP request, in seconds.
pub const HTTP_TIMEOUT_SECS: u64 = 15;

/// The WMO codes and their French words: clear sky for 0, few clouds for 1
/// and 2, clouds for 3, fog for 45 and 48, drizzle for 51 to 57, rain for 61
/// to 67, snow for 71 to 77, showers for 80 to 82, snow showers for 85 and
/// 86, thunderstorm for 95 to 99, and unknown conditions for any other code.
pub proof fn law_weather_words(code: i64)
    ensures
        code == 0 ==> weather_text(code) == "ciel dégagé"@,
        code == 1 || code == 2 ==> weather_text(code) == "peu nuageux"@,
        code == 3 ==> weather_text(code) == "nuageux"@,
        code == 45 || code == 48 ==> weather_text(code) == "brouillard"@,
        51 <= code <= 57 ==> weather_text(code) == "bruine"@,
        61 <= code <= 67 ==> weather_text(code) == "pluie"@,
        71 <= code <= 77 ==> weather_text(code) == "neige"@,
        80 <= code <= 82 ==> weather_text(code) == "averses"@,
        code == 85 || code == 86 ==> weather_text(code) == "averses de neige"@,
        95 <= code <= 99 ==> weather_text(code) == "orage"@,
        !(0 <= code <= 3 || code == 45 || code == 48 || 51 <= code <= 57 || 61 <= code <= 67 || 71
            <= code <= 77 || 80 <= code <= 82 || code == 85 || code == 86 || 95 <= code <= 99)
            ==> weather_text(code) == "conditions inconnues"@,
{
}

/// WMO weather code to its French description.
pub open spec fn weather_text(code: i64) -> Seq<char> {
    if code == 0 {
        "ciel dégagé"@
    } else if code == 1 || code == 2 {
        "peu nuageux"@
    } else if code == 3 {
        "nuageux"@
    } else if code == 45 || code == 48 {
        "brouillard"@
    } else if 51 <= code <= 57 {
        "bruine"@
    } else if 61 <= code <= 67 {
        "pluie"@
    } else if 71 <= code <= 77 {
        "neige"@
    } else if 80 <= code <= 82 {
        "averses"@
    } else if code == 85 || code == 86 {
        "averses de neige"@
    } else if 95 <= code <= 99 {
        "orage"@
    } else {
        "conditions inconnues"@
    }
}

/// WMO weather code to its French description.
pub fn weather_description(code: i64) -> (r: &'static str)
    ensures
        r@ == weather_text(code),
{
    if code == 0 {
        "ciel dégagé"
    } else if code == 1 || code == 2 {
        "peu nuageux"
    } else if code == 3 {
        "nuageux"
    } else if code == 45 || code == 48 {
        "brouillard"
    } else if 51 <= code && code <= 57 {
        "bruine"
    } else if 61 <= code && code <= 67 {
        "pluie"
    } else if 71 <= code && code <= 77 {
        "neige"
    } else if 80 <= code && code <= 82 {
        "averses"
    } else if code == 85 || code == 86 {
        "averses de neige"
    } else if 95 <= code && code <= 99 {
        "orage"
    } else {
        "conditions inconnues"
    }
}

// ------------------------------------------------------------- get_weather

/// Gives the current weather of a city.
pub struct GetWeather {
    /// The city used when the request names none.
    default_location: String,
}

pub const GET_WEATHER_NAME: &'static str = "get_weather";

pub const GET_WEATHER_DESCRIPTION: &'static str = "Donne la météo actuelle d'une ville (température, ressenti, vent, temps général).";

pub const LOCATION_DESCRIPTION: &'static str = "Ville, ex: Paris, Lyon";

/// Open-Meteo's geocoding service: city to coordinates.
pub const GEOCODING_URL: &'static str = "https://geocoding-api.open-meteo.com/v1/search";

/// Open-Meteo's forecast service.
pub const FORECAST_URL: &'static str = "https://api.open-meteo.com/v1/forecast";

/// The current conditions asked of the forecast service.
pub const CURRENT_FIELDS: &'static str = "temperature_2m,apparent_temperature,weather_code,wind_speed_10m";

/// The parameters of `get_weather`: an optional city.
pub open spec fn get_weather_schema() -> Json {
    object_schema(Json::Object(seq![("location"@, string_param(LOCATION_DESCRIPTION@))]))
}

/// The city asked for: the string argument `location` when it is not empty,
/// else the default city.
pub open spec fn location_of(args: Json, default: Seq<char>) -> Seq<char> {
    match args.field("location"@).as_str() {
        Some(l) => if l.len() > 0 {
            l
        } else {
            default
        },
        None => default,
    }
}

/// The first place that geocoding found, or why there is none.
pub open spec fn place_of(geo: Json, location: Seq<char>) -> Result<Json, Seq<char>> {
    let place = geo.field("results"@).item(0);
    if place == Json::Null {
        Err("ville « "@ + location + " » introuvable"@)
    } else {
        Ok(place)
    }
}

/// The weather sentence: the place's name (or the city asked for), the
/// description of the weather code (0 when absent), then the temperature,
/// the apparent temperature and the wind, already written out.
pub open spec fn report_of(
    place: Json,
    location: Seq<char>,
    current: Json,
    temperature: Seq<char>,
    apparent: Seq<char>,
    wind: Seq<char>,
) -> Seq<char> {
    let name = match place.field("name"@).as_str() {
        Some(n) => n,
        None => location,
    };
    let code = match current.field("weather_code"@).as_i64() {
        Some(c) => c,
        None => 0,
    };
    name + " : "@ + weather_text(code) + ", température "@ + temperature + " °C (ressenti "@
        + apparent + " °C), vent "@ + wind + " km/h."@
}

impl GetWeather {
    /// The weather tool, with `default_location` for requests naming no city.
    pub fn new(default_location: String) -> (r: Self)
        ensures
            r.default_location() == default_location@,
    {
        GetWeather { default_location }
    }

    /// The city used when the request names none.
    pub closed spec fn default_location(&self) -> Seq<char> {
        self.default_location@
    }

    pub fn name(&self) -> (r: &'static str)
        ensures
            r@ == GET_WEATHER_NAME@,
    {
        GET_WEATHER_NAME
    }

    pub fn description(&self) -> (r: &'static str)
        ensures
            r@ == GET_WEATHER_DESCRIPTION@,
    {
        GET_WEATHER_DESCRIPTION
    }

    /// Reading the weather changes nothing.
    pub fn level(&self) -> (r: Permission)
        ensures
            r == Permission::Read,
    {
        Permission::Read
    }

    pub fn parameters(&self) -> (r: JsonValue)
        ensures
            r@ == get_weather_schema(),
    {
        object_schema_value(obj1("location", string_param_value(LOCATION_DESCRIPTION)))
    }

    pub fn definition(&self) -> (r: ToolDef)
        ensures
            r@ == def_view(GET_WEATHER_NAME@, GET_WEATHER_DESCRIPTION@, get_weather_schema()),
    {
        ToolDef {
            name: String::from_str(GET_WEATHER_NAME),
            description: String::from_str(GET_WEATHER_DESCRIPTION),
            parameters: self.parameters(),
        }
    }

    /// The city asked for, or the default one.
    pub fn location(&self, args: &JsonValue) -> (r: String)
        ensures
            r@ == location_of(args@, self.default_location()),
    {
        match args.get_str("location") {
            Some(l) => if l.is_empty() {
                self.default_location.clone()
            } else {
                l.to_owned()
            },
            None => self.default_location.clone(),
        }
    }

    /// The query of the geocoding request: the city, one result, in French.
    pub fn geocoding_query(&self, location: &str) -> (r: Vec<(String, String)>)
        ensures
            r@.len() == 3,
            r@[0].0@ == "name"@ && r@[0].1@ == location@,
            r@[1].0@ == "count"@ && r@[1].1@ == "1"@,
            r@[2].0@ == "language"@ && r@[2].1@ == "fr"@,
    {
        vec![
            (String::from_str("name"), location.to_owned()),
            (String::from_str("count"), String::from_str("1")),
            (String::from_str("language"), String::from_str("fr")),
        ]
    }

    /// The first place found by geocoding, or the error when there is none.
    pub fn place<'a>(&self, geo: &'a JsonValue, location: &str) -> (r: Result<&'a JsonValue, String>)
        ensures
            match place_of(geo@, location@) {
                Ok(p) => r matches Ok(v) && v@ == p,
                Err(t) => r matches Err(e) && e@ == t,
            },
    {
        let found = match geo.get("results") {
            Some(results) => match results.get_index(0) {
                Some(p) => if p.is_null() {
                    None
                } else {
                    Some(p)
                },
                None => None,
            },
            None => None,
        };
        match found {
            Some(p) => Ok(p),
            None => {
                let mut e = String::from_str("ville « ");
                e.append(location);
                e.append(" » introuvable");
                Err(e)
            },
        }
    }

    /// A coordinate of the place (`latitude` or `longitude`), written as its
    /// JSON text (`null` when the place has none).
    pub fn coordinate(&self, place: &JsonValue, key: &str) -> (r: String)
        ensures
            r@ == json_text(place@.field(key@)),
    {
        match place.get(key) {
            Some(v) => v.to_json_text(),
            None => String::from_str("null"),
        }
    }

    /// The query of the forecast request: the place's coordinates, written
    /// out, and the current conditions wanted.
    pub fn forecast_query(&self, latitude: &str, longitude: &str) -> (r: Vec<(String, String)>)
        ensures
            r@.len() == 3,
            r@[0].0@ == "latitude"@ && r@[0].1@ == latitude@,
            r@[1].0@ == "longitude"@ && r@[1].1@ == longitude@,
            r@[2].0@ == "current"@ && r@[2].1@ == CURRENT_FIELDS@,
    {
        vec![
            (String::from_str("latitude"), latitude.to_owned()),
            (String::from_str("longitude"), longitude.to_owned()),
            (String::from_str("current"), String::from_str(CURRENT_FIELDS)),
        ]
    }

    /// The weather sentence for a place and its current conditions.
    pub fn report(
        &self,
        place: &JsonValue,
        location: &str,
        current: &JsonValue,
        temperature: &str,
        apparent: &str,
        wind: &str,
    ) -> (r: String)
        ensures
            r@ == report_of(place@, location@, current@, temperature@, apparent@, wind@),
    {
        let mut s = match place.get_str("name") {
            Some(n) => n.to_owned(),
            None => location.to_owned(),
        };
        let code = match current.get_i64("weather_code") {
            Some(c) => c,
            None => 0,
        };
        s.append(" : ");
        s.append(weather_description(code));
        s.append(", température ");
        s.append(temperature);
        s.append(" °C (ressenti ");
        s.append(apparent);
        s.append(" °C), vent ");
        s.append(wind);
        s.append(" km/h.");
        s
    }
}

// -------------------------------------------------------------- search_web

/// Searches the web and gives the main results (title, URL, extract).
pub struct SearchWeb {
    /// The SearXNG instance (self-hosted preferably).
    base_url: String,
}

pub const SEARCH_WEB_NAME: &'static str = "search_web";

pub const SEARCH_WEB_DESCRIPTION: &'static str = "Recherche sur le web et renvoie les principaux résultats (titre, URL, extrait).";

pub const SEARCH_QUERY_DESCRIPTION: &'static str = "Requête de recherche";

pub const MISSING_QUERY: &'static str = "paramètre 'query' manquant";

/// The user agent of search requests.
pub const USER_AGENT: &'static str = "edith-assistant/0.1";

/// How many results are given back.
pub const MAX_RESULTS: usize = 5;

/// How many characters of each extract are kept.
pub const EXTRACT_CHARS: usize = 200;

/// The parameters of `search_web`: a required query.
pub open spec fn search_web_schema() -> Json {
    object_schema_requiring(
        Json::Object(seq![("query"@, string_param(SEARCH_QUERY_DESCRIPTION@))]),
        "query"@,
    )
}

/// The line of one search result: its title (or "(sans titre)"), its URL
/// when it has one, and the first characters of its extract.
pub open spec fn result_line(r: Json) -> Seq<char> {
    let title = match r.field("title"@).as_str() {
        Some(t) => t,
        None => "(sans titre)"@,
    };
    let url = match r.field("url"@).as_str() {
        Some(u) => u + " — "@,
        None => Seq::empty(),
    };
    let content = match r.field("content"@).as_str() {
        Some(c) => c,
        None => Seq::empty(),
    };
    "- "@ + title + " — "@ + url + first_chars(content, EXTRACT_CHARS as nat)
}

/// The results of a SearXNG answer (none when `results` is not an array).
pub open spec fn results_of(resp: Json) -> Seq<Json> {
    match resp.field("results"@).as_array() {
        Some(a) => a,
        None => Seq::empty(),
    }
}

/// The answer to a search: the lines of the first `MAX_RESULTS` results, one
/// per line, or the error when there is no result.
pub open spec fn summary_of(resp: Json, query: Seq<char>) -> Result<Seq<char>, Seq<char>> {
    let results = results_of(resp);
    if results.len() == 0 {
        Err("aucun résultat pour « "@ + query + " »"@)
    } else {
        let shown = if results.len() > MAX_RESULTS {
            results.take(MAX_RESULTS as int)
        } else {
            results
        };
        Ok(join(shown.map_values(|r: Json| result_line(r)), "\n"@))
    }
}

fn no_results(query: &str) -> (e: String)
    ensures
        e@ == "aucun résultat pour « "@ + query@ + " »"@,
{
    let mut e = String::from_str("aucun résultat pour « ");
    e.append(query);
    e.append(" »");
    e
}

fn result_line_value(r: &JsonValue) -> (s: String)
    ensures
        s@ == result_line(r@),
{
    let mut s = String::from_str("- ");
    match r.get_str("title") {
        Some(t) => s.append(t),
        None => s.append("(sans titre)"),
    }
    s.append(" — ");
    match r.get_str("url") {
        Some(u) => {
            s.append(u);
            s.append(" — ");
        },
        None => {},
    }
    let extract = match r.get_str("content") {
        Some(c) => take_chars(c, EXTRACT_CHARS),
        None => take_chars("", EXTRACT_CHARS),
    };
    proof {
        reveal_strlit("");
    }
    s.append(extract.as_str());
    s
}

impl SearchWeb {
    /// The search tool, querying the SearXNG instance at `base_url`.
    pub fn new(base_url: String) -> (r: Self)
        ensures
            r.base_url() == base_url@,
    {
        SearchWeb { base_url }
    }

    /// The SearXNG instance.
    pub closed spec fn base_url(&self) -> Seq<char> {
        self.base_url@
    }

    pub fn name(&self) -> (r: &'static str)
        ensures
            r@ == SEARCH_WEB_NAME@,
    {
        SEARCH_WEB_NAME
    }

    pub fn description(&self) -> (r: &'static str)
        ensures
            r@ == SEARCH_WEB_DESCRIPTION@,
    {
        SEARCH_WEB_DESCRIPTION
    }

    /// Searching changes nothing.
    pub fn level(&self) -> (r: Permission)
        ensures
            r == Permission::Read,
    {
        Permission::Read
    }

    pub fn parameters(&self) -> (r: JsonValue)
        ensures
            r@ == search_web_schema(),
    {
        object_schema_requiring_value(
            obj1("query", string_param_value(SEARCH_QUERY_DESCRIPTION)),
            "query",
        )
    }

    pub fn definition(&self) -> (r: ToolDef)
        ensures
            r@ == def_view(SEARCH_WEB_NAME@, SEARCH_WEB_DESCRIPTION@, search_web_schema()),
    {
        ToolDef {
            name: String::from_str(SEARCH_WEB_NAME),
            description: String::from_str(SEARCH_WEB_DESCRIPTION),
            parameters: self.parameters(),
        }
    }

    /// The query asked for: the string argument `query`.
    pub fn query(&self, args: &JsonValue) -> (r: Result<String, String>)
        ensures
            match args@.field("query"@).as_str() {
                Some(q) => r matches Ok(s) && s@ == q,
                None => r matches Err(e) && e@ == MISSING_QUERY@,
            },
    {
        match args.get_str("query") {
            Some(q) => Ok(q.to_owned()),
            None => Err(String::from_str(MISSING_QUERY)),
        }
    }

    /// The search endpoint: the instance's URL without trailing slashes,
    /// followed by `/search`.
    pub fn search_url(&self) -> (r: String)
        ensures
            r@ == trim_end_of(self.base_url(), '/') + "/search"@,
    {
        let mut r = trim_end_matches(self.base_url.as_str(), '/');
        r.append("/search");
        r
    }

    /// The query of the search request: the query, in JSON format.
    pub fn search_query(&self, query: &str) -> (r: Vec<(String, String)>)
        ensures
            r@.len() == 2,
            r@[0].0@ == "q"@ && r@[0].1@ == query@,
            r@[1].0@ == "format"@ && r@[1].1@ == "json"@,
    {
        vec![(String::from_str("q"), query.to_owned()), (String::from_str("format"), String::from_str("json"))]
    }

    /// The answer to a search, compact for the language model's context: the
    /// first results, one line each, or the error when there is none.
    pub fn summary(&self, resp: &JsonValue, query: &str) -> (r: Result<String, String>)
        ensures
            match summary_of(resp@, query@) {
                Ok(t) => r matches Ok(s) && s@ == t,
                Err(t) => r matches Err(e) && e@ == t,
            },
    {
        let results = match resp.get("results") {
            Some(v) => v.as_array(),
            None => None,
        };
        let ghost rs = results_of(resp@);
        let a = match results {
            Some(a) => a,
            None => {
                return Err(no_results(query));
            },
        };
        let n = a.len();
        if n == 0 {
            return Err(no_results(query));
        }
        assert(rs == a@.map_values(|v: JsonValue| v@));
        let shown: usize = if n > MAX_RESULTS {
            MAX_RESULTS
        } else {
            n
        };
        let ghost lines = if rs.len() > MAX_RESULTS {
            rs.take(MAX_RESULTS as int)
        } else {
            rs
        }.map_values(|r: Json| result_line(r));
        assert(lines.len() == shown);
        let mut s = result_line_value(&a[0]);
        assert(lines.take(1) =~= seq![lines[0]]);
        let mut i: usize = 1;
        while i < shown
            invariant
                1 <= i <= shown,
                shown <= n,
                n == a.len(),
                lines.len() == shown,
                rs == a@.map_values(|v: JsonValue| v@),
                forall|k: int| 0 <= k < shown ==> lines[k] == result_line(rs[k]),
                s@ == join(lines.take(i as int), "\n"@),
            decreases shown - i,
        {
            s.append("\n");
            let line = result_line_value(&a[i]);
            s.append(line.as_str());
            assert(lines.take(i + 1).drop_last() =~= lines.take(i as int));
            i = i + 1;
        }
        assert(lines.take(shown as int) =~= lines);
        Ok(s)
    }
}

/// How the weather tool made with `w` is registered.
pub open spec fn weather_entry(w: GetWeather) -> EntryView<AssistantTool> {
    EntryView {
        def: def_view(GET_WEATHER_NAME@, GET_WEATHER_DESCRIPTION@, get_weather_schema()),
        level: Permission::Read,
        tool: AssistantTool::GetWeather(w),
    }
}

/// How the search tool made with `s` is registered.
pub open spec fn search_entry(s: SearchWeb) -> EntryView<AssistantTool> {
    EntryView {
        def: def_view(SEARCH_WEB_NAME@, SEARCH_WEB_DESCRIPTION@, search_web_schema()),
        level: Permission::Read,
        tool: AssistantTool::SearchWeb(s),
    }
}

/// Registers the network tools: the weather, with the configured default
/// city, always; the search, on the configured instance, only when one is
/// configured.
pub fn register_web_tools(reg: &mut Registry<AssistantTool>, cfg: &WebToolsConfig)
    ensures
        cfg.searxng_url@.len() == 0 ==> exists|w: GetWeather|
            #![trigger weather_entry(w)]
            w.default_location() == cfg.default_location@ && final(reg)@ == old(reg)@.insert(
                GET_WEATHER_NAME@,
                weather_entry(w),
            ),
        cfg.searxng_url@.len() > 0 ==> exists|w: GetWeather, s: SearchWeb|
            #![trigger weather_entry(w), search_entry(s)]
            w.default_location() == cfg.default_location@ && s.base_url() == cfg.searxng_url@
                && final(reg)@ == old(reg)@.insert(GET_WEATHER_NAME@, weather_entry(w)).insert(
                SEARCH_WEB_NAME@,
                search_entry(s),
            ),
        self_described(old(reg)@) ==> self_described(final(reg)@),
{
    let w = GetWeather::new(cfg.default_location.clone());
    let ghost gw = w;
    reg.register(AssistantTool::GetWeather(w));
    assert(reg@ == old(reg)@.insert(GET_WEATHER_NAME@, weather_entry(gw)));
    if !cfg.searxng_url.as_str().is_empty() {
        let ghost mid = reg@;
        let s = SearchWeb::new(cfg.searxng_url.clone());
        let ghost gs = s;
        reg.register(AssistantTool::SearchWeb(s));
        assert(reg@ == mid.insert(SEARCH_WEB_NAME@, search_entry(gs)));
    }
}

} // verus!
