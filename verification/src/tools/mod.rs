//! The tools the language model may call: each one specialised, validated
//! and limited, never a generic shell. The registry keeps them by name.
use vstd::prelude::*;
use crate::brain::{ToolDef, ToolDefView, defs_view};
use crate::security::Permission;
use crate::text::{seq_less, str_less, str_eq, lemma_seq_less_trichotomy, lemma_seq_less_transitive};

pub mod builtin;
pub mod web;

verus! {

/// The assistant's own tools.
pub enum AssistantTool {
    GetTime(builtin::GetTime),
    OpenApplication(builtin::OpenApplication),
    SetVolume(builtin::SetVolume),
    PlayMusic(builtin::PlayMusic),
    GetWeather(web::GetWeather),
    SearchWeb(web::SearchWeb),
}

/// What the registry reads of a tool: how the language model sees it and
/// the permission level it needs.
pub trait ToolInfo {
    /// How the language model sees the tool: its name, description and
    /// parameter schema.
    spec fn tool_def(&self) -> ToolDefView;

    /// The permission level the tool needs.
    spec fn tool_level(&self) -> Permission;

    /// How the language model sees the tool.
    fn definition(&self) -> (r: ToolDef)
        ensures
            r@ == self.tool_def(),
    ;

    /// The tool's permission level.
    fn level(&self) -> (r: Permission)
        ensures
            r == self.tool_level(),
    ;
}

impl ToolInfo for AssistantTool {
    /// Its own name, description and parameter schema.
    open spec fn tool_def(&self) -> ToolDefView {
        match self {
            AssistantTool::GetTime(_) => builtin::def_view(
                builtin::GET_TIME_NAME@,
                builtin::GET_TIME_DESCRIPTION@,
                builtin::get_time_schema(),
            ),
            AssistantTool::OpenApplication(_) => builtin::def_view(
                builtin::OPEN_APPLICATION_NAME@,
                builtin::OPEN_APPLICATION_DESCRIPTION@,
                builtin::open_application_schema(),
            ),
            AssistantTool::SetVolume(_) => builtin::def_view(
                builtin::SET_VOLUME_NAME@,
                builtin::SET_VOLUME_DESCRIPTION@,
                builtin::set_volume_schema(),
            ),
            AssistantTool::PlayMusic(_) => builtin::def_view(
                builtin::PLAY_MUSIC_NAME@,
                builtin::PLAY_MUSIC_DESCRIPTION@,
                builtin::play_music_schema(),
            ),
            AssistantTool::GetWeather(_) => builtin::def_view(
                web::GET_WEATHER_NAME@,
                web::GET_WEATHER_DESCRIPTION@,
                web::get_weather_schema(),
            ),
            AssistantTool::SearchWeb(_) => builtin::def_view(
                web::SEARCH_WEB_NAME@,
                web::SEARCH_WEB_DESCRIPTION@,
                web::search_web_schema(),
            ),
        }
    }

    /// The tool's permission level.
    open spec fn tool_level(&self) -> Permission {
        match self {
            AssistantTool::GetTime(_) => Permission::Read,
            AssistantTool::OpenApplication(_) => Permission::Reversible,
            AssistantTool::SetVolume(_) => Permission::Reversible,
            AssistantTool::PlayMusic(_) => Permission::Reversible,
            AssistantTool::GetWeather(_) => Permission::Read,
            AssistantTool::SearchWeb(_) => Permission::Read,
        }
    }

    fn definition(&self) -> (r: ToolDef) {
        match self {
            AssistantTool::GetTime(t) => t.definition(),
            AssistantTool::OpenApplication(t) => t.definition(),
            AssistantTool::SetVolume(t) => t.definition(),
            AssistantTool::PlayMusic(t) => t.definition(),
            AssistantTool::GetWeather(t) => t.definition(),
            AssistantTool::SearchWeb(t) => t.definition(),
        }
    }

    fn level(&self) -> (r: Permission) {
        match self {
            AssistantTool::GetTime(t) => t.level(),
            AssistantTool::OpenApplication(t) => t.level(),
            AssistantTool::SetVolume(t) => t.level(),
            AssistantTool::PlayMusic(t) => t.level(),
            AssistantTool::GetWeather(t) => t.level(),
            AssistantTool::SearchWeb(t) => t.level(),
        }
    }
}

/// A tool of the caller's own, known to the registry by the definition and
/// level it carries; `value` is what the caller runs for it.
pub struct CustomTool<V> {
    pub def: ToolDef,
    pub level: Permission,
    pub value: V,
}

impl<V> ToolInfo for CustomTool<V> {
    open spec fn tool_def(&self) -> ToolDefView {
        self.def@
    }

    open spec fn tool_level(&self) -> Permission {
        self.level
    }

    fn definition(&self) -> (r: ToolDef) {
        self.def.duplicate()
    }

    fn level(&self) -> (r: Permission) {
        self.level
    }
}

/// How a tool is registered: under its own name, with its own definition
/// and level.
pub open spec fn entry_of<T: ToolInfo>(t: T) -> EntryView<T> {
    EntryView { def: t.tool_def(), level: t.tool_level(), tool: t }
}

/// Every tool is registered under its own name, with its own definition and
/// level.
pub open spec fn self_described<T: ToolInfo>(m: Map<Seq<char>, EntryView<T>>) -> bool {
    forall|k: Seq<char>|
        #[trigger] m.contains_key(k) ==> m[k] == entry_of(m[k].tool) && k == m[k].def.name
}

/// An entry that holds its tool's own definition and level.
pub open spec fn own_entry<T: ToolInfo>(e: ToolEntry<T>) -> bool {
    e.def@ == e.tool.tool_def() && e.level == e.tool.tool_level()
}

/// The tools of `tools` once `tool` is registered.
pub open spec fn after_register<T: ToolInfo>(tools: Map<Seq<char>, EntryView<T>>, tool: T) -> Map<
    Seq<char>,
    EntryView<T>,
> {
    tools.insert(tool.tool_def().name, entry_of(tool))
}

/// Every entry holds its tool's own definition and level.
pub open spec fn own_entries<T: ToolInfo>(es: Seq<ToolEntry<T>>) -> bool {
    forall|i: int| 0 <= i < es.len() ==> own_entry(#[trigger] es[i])
}

/// A registered tool: how the language model sees it, its permission level,
/// and the tool itself.
pub struct ToolEntry<T> {
    pub def: ToolDef,
    pub level: Permission,
    pub tool: T,
}

/// The model of a registered tool.
pub struct EntryView<T> {
    pub def: ToolDefView,
    pub level: Permission,
    pub tool: T,
}

/// The model of a registered tool.
pub open spec fn entry_view<T>(e: ToolEntry<T>) -> EntryView<T> {
    EntryView { def: e.def@, level: e.level, tool: e.tool }
}

/// The names of a sequence of entries.
pub open spec fn entry_names<T>(es: Seq<ToolEntry<T>>) -> Seq<Seq<char>> {
    es.map_values(|e: ToolEntry<T>| e.def.name@)
}

/// Names in strictly increasing lexicographic order (hence distinct).
pub open spec fn strictly_sorted(names: Seq<Seq<char>>) -> bool {
    forall|i: int, j: int| 0 <= i < j < names.len() ==> seq_less(names[i], names[j])
}

/// Whether some entry is named `k`.
pub open spec fn has_name<T>(es: Seq<ToolEntry<T>>, k: Seq<char>) -> bool {
    exists|i: int| 0 <= i < es.len() && #[trigger] es[i].def.name@ == k
}

/// The position of an entry named `k`.
pub open spec fn index_of<T>(es: Seq<ToolEntry<T>>, k: Seq<char>) -> int {
    choose|i: int| 0 <= i < es.len() && #[trigger] es[i].def.name@ == k
}

/// The entries as a map from names.
pub open spec fn map_of<T>(es: Seq<ToolEntry<T>>) -> Map<Seq<char>, EntryView<T>> {
    Map::new(|k: Seq<char>| has_name(es, k), |k: Seq<char>| entry_view(es[index_of(es, k)]))
}

/// `defs` describes exactly the tools of `tools`, one per tool, in
/// increasing order of name.
pub open spec fn lists_tools<T>(tools: Map<Seq<char>, EntryView<T>>, defs: Seq<ToolDefView>) -> bool {
    &&& defs.len() == tools.dom().len()
    &&& forall|i: int|
        0 <= i < defs.len() ==> #[trigger] tools.contains_key(defs[i].name) && tools[defs[i].name].def
            == defs[i]
    &&& forall|k: Seq<char>|
        #[trigger] tools.contains_key(k) ==> exists|i: int| 0 <= i < defs.len() && #[trigger] defs[i].name == k
    &&& strictly_sorted(defs.map_values(|d: ToolDefView| d.name))
}

/// The tools available to the language model, keyed by name.
pub struct Registry<T: ToolInfo> {
    entries: Vec<ToolEntry<T>>,
}

impl<T: ToolInfo> View for Registry<T> {
    type V = Map<Seq<char>, EntryView<T>>;

    closed spec fn view(&self) -> Map<Seq<char>, EntryView<T>> {
        map_of(self.entries@)
    }
}

proof fn lemma_unique_names<T>(es: Seq<ToolEntry<T>>, i: int, j: int)
    requires
        strictly_sorted(entry_names(es)),
        0 <= i < es.len(),
        0 <= j < es.len(),
        es[i].def.name@ == es[j].def.name@,
    ensures
        i == j,
{
    lemma_seq_less_trichotomy(es[i].def.name@, es[i].def.name@);
    if i < j {
        assert(seq_less(entry_names(es)[i], entry_names(es)[j]));
    } else if j < i {
        assert(seq_less(entry_names(es)[j], entry_names(es)[i]));
    }
}

proof fn lemma_map_at<T>(es: Seq<ToolEntry<T>>, i: int)
    requires
        strictly_sorted(entry_names(es)),
        0 <= i < es.len(),
    ensures
        map_of(es).contains_key(es[i].def.name@),
        map_of(es)[es[i].def.name@] == entry_view(es[i]),
{
    let k = es[i].def.name@;
    assert(has_name(es, k));
    let c = index_of(es, k);
    lemma_unique_names(es, c, i);
}

impl<T: ToolInfo> Registry<T> {
    #[verifier::type_invariant]
    closed spec fn sorted(&self) -> bool {
        strictly_sorted(entry_names(self.entries@)) && own_entries(self.entries@)
    }

    /// An empty registry.
    pub fn new() -> (r: Self)
        ensures
            r@ == Map::<Seq<char>, EntryView<T>>::empty(),
            self_described(r@),
    {
        let r = Registry { entries: Vec::new() };
        assert(r@ =~= Map::<Seq<char>, EntryView<T>>::empty());
        r
    }

    /// Registers `tool` under its own name, with its own definition and
    /// level, replacing any tool registered under that name.
    pub fn register(&mut self, tool: T)
        ensures
            final(self)@ == after_register(old(self)@, tool),
            self_described(final(self)@),
    {
        let def = tool.definition();
        let level = tool.level();
        self.insert_entry(def, level, tool);
        proof {
            use_type_invariant(&*self);
            lemma_self_described(self.entries@);
        }
    }

    fn insert_entry(&mut self, def: ToolDef, level: Permission, tool: T)
        requires
            def@ == tool.tool_def(),
            level == tool.tool_level(),
        ensures
            final(self)@ == old(self)@.insert(
                def.name@,
                EntryView { def: def@, level, tool },
            ),
    {
        proof {
            use_type_invariant(&*self);
        }
        let ghost key = def.name@;
        let ghost ev = EntryView { def: def@, level, tool };
        let mut es: Vec<ToolEntry<T>> = Vec::new();
        std::mem::swap(&mut es, &mut self.entries);
        let ghost old_es = es@;
        assert(map_of(old_es) == old(self)@);
        let mut p: usize = 0;
        while p < es.len() && str_less(es[p].def.name.as_str(), def.name.as_str())
            invariant
                es@ == old_es,
                strictly_sorted(entry_names(old_es)),
                own_entries(old_es),
                p <= es.len(),
                key == def.name@,
                forall|i: int| 0 <= i < p ==> seq_less(#[trigger] old_es[i].def.name@, key),
            decreases es.len() - p,
        {
            p = p + 1;
        }
        let replace = p < es.len() && str_eq(es[p].def.name.as_str(), def.name.as_str());
        let entry = ToolEntry { def, level, tool };
        assert(entry_view(entry) == ev);
        if replace {
            es.set(p, entry);
            let ghost new_es = es@;
            assert(new_es == old_es.update(p as int, entry));
            assert(own_entries(new_es)) by {
                assert forall|i: int| 0 <= i < new_es.len() implies own_entry(#[trigger] new_es[i]) by {
                    if i != p {
                        assert(new_es[i] == old_es[i]);
                    }
                }
            }
            assert(strictly_sorted(entry_names(new_es))) by {
                assert(entry_names(old_es)[p as int] == key);
                assert(entry_names(new_es) =~= entry_names(old_es));
            }
            assert(map_of(new_es) =~= map_of(old_es).insert(key, ev)) by {
                assert forall|k: Seq<char>| #[trigger]
                    map_of(new_es).contains_key(k) implies map_of(old_es).insert(
                    key,
                    ev,
                ).contains_key(k) && map_of(new_es)[k] == map_of(old_es).insert(key, ev)[k] by {
                    assert(has_name(new_es, k));
                    let i = index_of(new_es, k);
                    lemma_map_at(new_es, i);
                    if k == key {
                        lemma_unique_names(new_es, i, p as int);
                    }
                    if i != p {
                        lemma_map_at(old_es, i);
                    }
                }
                assert forall|k: Seq<char>| #[trigger]
                    map_of(old_es).insert(key, ev).contains_key(k) implies map_of(
                    new_es,
                ).contains_key(k) by {
                    if k == key {
                        lemma_map_at(new_es, p as int);
                    } else {
                        let i = choose|i: int| 0 <= i < old_es.len() && #[trigger] old_es[i].def.name@ == k;
                        assert(new_es[i].def.name@ == k);
                    }
                }
            }
        } else {
            proof {
                if p < old_es.len() {
                    lemma_seq_less_trichotomy(old_es[p as int].def.name@, key);
                }
            }
            es.insert(p, entry);
            let ghost new_es = es@;
            assert(new_es == old_es.insert(p as int, entry));
            assert(own_entries(new_es)) by {
                assert forall|i: int| 0 <= i < new_es.len() implies own_entry(#[trigger] new_es[i]) by {
                    if i < p {
                        assert(new_es[i] == old_es[i]);
                    } else if i > p {
                        assert(new_es[i] == old_es[i - 1]);
                    }
                }
            }
            assert(strictly_sorted(entry_names(new_es))) by {
                let ns = entry_names(new_es);
                let on = entry_names(old_es);
                assert(ns.len() == on.len() + 1);
                assert(ns[p as int] == key);
                assert(forall|x: int| 0 <= x < p ==> ns[x] == on[x]);
                assert(forall|x: int| p < x < ns.len() ==> ns[x] == on[x - 1]);
                assert(forall|x: int| 0 <= x < p ==> seq_less(#[trigger] on[x], key)) by {
                    assert forall|x: int| 0 <= x < p implies seq_less(#[trigger] on[x], key) by {
                        assert(on[x] == old_es[x].def.name@);
                    }
                }
                assert(p < on.len() ==> seq_less(key, on[p as int]));
                assert forall|i: int, j: int| 0 <= i < j < ns.len() implies seq_less(ns[i], ns[j]) by {
                    if j < p {
                        assert(seq_less(on[i], on[j]));
                    } else if j == p {
                    } else if i > p {
                        assert(seq_less(on[i - 1], on[j - 1]));
                    } else if i == p {
                        if j - 1 > p {
                            assert(seq_less(on[p as int], on[j - 1]));
                            lemma_seq_less_transitive(key, on[p as int], on[j - 1]);
                        }
                    } else {
                        lemma_seq_less_transitive(on[i], key, on[p as int]);
                        if j - 1 > p {
                            assert(seq_less(on[p as int], on[j - 1]));
                            lemma_seq_less_transitive(on[i], on[p as int], on[j - 1]);
                        }
                    }
                }
            }
            assert(map_of(new_es) =~= map_of(old_es).insert(key, ev)) by {
                assert forall|k: Seq<char>| #[trigger]
                    map_of(new_es).contains_key(k) implies map_of(old_es).insert(
                    key,
                    ev,
                ).contains_key(k) && map_of(new_es)[k] == map_of(old_es).insert(key, ev)[k] by {
                    assert(has_name(new_es, k));
                    let i = index_of(new_es, k);
                    lemma_map_at(new_es, i);
                    if k == key {
                        lemma_unique_names(new_es, i, p as int);
                    }
                    if i < p {
                        lemma_map_at(old_es, i);
                    } else if i > p {
                        lemma_map_at(old_es, i - 1);
                    }
                }
                assert forall|k: Seq<char>| #[trigger]
                    map_of(old_es).insert(key, ev).contains_key(k) implies map_of(
                    new_es,
                ).contains_key(k) by {
                    if k == key {
                        lemma_map_at(new_es, p as int);
                    } else {
                        let i = choose|i: int| 0 <= i < old_es.len() && #[trigger] old_es[i].def.name@ == k;
                        if i < p {
                            assert(new_es[i].def.name@ == k);
                        } else {
                            assert(new_es[i + 1].def.name@ == k);
                        }
                    }
                }
            }
        }
        self.entries = es;
    }

    fn position(&self, name: &str) -> (r: Option<usize>)
        ensures
            r is None <==> !self@.contains_key(name@),
            r matches Some(i) ==> i < self.entries.len() && self.entries@[i as int].def.name@
                == name@ && self@[name@] == entry_view(self.entries@[i as int]),
    {
        proof {
            use_type_invariant(self);
        }
        let mut i: usize = 0;
        while i < self.entries.len()
            invariant
                i <= self.entries.len(),
                strictly_sorted(entry_names(self.entries@)),
                forall|k: int| 0 <= k < i ==> self.entries@[k].def.name@ != name@,
            decreases self.entries.len() - i,
        {
            if str_eq(self.entries[i].def.name.as_str(), name) {
                proof {
                    lemma_map_at(self.entries@, i as int);
                }
                return Some(i);
            }
            i = i + 1;
        }
        None
    }

    /// The tool registered under `name`.
    pub fn get(&self, name: &str) -> (r: Option<&T>)
        ensures
            r is None <==> !self@.contains_key(name@),
            r matches Some(t) ==> *t == self@[name@].tool,
            self_described(self@),
    {
        proof {
            use_type_invariant(self);
            lemma_self_described(self.entries@);
        }
        match self.position(name) {
            Some(i) => Some(&self.entries[i].tool),
            None => None,
        }
    }

    /// The permission level of the tool registered under `name`.
    pub fn level_of(&self, name: &str) -> (r: Option<Permission>)
        ensures
            r is None <==> !self@.contains_key(name@),
            r matches Some(l) ==> l == self@[name@].level && l == self@[name@].tool.tool_level(),
            self_described(self@),
    {
        proof {
            use_type_invariant(self);
            lemma_self_described(self.entries@);
        }
        match self.position(name) {
            Some(i) => Some(self.entries[i].level),
            None => None,
        }
    }

    /// The definitions of all registered tools, in increasing order of name.
    pub fn definitions(&self) -> (r: Vec<ToolDef>)
        ensures
            lists_tools(self@, defs_view(r@)),
            self_described(self@),
            forall|i: int|
                #![trigger r@[i]]
                0 <= i < r@.len() ==> self@[r@[i]@.name].tool.tool_def() == r@[i]@,
    {
        proof {
            use_type_invariant(self);
            lemma_self_described(self.entries@);
        }
        let mut out: Vec<ToolDef> = Vec::new();
        let mut i: usize = 0;
        while i < self.entries.len()
            invariant
                i <= self.entries.len(),
                out.len() == i,
                forall|k: int| 0 <= k < i ==> out@[k]@ == self.entries@[k].def@,
            decreases self.entries.len() - i,
        {
            out.push(self.entries[i].def.duplicate());
            i = i + 1;
        }
        proof {
            assert(defs_view(out@) =~= self.entries@.map_values(|e: ToolEntry<T>| e.def@));
            lemma_lists_tools(self.entries@);
            assert forall|j: int| #![trigger out@[j]] 0 <= j < out@.len() implies self@[out@[j]@.name].tool.tool_def()
                == out@[j]@ by {
                assert(defs_view(out@)[j] == out@[j]@);
                assert(self@.contains_key(defs_view(out@)[j].name));
            }
        }
        out
    }
}

proof fn lemma_self_described<T: ToolInfo>(es: Seq<ToolEntry<T>>)
    requires
        own_entries(es),
    ensures
        self_described(map_of(es)),
{
    assert forall|k: Seq<char>| #[trigger] map_of(es).contains_key(k) implies map_of(es)[k]
        == entry_of(map_of(es)[k].tool) && k == map_of(es)[k].def.name by {
        let i = index_of(es, k);
        assert(own_entry(es[i]));
    }
}

proof fn lemma_lists_tools<T>(es: Seq<ToolEntry<T>>)
    requires
        strictly_sorted(entry_names(es)),
    ensures
        lists_tools(map_of(es), es.map_values(|e: ToolEntry<T>| e.def@)),
{
    let ds = es.map_values(|e: ToolEntry<T>| e.def@);
    let m = map_of(es);
    assert forall|j: int| 0 <= j < ds.len() implies #[trigger] m.contains_key(ds[j].name)
        && m[ds[j].name].def == ds[j] by {
        lemma_map_at(es, j);
    }
    assert forall|k: Seq<char>| #[trigger] m.contains_key(k) implies exists|j: int|
        0 <= j < ds.len() && #[trigger] ds[j].name == k by {
        let j = index_of(es, k);
        assert(ds[j].name == k);
    }
    assert(ds.map_values(|d: ToolDefView| d.name) =~= entry_names(es));
    assert forall|k: Seq<char>| m.dom().contains(k) <==> entry_names(es).to_set().contains(k) by {
        if m.dom().contains(k) {
            let j = index_of(es, k);
            assert(entry_names(es)[j] == k);
        }
        if entry_names(es).to_set().contains(k) {
            let j = choose|j: int| 0 <= j < entry_names(es).len() && entry_names(es)[j] == k;
            assert(es[j].def.name@ == k);
        }
    }
    assert(m.dom() =~= entry_names(es).to_set());
    lemma_names_len(es);
}

proof fn lemma_names_len<T>(es: Seq<ToolEntry<T>>)
    requires
        strictly_sorted(entry_names(es)),
    ensures
        entry_names(es).to_set().len() == es.len(),
{
    let ns = entry_names(es);
    assert forall|i: int, j: int| 0 <= i < ns.len() && 0 <= j < ns.len() && i != j implies ns[i]
        != ns[j] by {
        if ns[i] == ns[j] {
            lemma_unique_names(es, i, j);
        }
    }
    ns.unique_seq_to_set();
}

/// In a registry where every tool is registered by itself, as in every
/// `Registry`, each definition given to the language model is the listed
/// tool's own, with its level: names, descriptions and schemas all come from
/// the tool.
pub proof fn law_definitions_are_the_tools_own<T: ToolInfo>(
    m: Map<Seq<char>, EntryView<T>>,
    defs: Seq<ToolDefView>,
)
    requires
        self_described(m),
        lists_tools(m, defs),
    ensures
        forall|i: int|
            #![trigger defs[i]]
            0 <= i < defs.len() ==> {
                let e = m[defs[i].name];
                &&& m.contains_key(defs[i].name)
                &&& e.tool.tool_def() == defs[i]
                &&& e.level == e.tool.tool_level()
            },
{
    assert forall|i: int| #![trigger defs[i]] 0 <= i < defs.len() implies {
        let e = m[defs[i].name];
        &&& m.contains_key(defs[i].name)
        &&& e.tool.tool_def() == defs[i]
        &&& e.level == e.tool.tool_level()
    } by {
        assert(m.contains_key(defs[i].name));
        assert(m[defs[i].name].def == defs[i]);
        assert(m[defs[i].name] == entry_of(m[defs[i].name].tool));
    }
}

impl<T: ToolInfo> Default for Registry<T> {
    fn default() -> (r: Self)
        ensures
            r@ == Map::<Seq<char>, EntryView<T>>::empty(),
    {
        Registry::new()
    }
}

/// Registering a tool makes it the one found under its own name, with its
/// own definition and level, and leaves the tools under other names as they
/// were.
pub proof fn law_register_then_lookup<T: ToolInfo>(
    tools: Map<Seq<char>, EntryView<T>>,
    tool: T,
    other: Seq<char>,
)
    requires
        other != tool.tool_def().name,
    ensures
        after_register(tools, tool).contains_key(tool.tool_def().name),
        after_register(tools, tool)[tool.tool_def().name].tool == tool,
        after_register(tools, tool)[tool.tool_def().name].def == tool.tool_def(),
        after_register(tools, tool)[tool.tool_def().name].level == tool.tool_level(),
        after_register(tools, tool).contains_key(other) == tools.contains_key(other),
        tools.contains_key(other) ==> after_register(tools, tool)[other] == tools[other],
{
}

} // verus!
