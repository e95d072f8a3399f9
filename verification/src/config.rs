//! Config store: read-modify-write over a JSON object document.
//!
//! The persisted document is an open-ended string-keyed object. This core
//! owns exactly two keys — `setup_complete` and `theme` — and must pass every
//! other key through untouched on every write. The document is modeled as a
//! list of entries whose keys are unique; its meaning is the map the entries
//! spell out, and every operation's contract is stated over that map.

use vstd::prelude::*;

use crate::json::json_parse;
use crate::json::json_take_object;
use crate::json::json_value_of;
use crate::json::json_write_object;
use crate::json::object_entries_of;
use crate::json::parsed_root_of;
use crate::json::value_of_shape;
use crate::json::write_entries_view;
use crate::json::written_object_of;

verus! {

use vstd::string::StringExecFns;

/// What the store reads of one JSON value: the two shapes the owned keys may
/// carry, and everything else as an opaque pass-through value.
#[derive(Clone, Debug)]
pub enum JsonShape {
    Bool(bool),
    Text(String),
    Opaque(serde_json::Value),
}

/// The mathematical shape of one entry's value.
pub enum JsonVal {
    Bool(bool),
    Text(Seq<char>),
    Opaque(serde_json::Value),
}

impl View for JsonShape {
    type V = JsonVal;

    open spec fn view(&self) -> JsonVal {
        match self {
            JsonShape::Bool(b) => JsonVal::Bool(*b),
            JsonShape::Text(s) => JsonVal::Text(s@),
            JsonShape::Opaque(v) => JsonVal::Opaque(*v),
        }
    }
}

/// The entries, as key text and value shape.
pub open spec fn entries_view(s: Seq<(String, JsonShape)>) -> Seq<(Seq<char>, JsonVal)> {
    s.map_values(|p: (String, JsonShape)| (p.0@, p.1@))
}

/// No key occurs twice.
pub open spec fn keys_unique(v: Seq<(Seq<char>, JsonVal)>) -> bool {
    forall|i: int, j: int| 0 <= i < j < v.len() ==> (#[trigger] v[i]).0 != (#[trigger] v[j]).0
}

/// The map a list of entries spells out.
pub open spec fn doc_map(v: Seq<(Seq<char>, JsonVal)>) -> Map<Seq<char>, JsonVal>
    decreases v.len(),
{
    if v.len() == 0 {
        Map::empty()
    } else {
        doc_map(v.drop_last()).insert(v.last().0, v.last().1)
    }
}

/// The entry list after `key` is set to `val`: the first entry with that
/// key replaced in place, or a new entry appended when the key is absent.
pub open spec fn spec_set_entry(
    s: Seq<(Seq<char>, JsonVal)>,
    k: Seq<char>,
    val: JsonVal,
) -> Seq<(Seq<char>, JsonVal)>
    decreases s.len(),
{
    if s.len() == 0 {
        seq![(k, val)]
    } else if s[0].0 == k {
        seq![(k, val)] + s.drop_first()
    } else {
        seq![s[0]] + spec_set_entry(s.drop_first(), k, val)
    }
}

/// A JSON object document: the root object's entries, each key once.
#[derive(Clone, Debug)]
pub struct ConfigDoc {
    pub entries: Vec<(String, JsonShape)>,
}

impl ConfigDoc {
    /// Well-formed: keys are unique, so the entry list and the map agree.
    pub open spec fn wf(self) -> bool {
        keys_unique(entries_view(self.entries@))
    }
}

impl View for ConfigDoc {
    type V = Map<Seq<char>, JsonVal>;

    open spec fn view(&self) -> Map<Seq<char>, JsonVal> {
        doc_map(entries_view(self.entries@))
    }
}

/// The typed view of the owned fields.
#[derive(Clone, Debug, PartialEq, Eq)]
pub struct AppConfig {
    pub setup_complete: bool,
    pub theme: String,
}

impl Default for AppConfig {
    /// The owned fields' defaults: setup not complete, dark theme.
    fn default() -> (c: AppConfig)
        ensures
            c.setup_complete == false,
            c.theme@ == "dark"@,
    {
        AppConfig { setup_complete: false, theme: default_theme() }
    }
}

/// Default value of the `theme` configuration field.
pub fn default_theme() -> (r: String)
    ensures
        r@ == "dark"@,
{
    String::from_str("dark")
}

/// Why a config store operation failed.
#[derive(Clone, Debug, PartialEq, Eq)]
pub enum ConfigError {
    /// The document could not be read or written; the cause string is the
    /// shell's. Produced only at the filesystem edge, never by this module.
    Io(String),
    /// The document's text is not valid JSON, or an owned key holds a value
    /// of the wrong shape.
    Parse,
    /// The document's root is not a JSON object, so a write would destroy
    /// data it must preserve.
    NotAnObject,
    /// The updated document could not be serialized.
    Serialize,
}

/// The key this core owns for the setup flag.
pub open spec fn setup_key() -> Seq<char> {
    "setup_complete"@
}

/// The key this core owns for the theme.
pub open spec fn theme_key() -> Seq<char> {
    "theme"@
}

// ── What the entry list's map means: found, absent, updated, extended ──

proof fn lemma_doc_map_absent(v: Seq<(Seq<char>, JsonVal)>, k: Seq<char>)
    requires
        forall|i: int| 0 <= i < v.len() ==> (#[trigger] v[i]).0 != k,
    ensures
        !doc_map(v).contains_key(k),
    decreases v.len(),
{
    if v.len() > 0 {
        lemma_doc_map_absent(v.drop_last(), k);
    }
}

proof fn lemma_doc_map_found(v: Seq<(Seq<char>, JsonVal)>, k: Seq<char>, i: int)
    requires
        keys_unique(v),
        0 <= i < v.len(),
        v[i].0 == k,
    ensures
        doc_map(v).contains_key(k),
        doc_map(v)[k] == v[i].1,
    decreases v.len(),
{
    if i == v.len() - 1 {
    } else {
        assert(keys_unique(v.drop_last()));
        lemma_doc_map_found(v.drop_last(), k, i);
    }
}

proof fn lemma_doc_map_update(v: Seq<(Seq<char>, JsonVal)>, i: int, val: JsonVal)
    requires
        keys_unique(v),
        0 <= i < v.len(),
    ensures
        keys_unique(v.update(i, (v[i].0, val))),
        doc_map(v.update(i, (v[i].0, val))) == doc_map(v).insert(v[i].0, val),
    decreases v.len(),
{
    let v2 = v.update(i, (v[i].0, val));
    assert(forall|m: int, n: int|
        0 <= m < n < v2.len() ==> (#[trigger] v2[m]).0 != (#[trigger] v2[n]).0) by {
        assert(forall|m: int| 0 <= m < v2.len() ==> (#[trigger] v2[m]).0 == v[m].0);
    }
    if i == v.len() - 1 {
        assert(v2.drop_last() =~= v.drop_last());
        assert(doc_map(v2) == doc_map(v.drop_last()).insert(v[i].0, val));
        assert(doc_map(v).insert(v[i].0, val) =~= doc_map(v.drop_last()).insert(v[i].0, val));
    } else {
        assert(keys_unique(v.drop_last()));
        lemma_doc_map_update(v.drop_last(), i, val);
        assert(v2.drop_last() =~= v.drop_last().update(i, (v[i].0, val)));
        assert(v2.last() == v.last());
        // the two inserted keys differ, so the inserts commute
        assert(v[i].0 != v.last().0);
        assert(doc_map(v.drop_last()).insert(v[i].0, val).insert(v.last().0, v.last().1)
            =~= doc_map(v.drop_last()).insert(v.last().0, v.last().1).insert(v[i].0, val));
    }
}

proof fn lemma_doc_map_push(v: Seq<(Seq<char>, JsonVal)>, k: Seq<char>, val: JsonVal)
    requires
        keys_unique(v),
        forall|i: int| 0 <= i < v.len() ==> (#[trigger] v[i]).0 != k,
    ensures
        keys_unique(v.push((k, val))),
        doc_map(v.push((k, val))) == doc_map(v).insert(k, val),
{
    let v2 = v.push((k, val));
    assert(v2.drop_last() =~= v);
    assert(forall|m: int| 0 <= m < v.len() ==> (#[trigger] v2[m]) == v[m]);
}

proof fn lemma_set_entry_at(s: Seq<(Seq<char>, JsonVal)>, k: Seq<char>, val: JsonVal, i: int)
    requires
        0 <= i < s.len(),
        s[i].0 == k,
        forall|j: int| 0 <= j < i ==> (#[trigger] s[j]).0 != k,
    ensures
        spec_set_entry(s, k, val) == s.update(i, (k, val)),
    decreases i,
{
    if i == 0 {
        assert(seq![(k, val)] + s.drop_first() =~= s.update(0, (k, val)));
    } else {
        assert(s[0].0 != k);
        assert(forall|j: int| 0 <= j < i - 1 ==> (#[trigger] s.drop_first()[j]).0 != k) by {
            assert(forall|j: int| 0 <= j < i - 1 ==> s.drop_first()[j] == s[j + 1]);
        }
        assert(s.drop_first()[i - 1] == s[i]);
        lemma_set_entry_at(s.drop_first(), k, val, i - 1);
        assert(seq![s[0]] + s.drop_first().update(i - 1, (k, val)) =~= s.update(i, (k, val)));
    }
}

proof fn lemma_set_entry_absent(s: Seq<(Seq<char>, JsonVal)>, k: Seq<char>, val: JsonVal)
    requires
        forall|j: int| 0 <= j < s.len() ==> (#[trigger] s[j]).0 != k,
    ensures
        spec_set_entry(s, k, val) == s.push((k, val)),
    decreases s.len(),
{
    if s.len() == 0 {
        assert(seq![(k, val)] =~= s.push((k, val)));
    } else {
        assert(s[0].0 != k);
        assert(forall|j: int| 0 <= j < s.drop_first().len() ==> (#[trigger] s.drop_first()[j]).0
            != k) by {
            assert(forall|j: int|
                0 <= j < s.drop_first().len() ==> s.drop_first()[j] == s[j + 1]);
        }
        lemma_set_entry_absent(s.drop_first(), k, val);
        assert(seq![s[0]] + s.drop_first().push((k, val)) =~= s.push((k, val)));
    }
}

// ── The store's operations ──────────────────────────────────────────────

/// A document with no entries at all.
pub fn empty_doc() -> (d: ConfigDoc)
    ensures
        d.wf(),
        d@ == Map::<Seq<char>, JsonVal>::empty(),
        entries_view(d.entries@) == Seq::<(Seq<char>, JsonVal)>::empty(),
{
    let d = ConfigDoc { entries: Vec::new() };
    proof {
        assert(entries_view(d.entries@) =~= Seq::<(Seq<char>, JsonVal)>::empty());
    }
    d
}

/// Find the position of `key` among the entries, if it is there.
fn find_entry(entries: &Vec<(String, JsonShape)>, key: &String) -> (r: Option<usize>)
    ensures
        r matches Some(i) ==> i < entries@.len() && entries@[i as int].0@ == key@ && (forall|
            j: int,
        | 0 <= j < i ==> (#[trigger] entries@[j]).0@ != key@),
        r is None ==> forall|i: int|
            0 <= i < entries@.len() ==> (#[trigger] entries@[i]).0@ != key@,
{
    let n = entries.len();
    let mut idx: usize = 0;
    while idx < n
        invariant
            idx <= n,
            n == entries@.len(),
            forall|i: int| 0 <= i < idx ==> (#[trigger] entries@[i]).0@ != key@,
        decreases n - idx,
    {
        if entries[idx].0.eq(key) {
            return Option::Some(idx);
        }
        idx = idx + 1;
    }
    Option::None
}

/// Set `key` to `val`, replacing its entry or appending one: afterwards the
/// document's map is the old map with exactly that one key bound, and every
/// other key's entry is untouched.
pub fn set_entry(doc: &mut ConfigDoc, key: String, val: JsonShape)
    requires
        old(doc).wf(),
    ensures
        final(doc).wf(),
        final(doc)@ == old(doc)@.insert(key@, val@),
        entries_view(final(doc).entries@) == spec_set_entry(
            entries_view(old(doc).entries@),
            key@,
            val@,
        ),
{
    let ghost v0 = entries_view(doc.entries@);
    match find_entry(&doc.entries, &key) {
        Option::Some(i) => {
            proof {
                assert(v0[i as int].0 == key@);
                assert(forall|j: int| 0 <= j < i ==> (#[trigger] v0[j]).0 != key@);
            }
            doc.entries[i] = (key, val);
            proof {
                assert(entries_view(doc.entries@) =~= v0.update(i as int, (key@, val@)));
                lemma_set_entry_at(v0, key@, val@, i as int);
                assert(v0.update(i as int, (key@, val@)) == v0.update(
                    i as int,
                    (v0[i as int].0, val@),
                ));
                lemma_doc_map_update(v0, i as int, val@);
            }
        },
        Option::None => {
            doc.entries.push((key, val));
            proof {
                assert(entries_view(doc.entries@) =~= v0.push((key@, val@)));
                lemma_set_entry_absent(v0, key@, val@);
                lemma_doc_map_push(v0, key@, val@);
            }
        },
    }
}

/// The entry list after the two owned keys are written.
pub open spec fn spec_updated_entries(
    es: Seq<(Seq<char>, JsonVal)>,
    sc: bool,
    th: Seq<char>,
) -> Seq<(Seq<char>, JsonVal)> {
    spec_set_entry(spec_set_entry(es, setup_key(), JsonVal::Bool(sc)), theme_key(), JsonVal::Text(th))
}

/// Write the two owned keys into the document, touching nothing else: the
/// resulting map is the old one with `setup_complete` bound to the flag and
/// `theme` bound to the theme text, and the entry list changes by exactly
/// those two settings.
pub fn apply_update(doc: &mut ConfigDoc, cfg: &AppConfig)
    requires
        old(doc).wf(),
    ensures
        final(doc).wf(),
        final(doc)@ == old(doc)@.insert(setup_key(), JsonVal::Bool(cfg.setup_complete)).insert(
            theme_key(),
            JsonVal::Text(cfg.theme@),
        ),
        entries_view(final(doc).entries@) == spec_updated_entries(
            entries_view(old(doc).entries@),
            cfg.setup_complete,
            cfg.theme@,
        ),
{
    set_entry(doc, String::from_str("setup_complete"), JsonShape::Bool(cfg.setup_complete));
    set_entry(doc, String::from_str("theme"), JsonShape::Text(cfg.theme.clone()));
}

/// What decoding the owned fields of document map `m` yields: defaults for
/// absent keys, the stored values when their shapes are right, and a parse
/// failure when an owned key holds the wrong shape. Unknown keys never make
/// it fail.
pub open spec fn spec_read_typed(m: Map<Seq<char>, JsonVal>) -> Result<
    (bool, Seq<char>),
    ConfigError,
> {
    if (m.contains_key(setup_key()) && !(m[setup_key()] is Bool)) || (m.contains_key(theme_key())
        && !(m[theme_key()] is Text)) {
        Result::Err(ConfigError::Parse)
    } else {
        Result::Ok(
            (
                if m.contains_key(setup_key()) {
                    match m[setup_key()] {
                        JsonVal::Bool(b) => b,
                        _ => false,
                    }
                } else {
                    false
                },
                if m.contains_key(theme_key()) {
                    match m[theme_key()] {
                        JsonVal::Text(t) => t,
                        _ => "dark"@,
                    }
                } else {
                    "dark"@
                },
            ),
        )
    }
}

/// Decode the owned fields from a document, per [`spec_read_typed`].
pub fn read_typed(doc: &ConfigDoc) -> (r: Result<AppConfig, ConfigError>)
    requires
        doc.wf(),
    ensures
        match r {
            Result::Ok(cfg) => spec_read_typed(doc@) == Result::<(bool, Seq<char>), ConfigError>::Ok(
                (cfg.setup_complete, cfg.theme@),
            ),
            Result::Err(e) => spec_read_typed(doc@) == Result::<
                (bool, Seq<char>),
                ConfigError,
            >::Err(e),
        },
{
    let ghost v0 = entries_view(doc.entries@);
    let setup_complete: bool;
    match find_entry(&doc.entries, &String::from_str("setup_complete")) {
        Option::Some(i) => {
            proof {
                lemma_doc_map_found(v0, setup_key(), i as int);
            }
            match &doc.entries[i].1 {
                JsonShape::Bool(b) => {
                    setup_complete = *b;
                },
                _ => {
                    return Result::Err(ConfigError::Parse);
                },
            }
        },
        Option::None => {
            proof {
                lemma_doc_map_absent(v0, setup_key());
            }
            setup_complete = false;
        },
    }
    let theme: String;
    match find_entry(&doc.entries, &String::from_str("theme")) {
        Option::Some(i) => {
            proof {
                lemma_doc_map_found(v0, theme_key(), i as int);
            }
            match &doc.entries[i].1 {
                JsonShape::Text(t) => {
                    theme = t.clone();
                },
                _ => {
                    return Result::Err(ConfigError::Parse);
                },
            }
        },
        Option::None => {
            proof {
                lemma_doc_map_absent(v0, theme_key());
            }
            theme = default_theme();
        },
    }
    Result::Ok(AppConfig { setup_complete, theme })
}

/// A parsed document root: the object this store works on, or some other
/// kind of JSON value, which a write must refuse.
#[derive(Debug)]
pub enum RawConfig {
    Object(ConfigDoc),
    NotObject,
}

/// The file text, as the mathematical value the contracts speak of.
pub open spec fn spec_content(content: Option<&String>) -> Option<Seq<char>> {
    match content {
        Option::Some(s) => Option::Some(s@),
        Option::None => Option::None,
    }
}

/// The raw object entries a file text denotes: an absent file denotes the
/// empty object; present text denotes its parsed root's entries — nothing
/// when the text is malformed or the root is not an object.
pub open spec fn spec_raw_entries(c: Option<Seq<char>>) -> Option<Seq<(Seq<char>, JsonVal)>> {
    match c {
        Option::None => Option::Some(Seq::<(Seq<char>, JsonVal)>::empty()),
        Option::Some(t) => match parsed_root_of(t) {
            Option::None => Option::None,
            Option::Some(v) => object_entries_of(v),
        },
    }
}

/// Read the raw document from the file's text (`None` when no file exists):
/// an absent file is the empty object; malformed text fails with `Parse`,
/// and exactly then; otherwise the parsed root comes back whole — the
/// object's entries exactly as parsed, every field preserved, or the
/// non-object verdict.
pub fn read_raw(content: Option<&String>) -> (r: Result<RawConfig, ConfigError>)
    ensures
        r matches Ok(RawConfig::Object(d)) ==> d.wf(),
        match content {
            Option::None => match r {
                Result::Ok(RawConfig::Object(d)) => d@ == Map::<Seq<char>, JsonVal>::empty()
                    && entries_view(d.entries@) == Seq::<(Seq<char>, JsonVal)>::empty(),
                _ => false,
            },
            Option::Some(t) => match r {
                Result::Ok(RawConfig::Object(d)) => match parsed_root_of(t@) {
                    Option::Some(v) => object_entries_of(v) == Some(entries_view(d.entries@)),
                    Option::None => false,
                },
                Result::Ok(RawConfig::NotObject) => match parsed_root_of(t@) {
                    Option::Some(v) => object_entries_of(v) is None,
                    Option::None => false,
                },
                Result::Err(e) => e == ConfigError::Parse && parsed_root_of(t@) is None,
            },
        },
{
    match content {
        Option::None => Result::Ok(RawConfig::Object(empty_doc())),
        Option::Some(text) => match json_parse(text.as_str()) {
            Result::Err(_) => Result::Err(ConfigError::Parse),
            Result::Ok(value) => match json_take_object(value) {
                Option::Some(entries) => Result::Ok(RawConfig::Object(ConfigDoc { entries })),
                Option::None => Result::Ok(RawConfig::NotObject),
            },
        },
    }
}

/// Read the typed configuration from the file's text: an absent file yields
/// the defaults; malformed text and a non-object root fail with `Parse`,
/// and exactly then — otherwise the result is the typed decode of the
/// parsed document, so an owned key of the wrong shape fails with `Parse`
/// and unknown keys never make it fail.
pub fn read_config(content: Option<&String>) -> (r: Result<AppConfig, ConfigError>)
    ensures
        r matches Err(e) ==> e == ConfigError::Parse,
        match spec_raw_entries(spec_content(content)) {
            Option::None => r is Err,
            Option::Some(es) => match r {
                Result::Ok(cfg) => spec_read_typed(doc_map(es)) == Result::<
                    (bool, Seq<char>),
                    ConfigError,
                >::Ok((cfg.setup_complete, cfg.theme@)),
                Result::Err(e) => spec_read_typed(doc_map(es)) == Result::<
                    (bool, Seq<char>),
                    ConfigError,
                >::Err(e),
            },
        },
        content is None ==> match r {
            Result::Ok(cfg) => cfg.setup_complete == false && cfg.theme@ == "dark"@,
            Result::Err(_) => false,
        },
{
    match read_raw(content) {
        Result::Err(_) => Result::Err(ConfigError::Parse),
        Result::Ok(RawConfig::NotObject) => Result::Err(ConfigError::Parse),
        Result::Ok(RawConfig::Object(doc)) => read_typed(&doc),
    }
}

/// Write the owned fields into a parsed root: an object takes exactly the
/// two owned keys (everything else untouched); any other root fails with
/// `NotAnObject`, and nothing is written.
pub fn update_document(raw: RawConfig, cfg: &AppConfig) -> (r: Result<ConfigDoc, ConfigError>)
    requires
        raw matches RawConfig::Object(d) ==> d.wf(),
    ensures
        raw matches RawConfig::NotObject ==> r == Err::<ConfigDoc, ConfigError>(
            ConfigError::NotAnObject,
        ),
        match (raw, r) {
            (RawConfig::Object(d), Result::Ok(d2)) => d2.wf() && d2@ == d@.insert(
                setup_key(),
                JsonVal::Bool(cfg.setup_complete),
            ).insert(theme_key(), JsonVal::Text(cfg.theme@)) && entries_view(d2.entries@)
                == spec_updated_entries(
                entries_view(d.entries@),
                cfg.setup_complete,
                cfg.theme@,
            ),
            (RawConfig::Object(d), Result::Err(_)) => false,
            (RawConfig::NotObject, _) => true,
        },
{
    match raw {
        RawConfig::NotObject => Result::Err(ConfigError::NotAnObject),
        RawConfig::Object(mut doc) => {
            apply_update(&mut doc, cfg);
            Result::Ok(doc)
        },
    }
}

/// Entry values, handed over to the serializer's shape.
pub open spec fn shapes_to_values(s: Seq<(Seq<char>, JsonVal)>) -> Seq<
    (Seq<char>, serde_json::Value),
> {
    s.map_values(|p: (Seq<char>, JsonVal)| (p.0, value_of_shape(p.1)))
}

/// Plan a config write from the document's current text (`None` when no
/// file exists): re-read the raw document, set exactly the two owned keys,
/// and serialize. The result is the text to write back — the serializer's
/// output on the parsed entries with exactly the two owned keys set — or
/// why no write may happen: `Parse` exactly when present text is malformed,
/// `NotAnObject` exactly when it parses to a non-object root, `Serialize`
/// exactly when the serializer refuses the updated entries. The caller
/// writes nothing on failure.
pub fn plan_update(content: Option<&String>, cfg: &AppConfig) -> (r: Result<String, ConfigError>)
    ensures
        match spec_raw_entries(spec_content(content)) {
            Option::None => r is Err,
            Option::Some(es) => {
                let text = written_object_of(
                    shapes_to_values(spec_updated_entries(es, cfg.setup_complete, cfg.theme@)),
                );
                match r {
                    Result::Ok(t) => text == Some(t@),
                    Result::Err(e) => e == ConfigError::Serialize && text is None,
                }
            },
        },
        match content {
            Option::None => !(r == Err::<String, ConfigError>(ConfigError::Parse)) && !(r
                == Err::<String, ConfigError>(ConfigError::NotAnObject)),
            Option::Some(t) => {
                &&& (r == Err::<String, ConfigError>(ConfigError::Parse) <==> parsed_root_of(t@)
                    is None)
                &&& (r == Err::<String, ConfigError>(ConfigError::NotAnObject) <==> match
                    parsed_root_of(t@) {
                    Option::Some(v) => object_entries_of(v) is None,
                    Option::None => false,
                })
            },
        },
{
    let raw = match read_raw(content) {
        Result::Ok(raw) => raw,
        Result::Err(e) => {
            return Result::Err(e);
        },
    };
    let ghost es = match raw {
        RawConfig::Object(ref d) => entries_view(d.entries@),
        RawConfig::NotObject => Seq::<(Seq<char>, JsonVal)>::empty(),
    };
    let doc = match update_document(raw, cfg) {
        Result::Ok(doc) => doc,
        Result::Err(e) => {
            return Result::Err(e);
        },
    };
    let ghost updated = spec_updated_entries(es, cfg.setup_complete, cfg.theme@);
    let mut out: Vec<(String, serde_json::Value)> = Vec::new();
    let entries = doc.entries;
    let n = entries.len();
    let mut i: usize = 0;
    while i < n
        invariant
            i <= n,
            n == entries@.len(),
            out@.len() == i,
            entries_view(entries@) == updated,
            forall|j: int|
                0 <= j < i ==> (#[trigger] out@[j]).0@ == entries@[j].0@ && out@[j].1
                    == value_of_shape(entries@[j].1@),
        decreases n - i,
    {
        let k = entries[i].0.clone();
        out.push((k, json_value_of(&entries[i].1)));
        i = i + 1;
    }
    proof {
        assert(write_entries_view(out@) =~= shapes_to_values(updated));
    }
    match json_write_object(out) {
        Result::Ok(text) => Result::Ok(text),
        Result::Err(_) => Result::Err(ConfigError::Serialize),
    }
}

/// Round trip: writing the owned fields into any document and decoding the
/// result yields exactly the flag and theme that were written, while every
/// other key keeps its value.
pub proof fn lemma_update_round_trip(m: Map<Seq<char>, JsonVal>, sc: bool, th: Seq<char>)
    ensures
        ({
            let m2 = m.insert(setup_key(), JsonVal::Bool(sc)).insert(
                theme_key(),
                JsonVal::Text(th),
            );
            &&& spec_read_typed(m2) == Result::<(bool, Seq<char>), ConfigError>::Ok((sc, th))
            &&& forall|k: Seq<char>|
                k != setup_key() && k != theme_key() && #[trigger] m.contains_key(k)
                    ==> m2.contains_key(k) && m2[k] == m[k]
        }),
{
    reveal_strlit("setup_complete");
    reveal_strlit("theme");
    assert(setup_key().len() == 14);
    assert(theme_key().len() == 5);
    assert(setup_key() != theme_key());
}

} // verus!
