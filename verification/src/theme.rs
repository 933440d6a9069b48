//! Theme preferences: their defaults, and how an update merges into the
//! stored settings.

use vstd::prelude::*;
use crate::text::str_equal;

verus! {

/// A value in a settings object: a JSON string, or any other JSON value,
/// kept as its JSON text.
#[derive(Debug)]
pub enum SettingValue {
    Text(String),
    Json(String),
}

/// A settings value, as its text.
pub enum SettingView {
    Text(Seq<char>),
    Json(Seq<char>),
}

impl View for SettingValue {
    type V = SettingView;

    open spec fn view(&self) -> SettingView {
        match self {
            SettingValue::Text(s) => SettingView::Text(s@),
            SettingValue::Json(s) => SettingView::Json(s@),
        }
    }
}

/// A settings object, as the pairs written into it in order; a later pair
/// replaces an earlier one with the same key.
#[derive(Debug)]
pub struct Settings {
    pub entries: Vec<(String, SettingValue)>,
}

pub open spec fn entries_map(s: Seq<(String, SettingValue)>) -> Map<Seq<char>, SettingView>
    decreases s.len(),
{
    if s.len() == 0 {
        Map::empty()
    } else {
        entries_map(s.drop_last()).insert(s.last().0@, s.last().1@)
    }
}

impl View for Settings {
    type V = Map<Seq<char>, SettingView>;

    open spec fn view(&self) -> Map<Seq<char>, SettingView> {
        entries_map(self.entries@)
    }
}

proof fn lemma_entries_concat(a: Seq<(String, SettingValue)>, b: Seq<(String, SettingValue)>)
    ensures
        entries_map(a + b) == entries_map(a).union_prefer_right(entries_map(b)),
    decreases b.len(),
{
    if b.len() == 0 {
        assert(a + b =~= a);
        assert(entries_map(a).union_prefer_right(Map::empty()) =~= entries_map(a));
    } else {
        lemma_entries_concat(a, b.drop_last());
        assert((a + b).drop_last() =~= a + b.drop_last());
        assert(entries_map(a + b) =~= entries_map(a).union_prefer_right(entries_map(b)));
    }
}

proof fn lemma_entries_lookup(s: Seq<(String, SettingValue)>, k: Seq<char>, i: int)
    requires
        0 <= i < s.len(),
        s[i].0@ == k,
        forall|j: int| i < j < s.len() ==> s[j].0@ != k,
    ensures
        entries_map(s).contains_key(k),
        entries_map(s)[k] == s[i].1@,
    decreases s.len(),
{
    if i < s.len() - 1 {
        lemma_entries_lookup(s.drop_last(), k, i);
    }
}

proof fn lemma_entries_absent(s: Seq<(String, SettingValue)>, k: Seq<char>)
    requires
        forall|j: int| 0 <= j < s.len() ==> s[j].0@ != k,
    ensures
        !entries_map(s).contains_key(k),
    decreases s.len(),
{
    if s.len() > 0 {
        lemma_entries_absent(s.drop_last(), k);
    }
}

/// The text under `key`, when it holds a JSON string.
pub open spec fn text_at(m: Map<Seq<char>, SettingView>, key: Seq<char>) -> Option<Seq<char>> {
    if m.contains_key(key) {
        match m[key] {
            SettingView::Text(t) => Some(t),
            SettingView::Json(_) => None,
        }
    } else {
        None
    }
}

impl Settings {
    /// An empty settings object.
    pub fn empty() -> (s: Settings)
        ensures
            s@ == Map::<Seq<char>, SettingView>::empty(),
    {
        Settings { entries: Vec::new() }
    }

    /// Sets `key` to `value`.
    pub fn insert(&mut self, key: String, value: SettingValue)
        ensures
            final(self)@ == old(self)@.insert(key@, value@),
    {
        self.entries.push((key, value));
        assert(self.entries@.drop_last() =~= old(self).entries@);
    }

    /// Writes every pair of `other` over this object.
    pub fn merge(&mut self, other: Settings)
        ensures
            final(self)@ == old(self)@.union_prefer_right(other@),
    {
        let ghost a = self.entries@;
        let ghost b = other.entries@;
        let mut more = other.entries;
        self.entries.append(&mut more);
        proof {
            assert(self.entries@ =~= a + b);
            lemma_entries_concat(a, b);
        }
    }

    /// The text under `key`, when it holds a JSON string.
    pub fn get_text(&self, key: &str) -> (r: Option<String>)
        ensures
            match text_at(self@, key@) {
                Some(t) => r is Some && r->0@ == t,
                None => r is None,
            },
    {
        let n = self.entries.len();
        let mut i: usize = n;
        while i > 0
            invariant
                n == self.entries@.len(),
                i <= n,
                forall|j: int| i <= j < n ==> self.entries@[j].0@ != key@,
            decreases i,
        {
            let e = &self.entries[i - 1];
            if str_equal(e.0.as_str(), key) {
                proof {
                    lemma_entries_lookup(self.entries@, key@, i - 1);
                }
                return match &e.1 {
                    SettingValue::Text(t) => Some(t.clone()),
                    SettingValue::Json(_) => None,
                };
            }
            i -= 1;
        }
        proof {
            lemma_entries_absent(self.entries@, key@);
        }
        None
    }
}

/// A theme field: the text stored under `key`, or the default.
pub fn theme_field(settings: &Settings, key: &str, default: &str) -> (s: String)
    ensures
        s@ == match text_at(settings@, key@) {
            Some(t) => t,
            None => default@,
        },
{
    match settings.get_text(key) {
        Some(t) => t,
        None => default.to_owned(),
    }
}

/// A theme as it is shown.
#[derive(Debug)]
pub struct ThemeFields {
    pub mode: String,
    pub accent: String,
    pub density: String,
    pub message_display: String,
}

/// The theme of a stored row: its mode, its accent (`brand` when unset),
/// and the density (`comfortable`) and message display (`cozy`) from its
/// settings.
pub fn stored_theme(mode: String, accent: Option<String>, settings: &Settings) -> (t: ThemeFields)
    ensures
        t.mode@ == mode@,
        t.accent@ == match accent {
            Some(a) => a@,
            None => "brand"@,
        },
        t.density@ == match text_at(settings@, "density"@) {
            Some(d) => d,
            None => "comfortable"@,
        },
        t.message_display@ == match text_at(settings@, "message_display"@) {
            Some(d) => d,
            None => "cozy"@,
        },
{
    let accent = match accent {
        Some(a) => a,
        None => "brand".to_owned(),
    };
    let density = theme_field(settings, "density", "comfortable");
    let message_display = theme_field(settings, "message_display", "cozy");
    ThemeFields { mode, accent, density, message_display }
}

/// The theme of a user who has none stored.
pub fn default_theme() -> (t: ThemeFields)
    ensures
        t.mode@ == "dark"@,
        t.accent@ == "brand"@,
        t.density@ == "comfortable"@,
        t.message_display@ == "cozy"@,
{
    ThemeFields {
        mode: "dark".to_owned(),
        accent: "brand".to_owned(),
        density: "comfortable".to_owned(),
        message_display: "cozy".to_owned(),
    }
}

/// The settings an update writes: the stored ones, with the density and
/// message display set, then every pair of the requested object over them.
pub open spec fn merged_settings(
    existing: Map<Seq<char>, SettingView>,
    density: Seq<char>,
    message_display: Seq<char>,
    requested: Map<Seq<char>, SettingView>,
) -> Map<Seq<char>, SettingView> {
    existing.insert("density"@, SettingView::Text(density)).insert(
        "message_display"@,
        SettingView::Text(message_display),
    ).union_prefer_right(requested)
}

/// The settings an update stores: the stored object (empty when there is
/// none, or it is not an object), with the requested density (default
/// `comfortable`) and message display (default `cozy`), then every pair of
/// the requested settings object over them.
pub fn merged_theme_settings(
    existing: Option<Settings>,
    density: Option<String>,
    message_display: Option<String>,
    requested: Option<Settings>,
) -> (r: Settings)
    ensures
        r@ == merged_settings(
            match existing {
                Some(s) => s@,
                None => Map::empty(),
            },
            match density {
                Some(d) => d@,
                None => "comfortable"@,
            },
            match message_display {
                Some(d) => d@,
                None => "cozy"@,
            },
            match requested {
                Some(s) => s@,
                None => Map::empty(),
            },
        ),
{
    let mut map = match existing {
        Some(s) => s,
        None => Settings::empty(),
    };
    let density = match density {
        Some(d) => d,
        None => "comfortable".to_owned(),
    };
    let message_display = match message_display {
        Some(d) => d,
        None => "cozy".to_owned(),
    };
    map.insert("density".to_owned(), SettingValue::Text(density));
    map.insert("message_display".to_owned(), SettingValue::Text(message_display));
    let ghost before = map@;
    match requested {
        Some(s) => map.merge(s),
        None => {
            assert(before.union_prefer_right(Map::empty()) =~= before);
        },
    }
    map
}

/// The mode an update stores: the requested one, or `dark`.
pub fn requested_mode(mode: Option<String>) -> (m: String)
    ensures
        m@ == match mode {
            Some(v) => v@,
            None => "dark"@,
        },
{
    match mode {
        Some(v) => v,
        None => "dark".to_owned(),
    }
}

/// What an update writes is what the theme then reads: the density and
/// message display it asked for, unless its settings object sets that key
/// itself, in which case the object's entry is read (an entry that is not
/// text reads as nothing, and the theme falls back to its default).
pub proof fn lemma_update_shows_requested(
    existing: Map<Seq<char>, SettingView>,
    density: Seq<char>,
    message_display: Seq<char>,
    requested: Map<Seq<char>, SettingView>,
)
    ensures
        text_at(merged_settings(existing, density, message_display, requested), "density"@) == if requested.contains_key(
            "density"@,
        ) {
            text_at(requested, "density"@)
        } else {
            Some(density)
        },
        text_at(merged_settings(existing, density, message_display, requested), "message_display"@)
            == if requested.contains_key("message_display"@) {
            text_at(requested, "message_display"@)
        } else {
            Some(message_display)
        },
{
    reveal_strlit("density");
    reveal_strlit("message_display");
    assert("density"@ != "message_display"@) by {
        assert("density"@.len() != "message_display"@.len());
    }
}

} // verus!
