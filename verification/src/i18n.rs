//! Internationalisation: the active locale and its translations.
//!
//! Fourteen display languages are offered. A translation table is an
//! ordered list of `(key, text)` pairs in which a later pair for a key
//! overrides an earlier one, as successive inserts into a map would. A key
//! missing from the active table falls back to English, then to the key
//! itself.

use vstd::prelude::*;

use crate::text::{replace, spec_replace, str_eq};

verus! {

// ── Outside items ────────────────────────────────────────────────────────────

#[verifier::external_type_specification]
#[verifier::external_body]
pub struct ExJsonError(serde_json::Error);

/// The JSON object of strings that `serde_json::from_str` reads from
/// `json` into a `HashMap<String, String>`, as a map (`None` when the text
/// is not such an object).
pub uninterp spec fn json_string_map(json: Seq<char>) -> Option<Map<Seq<char>, Seq<char>>>;

/// Calls `serde_json::from_str::<HashMap<String, String>>` and lists the
/// map's entries. Claims that the parse result is the named
/// `json_string_map` of the text and that the listed keys are distinct (they
/// are a map's keys); the order of the list is the map's walk order and is
/// not stated.
#[verifier::external_body]
fn parse_string_map(json: &str) -> (r: Result<Vec<(String, String)>, serde_json::Error>)
    ensures
        match r {
            Ok(v) => json_string_map(json@) == Some(table_map(pair_views(v@)))
                && distinct_keys(pair_views(v@)),
            Err(_) => json_string_map(json@) is None,
        },
{
    serde_json::from_str::<std::collections::HashMap<String, String>>(json).map(
        |m| m.into_iter().collect(),
    )
}

/// Renders a `serde_json::Error` with its `Display` implementation; nothing
/// is claimed of the text.
#[verifier::external_body]
fn json_error_text(e: &serde_json::Error) -> String {
    e.to_string()
}

// ── Tables ───────────────────────────────────────────────────────────────────

/// The views of a list of owned pairs.
pub open spec fn pair_views(s: Seq<(String, String)>) -> Seq<(Seq<char>, Seq<char>)> {
    s.map_values(|p: (String, String)| (p.0@, p.1@))
}

/// The views of a list of borrowed pairs.
pub open spec fn str_pair_views(s: Seq<(&str, &str)>) -> Seq<(Seq<char>, Seq<char>)> {
    s.map_values(|p: (&str, &str)| (p.0@, p.1@))
}

/// The text that `table` holds for `key`: the last pair with that key wins.
pub open spec fn lookup(table: Seq<(Seq<char>, Seq<char>)>, key: Seq<char>) -> Option<Seq<char>>
    decreases table.len(),
{
    if table.len() == 0 {
        None
    } else if table.last().0 == key {
        Some(table.last().1)
    } else {
        lookup(table.drop_last(), key)
    }
}

/// The map that a table stands for.
pub open spec fn table_map(table: Seq<(Seq<char>, Seq<char>)>) -> Map<Seq<char>, Seq<char>> {
    Map::new(|k: Seq<char>| lookup(table, k) is Some, |k: Seq<char>| lookup(table, k).unwrap())
}

/// Whether no key occurs twice in `table`.
pub open spec fn distinct_keys(table: Seq<(Seq<char>, Seq<char>)>) -> bool {
    forall|i: int, j: int| 0 <= i < j < table.len() ==> table[i].0 != table[j].0
}

/// The keys of a table, as a set.
pub open spec fn table_keys(table: Seq<(Seq<char>, Seq<char>)>) -> Set<Seq<char>> {
    Set::new(|k: Seq<char>| lookup(table, k) is Some)
}

/// What the interface shows for `key`: the active table's text, else the
/// English text, else the key itself.
pub open spec fn translate(
    active: Seq<(Seq<char>, Seq<char>)>,
    english: Seq<(Seq<char>, Seq<char>)>,
    key: Seq<char>,
) -> Seq<char> {
    match lookup(active, key) {
        Some(v) => v,
        None => match lookup(english, key) {
            Some(v) => v,
            None => key,
        },
    }
}

/// `{name}`, the placeholder for an argument called `name`.
pub open spec fn placeholder(name: Seq<char>) -> Seq<char> {
    seq!['{'] + name + seq!['}']
}

/// `text` with each argument's placeholder replaced by its value, the
/// arguments taken in order.
pub open spec fn interpolate(text: Seq<char>, args: Seq<(Seq<char>, Seq<char>)>) -> Seq<char>
    decreases args.len(),
{
    if args.len() == 0 {
        text
    } else {
        spec_replace(interpolate(text, args.drop_last()), placeholder(args.last().0), args.last().1)
    }
}

/// The table a locale starts with.
pub open spec fn initial_table(locale: Seq<char>) -> Seq<(Seq<char>, Seq<char>)> {
    if locale == "en"@ {
        english_table()
    } else {
        locale_table(locale)
    }
}

/// A table read from the end: the last pair with the key decides.
pub proof fn lemma_lookup_append(a: Seq<(Seq<char>, Seq<char>)>, b: Seq<(Seq<char>, Seq<char>)>, key: Seq<char>)
    ensures
        lookup(a + b, key) == match lookup(b, key) {
            Some(v) => Some(v),
            None => lookup(a, key),
        },
    decreases b.len(),
{
    if b.len() == 0 {
        assert(a + b =~= a);
    } else {
        assert((a + b).drop_last() =~= a + b.drop_last());
        lemma_lookup_append(a, b.drop_last(), key);
    }
}

/// A table with distinct keys stands for a map with as many keys as pairs.
pub proof fn lemma_distinct_key_count(table: Seq<(Seq<char>, Seq<char>)>)
    requires
        distinct_keys(table),
    ensures
        table_keys(table).finite(),
        table_keys(table).len() == table.len(),
    decreases table.len(),
{
    if table.len() == 0 {
        assert(table_keys(table) =~= Set::empty());
    } else {
        let init = table.drop_last();
        assert(distinct_keys(init));
        lemma_distinct_key_count(init);
        let k = table.last().0;
        assert(table_keys(table) =~= table_keys(init).insert(k));
        lemma_lookup_absent(init, k);
    }
}

/// A key that no pair holds is not found.
pub proof fn lemma_lookup_absent(table: Seq<(Seq<char>, Seq<char>)>, key: Seq<char>)
    requires
        forall|i: int| 0 <= i < table.len() ==> table[i].0 != key,
    ensures
        lookup(table, key) is None,
    decreases table.len(),
{
    if table.len() > 0 {
        lemma_lookup_absent(table.drop_last(), key);
    }
}

/// Owned copies of borrowed pairs.
pub(crate) fn owned_pairs(s: &[(&str, &str)]) -> (r: Vec<(String, String)>)
    ensures
        pair_views(r@) == str_pair_views(s@),
{
    let mut out: Vec<(String, String)> = Vec::new();
    let mut i: usize = 0;
    while i < s.len()
        invariant
            i <= s@.len(),
            pair_views(out@) =~= str_pair_views(s@).subrange(0, i as int),
        decreases s@.len() - i,
    {
        let (k, v) = s[i];
        let ghost before = out@;
        out.push((k.to_string(), v.to_string()));
        assert(pair_views(out@) =~= pair_views(before).push((k@, v@)));
        assert(pair_views(out@) =~= str_pair_views(s@).subrange(0, i + 1));
        i = i + 1;
    }
    assert(str_pair_views(s@).subrange(0, s@.len() as int) =~= str_pair_views(s@));
    out
}

/// Index of the pair that decides `key` in `table`, if any.
pub(crate) fn find_key(table: &Vec<(String, String)>, key: &str) -> (r: Option<usize>)
    ensures
        match lookup(pair_views(table@), key@) {
            Some(v) => r matches Some(i) && i < table@.len() && table@[i as int].1@ == v,
            None => r is None,
        },
{
    let ghost pv = pair_views(table@);
    let mut j: usize = table.len();
    assert(pv.subrange(0, j as int) =~= pv);
    while j > 0
        invariant
            j <= table@.len(),
            pv == pair_views(table@),
            lookup(pv.subrange(0, j as int), key@) == lookup(pv, key@),
        decreases j,
    {
        assert(pv.subrange(0, j as int).drop_last() =~= pv.subrange(0, j - 1));
        if str_eq(table[j - 1].0.as_str(), key) {
            return Some(j - 1);
        }
        j = j - 1;
    }
    None
}

// ── Locales ──────────────────────────────────────────────────────────────────

/// Metadata about an offered locale.
#[derive(Debug, Clone)]
pub struct LocaleInfo {
    /// IETF BCP-47 language tag (such as `"en"` or `"zh-cn"`).
    pub code: String,
    /// English display name.
    pub name: String,
    /// Native display name.
    pub native_name: String,
}

/// The views of a list of locale descriptions.
pub open spec fn info_views(s: Seq<LocaleInfo>) -> Seq<(Seq<char>, Seq<char>, Seq<char>)> {
    s.map_values(|i: LocaleInfo| (i.code@, i.name@, i.native_name@))
}

/// Why loading translations failed.
#[derive(Debug, Clone)]
pub enum TranslationError {
    /// The text is not a JSON object of strings (with the parser's reason).
    MalformedJson(String),
}

/// The translation service: the active locale and its table, over the
/// English table as fallback.
pub struct I18n {
    locale: String,
    translations: Vec<(String, String)>,
    fallback: Vec<(String, String)>,
}

impl I18n {
    /// The active locale code.
    pub closed spec fn locale_view(&self) -> Seq<char> {
        self.locale@
    }

    /// The active table.
    pub closed spec fn table_view(&self) -> Seq<(Seq<char>, Seq<char>)> {
        pair_views(self.translations@)
    }

    /// The fallback table.
    pub closed spec fn fallback_view(&self) -> Seq<(Seq<char>, Seq<char>)> {
        pair_views(self.fallback@)
    }

    /// A service for `locale`, with English as fallback. An unknown locale
    /// starts with an empty table, so everything falls back to English.
    pub fn new(locale: &str) -> (r: Self)
        ensures
            r.locale_view() == locale@,
            r.table_view() == initial_table(locale@),
            r.fallback_view() == english_table(),
    {
        proof {
            reveal_strlit("en");
        }
        let fallback = english_translations();
        let translations = if str_eq(locale, "en") {
            english_translations()
        } else {
            translations_for(locale)
        };
        I18n { locale: locale.to_string(), translations, fallback }
    }

    /// The text for `key`: the active table's, else English, else the key.
    pub fn t<'a>(&'a self, key: &'a str) -> (r: &'a str)
        ensures
            r@ == translate(self.table_view(), self.fallback_view(), key@),
    {
        if let Some(i) = find_key(&self.translations, key) {
            return self.translations[i].1.as_str();
        }
        if let Some(i) = find_key(&self.fallback, key) {
            return self.fallback[i].1.as_str();
        }
        key
    }

    /// The text for `key` with each `{name}` replaced by its value, the
    /// arguments applied in order.
    pub fn t_with_args(&self, key: &str, args: &[(&str, &str)]) -> (r: String)
        ensures
            r@ == interpolate(
                translate(self.table_view(), self.fallback_view(), key@),
                str_pair_views(args@),
            ),
    {
        let ghost text = translate(self.table_view(), self.fallback_view(), key@);
        let mut result = self.t(key).to_string();
        let mut i: usize = 0;
        while i < args.len()
            invariant
                i <= args@.len(),
                result@ == interpolate(text, str_pair_views(args@).subrange(0, i as int)),
            decreases args@.len() - i,
        {
            proof {
                reveal_strlit("{");
                reveal_strlit("}");
            }
            let (name, value) = args[i];
            let mut ph = String::from_str("{");
            ph.append(name);
            ph.append("}");
            assert(ph@ =~= placeholder(name@));
            result = replace(result.as_str(), ph.as_str(), value);
            assert(str_pair_views(args@).subrange(0, i + 1).drop_last() =~= str_pair_views(
                args@,
            ).subrange(0, i as int));
            i = i + 1;
        }
        assert(str_pair_views(args@).subrange(0, args@.len() as int) =~= str_pair_views(args@));
        result
    }

    /// Switches to `locale`, reloading its table (added translations are
    /// dropped) over the English fallback.
    pub fn set_locale(&mut self, locale: &str)
        ensures
            final(self).locale_view() == locale@,
            final(self).table_view() == initial_table(locale@),
            final(self).fallback_view() == english_table(),
    {
        proof {
            reveal_strlit("en");
        }
        self.fallback = english_translations();
        self.locale = locale.to_string();
        self.translations = if str_eq(locale, "en") {
            english_translations()
        } else {
            translations_for(locale)
        };
    }

    /// The active locale code.
    pub fn locale(&self) -> (r: &str)
        ensures
            r@ == self.locale_view(),
    {
        self.locale.as_str()
    }

    /// The offered locales, with their display names.
    pub fn available_locales() -> (r: Vec<LocaleInfo>)
        ensures
            info_views(r@) == locale_list(),
    {
        let table: Vec<(&str, &str, &str)> = vec![
            ("en", "English", "English"),
            ("zh-cn", "Chinese (Simplified)", "简体中文"),
            ("zh-tw", "Chinese (Traditional)", "繁體中文"),
            ("ja", "Japanese", "日本語"),
            ("ko", "Korean", "한국어"),
            ("de", "German", "Deutsch"),
            ("fr", "French", "Français"),
            ("es", "Spanish", "Español"),
            ("pt-br", "Portuguese (Brazil)", "Português (Brasil)"),
            ("ru", "Russian", "Русский"),
            ("it", "Italian", "Italiano"),
            ("pl", "Polish", "Polski"),
            ("tr", "Turkish", "Türkçe"),
            ("cs", "Czech", "Čeština"),
        ];
        let mut out: Vec<LocaleInfo> = Vec::new();
        let mut i: usize = 0;
        while i < table.len()
            invariant
                i <= table@.len(),
                info_views(out@) =~= table@.subrange(0, i as int).map_values(
                    |t: (&str, &str, &str)| (t.0@, t.1@, t.2@),
                ),
            decreases table@.len() - i,
        {
            let (c, n, nn) = table[i];
            let ghost before = out@;
            out.push(LocaleInfo { code: c.to_string(), name: n.to_string(), native_name: nn.to_string() });
            assert(info_views(out@) =~= info_views(before).push((c@, n@, nn@)));
            assert(info_views(out@) =~= table@.subrange(0, i + 1).map_values(
                |t: (&str, &str, &str)| (t.0@, t.1@, t.2@),
            ));
            i = i + 1;
        }
        assert(table@.subrange(0, table@.len() as int) =~= table@);
        assert(table@.map_values(|t: (&str, &str, &str)| (t.0@, t.1@, t.2@)) =~= locale_list());
        out
    }

    /// Adds the translations of a JSON object of strings to the active
    /// table, overriding what it held for those keys. Returns how many
    /// entries the object has; malformed text changes nothing.
    pub fn load_json(&mut self, json: &str) -> (r: Result<usize, TranslationError>)
        ensures
            final(self).locale_view() == old(self).locale_view(),
            final(self).fallback_view() == old(self).fallback_view(),
            match r {
                Ok(n) => json_string_map(json@) matches Some(m) && n == m.dom().len() && forall|k: Seq<char>|
                    #[trigger] lookup(final(self).table_view(), k) == if m.dom().contains(k) {
                        Some(m[k])
                    } else {
                        lookup(old(self).table_view(), k)
                    },
                Err(_) => json_string_map(json@) is None && final(self).table_view()
                    == old(self).table_view(),
            },
    {
        match parse_string_map(json) {
            Ok(mut entries) => {
                let n = entries.len();
                let ghost old_table = pair_views(self.translations@);
                let ghost added = pair_views(entries@);
                proof {
                    lemma_distinct_key_count(added);
                    assert(table_keys(added) =~= table_map(added).dom());
                }
                self.translations.append(&mut entries);
                proof {
                    assert(pair_views(self.translations@) =~= old_table + added);
                    assert forall|k: Seq<char>| #[trigger] lookup(pair_views(self.translations@), k)
                        == if table_map(added).dom().contains(k) {
                            Some(table_map(added)[k])
                        } else {
                            lookup(old_table, k)
                        } by {
                        lemma_lookup_append(old_table, added, k);
                    }
                }
                Ok(n)
            },
            Err(e) => Err(TranslationError::MalformedJson(json_error_text(&e))),
        }
    }
}

impl Default for I18n {
    /// The English service.
    fn default() -> (r: Self)
        ensures
            r.locale_view() == "en"@,
            r.table_view() == english_table(),
            r.fallback_view() == english_table(),
    {
        proof {
            reveal_strlit("en");
        }
        I18n::new("en")
    }
}

/// After `set_locale(l)` a service translates every key as `I18n::new(l)`
/// does: both hold the table that `l` starts with over the English
/// fallback.
pub proof fn lemma_switch_translates_as_new(
    switched: I18n,
    fresh: I18n,
    locale: Seq<char>,
    key: Seq<char>,
)
    requires
        switched.locale_view() == locale,
        switched.table_view() == initial_table(locale),
        switched.fallback_view() == english_table(),
        fresh.locale_view() == locale,
        fresh.table_view() == initial_table(locale),
        fresh.fallback_view() == english_table(),
    ensures
        switched.locale_view() == fresh.locale_view(),
        translate(switched.table_view(), switched.fallback_view(), key) == translate(
            fresh.table_view(),
            fresh.fallback_view(),
            key,
        ),
{
}

// ── Built-in tables ──────────────────────────────────────────────────────────

/// The offered locales: code, English name and native name, in menu order.
pub open spec fn locale_list() -> Seq<(Seq<char>, Seq<char>, Seq<char>)> {
    seq![
        ("en"@, "English"@, "English"@),
        ("zh-cn"@, "Chinese (Simplified)"@, "简体中文"@),
        ("zh-tw"@, "Chinese (Traditional)"@, "繁體中文"@),
        ("ja"@, "Japanese"@, "日本語"@),
        ("ko"@, "Korean"@, "한국어"@),
        ("de"@, "German"@, "Deutsch"@),
        ("fr"@, "French"@, "Français"@),
        ("es"@, "Spanish"@, "Español"@),
        ("pt-br"@, "Portuguese (Brazil)"@, "Português (Brasil)"@),
        ("ru"@, "Russian"@, "Русский"@),
        ("it"@, "Italian"@, "Italiano"@),
        ("pl"@, "Polish"@, "Polski"@),
        ("tr"@, "Turkish"@, "Türkçe"@),
        ("cs"@, "Czech"@, "Čeština"@),
    ]
}

/// The built-in English table: every key the interface uses.
pub open spec fn english_table() -> Seq<(Seq<char>, Seq<char>)> {
    seq![
        ("menu.file"@, "File"@),
        ("menu.edit"@, "Edit"@),
        ("menu.selection"@, "Selection"@),
        ("menu.view"@, "View"@),
        ("menu.go"@, "Go"@),
        ("menu.run"@, "Run"@),
        ("menu.terminal"@, "Terminal"@),
        ("menu.help"@, "Help"@),
        ("menu.file.newFile"@, "New File"@),
        ("menu.file.newWindow"@, "New Window"@),
        ("menu.file.openFile"@, "Open File…"@),
        ("menu.file.openFolder"@, "Open Folder…"@),
        ("menu.file.openRecent"@, "Open Recent"@),
        ("menu.file.save"@, "Save"@),
        ("menu.file.saveAs"@, "Save As…"@),
        ("menu.file.saveAll"@, "Save All"@),
        ("menu.file.closeEditor"@, "Close Editor"@),
        ("menu.file.closeWindow"@, "Close Window"@),
        ("menu.file.preferences"@, "Preferences"@),
        ("menu.file.exit"@, "Exit"@),
        ("menu.edit.undo"@, "Undo"@),
        ("menu.edit.redo"@, "Redo"@),
        ("menu.edit.cut"@, "Cut"@),
        ("menu.edit.copy"@, "Copy"@),
        ("menu.edit.paste"@, "Paste"@),
        ("menu.edit.find"@, "Find"@),
        ("menu.edit.replace"@, "Replace"@),
        ("menu.edit.findInFiles"@, "Find in Files"@),
        ("menu.edit.replaceInFiles"@, "Replace in Files"@),
        ("menu.view.commandPalette"@, "Command Palette…"@),
        ("menu.view.explorer"@, "Explorer"@),
        ("menu.view.search"@, "Search"@),
        ("menu.view.scm"@, "Source Control"@),
        ("menu.view.debug"@, "Run and Debug"@),
        ("menu.view.extensions"@, "Extensions"@),
        ("menu.view.terminal"@, "Terminal"@),
        ("menu.view.output"@, "Output"@),
        ("menu.view.problems"@, "Problems"@),
        ("menu.view.minimap"@, "Minimap"@),
        ("menu.view.wordWrap"@, "Word Wrap"@),
        ("menu.view.zoomIn"@, "Zoom In"@),
        ("menu.view.zoomOut"@, "Zoom Out"@),
        ("menu.view.resetZoom"@, "Reset Zoom"@),
        ("menu.view.fullScreen"@, "Full Screen"@),
        ("menu.view.zenMode"@, "Zen Mode"@),
        ("menu.go.back"@, "Back"@),
        ("menu.go.forward"@, "Forward"@),
        ("menu.go.goToFile"@, "Go to File…"@),
        ("menu.go.goToLine"@, "Go to Line/Column…"@),
        ("menu.go.goToSymbol"@, "Go to Symbol in Editor…"@),
        ("menu.go.goToSymbolWorkspace"@, "Go to Symbol in Workspace…"@),
        ("menu.go.goToDefinition"@, "Go to Definition"@),
        ("menu.go.goToReferences"@, "Go to References"@),
        ("menu.go.goToImplementation"@, "Go to Implementation"@),
        ("menu.run.startDebugging"@, "Start Debugging"@),
        ("menu.run.startWithoutDebugging"@, "Run Without Debugging"@),
        ("menu.run.stopDebugging"@, "Stop Debugging"@),
        ("menu.run.addConfiguration"@, "Add Configuration…"@),
        ("menu.terminal.newTerminal"@, "New Terminal"@),
        ("menu.terminal.splitTerminal"@, "Split Terminal"@),
        ("menu.help.welcome"@, "Welcome"@),
        ("menu.help.documentation"@, "Documentation"@),
        ("menu.help.releaseNotes"@, "Release Notes"@),
        ("menu.help.reportIssue"@, "Report Issue"@),
        ("menu.help.about"@, "About"@),
        ("statusBar.line"@, "Ln {line}"@),
        ("statusBar.column"@, "Col {col}"@),
        ("statusBar.encoding"@, "UTF-8"@),
        ("statusBar.lineEnding.lf"@, "LF"@),
        ("statusBar.lineEnding.crlf"@, "CRLF"@),
        ("statusBar.spaces"@, "Spaces: {size}"@),
        ("statusBar.tabs"@, "Tab Size: {size}"@),
        ("statusBar.language"@, "{language}"@),
        ("statusBar.notifications"@, "Notifications"@),
        ("statusBar.noProblems"@, "No Problems"@),
        ("statusBar.problems"@, "{count} Problem(s)"@),
        ("dialog.save.title"@, "Save"@),
        ("dialog.save.message"@, "Do you want to save the changes you made to {file}?"@),
        ("dialog.save.saveButton"@, "Save"@),
        ("dialog.save.dontSaveButton"@, "Don't Save"@),
        ("dialog.save.cancelButton"@, "Cancel"@),
        ("dialog.confirmDelete.title"@, "Confirm Delete"@),
        ("dialog.confirmDelete.message"@, "Are you sure you want to delete '{name}'?"@),
        ("dialog.openFolder.title"@, "Open Folder"@),
        ("dialog.openFile.title"@, "Open File"@),
        ("quickOpen.placeholder"@, "Type the name of a file to open…"@),
        ("quickOpen.noResults"@, "No matching results"@),
        ("commandPalette.placeholder"@, "Type a command…"@),
        ("welcome.title"@, "Welcome to SideX"@),
        ("welcome.start"@, "Start"@),
        ("welcome.newFile"@, "New File"@),
        ("welcome.openFile"@, "Open File…"@),
        ("welcome.openFolder"@, "Open Folder…"@),
        ("welcome.recent"@, "Recent"@),
        ("welcome.noRecent"@, "No recent files or folders"@),
        ("extensions.search"@, "Search Extensions in Marketplace"@),
        ("extensions.installed"@, "Installed"@),
        ("extensions.recommended"@, "Recommended"@),
        ("extensions.install"@, "Install"@),
        ("extensions.uninstall"@, "Uninstall"@),
        ("extensions.enable"@, "Enable"@),
        ("extensions.disable"@, "Disable"@),
        ("settings.title"@, "Settings"@),
        ("settings.search"@, "Search settings"@),
        ("settings.modified"@, "(Modified)"@),
        ("search.placeholder"@, "Search"@),
        ("search.replaceWith"@, "Replace with"@),
        ("search.resultsCount"@, "{count} results in {files} files"@),
        ("search.noResults"@, "No results found"@),
        ("problems.title"@, "Problems"@),
        ("problems.errors"@, "{count} Error(s)"@),
        ("problems.warnings"@, "{count} Warning(s)"@),
        ("problems.infos"@, "{count} Info(s)"@),
        ("output.title"@, "Output"@),
        ("debug.start"@, "Start Debugging"@),
        ("debug.stop"@, "Stop"@),
        ("debug.continue"@, "Continue"@),
        ("debug.stepOver"@, "Step Over"@),
        ("debug.stepInto"@, "Step Into"@),
        ("debug.stepOut"@, "Step Out"@),
        ("debug.restart"@, "Restart"@),
        ("notification.extensionInstalled"@, "Extension '{name}' installed successfully."@),
        ("notification.extensionFailed"@, "Failed to install extension '{name}'."@),
        ("notification.fileNotFound"@, "File not found: {path}"@),
        ("notification.savedSuccessfully"@, "File saved successfully."@),
    ]
}

/// The built-in English table.
fn english_translations() -> (r: Vec<(String, String)>)
    ensures
        pair_views(r@) == english_table(),
{
    let pairs: Vec<(&str, &str)> = vec![
        ("menu.file", "File"),
        ("menu.edit", "Edit"),
        ("menu.selection", "Selection"),
        ("menu.view", "View"),
        ("menu.go", "Go"),
        ("menu.run", "Run"),
        ("menu.terminal", "Terminal"),
        ("menu.help", "Help"),
        ("menu.file.newFile", "New File"),
        ("menu.file.newWindow", "New Window"),
        ("menu.file.openFile", "Open File…"),
        ("menu.file.openFolder", "Open Folder…"),
        ("menu.file.openRecent", "Open Recent"),
        ("menu.file.save", "Save"),
        ("menu.file.saveAs", "Save As…"),
        ("menu.file.saveAll", "Save All"),
        ("menu.file.closeEditor", "Close Editor"),
        ("menu.file.closeWindow", "Close Window"),
        ("menu.file.preferences", "Preferences"),
        ("menu.file.exit", "Exit"),
        ("menu.edit.undo", "Undo"),
        ("menu.edit.redo", "Redo"),
        ("menu.edit.cut", "Cut"),
        ("menu.edit.copy", "Copy"),
        ("menu.edit.paste", "Paste"),
        ("menu.edit.find", "Find"),
        ("menu.edit.replace", "Replace"),
        ("menu.edit.findInFiles", "Find in Files"),
        ("menu.edit.replaceInFiles", "Replace in Files"),
        ("menu.view.commandPalette", "Command Palette…"),
        ("menu.view.explorer", "Explorer"),
        ("menu.view.search", "Search"),
        ("menu.view.scm", "Source Control"),
        ("menu.view.debug", "Run and Debug"),
        ("menu.view.extensions", "Extensions"),
        ("menu.view.terminal", "Terminal"),
        ("menu.view.output", "Output"),
        ("menu.view.problems", "Problems"),
        ("menu.view.minimap", "Minimap"),
        ("menu.view.wordWrap", "Word Wrap"),
        ("menu.view.zoomIn", "Zoom In"),
        ("menu.view.zoomOut", "Zoom Out"),
        ("menu.view.resetZoom", "Reset Zoom"),
        ("menu.view.fullScreen", "Full Screen"),
        ("menu.view.zenMode", "Zen Mode"),
        ("menu.go.back", "Back"),
        ("menu.go.forward", "Forward"),
        ("menu.go.goToFile", "Go to File…"),
        ("menu.go.goToLine", "Go to Line/Column…"),
        ("menu.go.goToSymbol", "Go to Symbol in Editor…"),
        ("menu.go.goToSymbolWorkspace", "Go to Symbol in Workspace…"),
        ("menu.go.goToDefinition", "Go to Definition"),
        ("menu.go.goToReferences", "Go to References"),
        ("menu.go.goToImplementation", "Go to Implementation"),
        ("menu.run.startDebugging", "Start Debugging"),
        ("menu.run.startWithoutDebugging", "Run Without Debugging"),
        ("menu.run.stopDebugging", "Stop Debugging"),
        ("menu.run.addConfiguration", "Add Configuration…"),
        ("menu.terminal.newTerminal", "New Terminal"),
        ("menu.terminal.splitTerminal", "Split Terminal"),
        ("menu.help.welcome", "Welcome"),
        ("menu.help.documentation", "Documentation"),
        ("menu.help.releaseNotes", "Release Notes"),
        ("menu.help.reportIssue", "Report Issue"),
        ("menu.help.about", "About"),
        ("statusBar.line", "Ln {line}"),
        ("statusBar.column", "Col {col}"),
        ("statusBar.encoding", "UTF-8"),
        ("statusBar.lineEnding.lf", "LF"),
        ("statusBar.lineEnding.crlf", "CRLF"),
        ("statusBar.spaces", "Spaces: {size}"),
        ("statusBar.tabs", "Tab Size: {size}"),
        ("statusBar.language", "{language}"),
        ("statusBar.notifications", "Notifications"),
        ("statusBar.noProblems", "No Problems"),
        ("statusBar.problems", "{count} Problem(s)"),
        ("dialog.save.title", "Save"),
        ("dialog.save.message", "Do you want to save the changes you made to {file}?"),
        ("dialog.save.saveButton", "Save"),
        ("dialog.save.dontSaveButton", "Don't Save"),
        ("dialog.save.cancelButton", "Cancel"),
        ("dialog.confirmDelete.title", "Confirm Delete"),
        ("dialog.confirmDelete.message", "Are you sure you want to delete '{name}'?"),
        ("dialog.openFolder.title", "Open Folder"),
        ("dialog.openFile.title", "Open File"),
        ("quickOpen.placeholder", "Type the name of a file to open…"),
        ("quickOpen.noResults", "No matching results"),
        ("commandPalette.placeholder", "Type a command…"),
        ("welcome.title", "Welcome to SideX"),
        ("welcome.start", "Start"),
        ("welcome.newFile", "New File"),
        ("welcome.openFile", "Open File…"),
        ("welcome.openFolder", "Open Folder…"),
        ("welcome.recent", "Recent"),
        ("welcome.noRecent", "No recent files or folders"),
        ("extensions.search", "Search Extensions in Marketplace"),
        ("extensions.installed", "Installed"),
        ("extensions.recommended", "Recommended"),
        ("extensions.install", "Install"),
        ("extensions.uninstall", "Uninstall"),
        ("extensions.enable", "Enable"),
        ("extensions.disable", "Disable"),
        ("settings.title", "Settings"),
        ("settings.search", "Search settings"),
        ("settings.modified", "(Modified)"),
        ("search.placeholder", "Search"),
        ("search.replaceWith", "Replace with"),
        ("search.resultsCount", "{count} results in {files} files"),
        ("search.noResults", "No results found"),
        ("problems.title", "Problems"),
        ("problems.errors", "{count} Error(s)"),
        ("problems.warnings", "{count} Warning(s)"),
        ("problems.infos", "{count} Info(s)"),
        ("output.title", "Output"),
        ("debug.start", "Start Debugging"),
        ("debug.stop", "Stop"),
        ("debug.continue", "Continue"),
        ("debug.stepOver", "Step Over"),
        ("debug.stepInto", "Step Into"),
        ("debug.stepOut", "Step Out"),
        ("debug.restart", "Restart"),
        ("notification.extensionInstalled", "Extension '{name}' installed successfully."),
        ("notification.extensionFailed", "Failed to install extension '{name}'."),
        ("notification.fileNotFound", "File not found: {path}"),
        ("notification.savedSuccessfully", "File saved successfully."),
    ];
    let r = owned_pairs(pairs.as_slice());
    assert(str_pair_views(pairs@) =~= english_table());
    r
}

/// The built-in table of a non-English locale (empty for an unknown one).
pub open spec fn locale_table(locale: Seq<char>) -> Seq<(Seq<char>, Seq<char>)> {
    if locale == "zh-cn"@ {
        seq![
            ("menu.file"@, "文件"@),
            ("menu.edit"@, "编辑"@),
            ("menu.selection"@, "选择"@),
            ("menu.view"@, "查看"@),
            ("menu.go"@, "转到"@),
            ("menu.run"@, "运行"@),
            ("menu.terminal"@, "终端"@),
            ("menu.help"@, "帮助"@),
            ("menu.file.newFile"@, "新建文件"@),
            ("menu.file.openFile"@, "打开文件…"@),
            ("menu.file.save"@, "保存"@),
            ("welcome.title"@, "欢迎使用 SideX"@),
        ]
    } else if locale == "zh-tw"@ {
        seq![
            ("menu.file"@, "檔案"@),
            ("menu.edit"@, "編輯"@),
            ("menu.view"@, "檢視"@),
            ("menu.help"@, "說明"@),
            ("menu.file.newFile"@, "新增檔案"@),
            ("menu.file.save"@, "儲存"@),
            ("welcome.title"@, "歡迎使用 SideX"@),
        ]
    } else if locale == "ja"@ {
        seq![
            ("menu.file"@, "ファイル"@),
            ("menu.edit"@, "編集"@),
            ("menu.view"@, "表示"@),
            ("menu.help"@, "ヘルプ"@),
            ("menu.file.newFile"@, "新規ファイル"@),
            ("menu.file.save"@, "保存"@),
            ("welcome.title"@, "SideX へようこそ"@),
        ]
    } else if locale == "ko"@ {
        seq![
            ("menu.file"@, "파일"@),
            ("menu.edit"@, "편집"@),
            ("menu.view"@, "보기"@),
            ("menu.help"@, "도움말"@),
            ("menu.file.newFile"@, "새 파일"@),
            ("menu.file.save"@, "저장"@),
            ("welcome.title"@, "SideX에 오신 것을 환영합니다"@),
        ]
    } else if locale == "de"@ {
        seq![
            ("menu.file"@, "Datei"@),
            ("menu.edit"@, "Bearbeiten"@),
            ("menu.view"@, "Ansicht"@),
            ("menu.help"@, "Hilfe"@),
            ("menu.file.newFile"@, "Neue Datei"@),
            ("menu.file.save"@, "Speichern"@),
            ("welcome.title"@, "Willkommen bei SideX"@),
        ]
    } else if locale == "fr"@ {
        seq![
            ("menu.file"@, "Fichier"@),
            ("menu.edit"@, "Modifier"@),
            ("menu.view"@, "Affichage"@),
            ("menu.help"@, "Aide"@),
            ("menu.file.newFile"@, "Nouveau fichier"@),
            ("menu.file.save"@, "Enregistrer"@),
            ("welcome.title"@, "Bienvenue dans SideX"@),
        ]
    } else if locale == "es"@ {
        seq![
            ("menu.file"@, "Archivo"@),
            ("menu.edit"@, "Editar"@),
            ("menu.view"@, "Ver"@),
            ("menu.help"@, "Ayuda"@),
            ("menu.file.newFile"@, "Nuevo archivo"@),
            ("menu.file.save"@, "Guardar"@),
            ("welcome.title"@, "Bienvenido a SideX"@),
        ]
    } else if locale == "pt-br"@ {
        seq![
            ("menu.file"@, "Arquivo"@),
            ("menu.edit"@, "Editar"@),
            ("menu.view"@, "Exibir"@),
            ("menu.help"@, "Ajuda"@),
            ("menu.file.newFile"@, "Novo Arquivo"@),
            ("menu.file.save"@, "Salvar"@),
            ("welcome.title"@, "Bem-vindo ao SideX"@),
        ]
    } else if locale == "ru"@ {
        seq![
            ("menu.file"@, "Файл"@),
            ("menu.edit"@, "Правка"@),
            ("menu.view"@, "Вид"@),
            ("menu.help"@, "Справка"@),
            ("menu.file.newFile"@, "Новый файл"@),
            ("menu.file.save"@, "Сохранить"@),
            ("welcome.title"@, "Добро пожаловать в SideX"@),
        ]
    } else if locale == "it"@ {
        seq![
            ("menu.file"@, "File"@),
            ("menu.edit"@, "Modifica"@),
            ("menu.view"@, "Visualizza"@),
            ("menu.help"@, "Guida"@),
            ("menu.file.newFile"@, "Nuovo file"@),
            ("menu.file.save"@, "Salva"@),
            ("welcome.title"@, "Benvenuto in SideX"@),
        ]
    } else if locale == "pl"@ {
        seq![
            ("menu.file"@, "Plik"@),
            ("menu.edit"@, "Edycja"@),
            ("menu.view"@, "Widok"@),
            ("menu.help"@, "Pomoc"@),
            ("menu.file.newFile"@, "Nowy plik"@),
            ("menu.file.save"@, "Zapisz"@),
            ("welcome.title"@, "Witamy w SideX"@),
        ]
    } else if locale == "tr"@ {
        seq![
            ("menu.file"@, "Dosya"@),
            ("menu.edit"@, "Düzenle"@),
            ("menu.view"@, "Görünüm"@),
            ("menu.help"@, "Yardım"@),
            ("menu.file.newFile"@, "Yeni Dosya"@),
            ("menu.file.save"@, "Kaydet"@),
            ("welcome.title"@, "SideX'e Hoş Geldiniz"@),
        ]
    } else if locale == "cs"@ {
        seq![
            ("menu.file"@, "Soubor"@),
            ("menu.edit"@, "Úpravy"@),
            ("menu.view"@, "Zobrazení"@),
            ("menu.help"@, "Nápověda"@),
            ("menu.file.newFile"@, "Nový soubor"@),
            ("menu.file.save"@, "Uložit"@),
            ("welcome.title"@, "Vítejte v SideX"@),
        ]
    } else {
        Seq::empty()
    }
}

/// The built-in table of a non-English locale (empty for an unknown one).
fn translations_for(locale: &str) -> (r: Vec<(String, String)>)
    ensures
        pair_views(r@) == locale_table(locale@),
{
    let pairs: Vec<(&str, &str)> = if str_eq(locale, "zh-cn") {
        vec![
            ("menu.file", "文件"),
            ("menu.edit", "编辑"),
            ("menu.selection", "选择"),
            ("menu.view", "查看"),
            ("menu.go", "转到"),
            ("menu.run", "运行"),
            ("menu.terminal", "终端"),
            ("menu.help", "帮助"),
            ("menu.file.newFile", "新建文件"),
            ("menu.file.openFile", "打开文件…"),
            ("menu.file.save", "保存"),
            ("welcome.title", "欢迎使用 SideX"),
        ]
    } else if str_eq(locale, "zh-tw") {
        vec![
            ("menu.file", "檔案"),
            ("menu.edit", "編輯"),
            ("menu.view", "檢視"),
            ("menu.help", "說明"),
            ("menu.file.newFile", "新增檔案"),
            ("menu.file.save", "儲存"),
            ("welcome.title", "歡迎使用 SideX"),
        ]
    } else if str_eq(locale, "ja") {
        vec![
            ("menu.file", "ファイル"),
            ("menu.edit", "編集"),
            ("menu.view", "表示"),
            ("menu.help", "ヘルプ"),
            ("menu.file.newFile", "新規ファイル"),
            ("menu.file.save", "保存"),
            ("welcome.title", "SideX へようこそ"),
        ]
    } else if str_eq(locale, "ko") {
        vec![
            ("menu.file", "파일"),
            ("menu.edit", "편집"),
            ("menu.view", "보기"),
            ("menu.help", "도움말"),
            ("menu.file.newFile", "새 파일"),
            ("menu.file.save", "저장"),
            ("welcome.title", "SideX에 오신 것을 환영합니다"),
        ]
    } else if str_eq(locale, "de") {
        vec![
            ("menu.file", "Datei"),
            ("menu.edit", "Bearbeiten"),
            ("menu.view", "Ansicht"),
            ("menu.help", "Hilfe"),
            ("menu.file.newFile", "Neue Datei"),
            ("menu.file.save", "Speichern"),
            ("welcome.title", "Willkommen bei SideX"),
        ]
    } else if str_eq(locale, "fr") {
        vec![
            ("menu.file", "Fichier"),
            ("menu.edit", "Modifier"),
            ("menu.view", "Affichage"),
            ("menu.help", "Aide"),
            ("menu.file.newFile", "Nouveau fichier"),
            ("menu.file.save", "Enregistrer"),
            ("welcome.title", "Bienvenue dans SideX"),
        ]
    } else if str_eq(locale, "es") {
        vec![
            ("menu.file", "Archivo"),
            ("menu.edit", "Editar"),
            ("menu.view", "Ver"),
            ("menu.help", "Ayuda"),
            ("menu.file.newFile", "Nuevo archivo"),
            ("menu.file.save", "Guardar"),
            ("welcome.title", "Bienvenido a SideX"),
        ]
    } else if str_eq(locale, "pt-br") {
        vec![
            ("menu.file", "Arquivo"),
            ("menu.edit", "Editar"),
            ("menu.view", "Exibir"),
            ("menu.help", "Ajuda"),
            ("menu.file.newFile", "Novo Arquivo"),
            ("menu.file.save", "Salvar"),
            ("welcome.title", "Bem-vindo ao SideX"),
        ]
    } else if str_eq(locale, "ru") {
        vec![
            ("menu.file", "Файл"),
            ("menu.edit", "Правка"),
            ("menu.view", "Вид"),
            ("menu.help", "Справка"),
            ("menu.file.newFile", "Новый файл"),
            ("menu.file.save", "Сохранить"),
            ("welcome.title", "Добро пожаловать в SideX"),
        ]
    } else if str_eq(locale, "it") {
        vec![
            ("menu.file", "File"),
            ("menu.edit", "Modifica"),
            ("menu.view", "Visualizza"),
            ("menu.help", "Guida"),
            ("menu.file.newFile", "Nuovo file"),
            ("menu.file.save", "Salva"),
            ("welcome.title", "Benvenuto in SideX"),
        ]
    } else if str_eq(locale, "pl") {
        vec![
            ("menu.file", "Plik"),
            ("menu.edit", "Edycja"),
            ("menu.view", "Widok"),
            ("menu.help", "Pomoc"),
            ("menu.file.newFile", "Nowy plik"),
            ("menu.file.save", "Zapisz"),
            ("welcome.title", "Witamy w SideX"),
        ]
    } else if str_eq(locale, "tr") {
        vec![
            ("menu.file", "Dosya"),
            ("menu.edit", "Düzenle"),
            ("menu.view", "Görünüm"),
            ("menu.help", "Yardım"),
            ("menu.file.newFile", "Yeni Dosya"),
            ("menu.file.save", "Kaydet"),
            ("welcome.title", "SideX'e Hoş Geldiniz"),
        ]
    } else if str_eq(locale, "cs") {
        vec![
            ("menu.file", "Soubor"),
            ("menu.edit", "Úpravy"),
            ("menu.view", "Zobrazení"),
            ("menu.help", "Nápověda"),
            ("menu.file.newFile", "Nový soubor"),
            ("menu.file.save", "Uložit"),
            ("welcome.title", "Vítejte v SideX"),
        ]
    } else {
        Vec::new()
    };
    let r = owned_pairs(pairs.as_slice());
    assert(str_pair_views(pairs@) =~= locale_table(locale@));
    r
}

} // verus!
