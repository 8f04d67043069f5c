//! Translation of user-visible text: locale selection, message catalogs and
//! `{name}` placeholder substitution.
use vstd::prelude::*;

use crate::text::{
    chars_eq_str, chars_start_with_str, has_prefix, lower_seq, str_chars, string_from_chars,
    to_ascii_lower, trim_chars, trim_seq, replace, replace_all, concat, push_char, str_eq,
};

verus! {

/// A supported user-interface language.
#[derive(Debug, Clone, Copy, PartialEq, Eq, Structural)]
pub enum Locale {
    En,
    ZhCn,
}

/// The locale that a normalised (trimmed, lower-cased) tag names.
pub open spec fn locale_of_normalized_tag(t: Seq<char>) -> Option<Locale> {
    if t == "en"@ || has_prefix(t, "en-"@) || has_prefix(t, "en_"@) {
        Some(Locale::En)
    } else if t == "zh"@ || t == "zh-cn"@ || t == "zh_cn"@ || has_prefix(t, "zh-cn."@)
        || has_prefix(t, "zh_cn."@) {
        Some(Locale::ZhCn)
    } else {
        None
    }
}

/// The locale that a language tag such as `en-US` or `zh_CN.UTF-8` names.
pub open spec fn spec_locale_from_tag(tag: Seq<char>) -> Option<Locale> {
    locale_of_normalized_tag(lower_seq(trim_seq(tag)))
}

/// Whether a preference asks for the system locale (`auto`, in any case).
pub open spec fn is_auto_preference(p: Seq<char>) -> bool {
    lower_seq(p) == "auto"@
}

/// The locale chosen for a preference, given the locale of the system.
pub open spec fn spec_locale_from_preference(p: Seq<char>, system: Locale) -> Locale {
    if is_auto_preference(p) {
        system
    } else {
        match spec_locale_from_tag(p) {
            Some(l) => l,
            None => Locale::En,
        }
    }
}

/// The locale named by the first of the given environment values that names
/// one (the values of `LC_ALL`, `LC_MESSAGES`, `LANGUAGE` and `LANG`, in this
/// order, `None` for an unset variable), English when none does.
pub open spec fn spec_locale_from_env(values: Seq<Option<Seq<char>>>) -> Locale
    decreases values.len(),
{
    if values.len() == 0 {
        Locale::En
    } else {
        match values[0] {
            Some(v) => match spec_locale_from_tag(v) {
                Some(l) => l,
                None => spec_locale_from_env(values.drop_first()),
            },
            None => spec_locale_from_env(values.drop_first()),
        }
    }
}

pub open spec fn opt_string_view(v: Option<String>) -> Option<Seq<char>> {
    match v {
        Some(s) => Some(s@),
        None => None,
    }
}

impl Locale {
    /// Parses a language tag, conservatively: only English and Simplified
    /// Chinese tags are recognised.
    pub fn from_tag(tag: &str) -> (r: Option<Locale>)
        ensures
            r == spec_locale_from_tag(tag@),
    {
        let cs = str_chars(tag);
        let (a, b) = trim_chars(&cs);
        let trimmed = string_from_chars(&cs, a, b);
        let lowered = to_ascii_lower(trimmed.as_str());
        let t = str_chars(lowered.as_str());
        if chars_eq_str(&t, "en") || chars_start_with_str(&t, "en-") || chars_start_with_str(&t, "en_") {
            Some(Locale::En)
        } else if chars_eq_str(&t, "zh") || chars_eq_str(&t, "zh-cn") || chars_eq_str(&t, "zh_cn")
            || chars_start_with_str(&t, "zh-cn.") || chars_start_with_str(&t, "zh_cn.") {
            Some(Locale::ZhCn)
        } else {
            None
        }
    }

    /// The system locale, from the values of the locale environment
    /// variables `LC_ALL`, `LC_MESSAGES`, `LANGUAGE` and `LANG` (in this order).
    pub fn from_env_values(values: &Vec<Option<String>>) -> (r: Locale)
        ensures
            r == spec_locale_from_env(values@.map_values(|v: Option<String>| opt_string_view(v))),
    {
        let ghost vs = values@.map_values(|v: Option<String>| opt_string_view(v));
        let mut i: usize = values.len();
        let mut r = Locale::En;
        // Walk backwards: `r` is the answer for the suffix starting at `i`.
        assert(vs.skip(i as int) =~= Seq::<Option<Seq<char>>>::empty());
        while i > 0
            invariant
                i <= values@.len(),
                vs == values@.map_values(|v: Option<String>| opt_string_view(v)),
                r == spec_locale_from_env(vs.skip(i as int)),
            decreases i,
        {
            i = i - 1;
            assert(vs.skip(i as int).drop_first() =~= vs.skip(i + 1));
            match &values[i] {
                Some(v) => {
                    match Locale::from_tag(v.as_str()) {
                        Some(l) => {
                            r = l;
                        },
                        None => {},
                    }
                },
                None => {},
            }
        }
        assert(vs.skip(0) =~= vs);
        r
    }

    /// The locale for a user preference: `auto` (in any case) selects the
    /// `system` locale; an unrecognised tag selects English.
    pub fn from_preference(preference: &str, system: Locale) -> (r: Locale)
        ensures
            r == spec_locale_from_preference(preference@, system),
    {
        let lowered = to_ascii_lower(preference);
        let t = str_chars(lowered.as_str());
        if chars_eq_str(&t, "auto") {
            system
        } else {
            match Locale::from_tag(preference) {
                Some(l) => l,
                None => Locale::En,
            }
        }
    }
}


/// The value of the first entry whose key is `key`.
pub open spec fn lookup(entries: Seq<(String, String)>, key: Seq<char>) -> Option<Seq<char>>
    decreases entries.len(),
{
    if entries.len() == 0 {
        None
    } else if entries[0].0@ == key {
        Some(entries[0].1@)
    } else {
        lookup(entries.drop_first(), key)
    }
}

/// Tags are read conservatively: a tag selects Simplified Chinese only when,
/// trimmed and lower-cased, it is `zh` or a `zh-cn` / `zh_cn` tag, so that
/// other Chinese variants such as `zh-TW` keep the English default.
pub proof fn law_only_simplified_chinese_tags_select_chinese(tag: Seq<char>)
    ensures
        spec_locale_from_tag(tag) == Some(Locale::ZhCn) ==> ({
            let t = lower_seq(trim_seq(tag));
            t == "zh"@ || has_prefix(t, "zh-cn"@) || has_prefix(t, "zh_cn"@)
        }),
{
    let t = lower_seq(trim_seq(tag));
    reveal_strlit("zh-cn");
    reveal_strlit("zh_cn");
    reveal_strlit("zh-cn.");
    reveal_strlit("zh_cn.");
    if has_prefix(t, "zh-cn."@) {
        assert(t.subrange(0, 5) =~= "zh-cn"@);
    }
    if has_prefix(t, "zh_cn."@) {
        assert(t.subrange(0, 5) =~= "zh_cn"@);
    }
    if t == "zh-cn"@ {
        assert(t.subrange(0, 5) =~= "zh-cn"@);
    }
    if t == "zh_cn"@ {
        assert(t.subrange(0, 5) =~= "zh_cn"@);
    }
}

/// A preference other than `auto` selects its locale whatever the system's
/// locale is, and English when it names no supported locale.
pub proof fn law_explicit_preference_ignores_the_system(p: Seq<char>, a: Locale, b: Locale)
    requires
        !is_auto_preference(p),
    ensures
        spec_locale_from_preference(p, a) == spec_locale_from_preference(p, b),
        spec_locale_from_tag(p) is None ==> spec_locale_from_preference(p, a) == Locale::En,
{
}

/// English tags select English: a tag that, trimmed and lower-cased, is
/// `en` or begins with `en-` or `en_` (such as ` EN `, `en-US`,
/// `en_GB.UTF-8`).
pub proof fn law_english_tags_select_english(tag: Seq<char>)
    requires
        ({
            let t = lower_seq(trim_seq(tag));
            t == "en"@ || has_prefix(t, "en-"@) || has_prefix(t, "en_"@)
        }),
    ensures
        spec_locale_from_tag(tag) == Some(Locale::En),
{
}

/// Simplified Chinese tags select Simplified Chinese: a tag that, trimmed
/// and lower-cased, is `zh`, `zh-cn` or `zh_cn`, or one of the latter two
/// followed by `.` and an encoding (such as `zh_CN.UTF-8`).
pub proof fn law_simplified_chinese_tags_select_chinese(tag: Seq<char>)
    requires
        ({
            let t = lower_seq(trim_seq(tag));
            t == "zh"@ || t == "zh-cn"@ || t == "zh_cn"@ || has_prefix(t, "zh-cn."@) || has_prefix(t, "zh_cn."@)
        }),
    ensures
        spec_locale_from_tag(tag) == Some(Locale::ZhCn),
{
    let t = lower_seq(trim_seq(tag));
    reveal_strlit("en");
    reveal_strlit("en-");
    reveal_strlit("en_");
    reveal_strlit("zh");
    reveal_strlit("zh-cn");
    reveal_strlit("zh_cn");
    reveal_strlit("zh-cn.");
    reveal_strlit("zh_cn.");
    if has_prefix(t, "zh-cn."@) {
        assert(t.subrange(0, 6)[0] == t[0]);
    } else if has_prefix(t, "zh_cn."@) {
        assert(t.subrange(0, 6)[0] == t[0]);
    }
    assert(t.len() >= 2 && t[0] == 'z');
    if has_prefix(t, "en-"@) || has_prefix(t, "en_"@) {
        assert(t.subrange(0, 3)[0] == t[0]);
    }
}

/// The system locale is that of the first environment value that names a
/// supported locale, whatever the later values name; English when none
/// does.
pub proof fn law_first_named_locale_wins(values: Seq<Option<Seq<char>>>, i: int)
    requires
        0 <= i < values.len(),
        values[i] matches Some(v) && spec_locale_from_tag(v) is Some,
        forall|j: int| 0 <= j < i ==> match #[trigger] values[j] {
            Some(v) => spec_locale_from_tag(v) is None,
            None => true,
        },
    ensures
        spec_locale_from_env(values) == spec_locale_from_tag(values[i]->0)->0,
    decreases i,
{
    if i > 0 {
        let rest = values.drop_first();
        assert forall|j: int| 0 <= j < i - 1 implies match #[trigger] rest[j] {
            Some(v) => spec_locale_from_tag(v) is None,
            None => true,
        } by {
            assert(rest[j] == values[j + 1]);
        }
        assert(rest[i - 1] == values[i]);
        law_first_named_locale_wins(rest, i - 1);
    }
}

/// Without any environment value that names a supported locale, the system
/// locale is English.
pub proof fn law_no_named_locale_means_english(values: Seq<Option<Seq<char>>>)
    requires
        forall|j: int| 0 <= j < values.len() ==> match #[trigger] values[j] {
            Some(v) => spec_locale_from_tag(v) is None,
            None => true,
        },
    ensures
        spec_locale_from_env(values) == Locale::En,
    decreases values.len(),
{
    if values.len() > 0 {
        let rest = values.drop_first();
        assert forall|j: int| 0 <= j < rest.len() implies match #[trigger] rest[j] {
            Some(v) => spec_locale_from_tag(v) is None,
            None => true,
        } by {
            assert(rest[j] == values[j + 1]);
        }
        law_no_named_locale_means_english(rest);
    }
}

/// No key occurs twice among the entries.
pub open spec fn distinct_keys(entries: Seq<(String, String)>) -> bool {
    forall|i: int, j: int| 0 <= i < j < entries.len() ==> #[trigger] entries[i].0@ != #[trigger] entries[j].0@
}

/// The messages of one locale: pairs of a message key and its text, each
/// key once (a table of messages).
#[derive(Debug)]
pub struct Catalog {
    pub entries: Vec<(String, String)>,
}

impl Catalog {
    /// Each key occurs once.
    pub open spec fn wf(&self) -> bool {
        distinct_keys(self.entries@)
    }

    pub open spec fn spec_get(&self, key: Seq<char>) -> Option<Seq<char>> {
        lookup(self.entries@, key)
    }

    /// A catalog holding the given entries, whose keys are distinct.
    pub fn new(entries: Vec<(String, String)>) -> (r: Catalog)
        requires
            distinct_keys(entries@),
        ensures
            r.entries@ == entries@,
            r.wf(),
    {
        Catalog { entries }
    }

    /// The text that the catalog holds for `key`.
    pub fn get(&self, key: &str) -> (r: Option<String>)
        ensures
            opt_string_view(r) == self.spec_get(key@),
    {
        let mut i: usize = 0;
        let n = self.entries.len();
        assert(self.entries@.skip(0) =~= self.entries@);
        while i < n
            invariant
                n == self.entries@.len(),
                i <= n,
                lookup(self.entries@.skip(i as int), key@) == lookup(self.entries@, key@),
            decreases n - i,
        {
            assert(self.entries@.skip(i as int).drop_first() =~= self.entries@.skip(i + 1));
            if str_eq(self.entries[i].0.as_str(), key) {
                return Some(self.entries[i].1.clone());
            }
            i = i + 1;
        }
        None
    }
}

/// The messages of a list of entries, by key; the first entry of a key
/// wins, as in [`lookup`].
pub open spec fn entries_map(entries: Seq<(String, String)>) -> Map<Seq<char>, Seq<char>>
    decreases entries.len(),
{
    if entries.len() == 0 {
        Map::empty()
    } else {
        entries_map(entries.drop_first()).insert(entries[0].0@, entries[0].1@)
    }
}

/// Looking a key up in the entries is looking it up in their map.
pub proof fn lemma_entries_map_lookup(entries: Seq<(String, String)>, key: Seq<char>)
    ensures
        lookup(entries, key) == (if entries_map(entries).contains_key(key) {
            Some(entries_map(entries)[key])
        } else {
            None
        }),
    decreases entries.len(),
{
    if entries.len() > 0 {
        lemma_entries_map_lookup(entries.drop_first(), key);
    }
}

/// The table of strings that a TOML document holds, where it is a valid
/// TOML document whose values are all strings.
pub uninterp spec fn spec_toml_string_table(source: Seq<char>) -> Option<Map<Seq<char>, Seq<char>>>;

/// `toml::from_str::<HashMap<String, String>>(source)`, as a list of
/// entries.
///
/// Trusted: the outcome is named `spec_toml_string_table` of the source; a
/// parsed table is returned as its entries, each key once (the keys of a
/// hash map are distinct). The order of the entries is that in which the
/// hash map is walked, and is not stated.
#[verifier::external_body]
fn toml_string_table(source: &str) -> (r: Option<Vec<(String, String)>>)
    ensures
        match r {
            Some(entries) => spec_toml_string_table(source@) == Some(entries_map(entries@))
                && distinct_keys(entries@),
            None => spec_toml_string_table(source@) is None,
        },
{
    match toml::from_str::<std::collections::HashMap<String, String>>(source) {
        Ok(table) => Some(table.into_iter().collect()),
        Err(_) => None,
    }
}

/// The catalog of a locale file: the TOML table of its messages, each key
/// answered with its message; `None` where the file is not a TOML table of
/// strings (which an application shipping its locale files treats as a
/// fatal error).
pub fn try_parse_locale(source: &str) -> (r: Option<Catalog>)
    ensures
        match r {
            Some(c) => {
                &&& c.wf()
                &&& Some(entries_map(c.entries@)) == spec_toml_string_table(source@)
                &&& forall|key: Seq<char>|
                    #[trigger] c.spec_get(key) == (if spec_toml_string_table(source@)->0.contains_key(key) {
                        Some(spec_toml_string_table(source@)->0[key])
                    } else {
                        None
                    })
            },
            None => spec_toml_string_table(source@) is None,
        },
{
    match toml_string_table(source) {
        Some(entries) => {
            let c = Catalog { entries };
            assert forall|key: Seq<char>|
                #[trigger] c.spec_get(key) == (if spec_toml_string_table(source@)->0.contains_key(key) {
                    Some(spec_toml_string_table(source@)->0[key])
                } else {
                    None
                }) by {
                lemma_entries_map_lookup(c.entries@, key);
            }
            Some(c)
        },
        None => None,
    }
}

/// `{name}`: the placeholder that stands for the argument `name`.
pub open spec fn braced(name: Seq<char>) -> Seq<char> {
    seq!['{'] + name + seq!['}']
}

/// The views of named arguments.
pub open spec fn args_view(args: Seq<(&str, &str)>) -> Seq<(Seq<char>, Seq<char>)> {
    args.map_values(|a: (&str, &str)| (a.0@, a.1@))
}

/// `template` with each argument's placeholder replaced by its value, the
/// arguments taken in order.
pub open spec fn substitute_spec(template: Seq<char>, args: Seq<(Seq<char>, Seq<char>)>) -> Seq<char>
    decreases args.len(),
{
    if args.len() == 0 {
        template
    } else {
        replace_all(
            substitute_spec(template, args.drop_last()),
            braced(args.last().0),
            args.last().1,
        )
    }
}

/// Substituting arguments one list after another is substituting them all
/// at once; substituting nothing leaves the template as it is; and one
/// argument replaces every `{name}` of the template, left to right, without
/// looking again at what it put in.
pub proof fn law_substitute_composes(
    template: Seq<char>,
    a: Seq<(Seq<char>, Seq<char>)>,
    b: Seq<(Seq<char>, Seq<char>)>,
    name: Seq<char>,
    value: Seq<char>,
)
    ensures
        substitute_spec(template, a + b) == substitute_spec(substitute_spec(template, a), b),
        substitute_spec(template, Seq::empty()) == template,
        substitute_spec(template, seq![(name, value)]) == replace_all(template, braced(name), value),
    decreases b.len(),
{
    if b.len() > 0 {
        law_substitute_composes(template, a, b.drop_last(), name, value);
        assert((a + b).drop_last() =~= a + b.drop_last());
        assert((a + b).last() == b.last());
    } else {
        assert(a + b =~= a);
    }
    let one = seq![(name, value)];
    assert(one.drop_last() =~= Seq::<(Seq<char>, Seq<char>)>::empty());
    assert(one.last() == (name, value));
    assert(substitute_spec(template, one.drop_last()) == template);
    assert(substitute_spec(template, one) == replace_all(
        substitute_spec(template, one.drop_last()),
        braced(one.last().0),
        one.last().1,
    ));
}

/// Replaces every `{name}` placeholder of `template` by the value given for
/// `name`.
pub fn substitute(template: &str, args: &[(&str, &str)]) -> (r: String)
    ensures
        r@ == substitute_spec(template@, args_view(args@)),
{
    let mut result = String::from_str(template);
    let mut i: usize = 0;
    while i < args.len()
        invariant
            i <= args@.len(),
            result@ == substitute_spec(template@, args_view(args@).subrange(0, i as int)),
        decreases args.len() - i,
    {
        let (name, value) = args[i];
        let mut pat = String::new();
        push_char(&mut pat, '{');
        pat.append(name);
        push_char(&mut pat, '}');
        assert(pat@ =~= braced(name@));
        result = replace(result.as_str(), pat.as_str(), value);
        let ghost pre = args_view(args@).subrange(0, i + 1);
        assert(pre.drop_last() =~= args_view(args@).subrange(0, i as int));
        i = i + 1;
    }
    assert(args_view(args@).subrange(0, args@.len() as int) =~= args_view(args@));
    result
}

/// Translations for one window: the active locale and the catalogs of the
/// supported languages.
#[derive(Debug)]
pub struct I18n {
    pub locale: Locale,
    pub en: Catalog,
    pub zh_cn: Catalog,
}

impl I18n {
    /// The catalog of the active locale.
    pub open spec fn active(&self) -> Catalog {
        match self.locale {
            Locale::En => self.en,
            Locale::ZhCn => self.zh_cn,
        }
    }

    /// The message for `key`: from the active locale, else from English.
    pub open spec fn spec_template(&self, key: Seq<char>) -> Option<Seq<char>> {
        match self.active().spec_get(key) {
            Some(t) => Some(t),
            None => self.en.spec_get(key),
        }
    }

    /// The text shown for `key`: its message, or the key itself.
    pub open spec fn spec_text(&self, key: Seq<char>) -> Seq<char> {
        match self.spec_template(key) {
            Some(t) => t,
            None => key,
        }
    }

    /// The translation of `key`, or `fallback` where the translation is the
    /// key itself.
    pub open spec fn spec_text_or(&self, key: Seq<char>, fallback: Seq<char>) -> Seq<char> {
        if self.spec_text(key) == key {
            fallback
        } else {
            self.spec_text(key)
        }
    }

    /// Translations for the locale chosen by `preference` (see
    /// [`Locale::from_preference`]).
    pub fn new(preference: &str, system: Locale, en: Catalog, zh_cn: Catalog) -> (r: I18n)
        ensures
            r.locale == spec_locale_from_preference(preference@, system),
            r.en == en,
            r.zh_cn == zh_cn,
    {
        I18n { locale: Locale::from_preference(preference, system), en, zh_cn }
    }

    pub fn locale(&self) -> (r: Locale)
        ensures
            r == self.locale,
    {
        self.locale
    }

    /// Switches to the locale chosen by `preference`.
    pub fn set_preference(&mut self, preference: &str, system: Locale)
        ensures
            final(self).locale == spec_locale_from_preference(preference@, system),
            final(self).en == old(self).en,
            final(self).zh_cn == old(self).zh_cn,
    {
        self.locale = Locale::from_preference(preference, system);
    }

    fn template(&self, key: &str) -> (r: Option<String>)
        ensures
            opt_string_view(r) == self.spec_template(key@),
    {
        let first = match self.locale {
            Locale::En => self.en.get(key),
            Locale::ZhCn => self.zh_cn.get(key),
        };
        match first {
            Some(t) => Some(t),
            None => self.en.get(key),
        }
    }

    /// The translation of `key`; the key itself where no catalog has it.
    pub fn text(&self, key: &str) -> (r: String)
        ensures
            r@ == self.spec_text(key@),
    {
        match self.template(key) {
            Some(t) => t,
            None => String::from_str(key),
        }
    }

    /// Translates `key`, substituting `{name}` placeholders with the given
    /// arguments; `fallback` is the template where no catalog has the key.
    pub fn text_with_args(&self, key: &str, fallback: &str, args: &[(&str, &str)]) -> (r: String)
        ensures
            r@ == substitute_spec(
                match self.spec_template(key@) {
                    Some(t) => t,
                    None => fallback@,
                },
                args_view(args@),
            ),
    {
        match self.template(key) {
            Some(template) => substitute(template.as_str(), args),
            None => substitute(fallback, args),
        }
    }

    fn text_or(&self, key: &str, fallback: &str) -> (r: String)
        ensures
            r@ == self.spec_text_or(key@, fallback@),
    {
        let translated = self.text(key);
        if str_eq(translated.as_str(), key) {
            String::from_str(fallback)
        } else {
            translated
        }
    }

    /// The description of the command `command_id`: its `command.<id>`
    /// message, else the built-in `fallback`.
    pub fn command_text(&self, command_id: &str, fallback: &str) -> (r: String)
        ensures
            r@ == self.spec_text_or("command."@ + command_id@, fallback@),
    {
        let key = concat("command.", command_id);
        self.text_or(key.as_str(), fallback)
    }

    /// The `part` (name or description) of the setting `field` of the
    /// settings group `kind`: its `settings.item.<kind>.<field>.<part>`
    /// message (with `kind` lower-cased), else `fallback`.
    pub fn setting_text(&self, kind: &str, field: &str, part: &str, fallback: &str) -> (r: String)
        ensures
            r@ == self.spec_text_or(
                "settings.item."@ + lower_seq(kind@) + "."@ + field@ + "."@ + part@,
                fallback@,
            ),
    {
        let kind_lower = to_ascii_lower(kind);
        let mut key = concat("settings.item.", kind_lower.as_str());
        key.append(".");
        key.append(field);
        key.append(".");
        key.append(part);
        self.text_or(key.as_str(), fallback)
    }

    /// The label of the value `value` of the setting `field`: its
    /// `settings.value.<field>.<value>` message, else the value itself.
    pub fn setting_value_text(&self, field: &str, value: &str) -> (r: String)
        ensures
            r@ == self.spec_text_or("settings.value."@ + field@ + "."@ + value@, value@),
    {
        let mut key = concat("settings.value.", field);
        key.append(".");
        key.append(value);
        self.text_or(key.as_str(), value)
    }
}

/// Translates `key` for contexts that have no window-level translations,
/// such as native dialogs shown before the application state exists:
/// `system` holds the catalogs with the locale of the system.
pub fn system_text(system: &I18n, key: &str) -> (r: String)
    ensures
        r@ == system.spec_text(key@),
{
    system.text(key)
}

/// The index of the first `c` in `s`.
pub open spec fn find_char(s: Seq<char>, c: char) -> Option<int>
    decreases s.len(),
{
    if s.len() == 0 {
        None
    } else if s[0] == c {
        Some(0)
    } else {
        match find_char(s.drop_first(), c) {
            Some(i) => Some(i + 1),
            None => None,
        }
    }
}

pub proof fn lemma_find_char(s: Seq<char>, c: char)
    ensures
        find_char(s, c) matches Some(i) ==> 0 <= i < s.len() && s[i] == c && forall|j: int|
            0 <= j < i ==> s[j] != c,
        find_char(s, c) is None ==> forall|j: int| 0 <= j < s.len() ==> s[j] != c,
    decreases s.len(),
{
    if s.len() > 0 && s[0] != c {
        lemma_find_char(s.drop_first(), c);
        assert forall|j: int| 1 <= j < s.len() implies s[j] == s.drop_first()[j - 1] by {}
    }
}

/// Characters allowed in a placeholder name: ASCII letters, digits and `_`.
pub open spec fn is_name_char(c: char) -> bool {
    ('a' <= c && c <= 'z') || ('A' <= c && c <= 'Z') || ('0' <= c && c <= '9') || c == '_'
}

pub open spec fn is_placeholder_name(n: Seq<char>) -> bool {
    n.len() > 0 && forall|i: int| 0 <= i < n.len() ==> is_name_char(#[trigger] n[i])
}

/// The names of the `{name}` placeholders of `s`: scanning from the left, each
/// `{` is matched with the next `}`, and the text between them counts where it
/// is a non-empty run of name characters; scanning resumes after the `}`.
pub open spec fn placeholder_names(s: Seq<char>) -> Set<Seq<char>>
    decreases s.len(),
{
    match find_char(s, '{') {
        None => Set::empty(),
        Some(start) => {
            let after = s.skip(start + 1);
            match find_char(after, '}') {
                None => Set::empty(),
                Some(end) => {
                    proof {
                        lemma_find_char(s, '{');
                        lemma_find_char(after, '}');
                    }
                    let name = after.take(end);
                    let rest = after.skip(end + 1);
                    let found = if is_placeholder_name(name) {
                        set![name]
                    } else {
                        Set::empty()
                    };
                    found.union(placeholder_names(rest))
                },
            }
        },
    }
}

fn chars_is_name(cs: &Vec<char>, from: usize, to: usize) -> (r: bool)
    requires
        from <= to <= cs@.len(),
    ensures
        r == is_placeholder_name(cs@.subrange(from as int, to as int)),
{
    if from == to {
        return false;
    }
    let mut i = from;
    while i < to
        invariant
            from <= i <= to <= cs@.len(),
            forall|j: int| from <= j < i ==> is_name_char(#[trigger] cs@[j]),
        decreases to - i,
    {
        let c = cs[i];
        if !(('a' <= c && c <= 'z') || ('A' <= c && c <= 'Z') || ('0' <= c && c <= '9') || c == '_') {
            assert(!is_name_char(cs@.subrange(from as int, to as int)[i - from]));
            return false;
        }
        i = i + 1;
    }
    assert forall|k: int| 0 <= k < to - from implies is_name_char(
        #[trigger] cs@.subrange(from as int, to as int)[k],
    ) by {
        assert(cs@.subrange(from as int, to as int)[k] == cs@[from + k]);
    }
    true
}

fn find_from(cs: &Vec<char>, from: usize, c: char) -> (r: Option<usize>)
    requires
        from <= cs@.len(),
    ensures
        match find_char(cs@.skip(from as int), c) {
            Some(i) => r == Some((from + i) as usize),
            None => r is None,
        },
{
    let mut i = from;
    while i < cs.len()
        invariant
            from <= i <= cs@.len(),
            forall|j: int| from <= j < i ==> cs@[j] != c,
        decreases cs.len() - i,
    {
        if cs[i] == c {
            proof {
                lemma_find_char(cs@.skip(from as int), c);
                let t = cs@.skip(from as int);
                assert(t[i - from] == c);
                if let Some(k) = find_char(t, c) {
                    assert(t[k] == c);
                    assert(k >= i - from) by {
                        if k < i - from {
                            assert(cs@[from + k] == c);
                        }
                    }
                }
            }
            return Some(i);
        }
        i = i + 1;
    }
    proof {
        lemma_find_char(cs@.skip(from as int), c);
        let t = cs@.skip(from as int);
        if let Some(k) = find_char(t, c) {
            assert(cs@[from + k] == c);
        }
    }
    None
}

/// The distinct names of the `{name}` placeholders of `template`.
pub fn placeholders(template: &str) -> (r: Vec<String>)
    ensures
        r@.map_values(|n: String| n@).to_set() == placeholder_names(template@),
        forall|i: int, j: int| 0 <= i < j < r@.len() ==> r@[i]@ != r@[j]@,
{
    let cs = str_chars(template);
    let mut result: Vec<String> = Vec::new();
    let mut pos: usize = 0;
    assert(cs@.skip(0) =~= template@);
    loop
        invariant
            cs@ == template@,
            pos <= cs@.len(),
            result@.map_values(|n: String| n@).to_set().union(placeholder_names(cs@.skip(pos as int)))
                == placeholder_names(template@),
            forall|i: int, j: int| 0 <= i < j < result@.len() ==> result@[i]@ != result@[j]@,
        decreases cs@.len() - pos,
    {
        let ghost rest = cs@.skip(pos as int);
        let ghost found = result@.map_values(|n: String| n@).to_set();
        let start = match find_from(&cs, pos, '{') {
            Some(s) => s,
            None => {
                assert(placeholder_names(rest) =~= Set::empty());
                assert(found.union(Set::empty()) =~= found);
                return result;
            },
        };
        proof {
            lemma_find_char(rest, '{');
        }
        assert(start < cs.len());
        let end = match find_from(&cs, start + 1, '}') {
            Some(e) => e,
            None => {
                assert(rest.skip(start - pos + 1) =~= cs@.skip(start + 1));
                assert(placeholder_names(rest) =~= Set::empty());
                assert(found.union(Set::empty()) =~= found);
                return result;
            },
        };
        proof {
            lemma_find_char(cs@.skip(start + 1), '}');
            assert(rest.skip(start - pos + 1) =~= cs@.skip(start + 1));
            assert(cs@.skip(start + 1).take(end - start - 1) =~= cs@.subrange(start + 1, end as int));
            assert(cs@.skip(start + 1).skip(end - start - 1 + 1) =~= cs@.skip(end + 1));
        }
        let ghost name = cs@.subrange(start + 1, end as int);
        if chars_is_name(&cs, start + 1, end) {
            let mut k: usize = 0;
            let mut present = false;
            while k < result.len()
                invariant
                    k <= result@.len(),
                    start + 1 <= end <= cs@.len(),
                    name == cs@.subrange(start + 1, end as int),
                    present ==> exists|m: int| 0 <= m < k && #[trigger] result@[m]@ == name,
                    !present ==> forall|m: int| 0 <= m < k ==> #[trigger] result@[m]@ != name,
                decreases result.len() - k,
            {
                let n = string_from_chars(&cs, start + 1, end);
                if result[k] == n {
                    present = true;
                }
                k = k + 1;
            }
            if !present {
                let n = string_from_chars(&cs, start + 1, end);
                let ghost old_result = result@;
                result.push(n);
                assert(result@.map_values(|n: String| n@) =~= old_result.map_values(|n: String| n@).push(name));
                proof {
                    old_result.map_values(|n: String| n@).lemma_push_to_set_commute(name);
                }
                assert(result@.map_values(|n: String| n@).to_set() =~= found.insert(name));
                assert(found.insert(name).union(placeholder_names(cs@.skip(end + 1))) =~= found.union(
                    set![name].union(placeholder_names(cs@.skip(end + 1))),
                ));
            } else {
                assert(found.contains(name)) by {
                    let m = choose|m: int| 0 <= m < k && #[trigger] result@[m]@ == name;
                    assert(result@.map_values(|n: String| n@)[m] == name);
                }
                assert(found.union(placeholder_names(cs@.skip(end + 1))) =~= found.union(
                    set![name].union(placeholder_names(cs@.skip(end + 1))),
                ));
            }
        } else {
            assert(found.union(placeholder_names(cs@.skip(end + 1))) =~= found.union(
                Set::<Seq<char>>::empty().union(placeholder_names(cs@.skip(end + 1))),
            ));
        }
        pos = end + 1;
    }
}
/// A key has a message in entries exactly when some entry has that key.
pub proof fn lemma_lookup_some(entries: Seq<(String, String)>, key: Seq<char>)
    ensures
        (lookup(entries, key) is Some) == (exists|i: int| 0 <= i < entries.len() && #[trigger] entries[i].0@ == key),
    decreases entries.len(),
{
    if entries.len() > 0 {
        let rest = entries.drop_first();
        lemma_lookup_some(rest, key);
        if entries[0].0@ != key {
            if exists|i: int| 0 <= i < entries.len() && #[trigger] entries[i].0@ == key {
                let i = choose|i: int| 0 <= i < entries.len() && #[trigger] entries[i].0@ == key;
                assert(i > 0);
                assert(rest[i - 1].0@ == key);
            }
            if exists|i: int| 0 <= i < rest.len() && #[trigger] rest[i].0@ == key {
                let i = choose|i: int| 0 <= i < rest.len() && #[trigger] rest[i].0@ == key;
                assert(entries[i + 1].0@ == key);
            }
        } else {
            assert(entries[0].0@ == key);
        }
    }
}

/// Both catalogs have a message for the same keys.
pub open spec fn same_keys(a: Catalog, b: Catalog) -> bool {
    forall|k: Seq<char>|
        #![trigger a.spec_get(k)]
        #![trigger b.spec_get(k)]
        (a.spec_get(k) is Some) == (b.spec_get(k) is Some)
}

/// For each key that both catalogs have, their messages name the same
/// placeholders.
pub open spec fn same_placeholders(a: Catalog, b: Catalog) -> bool {
    forall|k: Seq<char>|
        #![trigger a.spec_get(k)]
        #![trigger b.spec_get(k)]
        a.spec_get(k) is Some && b.spec_get(k) is Some ==> placeholder_names(a.spec_get(k)->0)
            == placeholder_names(b.spec_get(k)->0)
}

/// The names of a list of names.
pub open spec fn names_view(names: Seq<String>) -> Seq<Seq<char>> {
    names.map_values(|n: String| n@)
}

fn has_name(names: &Vec<String>, name: &str) -> (r: bool)
    ensures
        r == names_view(names@).contains(name@),
{
    let mut i: usize = 0;
    while i < names.len()
        invariant
            i <= names@.len(),
            forall|j: int| 0 <= j < i ==> names@[j]@ != name@,
        decreases names.len() - i,
    {
        if str_eq(names[i].as_str(), name) {
            assert(names_view(names@)[i as int] == name@);
            return true;
        }
        i = i + 1;
    }
    proof {
        if names_view(names@).contains(name@) {
            let j = choose|j: int| 0 <= j < names_view(names@).len() && names_view(names@)[j] == name@;
            assert(names@[j]@ == name@);
        }
    }
    false
}

/// Whether two lists of names hold the same names.
fn same_names(x: &Vec<String>, y: &Vec<String>) -> (r: bool)
    ensures
        r == (names_view(x@).to_set() == names_view(y@).to_set()),
{
    let mut i: usize = 0;
    while i < x.len()
        invariant
            i <= x@.len(),
            forall|j: int| 0 <= j < i ==> names_view(y@).contains(#[trigger] names_view(x@)[j]),
        decreases x.len() - i,
    {
        if !has_name(y, x[i].as_str()) {
            assert(names_view(x@)[i as int] == x@[i as int]@);
            assert(names_view(x@).to_set().contains(x@[i as int]@));
            assert(!names_view(y@).to_set().contains(x@[i as int]@));
            return false;
        }
        assert(names_view(x@)[i as int] == x@[i as int]@);
        i = i + 1;
    }
    let mut k: usize = 0;
    while k < y.len()
        invariant
            k <= y@.len(),
            forall|j: int| 0 <= j < x@.len() ==> names_view(y@).contains(#[trigger] names_view(x@)[j]),
            forall|j: int| 0 <= j < k ==> names_view(x@).contains(#[trigger] names_view(y@)[j]),
        decreases y.len() - k,
    {
        if !has_name(x, y[k].as_str()) {
            assert(names_view(y@)[k as int] == y@[k as int]@);
            assert(names_view(y@).to_set().contains(y@[k as int]@));
            assert(!names_view(x@).to_set().contains(y@[k as int]@));
            return false;
        }
        assert(names_view(y@)[k as int] == y@[k as int]@);
        k = k + 1;
    }
    assert(names_view(x@).to_set() =~= names_view(y@).to_set()) by {
        assert forall|v: Seq<char>| names_view(x@).to_set().contains(v) implies names_view(y@).to_set().contains(v) by {
            let j = choose|j: int| 0 <= j < names_view(x@).len() && names_view(x@)[j] == v;
        }
        assert forall|v: Seq<char>| names_view(y@).to_set().contains(v) implies names_view(x@).to_set().contains(v) by {
            let j = choose|j: int| 0 <= j < names_view(y@).len() && names_view(y@)[j] == v;
        }
    }
    true
}

/// Whether two locale catalogs agree: they have messages for the same keys,
/// and the messages of each key name the same placeholders, so that every
/// key is translated in both locales and the same arguments fill both.
pub fn catalogs_match(a: &Catalog, b: &Catalog) -> (r: bool)
    ensures
        r == (same_keys(*a, *b) && same_placeholders(*a, *b)),
{
    let mut i: usize = 0;
    while i < a.entries.len()
        invariant
            i <= a.entries@.len(),
            forall|j: int|
                0 <= j < i ==> b.spec_get(#[trigger] a.entries@[j].0@) is Some && a.spec_get(
                    a.entries@[j].0@,
                ) is Some && placeholder_names(a.spec_get(a.entries@[j].0@)->0) == placeholder_names(
                    b.spec_get(a.entries@[j].0@)->0,
                ),
        decreases a.entries.len() - i,
    {
        let key = a.entries[i].0.as_str();
        proof {
            lemma_lookup_some(a.entries@, key@);
            assert(a.entries@[i as int].0@ == key@);
        }
        let va = a.get(key);
        let vb = b.get(key);
        match (va, vb) {
            (Some(ta), Some(tb)) => {
                let pa = placeholders(ta.as_str());
                let pb = placeholders(tb.as_str());
                if !same_names(&pa, &pb) {
                    return false;
                }
            },
            _ => {
                return false;
            },
        }
        i = i + 1;
    }
    let mut k: usize = 0;
    while k < b.entries.len()
        invariant
            k <= b.entries@.len(),
            forall|j: int|
                0 <= j < a.entries@.len() ==> b.spec_get(#[trigger] a.entries@[j].0@) is Some && a.spec_get(
                    a.entries@[j].0@,
                ) is Some && placeholder_names(a.spec_get(a.entries@[j].0@)->0) == placeholder_names(
                    b.spec_get(a.entries@[j].0@)->0,
                ),
            forall|j: int| 0 <= j < k ==> a.spec_get(#[trigger] b.entries@[j].0@) is Some,
        decreases b.entries.len() - k,
    {
        let key = b.entries[k].0.as_str();
        match a.get(key) {
            Some(_) => {},
            None => {
                proof {
                    lemma_lookup_some(b.entries@, key@);
                    assert(b.entries@[k as int].0@ == key@);
                }
                return false;
            },
        }
        k = k + 1;
    }
    assert forall|key: Seq<char>| #![trigger a.spec_get(key)] #![trigger b.spec_get(key)]
        (a.spec_get(key) is Some) == (b.spec_get(key) is Some) && (a.spec_get(key) is Some && b.spec_get(key) is Some
            ==> placeholder_names(a.spec_get(key)->0) == placeholder_names(b.spec_get(key)->0)) by {
        lemma_lookup_some(a.entries@, key);
        lemma_lookup_some(b.entries@, key);
        if a.spec_get(key) is Some {
            let j = choose|j: int| 0 <= j < a.entries@.len() && #[trigger] a.entries@[j].0@ == key;
            assert(b.spec_get(a.entries@[j].0@) is Some);
        }
        if b.spec_get(key) is Some {
            let j = choose|j: int| 0 <= j < b.entries@.len() && #[trigger] b.entries@[j].0@ == key;
            assert(a.spec_get(b.entries@[j].0@) is Some);
        }
    }
    true
}

/// With catalogs that agree, no key of the English catalog falls back in
/// either locale: the active locale has the key, its template is the
/// active locale's message, and both locales' messages name the same
/// placeholders, so the same arguments fill them.
pub proof fn law_matching_catalogs_translate_every_key(i18n: I18n, key: Seq<char>)
    requires
        same_keys(i18n.en, i18n.zh_cn),
        i18n.en.spec_get(key) is Some,
    ensures
        i18n.active().spec_get(key) is Some,
        i18n.spec_template(key) == i18n.active().spec_get(key),
        same_placeholders(i18n.en, i18n.zh_cn) ==> placeholder_names(i18n.en.spec_get(key)->0)
            == placeholder_names(i18n.zh_cn.spec_get(key)->0),
{
    assert((i18n.en.spec_get(key) is Some) == (i18n.zh_cn.spec_get(key) is Some));
}

/// Where the active locale has a message for a key, and the message is
/// not the key itself, the command, setting and value texts that look the
/// key up are that message, whatever the fallback.
pub proof fn law_present_translation_is_used(i18n: I18n, key: Seq<char>, fallback: Seq<char>)
    requires
        i18n.active().spec_get(key) is Some,
        i18n.active().spec_get(key)->0 != key,
    ensures
        i18n.spec_text_or(key, fallback) == i18n.active().spec_get(key)->0,
{
}

/// The keys, in order, that a catalog has no message for.
pub open spec fn spec_missing_keys(catalog: Catalog, keys: Seq<Seq<char>>) -> Seq<Seq<char>> {
    keys.filter(|k: Seq<char>| catalog.spec_get(k) is None)
}

/// The keys that a catalog has no message for, in order (to check that
/// every command or setting has a translation).
pub fn missing_keys(catalog: &Catalog, keys: &Vec<String>) -> (r: Vec<String>)
    ensures
        names_view(r@) == spec_missing_keys(*catalog, names_view(keys@)),
{
    let mut r: Vec<String> = Vec::new();
    let mut i: usize = 0;
    let ghost f = |k: Seq<char>| catalog.spec_get(k) is None;
    while i < keys.len()
        invariant
            i <= keys@.len(),
            f == (|k: Seq<char>| catalog.spec_get(k) is None),
            names_view(r@) == names_view(keys@).subrange(0, i as int).filter(f),
        decreases keys.len() - i,
    {
        let ghost pre = names_view(keys@).subrange(0, i as int);
        assert(names_view(keys@).subrange(0, i + 1) =~= pre.push(keys@[i as int]@));
        proof {
            reveal(Seq::filter);
            assert(pre.push(keys@[i as int]@).drop_last() =~= pre);
        }
        if catalog.get(keys[i].as_str()).is_none() {
            let ghost before = r@;
            r.push(keys[i].clone());
            assert(names_view(r@) =~= names_view(before).push(keys@[i as int]@));
        }
        i = i + 1;
    }
    assert(names_view(keys@).subrange(0, keys@.len() as int) =~= names_view(keys@));
    r
}

/// Whether a text holds a CJK ideograph (U+3400 to U+9FFF): a message
/// actually translated into Chinese does.
pub fn contains_cjk(text: &str) -> (r: bool)
    ensures
        r == exists|i: int| 0 <= i < text@.len() && '\u{3400}' <= #[trigger] text@[i] && text@[i] <= '\u{9fff}',
{
    let cs = str_chars(text);
    let mut i: usize = 0;
    while i < cs.len()
        invariant
            cs@ == text@,
            i <= cs@.len(),
            forall|j: int| 0 <= j < i ==> !('\u{3400}' <= #[trigger] text@[j] && text@[j] <= '\u{9fff}'),
        decreases cs.len() - i,
    {
        let c = cs[i];
        if '\u{3400}' <= c && c <= '\u{9fff}' {
            assert(text@[i as int] == c);
            return true;
        }
        i = i + 1;
    }
    false
}

} // verus!
