use texas::i18n::{catalogs_match, contains_cjk, missing_keys, placeholders, substitute, system_text, try_parse_locale, Catalog, I18n, Locale};

fn catalog(entries: &[(&str, &str)]) -> Catalog {
    Catalog::new(entries.iter().map(|(k, v)| (k.to_string(), v.to_string())).collect())
}

fn i18n(preference: &str) -> I18n {
    let en = catalog(&[
        ("terminal.launch-error", "Terminal failed to launch. Error: {error}"),
        ("keymap.normal", "Normal"),
        ("panel.search", "Search"),
    ]);
    let zh = catalog(&[("keymap.normal", "普通")]);
    I18n::new(preference, Locale::En, en, zh)
}

#[test]
fn locale_tags_are_normalized_conservatively() {
    assert_eq!(Locale::from_preference("en-US", Locale::En), Locale::En);
    assert_eq!(Locale::from_preference("zh-CN", Locale::En), Locale::ZhCn);
    assert_ne!(Locale::from_tag("zh-TW"), Some(Locale::ZhCn));
    assert_eq!(Locale::from_preference("fr", Locale::En), Locale::En);
}

#[test]
fn substitute_replaces_every_occurrence() {
    assert_eq!(substitute("a {x} b {x}", &[("x", "1")]), "a 1 b 1");
}

#[test]
fn text_with_args_substitutes_named_placeholders() {
    let i18n = i18n("en");
    let text = i18n.text_with_args(
        "terminal.launch-error",
        "Terminal failed to launch. Error: {error}",
        &[("error", "boom")],
    );
    assert_eq!(text, "Terminal failed to launch. Error: boom");
}

#[test]
fn system_text_returns_key_when_missing() {
    let missing = format!("i18n.{}", "does-not-exist");
    assert_eq!(system_text(&i18n("auto"), &missing), missing);
}

#[test]
fn locale_tags_accept_region_and_encoding_forms() {
    assert_eq!(Locale::from_tag("  EN_gb "), Some(Locale::En));
    assert_eq!(Locale::from_tag("zh"), Some(Locale::ZhCn));
    assert_eq!(Locale::from_tag("zh_CN.UTF-8"), Some(Locale::ZhCn));
    assert_eq!(Locale::from_tag("zh-cn.gb2312"), Some(Locale::ZhCn));
    assert_eq!(Locale::from_tag("english"), None);
    assert_eq!(Locale::from_tag(""), None);
}

#[test]
fn auto_preference_uses_the_system_locale() {
    assert_eq!(Locale::from_preference("auto", Locale::ZhCn), Locale::ZhCn);
    assert_eq!(Locale::from_preference("AUTO", Locale::En), Locale::En);
    assert_eq!(Locale::from_preference("zh", Locale::En), Locale::ZhCn);
}

#[test]
fn system_locale_is_the_first_recognized_variable() {
    let values = vec![None, Some("C".to_string()), Some("zh_CN.UTF-8".to_string()), Some("en_US".to_string())];
    assert_eq!(Locale::from_env_values(&values), Locale::ZhCn);
    assert_eq!(Locale::from_env_values(&vec![None, Some("POSIX".to_string())]), Locale::En);
    assert_eq!(Locale::from_env_values(&vec![]), Locale::En);
}

#[test]
fn text_falls_back_to_english_then_to_the_key() {
    let zh = i18n("zh-CN");
    assert_eq!(zh.locale(), Locale::ZhCn);
    assert_eq!(zh.text("keymap.normal"), "普通");
    assert_eq!(zh.text("panel.search"), "Search");
    assert_eq!(zh.text("no.such.key"), "no.such.key");
}

#[test]
fn set_preference_switches_the_locale() {
    let mut t = i18n("en");
    assert_eq!(t.text("keymap.normal"), "Normal");
    t.set_preference("zh_CN", Locale::En);
    assert_eq!(t.locale(), Locale::ZhCn);
    assert_eq!(t.text("keymap.normal"), "普通");
}

#[test]
fn text_with_args_uses_the_fallback_template() {
    let t = i18n("en");
    assert_eq!(t.text_with_args("status.selected", "{base} ({count} selected)", &[("base", "Ln 1"), ("count", "3")]), "Ln 1 (3 selected)");
}

#[test]
fn command_and_setting_texts_fall_back() {
    let en = catalog(&[
        ("command.save", "Save file"),
        ("settings.item.editor.font-size.name", "Font Size"),
        ("settings.value.wrap-style.none", "No wrapping"),
    ]);
    let t = I18n::new("en", Locale::En, en, catalog(&[]));
    assert_eq!(t.command_text("save", "Save"), "Save file");
    assert_eq!(t.command_text("quit", "Quit"), "Quit");
    assert_eq!(t.setting_text("Editor", "font-size", "name", "Font size"), "Font Size");
    assert_eq!(t.setting_text("Editor", "font-size", "description", "Size of the font"), "Size of the font");
    assert_eq!(t.setting_value_text("wrap-style", "none"), "No wrapping");
    assert_eq!(t.setting_value_text("wrap-style", "editor-width"), "editor-width");
}

#[test]
fn placeholders_lists_each_name_once() {
    let mut names = placeholders("{a} and {b_1} and {a} but not {} or {x y} or {-}");
    names.sort();
    assert_eq!(names, vec!["a".to_string(), "b_1".to_string()]);
    assert!(placeholders("no braces {unclosed").is_empty());
}

#[test]
fn locale_file_is_parsed_as_a_table_of_strings() {
    let source = "\"keymap.normal\" = \"Normal\"\n\"status.selected\" = \"{base} ({count} selected)\"\n";
    let c = try_parse_locale(source).unwrap();
    assert_eq!(c.get("keymap.normal"), Some("Normal".to_string()));
    assert_eq!(c.get("status.selected"), Some("{base} ({count} selected)".to_string()));
    assert_eq!(c.get("missing"), None);
    assert_eq!(c.entries.len(), 2);
}

#[test]
fn malformed_locale_file_is_refused() {
    assert!(try_parse_locale("key = ").is_none());
    assert!(try_parse_locale("\"n\" = 3").is_none());
    assert!(try_parse_locale("\"k\" = \"v\"").is_some());
}

#[test]
fn substitution_composes() {
    let t = "{a}-{b}-{a}";
    let all = substitute(t, &[("a", "1"), ("b", "{a}")]);
    let stepwise = substitute(&substitute(t, &[("a", "1")]), &[("b", "{a}")]);
    assert_eq!(all, "1-{a}-1");
    assert_eq!(all, stepwise);
    assert_eq!(substitute(t, &[]), t);
    assert_eq!(substitute(t, &[("a", "x")]), t.replace("{a}", "x"));
}

#[test]
fn catalogs_agree_on_keys_and_placeholders() {
    let en = catalog(&[("a", "Open {path}"), ("b", "Close")]);
    let zh = catalog(&[("b", "关闭"), ("a", "打开 {path}")]);
    assert!(catalogs_match(&en, &zh));
    let missing = catalog(&[("a", "打开 {path}")]);
    assert!(!catalogs_match(&en, &missing));
    assert!(!catalogs_match(&missing, &en));
    let other_names = catalog(&[("a", "打开 {file}"), ("b", "关闭")]);
    assert!(!catalogs_match(&en, &other_names));
}

#[test]
fn keys_without_a_message_are_listed() {
    let zh = catalog(&[("command.save", "保存")]);
    let keys = vec!["command.save".to_string(), "command.quit".to_string(), "command.undo".to_string()];
    assert_eq!(missing_keys(&zh, &keys), vec!["command.quit".to_string(), "command.undo".to_string()]);
}

#[test]
fn translated_settings_hold_chinese_text() {
    let en = catalog(&[("settings.item.editor.font-size.name", "Font Size")]);
    let zh = catalog(&[("settings.item.editor.font-size.name", "字体大小")]);
    let t = I18n::new("zh-CN", Locale::En, en, zh);
    let text = t.setting_text("Editor", "font-size", "name", "Font size");
    assert_eq!(text, "字体大小");
    assert!(contains_cjk(&text));
    assert!(!contains_cjk("Font Size"));
}
