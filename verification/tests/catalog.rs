use oobe::catalog::{find_lang_by_text, Lang};

fn entry(locale: &str, text: &str) -> Lang {
    Lang {
        lang_english: String::from(text),
        lang: String::from(locale),
        locale: String::from(locale),
        text: String::from(text),
        data: String::from(locale),
    }
}

#[test]
fn label_resolves_to_its_entry() {
    let langs = vec![
        entry("en_US.UTF-8", "English"),
        entry("zh_CN.UTF-8", "简体中文"),
        entry("de_DE.UTF-8", "Deutsch"),
    ];
    assert_eq!(find_lang_by_text(&langs, "简体中文"), Some(1));
    assert_eq!(langs[1].locale, "zh_CN.UTF-8");
}

#[test]
fn missing_label_resolves_to_none() {
    let langs = vec![entry("en_US.UTF-8", "English")];
    assert_eq!(find_lang_by_text(&langs, "Klingon"), None);
}

#[test]
fn first_matching_entry_wins() {
    let langs = vec![
        entry("en_US.UTF-8", "English"),
        entry("en_GB.UTF-8", "English"),
    ];
    assert_eq!(find_lang_by_text(&langs, "English"), Some(0));
}

#[test]
fn empty_catalog_has_no_entries() {
    let langs: Vec<Lang> = Vec::new();
    assert_eq!(find_lang_by_text(&langs, "English"), None);
}
