use givc_cli::locale::is_locale_value;
use givc_cli::locale_settings::{
    assigned_names, parse_locales, LocaleAssignment, LocaleError, LocaleKey, LocaleMacroKey,
};
use lazy_regex::Regex;

const PATTERN: &str =
    r"^(?:C|POSIX|[a-z]{2}(?:_[A-Z]{2})?(?:@[a-zA-Z0-9]+)?)(?:\.[-a-zA-Z0-9]+)?$";

fn strings(list: &[&str]) -> Vec<String> {
    list.iter().map(|s| s.to_string()).collect()
}

fn catalogue() -> Vec<LocaleKey> {
    vec![
        LocaleKey { name: "LANG".to_string(), key: LocaleMacroKey::Lang },
        LocaleKey { name: "LC_ALL".to_string(), key: LocaleMacroKey::LcAll },
        LocaleKey { name: "LC_TIME".to_string(), key: LocaleMacroKey::Other(5) },
        LocaleKey { name: "LC_PAPER".to_string(), key: LocaleMacroKey::Other(9) },
        LocaleKey { name: "LC_TIME".to_string(), key: LocaleMacroKey::Other(77) },
    ]
}

fn read(list: &[&str]) -> Result<Vec<(LocaleMacroKey, String)>, String> {
    match parse_locales(strings(list), &catalogue()) {
        Ok(settings) => Ok(settings
            .into_iter()
            .map(|LocaleAssignment { key, value }| (key, value))
            .collect()),
        Err(error) => Err(error.message()),
    }
}

#[test]
fn locales_are_recognised() {
    for good in [
        "C", "POSIX", "C.UTF-8", "POSIX.UTF-8", "en", "en_US", "en_US.UTF-8", "de@euro",
        "de_DE@euro", "de_DE@euro.ISO-8859-15", "fi.utf8", "aa.-", "zz_ZZ@0.0",
    ] {
        assert!(is_locale_value(good), "{good}");
    }
    for bad in [
        "", "c", "c.UTF-8", "C.", "C@euro", "POSIX@x", "e", "eng", "en_", "en_us", "en_USA", "EN",
        "en@", "en_US@", "en_US.", "en_US.UTF_8", "en.UTF-8@euro", "en_US.UTF-8\n", " en", "en ",
        "\u{e9}n", "en_US.UTF-8=", "LANG=C", "en@a-b", "POSIXX", "CC",
    ] {
        assert!(!is_locale_value(bad), "{bad}");
    }
}

#[test]
fn short_texts_agree_with_the_pattern() {
    let pattern = Regex::new(PATTERN).unwrap();
    let alphabet = ['C', 'a', 'Z', '_', '@', '.', '-', '5', '=', '\n', '\u{e9}'];
    let mut texts = vec![String::new()];
    let mut shorter = vec![String::new()];
    for _ in 0..5 {
        let mut longer = Vec::new();
        for text in &shorter {
            for c in alphabet {
                let mut next = text.clone();
                next.push(c);
                longer.push(next);
            }
        }
        texts.extend(longer.iter().cloned());
        shorter = longer;
    }
    for text in &texts {
        assert_eq!(is_locale_value(text), pattern.is_match(text), "{text:?}");
    }
}

#[test]
fn composed_texts_agree_with_the_pattern() {
    let pattern = Regex::new(PATTERN).unwrap();
    let names = ["", "C", "CC", "POSIX", "POSI", "POSIXX", "en", "e", "eng", "En", "09", "az"];
    let territories = ["", "_", "_U", "_US", "_us", "_USA", "_A1", "_ZA", "-US"];
    let modifiers = ["", "@", "@euro", "@9", "@e-", "@e@f", "@\u{e9}", "@aZ09"];
    let codesets = ["", ".", ".UTF-8", ".utf8", ".-", "..", ".a.b", ".a_b", ".8@x", ".U\n", "\n"];
    let mut accepted = 0;
    for name in names {
        for territory in territories {
            for modifier in modifiers {
                for codeset in codesets {
                    let text = format!("{name}{territory}{modifier}{codeset}");
                    let matches = pattern.is_match(&text);
                    assert_eq!(is_locale_value(&text), matches, "{text:?}");
                    if matches {
                        accepted += 1;
                    }
                }
            }
        }
    }
    assert!(accepted > 50);
}

#[test]
fn nothing_to_set_is_refused() {
    assert_eq!(read(&[]), Err("No locale assignments provided".to_string()));
    assert!(matches!(parse_locales(vec![], &catalogue()), Err(LocaleError::NoAssignments)));
}

#[test]
fn bare_locale_sets_lang_and_hides_the_rest() {
    let lang = vec![(LocaleMacroKey::Lang, "en_US.UTF-8".to_string())];
    assert_eq!(read(&["en_US.UTF-8"]), Ok(lang.clone()));
    assert_eq!(read(&["en_US.UTF-8", "LC_ALL=C", "nonsense"]), Ok(lang));
}

#[test]
fn bare_locale_counts_only_in_front() {
    assert_eq!(
        read(&["LANG=C", "en_US"]),
        Err("Invalid locale assignment format: 'en_US'".to_string())
    );
}

#[test]
fn assignments_keep_their_order() {
    assert_eq!(
        read(&["LC_TIME=fi_FI.UTF-8", "LANG=en_US.UTF-8", "LC_PAPER=C", "LC_TIME=POSIX"]),
        Ok(vec![
            (LocaleMacroKey::Other(5), "fi_FI.UTF-8".to_string()),
            (LocaleMacroKey::Lang, "en_US.UTF-8".to_string()),
            (LocaleMacroKey::Other(9), "C".to_string()),
            (LocaleMacroKey::Other(5), "POSIX".to_string()),
        ])
    );
}

#[test]
fn lc_all_overrides_the_rest() {
    let all = vec![(LocaleMacroKey::LcAll, "C.UTF-8".to_string())];
    assert_eq!(read(&["LC_ALL=C.UTF-8"]), Ok(all.clone()));
    assert_eq!(read(&["LANG=en_US", "LC_TIME=fi", "LC_ALL=C.UTF-8", "junk", "LC_X=C"]), Ok(all));
}

#[test]
fn accepted_settings_are_read_back() {
    let name = |key: LocaleMacroKey| {
        let known = catalogue();
        known.into_iter().find(|entry| entry.key == key).unwrap().name
    };
    for request in [
        vec!["en_US.UTF-8", "rest"],
        vec!["LANG=C", "LC_ALL=de@euro", "rest"],
        vec!["LC_TIME=fi", "LANG=en_US", "LC_PAPER=C.UTF-8", "LC_TIME=POSIX"],
    ] {
        let list = read(&request).unwrap();
        let written: Vec<String> =
            list.iter().map(|(key, value)| format!("{}={value}", name(*key))).collect();
        let again: Vec<&str> = written.iter().map(|text| text.as_str()).collect();
        assert_eq!(read(&again), Ok(list));
    }
}

#[test]
fn refusals_before_lc_all_count() {
    assert_eq!(read(&["junk", "LC_ALL=C"]), Err("Invalid locale assignment format: 'junk'".into()));
}

#[test]
fn unknown_key_is_refused() {
    assert_eq!(read(&["LANG=C", "LC_NOPE=C"]), Err("Unknown locale key: 'LC_NOPE'".to_string()));
    assert_eq!(read(&["=C"]), Err("Unknown locale key: ''".to_string()));
    assert_eq!(read(&["lang=C"]), Err("Unknown locale key: 'lang'".to_string()));
}

#[test]
fn bad_value_is_refused() {
    assert_eq!(read(&["LANG=english"]), Err("Invalid locale value in 'LANG=english'".to_string()));
    assert_eq!(read(&["LANG=C=C"]), Err("Invalid locale value in 'LANG=C=C'".to_string()));
    assert_eq!(read(&["LC_ALL="]), Err("Invalid locale value in 'LC_ALL='".to_string()));
}

#[test]
fn unknown_key_comes_before_bad_value() {
    assert_eq!(read(&["LC_NOPE=???"]), Err("Unknown locale key: 'LC_NOPE'".to_string()));
}

#[test]
fn lang_or_lc_all_is_needed() {
    assert_eq!(
        read(&["LC_TIME=C", "LC_PAPER=C"]),
        Err("At least one of LANG or LC_ALL assignment is required".to_string())
    );
}

#[test]
fn names_of_assignments_are_listed() {
    assert_eq!(
        assigned_names(&strings(&["LANG=C", "en_US", "LC_TIME=a=b", "=x", "LANG=C"])),
        strings(&["LANG", "LC_TIME", "", "LANG"])
    );
}

#[test]
fn a_catalogue_of_the_listed_names_is_enough() {
    let request = strings(&["LC_PAPER=C", "LANG=en_US"]);
    let small: Vec<LocaleKey> = assigned_names(&request)
        .into_iter()
        .filter_map(|name| {
            LocaleMacroKey::from_str_name(&catalogue(), &name).map(|key| LocaleKey { name, key })
        })
        .collect();
    let full = parse_locales(request.clone(), &catalogue()).unwrap();
    let reduced = parse_locales(request, &small).unwrap();
    assert_eq!(full.len(), 2);
    for (a, b) in full.iter().zip(reduced.iter()) {
        assert_eq!((a.key, &a.value), (b.key, &b.value));
    }
}
