use url::Url;
use url_track_cleaner::policy::{PolicyForm, UnknownPolicy};
use url_track_cleaner::query::{is_reserved, reserve_pairs};
use url_track_cleaner::rules::find_rule;
use url_track_cleaner::text::{ends_with, read_header, same_text};
use url_track_cleaner::{RedirectPolicy, ReserveRule};

fn policy_to_json(policy: &RedirectPolicy) -> serde_json::Value {
    match policy.clone().into_form() {
        PolicyForm::Nothing => serde_json::Value::Null,
        PolicyForm::Word(word) => serde_json::Value::String(word),
        PolicyForm::List(suffixes) => {
            serde_json::Value::Array(suffixes.into_iter().map(serde_json::Value::String).collect())
        }
    }
}

fn policy_from_json(value: &serde_json::Value) -> Option<RedirectPolicy> {
    let form = match value {
        serde_json::Value::Null => PolicyForm::Nothing,
        serde_json::Value::String(word) => PolicyForm::Word(word.clone()),
        serde_json::Value::Array(items) => {
            let mut suffixes = Vec::new();
            for item in items {
                suffixes.push(item.as_str()?.to_string());
            }
            PolicyForm::List(suffixes)
        }
        _ => return None,
    };
    RedirectPolicy::from_form(form).ok()
}

#[test]
fn parse_redirect_policy() {
    let a = serde_json::to_string(&policy_to_json(&RedirectPolicy::All)).unwrap();
    let b = serde_json::to_string(&policy_to_json(&RedirectPolicy::Domains(vec![
        "b23.tv".into(),
        "t.cn".into(),
    ])))
    .unwrap();

    println!("a: {}", a);
    println!("b: {}", b);

    let a = policy_from_json(&serde_json::from_str::<serde_json::Value>(&a).unwrap()).unwrap();
    let b = policy_from_json(&serde_json::from_str::<serde_json::Value>(&b).unwrap()).unwrap();

    println!("a: {:?}", a);
    println!("b: {:?}", b);

    assert_eq!(a, RedirectPolicy::All);
    assert_eq!(b, RedirectPolicy::Domains(vec!["b23.tv".into(), "t.cn".into()]));
}

#[test]
fn test_rule_deserialize() {
    let rule_str = r#"{"url_match":"^http(s)?://www.bilibili.com/.*","reserve_queries":["t"]}"#;
    let value: serde_json::Value = serde_json::from_str(rule_str).unwrap();
    let keys: Vec<String> = value["reserve_queries"]
        .as_array()
        .unwrap()
        .iter()
        .map(|k| k.as_str().unwrap().to_string())
        .collect();
    let rule = ReserveRule::new_with_regex(value["url_match"].as_str().unwrap(), keys).unwrap();
    println!("{:?}", rule);
    assert_eq!(rule.reserve_queries, vec!["t"]);
    assert!(rule.url_match.is_match("https://www.bilibili.com/video/BV11111?t=360&track_id=2"));
    assert!(!rule.url_match.is_match("https://www.acfun.tv/video/BV11111"));
}

#[test]
fn keywords_stand_for_policies() {
    assert_eq!(RedirectPolicy::from_keyword("none"), Some(RedirectPolicy::Never));
    assert_eq!(RedirectPolicy::from_keyword("*"), Some(RedirectPolicy::All));
    assert_eq!(RedirectPolicy::from_keyword("all"), None);
    assert_eq!(RedirectPolicy::from_keyword(""), None);
    assert_eq!(RedirectPolicy::from_keyword("None"), None);
    assert_eq!(RedirectPolicy::default(), RedirectPolicy::Never);
}

#[test]
fn policies_are_written_and_read_back() {
    assert_eq!(RedirectPolicy::Never.into_form(), PolicyForm::Word("none".to_string()));
    assert_eq!(RedirectPolicy::All.into_form(), PolicyForm::Word("*".to_string()));
    assert_eq!(
        RedirectPolicy::Domains(vec!["b23.tv".to_string()]).into_form(),
        PolicyForm::List(vec!["b23.tv".to_string()])
    );
    assert_eq!(RedirectPolicy::Domains(vec![]).into_form(), PolicyForm::List(vec![]));

    assert_eq!(RedirectPolicy::from_form(PolicyForm::Nothing), Ok(RedirectPolicy::Never));
    assert_eq!(
        RedirectPolicy::from_form(PolicyForm::Word("none".to_string())),
        Ok(RedirectPolicy::Never)
    );
    assert_eq!(
        RedirectPolicy::from_form(PolicyForm::Word("*".to_string())),
        Ok(RedirectPolicy::All)
    );
    assert_eq!(
        RedirectPolicy::from_form(PolicyForm::List(vec!["t.cn".to_string()])),
        Ok(RedirectPolicy::Domains(vec!["t.cn".to_string()]))
    );
    assert_eq!(
        RedirectPolicy::from_form(PolicyForm::Word("all".to_string())),
        Err(UnknownPolicy { word: "all".to_string() })
    );
    for policy in [
        RedirectPolicy::Never,
        RedirectPolicy::All,
        RedirectPolicy::Domains(vec!["b23.tv".to_string(), "t.cn".to_string()]),
    ] {
        assert_eq!(RedirectPolicy::from_form(policy.clone().into_form()), Ok(policy));
    }
}

#[test]
fn policy_tests_the_domain() {
    let url = Url::parse("https://www.b23.tv/iFW9atP").unwrap();
    assert!(!RedirectPolicy::Never.test_url(&url));
    assert!(RedirectPolicy::All.test_url(&url));
    let domains = RedirectPolicy::Domains(vec!["b23.tv".to_string(), "t.cn".to_string()]);
    assert!(domains.test_url(&url));
    assert!(domains.test_url(&Url::parse("http://t.cn/").unwrap()));
    assert!(domains.test_url(&Url::parse("http://not.cn/").unwrap()));
    assert!(!domains.test_url(&Url::parse("http://b23.tv.example.com/").unwrap()));
    assert!(!domains.test_url(&Url::parse("http://example.com/b23.tv").unwrap()));
    assert!(!RedirectPolicy::Domains(vec![]).test_url(&url));
}

#[test]
fn policy_reads_the_domain_of_the_url() {
    // an address is no domain, and a URL may have none
    let by_address = Url::parse("https://127.0.0.1/x").unwrap();
    let mail = Url::parse("mailto:someone@b23.tv").unwrap();
    let domains = RedirectPolicy::Domains(vec!["0.1".to_string(), "b23.tv".to_string()]);
    assert!(!domains.test_url(&by_address));
    assert!(!domains.test_url(&mail));
    assert!(RedirectPolicy::All.test_url(&by_address));
    // the empty suffix ends every name, the empty one too
    let any = RedirectPolicy::Domains(vec![String::new()]);
    assert!(any.test_url(&by_address));
    assert!(any.test_url(&mail));
}

#[test]
fn policy_tests_a_given_domain() {
    let domains = RedirectPolicy::Domains(vec!["b23.tv".to_string()]);
    assert!(domains.test_domain(Some("b23.tv")));
    assert!(domains.test_domain(Some("www.b23.tv")));
    assert!(!domains.test_domain(Some("b23.tv.cn")));
    assert!(!domains.test_domain(Some("23.tv")));
    assert!(!domains.test_domain(None));
    assert!(!RedirectPolicy::Never.test_domain(Some("b23.tv")));
    assert!(RedirectPolicy::All.test_domain(None));
}

#[test]
fn rule_keeps_the_pattern_it_was_given() {
    let rule =
        ReserveRule::new_with_regex(r"^http(s)?://www.bilibili.com/.*", vec!["t".to_string()])
            .unwrap();
    assert_eq!(rule.pattern(), r"^http(s)?://www.bilibili.com/.*");
    assert_eq!(rule.reserve_queries, vec!["t".to_string()]);
    let copy = rule.clone();
    assert_eq!(copy.pattern(), rule.pattern());
    for text in ["https://www.bilibili.com/video/BV11111", "https://www.acfun.tv/video/BV11111"] {
        assert_eq!(copy.matches(text), rule.matches(text));
    }
}

#[test]
fn invalid_pattern_is_rejected() {
    assert!(ReserveRule::new_with_regex(r"foo(bar", vec![]).is_err());
    assert!(ReserveRule::new_with_regex(r"[", vec!["t".to_string()]).is_err());
    assert!(ReserveRule::new_with_regex(r"", vec![]).is_ok());
}

#[test]
fn rule_from_a_compiled_pattern() {
    let pattern = regex::Regex::new(r"^https://b23\.tv/").unwrap();
    let rule = ReserveRule::new(pattern, vec!["p".to_string()]);
    assert_eq!(rule.url_match.as_str(), r"^https://b23\.tv/");
    assert_eq!(rule.pattern(), r"^https://b23\.tv/");
    assert_eq!(rule.reserve_queries, vec!["p".to_string()]);
    assert!(rule.matches("https://b23.tv/iFW9atP"));
    assert!(!rule.matches("http://b23.tv/iFW9atP"));

    let made = ReserveRule::from_compiled(regex::Regex::new(r"a+"), vec!["k".to_string()]).unwrap();
    assert_eq!(made.url_match.as_str(), "a+");
    assert_eq!(made.reserve_queries, vec!["k".to_string()]);
    let failed = ReserveRule::from_compiled(regex::Regex::new(r"a)"), vec![]);
    assert_eq!(failed.err().unwrap().source, regex::Regex::new(r"a)").err().unwrap());
}

#[test]
fn first_rule_that_matches_is_found() {
    let rules = vec![
        ReserveRule::new_with_regex(r"^ftp:", vec![]).unwrap(),
        ReserveRule::new_with_regex(r"example", vec![]).unwrap(),
        ReserveRule::new_with_regex(r"^https:", vec![]).unwrap(),
    ];
    assert_eq!(find_rule(&rules, "https://example.com/"), Some(1));
    assert_eq!(find_rule(&rules, "https://elsewhere.org/"), Some(2));
    assert_eq!(find_rule(&rules, "ftp://example.com/"), Some(0));
    assert_eq!(find_rule(&rules, "http://elsewhere.org/"), None);
    assert_eq!(find_rule(&Vec::new(), "https://example.com/"), None);
}

fn pair(key: &str, value: &str) -> (String, String) {
    (key.to_string(), value.to_string())
}

#[test]
fn reserved_pairs_are_written_in_order() {
    let pairs = vec![pair("a", "1"), pair("x", "9"), pair("b", "2"), pair("a", "3")];
    let keys = vec!["b".to_string(), "a".to_string()];
    assert_eq!(reserve_pairs(&pairs, &keys), "a=1&b=2&a=3");
    assert_eq!(reserve_pairs(&pairs, &vec!["x".to_string()]), "x=9");
    assert_eq!(reserve_pairs(&pairs, &vec!["none".to_string()]), "");
    assert_eq!(reserve_pairs(&pairs, &Vec::new()), "");
    assert_eq!(reserve_pairs(&Vec::new(), &keys), "");
}

#[test]
fn reserved_pairs_keep_empty_parts() {
    let pairs = vec![pair("", ""), pair("a", ""), pair("", "v")];
    assert_eq!(reserve_pairs(&pairs, &vec!["".to_string()]), "=&=v");
    assert_eq!(reserve_pairs(&pairs, &vec!["a".to_string()]), "a=");
    assert_eq!(reserve_pairs(&pairs, &vec!["a".to_string(), "".to_string()]), "=&a=&=v");
}

#[test]
fn keys_are_compared_whole() {
    let keys = vec!["t".to_string(), "page".to_string()];
    assert!(is_reserved(&keys, &"t".to_string()));
    assert!(is_reserved(&keys, &"page".to_string()));
    assert!(!is_reserved(&keys, &"T".to_string()));
    assert!(!is_reserved(&keys, &"pag".to_string()));
    assert!(!is_reserved(&keys, &"".to_string()));
    assert!(!is_reserved(&Vec::new(), &"t".to_string()));
}

#[test]
fn texts_are_compared_whole() {
    assert!(same_text("none", "none"));
    assert!(same_text("", ""));
    assert!(!same_text("none", "non"));
    assert!(!same_text("none", "nonE"));
    assert!(same_text("é", "\u{e9}"));
    assert!(!same_text("é", "e"));
}

#[test]
fn header_value_is_read_as_text() {
    assert_eq!(read_header(b"https://example.com/x?y=1"), Some("https://example.com/x?y=1"));
    assert_eq!(read_header(b""), Some(""));
    assert_eq!(read_header(b"a b\tc~"), Some("a b\tc~"));
    assert_eq!(read_header(b"a\nb"), None);
    assert_eq!(read_header(&[0x7f]), None);
    assert_eq!(read_header(&[b'a', 0x80]), None);
    assert_eq!(read_header(&[0xc3, 0xa9]), None);
    assert_eq!(read_header(&[0x1f]), None);
}

#[test]
fn suffixes_are_compared_by_their_text() {
    assert!(ends_with("www.b23.tv", "b23.tv"));
    assert!(ends_with("b23.tv", "b23.tv"));
    assert!(ends_with("b23.tv", ""));
    assert!(ends_with("", ""));
    assert!(!ends_with("", "tv"));
    assert!(!ends_with("23.tv", "b23.tv"));
    assert!(!ends_with("b23.tv.cn", "b23.tv"));
    assert!(ends_with("例え.jp", "え.jp"));
    assert!(ends_with("bücher.de", "ücher.de"));
    assert!(!ends_with("bücher.de", "ucher.de"));
    // the last byte of one character is no suffix of another
    assert!(!ends_with("é", "\u{a9}"));
    assert!("é".as_bytes().ends_with(&"\u{a9}".as_bytes()[1..]));
}
