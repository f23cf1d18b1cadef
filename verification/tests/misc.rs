use kubie::error::KubieError;
use kubie::kubectl::{namespaces_of_lines, parse_namespaces};
use kubie::sorting::{reversed, sort_names, str_le};
use kubie::text::{
    after_last, chars_of, concat2, concat3, contains, decimal_string, lines, list_contains,
    option_string_eq, option_to_owned, starts_with, str_eq, trim, trim_start, up_to, words,
};
use kubie::vars::{ensure_kubie_active, get_depth, is_kubie_active};

fn strings(words: &[&str]) -> Vec<String> {
    words.iter().map(|w| String::from(*w)).collect()
}

#[test]
fn the_depth_is_read_from_what_the_shell_hands_down() {
    assert_eq!(get_depth(None), 0);
    assert_eq!(get_depth(Some("0")), 0);
    assert_eq!(get_depth(Some("1")), 1);
    assert_eq!(get_depth(Some("42")), 42);
    assert_eq!(get_depth(Some("+7")), 7);
    assert_eq!(get_depth(Some("007")), 7);
    assert_eq!(get_depth(Some("4294967295")), 4294967295);
}

#[test]
fn a_depth_that_is_no_number_counts_as_none() {
    assert_eq!(get_depth(Some("")), 0);
    assert_eq!(get_depth(Some("+")), 0);
    assert_eq!(get_depth(Some("-1")), 0);
    assert_eq!(get_depth(Some(" 1")), 0);
    assert_eq!(get_depth(Some("1 ")), 0);
    assert_eq!(get_depth(Some("1x")), 0);
    assert_eq!(get_depth(Some("++1")), 0);
    assert_eq!(get_depth(Some("4294967296")), 0);
    assert_eq!(get_depth(Some("99999999999999999999")), 0);
    assert_eq!(get_depth(Some("42949672950")), 0);
    assert_eq!(get_depth(Some("٣")), 0);
}

#[test]
fn the_tool_is_active_inside_its_own_shells() {
    assert!(is_kubie_active(Some("1")));
    assert!(!is_kubie_active(Some("0")));
    assert!(!is_kubie_active(Some("")));
    assert!(!is_kubie_active(Some("11")));
    assert!(!is_kubie_active(None));
    assert!(ensure_kubie_active(Some("1")).is_ok());
    match ensure_kubie_active(None) {
        Err(e) => {
            assert!(matches!(e, KubieError::NotInKubieShell));
            assert_eq!(e.message(), "Not in a kubie shell!");
        }
        Ok(()) => panic!("active without a shell"),
    }
    assert!(ensure_kubie_active(Some("true")).is_err());
}

#[test]
fn namespaces_are_read_from_the_listing() {
    let listing = "NAME              STATUS   AGE\n\
                   default           Active   10d\n\
                   kube-system       Active   10d\n\
                   lonely\n";
    assert_eq!(parse_namespaces(listing), vec!["default", "kube-system", "lonely"]);
    assert!(parse_namespaces("NAME STATUS AGE\n").is_empty());
    assert!(parse_namespaces("").is_empty());
    assert_eq!(parse_namespaces("NAME\r\nweb  Active\r\n"), vec!["web"]);
    assert_eq!(parse_namespaces("NAME\n leading\n\nx y"), vec!["", "", "x"]);
    assert_eq!(
        namespaces_of_lines(&strings(&["heading", "a b", "c"])),
        vec!["a", "c"]
    );
    assert!(namespaces_of_lines(&Vec::new()).is_empty());
}

#[test]
fn names_are_sorted_as_strings_are_ordered() {
    assert_eq!(
        sort_names(&strings(&["b", "a", "", "ab", "B", "a", "é", "z", "10", "9"])),
        vec!["", "10", "9", "B", "a", "a", "ab", "b", "z", "é"]
    );
    assert!(sort_names(&Vec::new()).is_empty());
    assert_eq!(sort_names(&strings(&["x"])), vec!["x"]);
    let mut expected = strings(&["kube-system", "default", "apps", "kube-public", "Kube"]);
    let sorted = sort_names(&expected);
    expected.sort();
    assert_eq!(sorted, expected);
    assert_eq!(reversed(&strings(&["a", "b", "c"])), vec!["c", "b", "a"]);
    assert!(reversed(&Vec::new()).is_empty());
}

#[test]
fn numbers_are_written_in_decimal() {
    assert_eq!(decimal_string(0), "0");
    assert_eq!(decimal_string(7), "7");
    assert_eq!(decimal_string(10), "10");
    assert_eq!(decimal_string(31), "31");
    assert_eq!(decimal_string(1234567890), "1234567890");
    assert_eq!(decimal_string(u32::MAX), u32::MAX.to_string());
}

#[test]
fn small_operations_on_strings() {
    assert_eq!(concat2("a", "b"), "ab");
    assert_eq!(concat2("", ""), "");
    assert_eq!(concat3("a", "", "c"), "ac");
    assert!(list_contains(&strings(&["a", "b"]), "b"));
    assert!(!list_contains(&strings(&["a", "b"]), "ab"));
    assert!(!list_contains(&Vec::new(), ""));
    assert!(option_string_eq(&None, &None));
    assert!(option_string_eq(&Some(String::from("a")), &Some(String::from("a"))));
    assert!(!option_string_eq(&Some(String::from("a")), &Some(String::from("b"))));
    assert!(!option_string_eq(&Some(String::new()), &None));
    assert_eq!(option_to_owned(Some("x")), Some(String::from("x")));
    assert_eq!(option_to_owned(None), None);
}

#[test]
fn every_failure_has_its_sentence() {
    let cases: Vec<(KubieError, &str)> = vec![
        (KubieError::ContextNotFound(String::from("x")), "Could not find context x"),
        (
            KubieError::ClusterNotFound { cluster: String::from("c"), context: String::from("x") },
            "Could not find cluster c referenced by context x",
        ),
        (
            KubieError::UserNotFound { user: String::from("u"), context: String::from("x") },
            "Could not find user u referenced by context x",
        ),
        (
            KubieError::NoContextsFound { in_given_files: false },
            "Could not find any contexts in the Kubie kubeconfig directories!",
        ),
        (
            KubieError::NoContextsFound { in_given_files: true },
            "Could not find any contexts in the given set of files!",
        ),
        (KubieError::NoContextsToSelect, "No contexts found"),
        (KubieError::NoNamespacesToSelect, "No namespaces found"),
        (KubieError::NoContextMatching(String::from("p*")), "No context matching p*"),
        (KubieError::NoPreviousContext, "There is no previous context to switch to."),
        (KubieError::NoPreviousNamespace, "There is not previous namespace to switch to"),
        (
            KubieError::InvalidNamespace(String::from("n")),
            "'n' is not a valid namespace for the context",
        ),
        (KubieError::InvalidShell(String::from("csh")), "Invalid shell setting: csh"),
        (KubieError::ShellNotDetected, "Could not detect shell in use"),
        (KubieError::MissingSessionPath, "KUBIE_SESSION env variable missing"),
        (KubieError::NotInKubieShell, "Not in a kubie shell!"),
    ];
    for (error, sentence) in cases {
        assert_eq!(error.message(), sentence);
    }
}

#[test]
fn a_text_is_split_into_lines() {
    assert!(lines("").is_empty());
    assert_eq!(lines("one"), vec!["one"]);
    assert_eq!(lines("one\n"), vec!["one"]);
    assert_eq!(lines("one\ntwo"), vec!["one", "two"]);
    assert_eq!(lines("one\r\ntwo\r\n"), vec!["one", "two"]);
    assert_eq!(lines("\n"), vec![""]);
    assert_eq!(lines("\n\n"), vec!["", ""]);
    assert_eq!(lines("a\n\nb"), vec!["a", "", "b"]);
    assert_eq!(lines("\r\n"), vec![""]);
    assert_eq!(lines("a\rb\n"), vec!["a\rb"]);
    assert_eq!(lines("a\r\r\n"), vec!["a\r"]);
    assert_eq!(lines("last\r"), vec!["last\r"]);
    assert_eq!(lines("é\nü\n"), vec!["é", "ü"]);
    for text in ["", "a", "a\n", "\na", "a\r\nb\rc\n\n", "x\r", "\r\n\r\n", "äö\r\nü"] {
        let expected: Vec<&str> = text.lines().collect();
        assert_eq!(lines(text), expected);
    }
}

#[test]
fn a_text_is_split_into_words() {
    assert!(words("").is_empty());
    assert!(words("   ").is_empty());
    assert_eq!(words("one"), vec!["one"]);
    assert_eq!(words("  one  two\tthree\n"), vec!["one", "two", "three"]);
    assert_eq!(words("kubie ctx --namespace x"), vec!["kubie", "ctx", "--namespace", "x"]);
    assert_eq!(words("a\u{a0}b\u{3000}c"), vec!["a", "b", "c"]);
    assert_eq!(words("é ü"), vec!["é", "ü"]);
    for text in ["", " ", "a", " a", "a ", " a  b ", "\ta\r\nb\u{2003}c", "x\u{85}y"] {
        let expected: Vec<&str> = text.split_whitespace().collect();
        assert_eq!(words(text), expected);
    }
}

#[test]
fn the_characters_of_a_string() {
    assert!(chars_of("").is_empty());
    assert_eq!(chars_of("aé\n"), vec!['a', 'é', '\n']);
}

#[test]
fn prefixes_and_parts_of_strings() {
    let samples = ["", "a", "ab", "abc", "b", "bc", "abab", "é", "aé", "éa", "ア", "aア"];
    for s in samples {
        for p in samples {
            assert_eq!(starts_with(s, p), s.starts_with(p), "{:?} begins with {:?}", s, p);
            assert_eq!(contains(s, p), s.contains(p), "{:?} holds {:?}", s, p);
            assert_eq!(str_le(s, p), s <= p, "{:?} before {:?}", s, p);
        }
    }
    assert!(starts_with("kube-system", "kube"));
    assert!(!starts_with("kube", "kube-system"));
    assert!(contains("https://x/kubie-linux-amd64", "linux-amd64"));
    assert!(!contains("https://x/kubie-linux-amd64", "linux-arm64"));
    assert!(contains("abc", ""));
    assert!(contains("", ""));
    assert!(str_le("", "a"));
    assert!(str_le("a", "a"));
    assert!(str_le("a", "ab"));
    assert!(!str_le("ab", "a"));
    assert!(str_le("Z", "a"));
    assert!(str_le("z", "é"));
    assert!(str_le("\u{ffff}", "\u{10000}"));
}

#[test]
fn white_space_is_trimmed_at_both_ends() {
    for text in ["", " ", "a", " a", "a ", "  a b  ", "\t\na\r\n", "\u{a0}é\u{3000}", " \u{2003} "] {
        assert_eq!(trim(text), text.trim());
    }
    assert_eq!(trim("  4711\n"), "4711");
}

#[test]
fn cutting_a_string_at_a_character() {
    assert_eq!(up_to("bash --login", ' '), "bash");
    assert_eq!(up_to("bash", ' '), "bash");
    assert_eq!(up_to(" bash", ' '), "");
    assert_eq!(up_to("", ' '), "");
    assert_eq!(after_last("/usr/bin/zsh", '/'), "zsh");
    assert_eq!(after_last("zsh", '/'), "zsh");
    assert_eq!(after_last("/usr/bin/", '/'), "");
    assert_eq!(after_last("é/ü", '/'), "ü");
    assert_eq!(trim_start("--zsh-", '-'), "zsh-");
    assert_eq!(trim_start("zsh", '-'), "zsh");
    assert_eq!(trim_start("---", '-'), "");
    assert!(str_eq("é", "é"));
    assert!(!str_eq("a", "b"));
    assert!(!str_eq("a", "ab"));
    assert!(str_eq("", ""));
}
