use github_stats::languages::Language;
use github_stats::top_languages::{select_top_languages, MAX_TOP_LANGUAGES};

fn lang(name: &str, size: u64) -> Language {
    Language { name: name.to_string(), color: "#000000".to_string(), size }
}

fn names(list: &[Language]) -> Vec<&str> {
    list.iter().map(|l| l.name.as_str()).collect()
}

#[test]
fn largest_languages_come_first() {
    let langs = vec![lang("Shell", 18528), lang("HTML", 1879495), lang("C#", 3190695), lang("CMake", 1177)];
    let (top, total) = select_top_languages(langs, 40);
    assert_eq!(names(&top), vec!["C#", "HTML", "Shell", "CMake"]);
    assert_eq!(total, 18528 + 1879495 + 3190695 + 1177);
    assert_eq!(top[0], lang("C#", 3190695));
}

#[test]
fn only_as_many_as_asked_for_are_shown() {
    let langs = vec![lang("a", 1), lang("b", 5), lang("c", 3), lang("d", 4)];
    let (top, total) = select_top_languages(langs.clone(), 2);
    assert_eq!(names(&top), vec!["b", "d"]);
    assert_eq!(total, 9);
    let (top, total) = select_top_languages(langs.clone(), 0);
    assert!(top.is_empty());
    assert_eq!(total, 0);
    let (top, _) = select_top_languages(langs, 4);
    assert_eq!(names(&top), vec!["b", "d", "c", "a"]);
}

#[test]
fn never_more_than_the_cap_are_shown() {
    assert_eq!(MAX_TOP_LANGUAGES, 100);
    let langs: Vec<Language> = (0..150u64).map(|i| lang(&format!("l{}", i), i)).collect();
    let (top, total) = select_top_languages(langs, usize::MAX);
    assert_eq!(top.len(), 100);
    assert_eq!(top[0].size, 149);
    assert_eq!(top[99].size, 50);
    let expected: u128 = (50..150u128).sum();
    assert_eq!(total, expected);
}

#[test]
fn equal_sizes_keep_their_order() {
    let langs = vec![lang("a", 2), lang("b", 7), lang("c", 2), lang("d", 7)];
    let (top, _) = select_top_languages(langs, 10);
    assert_eq!(names(&top), vec!["b", "d", "a", "c"]);
}

#[test]
fn sum_of_sizes_does_not_overflow() {
    let langs = vec![lang("a", u64::MAX), lang("b", u64::MAX)];
    let (top, total) = select_top_languages(langs, 10);
    assert_eq!(top.len(), 2);
    assert_eq!(total, 2 * (u64::MAX as u128));
}

#[test]
fn empty_input_gives_nothing() {
    let (top, total) = select_top_languages(vec![], 40);
    assert!(top.is_empty());
    assert_eq!(total, 0);
}
