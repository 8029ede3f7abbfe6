use optimus::thorne::{english_gen, english_to_file, eng, fullgen, gen, number, your_list};

const NORMAL: &str = "abcdefghijklmnopqrstuvwxyzABCDEFGHIJKLMNOPQRSTUVWXYZ1234567890-_+=)(*&^%$#@!}[]}\"/?|\"\":;.><,`~";

#[test]
fn gen_gives_lines_of_normal_characters() {
    let out = gen(5, 3);
    let lines: Vec<&str> = out.split('\n').collect();
    assert_eq!(lines.len(), 3);
    for l in lines {
        assert_eq!(l.chars().count(), 5);
        assert!(l.chars().all(|c| NORMAL.contains(c)));
    }
    assert_eq!(gen(3, 0), "");
    assert_eq!(gen(0, 2), "\n");
}

#[test]
fn fullgen_gives_lines_of_the_full_list() {
    let out = fullgen(4, 2);
    let lines: Vec<&str> = out.split('\n').collect();
    assert_eq!(lines.len(), 2);
    for l in lines {
        assert_eq!(l.chars().count(), 4);
    }
}

#[test]
fn number_never_draws_a_nine() {
    let out = number(6, 4);
    let lines: Vec<&str> = out.split('\n').collect();
    assert_eq!(lines.len(), 4);
    for l in lines {
        assert_eq!(l.len(), 6);
        assert!(l.chars().all(|c| ('0'..='8').contains(&c)));
    }
    assert_eq!(number(-3, 2), "\n");
    assert_eq!(number(3, -1), "");
}

#[test]
fn your_list_draws_from_the_list() {
    let list = ["go", "rust", "c++", "c"];
    let out = your_list(&list, 3, 2);
    assert!(out.ends_with(' '));
    let words: Vec<&str> = out[..out.len() - 1].split(' ').collect();
    assert_eq!(words.len(), 6);
    assert!(words.iter().all(|w| list.contains(w)));
    assert_eq!(your_list(&[], 0, 5), "");
}

#[test]
fn english_words_come_from_the_table() {
    let lines: Vec<String> = vec!["alpha".to_string(), "beta".to_string()];
    for _ in 0..20 {
        let w = eng(&lines);
        assert!(w.is_empty() || lines.contains(&w));
    }
    let out = english_gen(&lines, 2, 3);
    assert_eq!(out.split('\n').count(), 3);
    for l in out.split('\n') {
        assert!(l.ends_with(' '));
        assert_eq!(l.matches(' ').count(), 2);
    }
    let f = english_to_file(&lines, 1, 2);
    assert_eq!(f.split('\n').count(), 2);
}
