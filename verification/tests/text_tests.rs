use lib::text::{contains, ends_with, join_with, split_lines, starts_with, trim};

#[test]
fn trim_removes_unicode_white_space_at_both_ends() {
    assert_eq!(trim("  x86_64-unknown-linux-gnu \t\r"), "x86_64-unknown-linux-gnu");
    assert_eq!(trim("\u{3000}a b\u{a0}"), "a b");
    assert_eq!(trim(" \n "), "");
    assert_eq!(trim(""), "");
    assert_eq!(trim("a"), "a");
    for s in ["  a  ", "\u{2009}b\u{85}", " c d ", "\u{1680}"] {
        assert_eq!(trim(s), s.trim());
    }
}

#[test]
fn lines_split_like_str_lines() {
    assert_eq!(split_lines("a\nb\r\nc"), vec!["a", "b", "c"]);
    assert_eq!(split_lines("a\n"), vec!["a"]);
    assert_eq!(split_lines(""), Vec::<String>::new());
    assert_eq!(split_lines("\n\n"), vec!["", ""]);
    assert_eq!(split_lines("a\r"), vec!["a\r"]);
    for s in ["x\r\ny\n", "one", "\r\n", "a\n\nb\r\r\n", "tail\r"] {
        let ours = split_lines(s);
        let std: Vec<String> = s.lines().map(|l| l.to_string()).collect();
        assert_eq!(ours, std);
    }
}

#[test]
fn no_line_holds_a_line_feed() {
    for line in split_lines("a\nb\r\n\nc\n") {
        assert!(!line.contains('\n'));
    }
}

#[test]
fn prefixes_suffixes_and_infixes() {
    assert!(starts_with("libcore-abc.rlib", "libcore-"));
    assert!(!starts_with("lib", "libcore-"));
    assert!(ends_with("libcore-abc.rlib", ".rlib"));
    assert!(!ends_with("libcore-abc.rmeta", ".rlib"));
    assert!(contains("x86_64-seele", "seele"));
    assert!(!contains("x86_64-unknown-linux-gnu", "seele"));
    assert!(contains("anything", ""));
    assert!(!contains("se", "seele"));
}

#[test]
fn join_puts_the_separator_between_items() {
    let items: Vec<String> = vec!["libunwind".into(), "libcxxabi".into(), "libcxx".into()];
    assert_eq!(join_with(&items, ";"), "libunwind;libcxxabi;libcxx");
    assert_eq!(join_with(&vec!["compiler-rt".to_string()], ";"), "compiler-rt");
    assert_eq!(join_with(&Vec::new(), ", "), "");
}

#[test]
fn numbers_are_written_in_decimal() {
    assert_eq!(lib::text::decimal_text(0), "0");
    assert_eq!(lib::text::decimal_text(7), "7");
    assert_eq!(lib::text::decimal_text(10), "10");
    assert_eq!(lib::text::decimal_text(1204), "1204");
    assert_eq!(lib::text::decimal_text(usize::MAX), usize::MAX.to_string());
    let plan = lib::llvm::install_llvm(&lib::config::Config::defaults(), "/w/toolchain", Some(16));
    let ninja = plan.iter().find_map(|st| match &st.action {
        lib::steps::Action::Run(c) if c.program == "ninja" => Some(c.args.clone()),
        _ => None,
    });
    assert_eq!(ninja.unwrap()[3], "16");
}
