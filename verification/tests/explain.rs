use repoweave::explain::{
    documented_tokens, entry_for_token, entry_on_page, explain, is_known_verb, known_verbs,
    levenshtein, suggest, ExplainBook,
};

const REFUSALS: &str = "# Refusals\n\nIntro.\n\n## `dirty-tree`\n\nCommit first.\n\n### Why\n\nWork \
                        is kept.\n\n## `no-project`\n\nName one.\n\n# Appendix\n\nEnd.\n";
const FINDINGS: &str = "## `stale-lock`\nRun `rwv lock`.\n\n### `io`\nDisk.\n\n## `dirty-tree`\n\
                        Second.\n## Not a token\n## `two words`\n";

fn chars(text: &str) -> Vec<char> {
    text.chars().collect()
}

fn book() -> ExplainBook {
    ExplainBook {
        index: "index\n".to_owned(),
        bundles: known_verbs().iter().map(|v| format!("bundle of {v}\n")).collect(),
        pages: vec![REFUSALS.to_owned(), FINDINGS.to_owned()],
    }
}

#[test]
fn verbs_come_in_index_order() {
    let verbs = known_verbs();
    assert_eq!(verbs.len(), 17);
    assert_eq!(verbs[0], "status");
    assert_eq!(verbs[3], "sync-to");
    assert_eq!(verbs[16], "init");
    assert!(is_known_verb("doctor"));
    assert!(!is_known_verb("doctors"));
    assert!(!is_known_verb(""));
}

#[test]
fn an_entry_reaches_to_the_next_heading_of_its_rank() {
    assert_eq!(
        entry_for_token(&book().pages, "dirty-tree").unwrap(),
        "## `dirty-tree`\n\nCommit first.\n\n### Why\n\nWork is kept."
    );
    assert_eq!(
        entry_for_token(&book().pages, "no-project").unwrap(),
        "## `no-project`\n\nName one."
    );
    assert_eq!(
        entry_for_token(&book().pages, "io").unwrap(),
        "### `io`\nDisk."
    );
}

#[test]
fn an_entry_at_the_end_of_a_page_reaches_to_its_end() {
    let page = chars("text\n## `last`\nbody\n\n\n");
    let entry = entry_on_page(&page, &chars("last")).unwrap();
    assert_eq!(entry, chars("## `last`\nbody"));
    assert!(entry_on_page(&page, &chars("las")).is_none());
}

#[test]
fn a_title_of_the_first_rank_is_no_entry() {
    assert!(entry_on_page(&chars("# `a`\nx\n"), &chars("a")).is_none());
    assert!(entry_on_page(&chars("text `a`\n"), &chars("a")).is_none());
    assert!(entry_on_page(&chars("##   `a`  \nx\n"), &chars("a")).is_some());
}

#[test]
fn a_row_of_hashes_without_a_blank_ends_no_entry() {
    let page = chars("## `a`\n##b\nx\n## c\ny\n");
    assert_eq!(entry_on_page(&page, &chars("a")).unwrap(), chars("## `a`\n##b\nx"));
}

#[test]
fn documented_tokens_are_sorted_and_named_once() {
    assert_eq!(
        documented_tokens(&book().pages),
        vec!["dirty-tree", "io", "no-project", "stale-lock"]
    );
    assert!(documented_tokens(&vec!["## ``\n# `a`\n".to_owned()]).is_empty());
    for token in documented_tokens(&book().pages) {
        assert!(!token.contains(' '));
        assert!(entry_for_token(&book().pages, &token).is_some());
    }
    let pages = vec!["### `b`\n## `two words`\n".to_owned(), "##  `a` \n## `b`\n".to_owned()];
    assert!(entry_for_token(&pages, "two words").is_some());
    assert_eq!(documented_tokens(&pages), vec!["a", "b"]);
}

#[test]
fn distances_count_edits() {
    assert_eq!(levenshtein("kitten", "sitting"), 3);
    assert_eq!(levenshtein("sitting", "kitten"), 3);
    assert_eq!(levenshtein("", "abc"), 3);
    assert_eq!(levenshtein("abc", ""), 3);
    assert_eq!(levenshtein("same", "same"), 0);
    assert_eq!(levenshtein("ab", "ba"), 2);
    let words = ["", "sync", "sink", "stink", "lock"];
    for a in words {
        for b in words {
            for c in words {
                let leg = |x: &str, y: &str| levenshtein(x, y);
                assert!(leg(a, c) <= leg(a, b) + leg(b, c));
            }
        }
    }
}

#[test]
fn the_first_of_the_nearest_is_suggested() {
    let list: Vec<String> = ["sync", "lock", "io"].iter().map(|s| s.to_string()).collect();
    assert_eq!(suggest(&list, "sinc").as_deref(), Some("sync"));
    assert_eq!(suggest(&list, "lok").as_deref(), Some("lock"));
    assert_eq!(suggest(&list, "frobnicate"), None);
    assert_eq!(suggest(&list, "abcd"), None);
    assert_eq!(suggest(&list, "i").as_deref(), Some("io"));
}

#[test]
fn explain_serves_the_index_a_bundle_or_an_entry() {
    assert_eq!(explain(&book(), None).unwrap(), "index\n");
    assert_eq!(explain(&book(), Some("sync-to")).unwrap(), "bundle of sync-to\n");
    assert_eq!(
        explain(&book(), Some("no-project")).unwrap(),
        "## `no-project`\n\nName one.\n"
    );
}

#[test]
fn a_verb_wins_over_a_token_of_its_name() {
    let mut book = book();
    book.pages.push("## `doctor`\nentry\n".to_owned());
    assert_eq!(explain(&book, Some("doctor")).unwrap(), "bundle of doctor\n");
}

#[test]
fn explain_refuses_a_name_without_an_entry() {
    assert_eq!(
        explain(&book(), Some("docter")).unwrap_err(),
        "no explain entry for 'docter'; did you mean: doctor? Try `rwv explain` for the full index."
    );
    assert_eq!(
        explain(&book(), Some("stale-loc")).unwrap_err(),
        "no explain entry for 'stale-loc'; did you mean: stale-lock? Try `rwv explain` for the \
         full index."
    );
    assert_eq!(
        explain(&book(), Some("frobnicate")).unwrap_err(),
        "external command; try `rwv frobnicate --help`"
    );
}
