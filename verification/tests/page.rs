use url_shortener::page::{
    render_message_block, render_page, substitute, INDEX_TEMPLATE, MESSAGE_PLACEHOLDER,
};

#[test]
fn substitute_replaces_one_occurrence() {
    assert_eq!(substitute("a<!-- X -->b", "<!-- X -->", "hello"), "ahellob");
}

#[test]
fn substitute_replaces_every_occurrence() {
    assert_eq!(substitute("x-y-z", "-", "+"), "x+y+z");
    assert_eq!(substitute("abab", "ab", "c"), "cc");
}

#[test]
fn substitute_scans_from_the_left_without_overlap() {
    assert_eq!(substitute("aaa", "aa", "b"), "ba");
    assert_eq!(substitute("aaaa", "aa", "b"), "bb");
    assert_eq!(substitute("ababa", "aba", "x"), "xba");
}

#[test]
fn substitute_does_not_rescan_what_it_put_in() {
    assert_eq!(substitute("ab", "a", "aa"), "aab");
    assert_eq!(substitute("xx", "x", "xx"), "xxxx");
}

#[test]
fn substitute_without_occurrence_returns_the_text() {
    assert_eq!(substitute("hello", "xyz", "!"), "hello");
    assert_eq!(substitute("ab", "abc", "!"), "ab");
    assert_eq!(substitute("", "abc", "!"), "");
}

#[test]
fn substitute_at_both_ends() {
    assert_eq!(substitute("abXab", "ab", ""), "X");
    assert_eq!(substitute("ab", "ab", "whole"), "whole");
}

#[test]
fn substitute_with_an_empty_pattern() {
    assert_eq!(substitute("abc", "", "-"), "-a-b-c-");
    assert_eq!(substitute("", "", "-"), "-");
}

#[test]
fn substitute_counts_characters_not_bytes() {
    assert_eq!(substitute("één twee", "é", "e"), "een twee");
    assert_eq!(substitute("日本語", "本", "--"), "日--語");
    assert_eq!(substitute("ü", "", "|"), "|ü|");
}

#[test]
fn substitute_agrees_with_str_replace() {
    let texts = ["", "a", "aaa", "abcabc", "<!-- M --> and <!-- M -->", "ünïcödé ünï", "--><!--"];
    let patterns = ["", "a", "aa", "abc", "<!-- M -->", "ünï", "-", "zzz"];
    let replacements = ["", "x", "aa", "<b>é</b>"];
    for text in texts.iter() {
        for pattern in patterns.iter() {
            for replacement in replacements.iter() {
                assert_eq!(
                    substitute(text, pattern, replacement),
                    text.replace(pattern, replacement),
                    "text {:?}, pattern {:?}, replacement {:?}",
                    text,
                    pattern,
                    replacement
                );
            }
        }
    }
}

#[test]
fn template_holds_the_marker_once() {
    assert_eq!(INDEX_TEMPLATE.matches(MESSAGE_PLACEHOLDER).count(), 1);
    assert_eq!(MESSAGE_PLACEHOLDER, "<!-- MESSAGE_PLACEHOLDER -->");
}

#[test]
fn template_is_a_form_for_new_redirects() {
    assert!(INDEX_TEMPLATE.contains("action='/create'"));
    assert!(INDEX_TEMPLATE.contains("method='post'"));
    assert!(INDEX_TEMPLATE.contains("name='short_name'"));
    assert!(INDEX_TEMPLATE.contains("name='url'"));
    assert!(INDEX_TEMPLATE.contains("name='owner'"));
}

#[test]
fn message_block_for_a_success() {
    assert_eq!(
        render_message_block("Redirect created successfully", true),
        "<div class='message success' style='display:block;'>Redirect created successfully</div>"
    );
}

#[test]
fn message_block_for_an_error() {
    assert_eq!(
        render_message_block("ID already exists", false),
        "<div class='message error' style='display:block;'>ID already exists</div>"
    );
}

#[test]
fn page_with_a_message_shows_it_in_place_of_the_marker() {
    let page = render_page("hello", true);
    let block = "<div class='message success' style='display:block;'>hello</div>";
    assert_eq!(page, INDEX_TEMPLATE.replace(MESSAGE_PLACEHOLDER, block));
    assert!(page.contains(block));
    assert!(!page.contains(MESSAGE_PLACEHOLDER));
    let at = INDEX_TEMPLATE.find(MESSAGE_PLACEHOLDER).unwrap();
    assert_eq!(&page[..at], &INDEX_TEMPLATE[..at]);
    assert_eq!(&page[at..at + block.len()], block);
    assert_eq!(&page[at + block.len()..], &INDEX_TEMPLATE[at + MESSAGE_PLACEHOLDER.len()..]);
}

#[test]
fn page_with_an_error_message_is_marked_as_error() {
    let page = render_page("went wrong", false);
    assert!(page.contains("<div class='message error' style='display:block;'>went wrong</div>"));
}

#[test]
fn page_without_a_message_is_the_template_as_it_stands() {
    assert_eq!(render_page("", true), INDEX_TEMPLATE);
    assert_eq!(render_page("", false), INDEX_TEMPLATE);
}
