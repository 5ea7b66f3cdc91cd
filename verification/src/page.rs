//! The one HTML page of the service and the substitution that fills its message region.

use vstd::prelude::*;
use vstd::string::*;

verus! {

/// The marker in the page template that a message block replaces.
pub const MESSAGE_PLACEHOLDER: &'static str = "<!-- MESSAGE_PLACEHOLDER -->";

/// The page template: a form for new redirects, with the marker of the message region.
pub const INDEX_TEMPLATE: &'static str = "<!DOCTYPE html>
<html>
<head>
<meta charset='utf-8'>
<title>URL Shortener</title>
<style>
.message { display: none; padding: 8px; margin-bottom: 12px; }
.success { background: #dff0d8; color: #2b542c; }
.error { background: #f2dede; color: #8a2f2d; }
</style>
</head>
<body>
<h1>Create a redirect</h1>
<!-- MESSAGE_PLACEHOLDER -->
<form method='post' action='/create'>
<label>Short name <input type='text' name='short_name' required></label>
<label>URL <input type='text' name='url' required></label>
<label>Owner <input type='text' name='owner' required></label>
<button type='submit'>Create</button>
</form>
</body>
</html>
";

/// Whether `pattern` stands in `text` at position `at`.
pub open spec fn occurs(text: Seq<char>, pattern: Seq<char>, at: int) -> bool {
    0 <= at <= text.len() && pattern.is_prefix_of(text.skip(at))
}

/// `text` with every occurrence of `pattern` replaced by `replacement`, scanning from the left
/// and never matching inside an occurrence already replaced. An empty pattern occurs before
/// every character and at the end.
pub open spec fn replace_all(text: Seq<char>, pattern: Seq<char>, replacement: Seq<char>) -> Seq<
    char,
>
    decreases text.len(),
{
    if pattern.len() > 0 && pattern.is_prefix_of(text) {
        replacement + replace_all(text.skip(pattern.len() as int), pattern, replacement)
    } else if text.len() == 0 {
        if pattern.len() == 0 {
            replacement
        } else {
            text
        }
    } else if pattern.len() == 0 {
        replacement + text.take(1) + replace_all(text.skip(1), pattern, replacement)
    } else {
        text.take(1) + replace_all(text.skip(1), pattern, replacement)
    }
}

/// The characters of a string, in order.
fn chars_of(s: &str) -> (chars: Vec<char>)
    ensures
        chars@ == s@,
{
    let mut chars: Vec<char> = Vec::new();
    for c in it: s.chars()
        invariant
            it.seq() == s@,
            chars@ == s@.take(it.index() as int),
    {
        chars.push(c);
    }
    chars
}

/// Whether `pattern` stands in `text` at position `at`.
fn occurs_at(text: &Vec<char>, pattern: &Vec<char>, at: usize) -> (found: bool)
    requires
        at <= text.len(),
    ensures
        found == occurs(text@, pattern@, at as int),
{
    if pattern.len() > text.len() - at {
        return false;
    }
    let mut j: usize = 0;
    while j < pattern.len()
        invariant
            at + pattern.len() <= text.len(),
            j <= pattern.len(),
            forall|k: int| 0 <= k < j ==> pattern@[k] == text@[at + k],
        decreases pattern.len() - j,
    {
        if pattern[j] != text[at + j] {
            assert(pattern@[j as int] != text@.skip(at as int)[j as int]);
            return false;
        }
        j = j + 1;
    }
    assert(pattern@ =~= text@.skip(at as int).subrange(0, pattern@.len() as int));
    true
}

/// Replaces every occurrence of `pattern` in `text` by `replacement`, as `str::replace` does.
pub fn substitute(text: &str, pattern: &str, replacement: &str) -> (out: String)
    ensures
        out@ == replace_all(text@, pattern@, replacement@),
{
    let t = chars_of(text);
    let p = chars_of(pattern);
    let n: usize = t.len();
    let m: usize = p.len();
    let mut out = String::new();
    let mut i: usize = 0;
    assert(t@.skip(0) =~= t@);
    if m == 0 {
        while i < n
            invariant
                t@ == text@,
                p@ == pattern@,
                n == t@.len(),
                p@.len() == 0,
                i <= n,
                replace_all(t@, p@, replacement@) =~= out@ + replace_all(
                    t@.skip(i as int),
                    p@,
                    replacement@,
                ),
            decreases n - i,
        {
            proof {
                let rest = t@.skip(i as int);
                assert(rest.take(1) =~= t@.subrange(i as int, i + 1));
                assert(rest.skip(1) =~= t@.skip(i + 1));
            }
            out.append(replacement);
            out.append(text.substring_char(i, i + 1));
            i = i + 1;
        }
        out.append(replacement);
    } else {
        let mut start: usize = 0;
        while i < n
            invariant
                t@ == text@,
                p@ == pattern@,
                n == t@.len(),
                m == p@.len(),
                m > 0,
                start <= i <= n,
                replace_all(t@, p@, replacement@) =~= out@ + t@.subrange(start as int, i as int)
                    + replace_all(t@.skip(i as int), p@, replacement@),
            decreases n - i,
        {
            let ghost rest = t@.skip(i as int);
            if occurs_at(&t, &p, i) {
                proof {
                    assert(rest.skip(m as int) =~= t@.skip(i + m));
                    assert(t@.subrange(i + m, i + m) =~= Seq::<char>::empty());
                }
                out.append(text.substring_char(start, i));
                out.append(replacement);
                i = i + m;
                start = i;
            } else {
                proof {
                    assert(rest.skip(1) =~= t@.skip(i + 1));
                    assert(t@.subrange(start as int, i as int) + rest.take(1) =~= t@.subrange(
                        start as int,
                        i + 1,
                    ));
                }
                i = i + 1;
            }
        }
        out.append(text.substring_char(start, n));
    }
    out
}

/// The block that shows `message` in the message region, marked as a success or as an error.
pub open spec fn message_block(message: Seq<char>, success: bool) -> Seq<char> {
    "<div class='message "@ + (if success {
        "success"@
    } else {
        "error"@
    }) + "' style='display:block;'>"@ + message + "</div>"@
}

/// The page that shows `message`: the template with the block for `message` in place of every
/// marker, or the template as it stands if there is no message to show.
pub open spec fn page_with_message(message: Seq<char>, success: bool) -> Seq<char> {
    if message.len() == 0 {
        INDEX_TEMPLATE@
    } else {
        replace_all(INDEX_TEMPLATE@, MESSAGE_PLACEHOLDER@, message_block(message, success))
    }
}

/// The page with an empty message region: the template without its markers.
pub open spec fn blank_page() -> Seq<char> {
    replace_all(INDEX_TEMPLATE@, MESSAGE_PLACEHOLDER@, Seq::<char>::empty())
}

/// Builds the block that shows `message`.
pub fn render_message_block(message: &str, success: bool) -> (block: String)
    ensures
        block@ == message_block(message@, success),
{
    let mut block = String::from_str("<div class='message ");
    if success {
        block.append("success");
    } else {
        block.append("error");
    }
    block.append("' style='display:block;'>");
    block.append(message);
    block.append("</div>");
    block
}

/// Builds the page that shows `message`.
pub fn render_page(message: &str, success: bool) -> (page: String)
    ensures
        page@ == page_with_message(message@, success),
{
    if message.is_empty() {
        String::from_str(INDEX_TEMPLATE)
    } else {
        let block = render_message_block(message, success);
        substitute(INDEX_TEMPLATE, MESSAGE_PLACEHOLDER, block.as_str())
    }
}

/// The pattern stands at `at` in what follows the first `k` characters exactly if it stands at
/// `k + at` in the whole.
proof fn lemma_occurs_after_skip(text: Seq<char>, pattern: Seq<char>, k: int, at: int)
    requires
        0 <= k <= text.len(),
        0 <= at,
    ensures
        occurs(text.skip(k), pattern, at) == occurs(text, pattern, k + at),
{
    if k + at <= text.len() {
        assert(text.skip(k).skip(at) =~= text.skip(k + at));
    }
}

/// A text that does not begin with the pattern keeps its first character, and the rest is
/// replaced on its own.
proof fn lemma_replace_after_first(text: Seq<char>, pattern: Seq<char>, replacement: Seq<char>)
    requires
        pattern.len() > 0,
        text.len() > 0,
        !occurs(text, pattern, 0),
    ensures
        replace_all(text, pattern, replacement) == text.take(1) + replace_all(
            text.skip(1),
            pattern,
            replacement,
        ),
{
    assert(text.skip(0) =~= text);
}

/// A text in which the pattern does not occur comes back as it is.
pub proof fn law_replace_without_occurrence(
    text: Seq<char>,
    pattern: Seq<char>,
    replacement: Seq<char>,
)
    requires
        pattern.len() > 0,
        forall|at: int| !occurs(text, pattern, at),
    ensures
        replace_all(text, pattern, replacement) == text,
    decreases text.len(),
{
    if text.len() > 0 {
        let rest = text.skip(1);
        lemma_replace_after_first(text, pattern, replacement);
        assert forall|at: int| !occurs(rest, pattern, at) by {
            if 0 <= at {
                lemma_occurs_after_skip(text, pattern, 1, at);
            }
        }
        law_replace_without_occurrence(rest, pattern, replacement);
        assert(text.take(1) + rest =~= text);
    }
}

/// A text that begins with the pattern and holds it nowhere else becomes the replacement and
/// what followed the pattern.
proof fn lemma_replace_leading_occurrence(
    tail: Seq<char>,
    pattern: Seq<char>,
    replacement: Seq<char>,
)
    requires
        pattern.len() > 0,
        forall|at: int| occurs(pattern + tail, pattern, at) ==> at == 0,
    ensures
        replace_all(pattern + tail, pattern, replacement) == replacement + tail,
{
    let text = pattern + tail;
    assert(pattern.is_prefix_of(text)) by {
        assert(text.subrange(0, pattern.len() as int) =~= pattern);
    }
    assert(text.skip(pattern.len() as int) =~= tail);
    assert forall|at: int| !occurs(tail, pattern, at) by {
        if 0 <= at {
            lemma_occurs_after_skip(text, pattern, pattern.len() as int, at);
            assert(occurs(text, pattern, pattern.len() + at) ==> pattern.len() + at == 0);
        }
    }
    law_replace_without_occurrence(tail, pattern, replacement);
}

/// Taking the first character off a text in three parts takes it off the first part.
proof fn lemma_first_of_three(
    head: Seq<char>,
    middle: Seq<char>,
    other: Seq<char>,
    tail: Seq<char>,
)
    requires
        head.len() > 0,
    ensures
        (head + middle + tail).skip(1) == head.skip(1) + middle + tail,
        (head + middle + tail).take(1) + (head.skip(1) + other + tail) == head + other + tail,
{
    assert((head + middle + tail).skip(1) =~= head.skip(1) + middle + tail);
    assert((head + middle + tail).take(1) + (head.skip(1) + other + tail) =~= head + other
        + tail);
}

/// In a text that holds the pattern at one place only, between `head` and `tail`, the
/// replacement takes that place and the rest stays: what filling the one marker of a template
/// comes to.
pub proof fn law_replace_single_occurrence(
    head: Seq<char>,
    tail: Seq<char>,
    pattern: Seq<char>,
    replacement: Seq<char>,
)
    requires
        pattern.len() > 0,
        forall|at: int| #[trigger] occurs(head + pattern + tail, pattern, at) ==> at == head.len(),
    ensures
        replace_all(head + pattern + tail, pattern, replacement) == head + replacement + tail,
    decreases head.len(),
{
    let text = head + pattern + tail;
    if head.len() == 0 {
        assert(text =~= pattern + tail);
        lemma_replace_leading_occurrence(tail, pattern, replacement);
        assert(replacement + tail =~= head + replacement + tail);
    } else {
        let shorter = head.skip(1);
        let rest = shorter + pattern + tail;
        lemma_first_of_three(head, pattern, replacement, tail);
        assert(!occurs(text, pattern, 0));
        lemma_replace_after_first(text, pattern, replacement);
        assert forall|at: int| #[trigger] occurs(rest, pattern, at) implies at == shorter.len() by {
            lemma_occurs_after_skip(text, pattern, 1, at);
            assert(occurs(text, pattern, 1 + at));
        }
        law_replace_single_occurrence(shorter, tail, pattern, replacement);
    }
}

} // verus!
