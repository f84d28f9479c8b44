//! Shell-style wildcard patterns over names.

use vstd::prelude::*;

verus! {

/// Whether `pattern` matches the whole of `text`: `?` stands for exactly one
/// character, `*` for any number of characters, and every other character
/// for itself.
pub open spec fn wildcard_matches(pattern: Seq<char>, text: Seq<char>) -> bool
    decreases pattern.len(), text.len(),
{
    if pattern.len() == 0 {
        text.len() == 0
    } else if pattern[0] == '*' {
        wildcard_matches(pattern.drop_first(), text) || (text.len() > 0 && wildcard_matches(
            pattern,
            text.drop_first(),
        ))
    } else {
        text.len() > 0 && (pattern[0] == '?' || pattern[0] == text[0]) && wildcard_matches(
            pattern.drop_first(),
            text.drop_first(),
        )
    }
}

/// Whether `text` holds none of the two wildcard characters.
pub open spec fn literal_text(text: Seq<char>) -> bool {
    forall|i: int| 0 <= i < text.len() ==> #[trigger] text[i] != '*' && text[i] != '?'
}

/// Matches `text` against `pattern`.
///
/// Trusted: this is `wildmatch::WildMatch::new(pattern).matches(text)`, a
/// case-sensitive matcher which is true only when the pattern matches the
/// entirety of the text, with `?` for exactly one character and `*` for
/// arbitrarily many, including none.
#[verifier::external_body]
pub(crate) fn matches_wildcard(pattern: &str, text: &str) -> (matched: bool)
    ensures
        matched == wildcard_matches(pattern@, text@),
{
    wildmatch::WildMatch::new(pattern).matches(text)
}

/// A lone `*` matches every text.
pub proof fn lemma_star_matches_all(text: Seq<char>)
    ensures
        wildcard_matches(seq!['*'], text),
    decreases text.len(),
{
    let star = seq!['*'];
    if text.len() == 0 {
        assert(star.drop_first() =~= Seq::<char>::empty());
        assert(wildcard_matches(star.drop_first(), text));
    } else {
        lemma_star_matches_all(text.drop_first());
    }
}

/// A pattern without wildcards matches itself and nothing else.
pub proof fn lemma_literal_matches_itself(pattern: Seq<char>, text: Seq<char>)
    requires
        literal_text(pattern),
    ensures
        wildcard_matches(pattern, text) <==> pattern == text,
    decreases pattern.len(),
{
    if pattern.len() == 0 {
        assert(text.len() == 0 ==> pattern =~= text);
    } else {
        assert(pattern[0] != '*' && pattern[0] != '?');
        if text.len() > 0 {
            assert(literal_text(pattern.drop_first())) by {
                assert forall|i: int| 0 <= i < pattern.drop_first().len() implies #[trigger] pattern.drop_first()[i]
                    != '*' && pattern.drop_first()[i] != '?' by {
                    assert(pattern.drop_first()[i] == pattern[i + 1]);
                }
            }
            lemma_literal_matches_itself(pattern.drop_first(), text.drop_first());
            if pattern[0] == text[0] && pattern.drop_first() == text.drop_first() {
                assert(pattern =~= seq![pattern[0]] + pattern.drop_first());
                assert(text =~= seq![text[0]] + text.drop_first());
            }
        }
    }
}

/// A prefix without wildcards that is followed by `*` matches exactly the
/// texts that begin with the prefix.
pub proof fn lemma_prefix_pattern(prefix: Seq<char>, text: Seq<char>)
    requires
        literal_text(prefix),
    ensures
        wildcard_matches(prefix.push('*'), text) <==> prefix.is_prefix_of(text),
    decreases prefix.len(),
{
    let pattern = prefix.push('*');
    if prefix.len() == 0 {
        assert(pattern =~= seq!['*']);
        lemma_star_matches_all(text);
    } else {
        assert(pattern[0] == prefix[0]);
        assert(pattern[0] != '*' && pattern[0] != '?');
        assert(pattern.drop_first() =~= prefix.drop_first().push('*'));
        if text.len() > 0 {
            assert(literal_text(prefix.drop_first())) by {
                assert forall|i: int| 0 <= i < prefix.drop_first().len() implies #[trigger] prefix.drop_first()[i]
                    != '*' && prefix.drop_first()[i] != '?' by {
                    assert(prefix.drop_first()[i] == prefix[i + 1]);
                }
            }
            lemma_prefix_pattern(prefix.drop_first(), text.drop_first());
            if prefix.is_prefix_of(text) {
                assert(prefix[0] == text[0]);
                assert(prefix.drop_first().is_prefix_of(text.drop_first())) by {
                    assert(prefix.drop_first() =~= text.drop_first().subrange(
                        0,
                        prefix.len() - 1,
                    ));
                }
            }
            if prefix[0] == text[0] && prefix.drop_first().is_prefix_of(text.drop_first()) {
                assert(prefix =~= text.subrange(0, prefix.len() as int)) by {
                    assert(prefix.drop_first() == text.drop_first().subrange(
                        0,
                        prefix.len() - 1,
                    ));
                    assert forall|i: int| 0 <= i < prefix.len() implies prefix[i] == text[i] by {
                        if i > 0 {
                            assert(prefix.drop_first()[i - 1] == text.drop_first()[i - 1]);
                        }
                    }
                }
            }
        }
    }
}

} // verus!
