use vstd::prelude::*;

verus! {

/// Whether a word piece is one of the tokenizer's framing tokens, which the
/// report leaves out.
pub open spec fn is_framing(token: Seq<char>) -> bool {
    token == "[CLS]"@ || token == "[SEP]"@
}

/// Tells whether `token` is the classifier's `[CLS]` or `[SEP]` token.
pub fn is_special_token(token: &String) -> (special: bool)
    ensures
        special == is_framing(token@),
{
    let cls = String::from_str("[CLS]");
    let sep = String::from_str("[SEP]");
    *token == cls || *token == sep
}

/// A word with every `##` continuation marker removed, scanning from the
/// left and never reusing a `#` of a removed marker.
pub open spec fn without_markers(word: Seq<char>) -> Seq<char>
    decreases word.len(),
{
    if word.len() < 2 {
        word
    } else if word[0] == '#' && word[1] == '#' {
        without_markers(word.skip(2))
    } else {
        seq![word[0]] + without_markers(word.skip(1))
    }
}

/// Whether `word` holds the continuation marker `##` anywhere.
pub open spec fn has_marker(word: Seq<char>) -> bool {
    exists|i: int| 0 <= i < word.len() - 1 && #[trigger] word[i] == '#' && word[i + 1] == '#'
}

/// Removes the `##` continuation markers that the tokenizer puts in front of
/// the pieces of a split word.
pub fn clean_token(token: &str) -> (cleaned: String)
    ensures
        cleaned@ == without_markers(token@),
{
    let n = token.unicode_len();
    let mut cleaned = String::new();
    let mut i: usize = 0;
    assert(token@.skip(0) =~= token@);
    while i < n
        invariant
            n == token@.len(),
            i <= n,
            without_markers(token@) == cleaned@ + without_markers(token@.skip(i as int)),
        decreases n - i,
    {
        let rest = Ghost(token@.skip(i as int));
        if i + 1 < n && token.get_char(i) == '#' && token.get_char(i + 1) == '#' {
            assert(rest@.skip(2) =~= token@.skip(i + 2));
            i = i + 2;
        } else {
            let piece = token.substring_char(i, i + 1);
            cleaned.append(piece);
            proof {
                if rest@.len() < 2 {
                    assert(rest@ =~= seq![token@[i as int]] + token@.skip(i + 1));
                    assert(token@.skip(i + 1).len() == 0);
                } else {
                    assert(rest@.skip(1) =~= token@.skip(i + 1));
                }
                assert(piece@ =~= seq![token@[i as int]]);
            }
            i = i + 1;
        }
    }
    assert(token@.skip(n as int).len() == 0);
    assert(cleaned@ + seq![] =~= cleaned@);
    cleaned
}

/// What the first character of a cleaned word is, when the word does not
/// start with a `#`.
proof fn lemma_first_kept(word: Seq<char>)
    requires
        word.len() > 0,
        word[0] != '#',
    ensures
        without_markers(word).len() > 0,
        without_markers(word)[0] == word[0],
{
}

/// A cleaned word holds no `##` marker: after cleaning, a `#` is never
/// followed by another `#`.
pub proof fn lemma_cleaned_has_no_marker(word: Seq<char>)
    ensures
        !has_marker(without_markers(word)),
    decreases word.len(),
{
    if word.len() < 2 {
    } else if word[0] == '#' && word[1] == '#' {
        lemma_cleaned_has_no_marker(word.skip(2));
    } else {
        let tail = without_markers(word.skip(1));
        lemma_cleaned_has_no_marker(word.skip(1));
        let out = seq![word[0]] + tail;
        if word[0] == '#' {
            lemma_first_kept(word.skip(1));
        }
        assert forall|i: int| 0 <= i < out.len() - 1 && #[trigger] out[i] == '#' implies out[i + 1] != '#' by {
            if i > 0 {
                assert(out[i] == tail[i - 1]);
                assert(out[i + 1] == tail[i]);
            }
        }
    }
}

/// Cleaning a word that holds no marker leaves it as it is, so cleaning
/// twice gives the same word as cleaning once.
pub proof fn lemma_clean_is_idempotent(word: Seq<char>)
    ensures
        !has_marker(word) ==> without_markers(word) == word,
        without_markers(without_markers(word)) == without_markers(word),
    decreases word.len(),
{
    if !has_marker(word) {
        lemma_unmarked_unchanged(word);
    }
    lemma_cleaned_has_no_marker(word);
    lemma_unmarked_unchanged(without_markers(word));
}

proof fn lemma_unmarked_unchanged(word: Seq<char>)
    requires
        !has_marker(word),
    ensures
        without_markers(word) == word,
    decreases word.len(),
{
    if word.len() >= 2 {
        assert(!(word[0] == '#' && word[1] == '#'));
        let tail = word.skip(1);
        assert forall|i: int| 0 <= i < tail.len() - 1 && #[trigger] tail[i] == '#' implies tail[i + 1] != '#' by {
            assert(word[i + 1] == '#');
        }
        lemma_unmarked_unchanged(tail);
        assert(seq![word[0]] + tail =~= word);
    }
}

} // verus!

verus! {

/// Exactly the two pieces `[CLS]` and `[SEP]` are framing tokens.
pub proof fn lemma_framing_is_cls_or_sep(token: Seq<char>)
    ensures
        is_framing(token) <==> (token == seq!['[', 'C', 'L', 'S', ']'] || token == seq!['[', 'S', 'E', 'P', ']']),
{
    reveal_strlit("[CLS]");
    reveal_strlit("[SEP]");
    assert("[CLS]"@ =~= seq!['[', 'C', 'L', 'S', ']']);
    assert("[SEP]"@ =~= seq!['[', 'S', 'E', 'P', ']']);
}

/// Cleaning removes a leading `##` marker and nothing else: it keeps a first
/// character that is not `#`, keeps a lone `#` or a `#` followed by
/// something else, and leaves the empty word empty. These cases determine
/// the cleaned word of every word.
pub proof fn lemma_cleaning_steps(c: char, rest: Seq<char>)
    ensures
        without_markers(Seq::<char>::empty()) == Seq::<char>::empty(),
        without_markers(seq!['#']) == seq!['#'],
        without_markers(seq!['#', '#'] + rest) == without_markers(rest),
        c != '#' ==> without_markers(seq![c] + rest) == seq![c] + without_markers(rest),
        c != '#' ==> without_markers(seq!['#', c] + rest) == seq!['#'] + without_markers(seq![c] + rest),
{
    assert((seq!['#', '#'] + rest).skip(2) =~= rest);
    assert((seq![c] + rest).skip(1) =~= rest);
    assert((seq!['#', c] + rest).skip(1) =~= seq![c] + rest);
    if c != '#' && rest.len() == 0 {
        assert(seq![c] + rest =~= seq![c]);
        assert(without_markers(rest) =~= Seq::<char>::empty());
        assert(seq![c] + without_markers(rest) =~= seq![c]);
    }
}

} // verus!
