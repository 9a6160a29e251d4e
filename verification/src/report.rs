use vstd::prelude::*;

use crate::labels::{label_name, label_text, LABEL_COUNT};
use crate::scores::{best_index, select_best};
use crate::tokens::{clean_token, is_framing, is_special_token, without_markers};

verus! {

/// Score key of a zero probability: a class is only reported when its
/// probability is above zero.
pub const ZERO_SCORE: i64 = 0;

/// `count` spaces.
pub open spec fn spaces(count: nat) -> Seq<char> {
    Seq::new(count, |i: int| ' ')
}

/// `text` padded on the right with spaces to at least `width` characters,
/// as the `{:<width}` format does.
pub open spec fn padded(text: Seq<char>, width: int) -> Seq<char> {
    if text.len() >= width {
        text
    } else {
        text + spaces((width - text.len()) as nat)
    }
}

/// Pads `text` on the right with spaces to `width` characters; longer text
/// is left as it is.
pub fn pad_right(text: &str, width: usize) -> (out: String)
    ensures
        out@ == padded(text@, width as int),
{
    let len = text.unicode_len();
    let mut out = String::from_str(text);
    let mut count = len;
    assert(out@ =~= text@ + spaces(0));
    while count < width
        invariant
            len == text@.len(),
            len <= count,
            count <= width || count == len,
            out@ == text@ + spaces((count - len) as nat),
        decreases width - count,
    {
        out.append(" ");
        proof {
            reveal_strlit(" ");
        }
        assert(spaces((count - len) as nat).push(' ') =~= spaces((count + 1 - len) as nat));
        count = count + 1;
    }
    out
}

/// One report line for a word piece, its class name and its probability
/// text.
pub open spec fn report_line(word: Seq<char>, label: Seq<char>, percent: Seq<char>) -> Seq<char> {
    "Word: "@ + padded(word, 15) + " -> Label: "@ + padded(label, 10) + " ("@ + percent + "%)"@
}

/// Header line of a report.
pub open spec fn report_header() -> Seq<char> {
    "--- Results ---"@
}

/// Builds the report line `Word: <word> -> Label: <label> (<percent>%)`,
/// with the word padded to 15 characters and the label to 10.
pub fn result_line(word: &str, label: &str, percent: &str) -> (line: String)
    ensures
        line@ == report_line(word@, label@, percent@),
{
    let mut line = String::from_str("Word: ");
    let word_padded = pad_right(word, 15);
    line.append(word_padded.as_str());
    line.append(" -> Label: ");
    let label_padded = pad_right(label, 10);
    line.append(label_padded.as_str());
    line.append(" (");
    line.append(percent);
    line.append("%)");
    line
}

/// The outcome for one word piece of the classifier's output.
pub struct TokenPrediction {
    /// Row of the model output (position of the word piece).
    pub row: usize,
    /// The word piece without its `##` markers.
    pub word: String,
    /// The class that scored highest, if any scored above zero.
    pub best: Option<usize>,
}

/// An index as a mathematical integer.
pub open spec fn index_of(best: Option<usize>) -> Option<int> {
    match best {
        Some(i) => Some(i as int),
        None => None,
    }
}

impl TokenPrediction {
    /// The row, cleaned word and winning class of this prediction.
    pub open spec fn model(&self) -> (int, Seq<char>, Option<int>) {
        (self.row as int, self.word@, index_of(self.best))
    }

    /// The class reported for this word piece: the winner, or the first class
    /// when no class scored above zero.
    pub open spec fn label_index(&self) -> int {
        match self.best {
            Some(i) => i as int,
            None => 0,
        }
    }
}

/// The views of a list of strings.
pub open spec fn texts(strings: Seq<String>) -> Seq<Seq<char>> {
    strings.map_values(|s: String| s@)
}

/// The views of the rows of a score table.
pub open spec fn score_rows(rows: Seq<Vec<Option<i64>>>) -> Seq<Seq<Option<i64>>> {
    rows.map_values(|r: Vec<Option<i64>>| r@)
}

/// The models of a list of predictions.
pub open spec fn prediction_models(predictions: Seq<TokenPrediction>) -> Seq<(int, Seq<char>, Option<int>)> {
    predictions.map_values(|p: TokenPrediction| p.model())
}

/// The predictions for the first `rows.len()` word pieces: one per piece
/// that is not a framing token, in order, each with its cleaned word and
/// the class whose score is highest above zero.
pub open spec fn predictions(tokens: Seq<Seq<char>>, rows: Seq<Seq<Option<i64>>>) -> Seq<(int, Seq<char>, Option<int>)>
    decreases rows.len(),
{
    if rows.len() == 0 {
        seq![]
    } else {
        let n = rows.len() - 1;
        let earlier = predictions(tokens, rows.drop_last());
        if is_framing(tokens[n]) {
            earlier
        } else {
            earlier.push((n, without_markers(tokens[n]), best_index(rows[n], ZERO_SCORE as int)))
        }
    }
}

/// The predictions follow the word pieces in order, one for each piece that
/// is not a framing token and none for the framing tokens; each carries the
/// piece's cleaned word and its best class above zero.
pub proof fn lemma_predictions_follow_tokens(tokens: Seq<Seq<char>>, rows: Seq<Seq<Option<i64>>>)
    requires
        rows.len() <= tokens.len(),
    ensures
        forall|k: int|
            0 <= k < predictions(tokens, rows).len() ==> {
                let (row, word, best) = #[trigger] predictions(tokens, rows)[k];
                &&& 0 <= row < rows.len()
                &&& !is_framing(tokens[row])
                &&& word == without_markers(tokens[row])
                &&& best == best_index(rows[row], ZERO_SCORE as int)
            },
        forall|k1: int, k2: int|
            0 <= k1 < k2 < predictions(tokens, rows).len() ==> (#[trigger] predictions(tokens, rows)[k1]).0
                < (#[trigger] predictions(tokens, rows)[k2]).0,
        forall|i: int|
            0 <= i < rows.len() && !is_framing(#[trigger] tokens[i]) ==> exists|k: int|
                0 <= k < predictions(tokens, rows).len() && (#[trigger] predictions(tokens, rows)[k]).0 == i,
    decreases rows.len(),
{
    if rows.len() > 0 {
        let n = rows.len() - 1;
        let shorter = rows.drop_last();
        lemma_predictions_follow_tokens(tokens, shorter);
        let earlier = predictions(tokens, shorter);
        assert forall|i: int| 0 <= i < n implies #[trigger] shorter[i] == rows[i] by {}
        if !is_framing(tokens[n]) {
            let all = predictions(tokens, rows);
            assert(all == earlier.push((n, without_markers(tokens[n]), best_index(rows[n], ZERO_SCORE as int))));
            assert forall|i: int| 0 <= i < rows.len() && !is_framing(#[trigger] tokens[i]) implies exists|k: int|
                0 <= k < all.len() && (#[trigger] all[k]).0 == i by {
                if i == n {
                    assert(all[earlier.len() as int].0 == i);
                } else {
                    let k = choose|k: int| 0 <= k < earlier.len() && (#[trigger] earlier[k]).0 == i;
                    assert(all[k] == earlier[k]);
                }
            }
            assert forall|k1: int, k2: int| 0 <= k1 < k2 < all.len() implies (#[trigger] all[k1]).0
                < (#[trigger] all[k2]).0 by {
                assert(all[k1] == earlier[k1]);
                if k2 < earlier.len() {
                    assert(all[k2] == earlier[k2]);
                }
            }
            assert forall|k: int| 0 <= k < all.len() implies {
                let (row, word, best) = #[trigger] all[k];
                &&& 0 <= row < rows.len()
                &&& !is_framing(tokens[row])
                &&& word == without_markers(tokens[row])
                &&& best == best_index(rows[row], ZERO_SCORE as int)
            } by {
                if k < earlier.len() {
                    assert(all[k] == earlier[k]);
                    assert(shorter[earlier[k].0] == rows[earlier[k].0]);
                }
            }
        } else {
            assert forall|k: int| 0 <= k < earlier.len() implies #[trigger] shorter[earlier[k].0] == rows[earlier[k].0] by {}
        }
    }
}

/// Classifies each word piece: `rows[i]` holds the score keys of the classes
/// for `tokens[i]`. Framing tokens are skipped; every other piece gets its
/// cleaned word and its best class.
pub fn predict_tokens(tokens: &Vec<String>, rows: &Vec<Vec<Option<i64>>>) -> (out: Vec<TokenPrediction>)
    requires
        rows@.len() <= tokens@.len(),
    ensures
        prediction_models(out@) == predictions(texts(tokens@), score_rows(rows@)),
{
    let mut out: Vec<TokenPrediction> = Vec::new();
    let n = rows.len();
    for i in 0..n
        invariant
            n == rows@.len(),
            n <= tokens@.len(),
            prediction_models(out@) == predictions(texts(tokens@), score_rows(rows@).take(i as int)),
    {
        let ghost before = out@;
        assert(score_rows(rows@).take(i + 1).drop_last() =~= score_rows(rows@).take(i as int));
        let token = &tokens[i];
        if !is_special_token(token) {
            let word = clean_token(token.as_str());
            let best = select_best(&rows[i], ZERO_SCORE);
            out.push(TokenPrediction { row: i, word, best });
            assert(prediction_models(out@) =~= prediction_models(before).push(out@[before.len() as int].model()));
        } else {
            assert(prediction_models(out@) =~= prediction_models(before));
        }
    }
    assert(score_rows(rows@).take(n as int) =~= score_rows(rows@));
    out
}

/// The class reported for a winning index: the winner, or the first class.
pub open spec fn reported_label(best: Option<int>) -> int {
    match best {
        Some(i) => i,
        None => 0,
    }
}

/// The report lines for predictions and their probability texts: a header,
/// then one line per prediction.
pub open spec fn report(predictions: Seq<(int, Seq<char>, Option<int>)>, percents: Seq<Seq<char>>) -> Seq<Seq<char>> {
    Seq::new(
        predictions.len() + 1,
        |i: int|
            if i == 0 {
                report_header()
            } else {
                report_line(predictions[i - 1].1, label_text(reported_label(predictions[i - 1].2)), percents[i - 1])
            },
    )
}

/// The report: a header line, then one line per prediction with its class
/// name and its probability text.
pub fn result_lines(predictions: &Vec<TokenPrediction>, percents: &Vec<String>) -> (lines: Vec<String>)
    requires
        predictions@.len() == percents@.len(),
        forall|k: int| 0 <= k < predictions@.len() ==> #[trigger] predictions@[k].label_index() < LABEL_COUNT,
    ensures
        lines@.len() == predictions@.len() + 1,
        lines@[0]@ == report_header(),
        forall|k: int|
            0 <= k < predictions@.len() ==> #[trigger] lines@[k + 1]@ == report_line(
                predictions@[k].word@,
                label_text(predictions@[k].label_index()),
                percents@[k]@,
            ),
        texts(lines@) == report(prediction_models(predictions@), texts(percents@)),
{
    let mut lines: Vec<String> = Vec::new();
    lines.push(String::from_str("--- Results ---"));
    let n = predictions.len();
    for k in 0..n
        invariant
            n == predictions@.len(),
            n == percents@.len(),
            forall|j: int| 0 <= j < predictions@.len() ==> #[trigger] predictions@[j].label_index() < LABEL_COUNT,
            lines@.len() == k + 1,
            lines@[0]@ == report_header(),
            forall|j: int|
                0 <= j < k ==> #[trigger] lines@[j + 1]@ == report_line(
                    predictions@[j].word@,
                    label_text(predictions@[j].label_index()),
                    percents@[j]@,
                ),
    {
        let prediction = &predictions[k];
        let label_index: usize = match prediction.best {
            Some(i) => i,
            None => 0,
        };
        assert(label_index == predictions@[k as int].label_index());
        let label = label_name(label_index);
        let line = result_line(prediction.word.as_str(), label, percents[k].as_str());
        lines.push(line);
    }
    let ghost models = prediction_models(predictions@);
    assert forall|i: int| 0 <= i < lines@.len() implies #[trigger] texts(lines@)[i] == report(models, texts(percents@))[i] by {
        if i > 0 {
            let k = i - 1;
            assert(lines@[k + 1]@ == report_line(
                predictions@[k].word@,
                label_text(predictions@[k].label_index()),
                percents@[k]@,
            ));
            assert(models[k] == predictions@[k].model());
            assert(reported_label(models[k].2) == predictions@[k].label_index());
        }
    }
    assert(texts(lines@) =~= report(models, texts(percents@)));
    lines
}

} // verus!

verus! {

/// A prediction is reported under its own winning class, and under the
/// first class when no class won.
pub proof fn lemma_label_is_the_winner(prediction: TokenPrediction, best: Option<int>)
    ensures
        prediction.best matches Some(i) ==> prediction.label_index() == i as int,
        prediction.best is None ==> prediction.label_index() == 0,
        best matches Some(i) ==> reported_label(best) == i,
        best is None ==> reported_label(best) == 0,
{
}

/// The report starts with its header, and line `k + 1` describes prediction
/// `k`: its word, the name of its winning class (the first class when none
/// won) and its probability text.
pub proof fn lemma_report_lines(predictions: Seq<(int, Seq<char>, Option<int>)>, percents: Seq<Seq<char>>)
    ensures
        report(predictions, percents).len() == predictions.len() + 1,
        report(predictions, percents)[0] == report_header(),
        forall|k: int|
            0 <= k < predictions.len() ==> #[trigger] report(predictions, percents)[k + 1] == report_line(
                predictions[k].1,
                label_text(
                    match predictions[k].2 {
                        Some(i) => i,
                        None => 0,
                    },
                ),
                percents[k],
            ),
{
}

} // verus!

verus! {

/// Padding keeps the text in front and fills with spaces up to the width:
/// the result is as long as the longer of the text and the width.
pub proof fn lemma_padding(text: Seq<char>, width: int)
    ensures
        padded(text, width).len() == if text.len() >= width { text.len() as int } else { width },
        forall|i: int| 0 <= i < text.len() ==> #[trigger] padded(text, width)[i] == text[i],
        forall|i: int| text.len() <= i < width ==> #[trigger] padded(text, width)[i] == ' ',
{
}

/// The report's header and the fixed parts of a line, character by
/// character.
pub proof fn lemma_report_layout(word: Seq<char>, label: Seq<char>, percent: Seq<char>)
    ensures
        report_header() == seq!['-', '-', '-', ' ', 'R', 'e', 's', 'u', 'l', 't', 's', ' ', '-', '-', '-'],
        report_line(word, label, percent) == seq!['W', 'o', 'r', 'd', ':', ' '] + padded(word, 15) + seq![
            ' ',
            '-',
            '>',
            ' ',
            'L',
            'a',
            'b',
            'e',
            'l',
            ':',
            ' ',
        ] + padded(label, 10) + seq![' ', '('] + percent + seq!['%', ')'],
{
    reveal_strlit("--- Results ---");
    reveal_strlit("Word: ");
    reveal_strlit(" -> Label: ");
    reveal_strlit(" (");
    reveal_strlit("%)");
    assert("--- Results ---"@ =~= seq!['-', '-', '-', ' ', 'R', 'e', 's', 'u', 'l', 't', 's', ' ', '-', '-', '-']);
    assert("Word: "@ =~= seq!['W', 'o', 'r', 'd', ':', ' ']);
    assert(" -> Label: "@ =~= seq![' ', '-', '>', ' ', 'L', 'a', 'b', 'e', 'l', ':', ' ']);
    assert(" ("@ =~= seq![' ', '(']);
    assert("%)"@ =~= seq!['%', ')']);
}

} // verus!
