use vstd::prelude::*;

verus! {

/// Number of token classes that the token-classification model distinguishes.
pub const LABEL_COUNT: usize = 7;

/// The name of each token class, in the order of the model's output columns.
pub open spec fn label_text(index: int) -> Seq<char> {
    if index == 0 {
        "O"@
    } else if index == 1 {
        "B-LOOK"@
    } else if index == 2 {
        "I-LOOK"@
    } else if index == 3 {
        "B-MOVE"@
    } else if index == 4 {
        "I-MOVE"@
    } else if index == 5 {
        "B-TURN"@
    } else {
        "I-TURN"@
    }
}

/// The name of the token class at column `index` of the model's output.
pub fn label_name(index: usize) -> (name: &'static str)
    requires
        index < LABEL_COUNT,
    ensures
        name@ == label_text(index as int),
{
    match index {
        0 => "O",
        1 => "B-LOOK",
        2 => "I-LOOK",
        3 => "B-MOVE",
        4 => "I-MOVE",
        5 => "B-TURN",
        _ => "I-TURN",
    }
}

} // verus!

verus! {

/// Classes of a word in a movement command: outside any command, or the
/// beginning / inside of a look, move or turn phrase.
#[derive(Debug, PartialEq, Eq, Structural, PartialOrd, Ord, Hash, Copy, Clone)]
pub enum SentimentSentence {
    O,
    BLook,
    ILook,
    BMove,
    IMove,
    BTurn,
    ITurn,
}

impl SentimentSentence {
    /// The display name of the class.
    pub open spec fn text(self) -> Seq<char> {
        match self {
            SentimentSentence::O => "O"@,
            SentimentSentence::BLook => "BLook"@,
            SentimentSentence::ILook => "ILook"@,
            SentimentSentence::BMove => "BMove"@,
            SentimentSentence::IMove => "IMove"@,
            SentimentSentence::BTurn => "BTurn"@,
            SentimentSentence::ITurn => "ITurn"@,
        }
    }

    /// The display name of the class.
    pub fn to_string(&self) -> (s: String)
        ensures
            s@ == self.text(),
    {
        match self {
            SentimentSentence::O => String::from_str("O"),
            SentimentSentence::BLook => String::from_str("BLook"),
            SentimentSentence::ILook => String::from_str("ILook"),
            SentimentSentence::BMove => String::from_str("BMove"),
            SentimentSentence::IMove => String::from_str("IMove"),
            SentimentSentence::BTurn => String::from_str("BTurn"),
            SentimentSentence::ITurn => String::from_str("ITurn"),
        }
    }
}

/// Polarity of a sentence.
#[derive(Debug, PartialEq, Eq, Structural, PartialOrd, Ord, Hash, Copy, Clone)]
pub enum Sentiment {
    Negative,
    Positive,
    Unknown,
}

impl Sentiment {
    /// The display name of the polarity.
    pub open spec fn text(self) -> Seq<char> {
        match self {
            Sentiment::Negative => "Negative"@,
            Sentiment::Positive => "Positive"@,
            Sentiment::Unknown => "Unknown"@,
        }
    }

    /// The display name of the polarity.
    pub fn to_string(&self) -> (s: String)
        ensures
            s@ == self.text(),
    {
        match self {
            Sentiment::Negative => String::from_str("Negative"),
            Sentiment::Positive => String::from_str("Positive"),
            Sentiment::Unknown => String::from_str("Unknown"),
        }
    }
}

} // verus!

verus! {

/// The class names, column by column of the model's output.
pub proof fn lemma_label_names()
    ensures
        label_text(0) == seq!['O'],
        label_text(1) == seq!['B', '-', 'L', 'O', 'O', 'K'],
        label_text(2) == seq!['I', '-', 'L', 'O', 'O', 'K'],
        label_text(3) == seq!['B', '-', 'M', 'O', 'V', 'E'],
        label_text(4) == seq!['I', '-', 'M', 'O', 'V', 'E'],
        label_text(5) == seq!['B', '-', 'T', 'U', 'R', 'N'],
        label_text(6) == seq!['I', '-', 'T', 'U', 'R', 'N'],
{
    reveal_strlit("O");
    reveal_strlit("B-LOOK");
    reveal_strlit("I-LOOK");
    reveal_strlit("B-MOVE");
    reveal_strlit("I-MOVE");
    reveal_strlit("B-TURN");
    reveal_strlit("I-TURN");
    assert("O"@ =~= seq!['O']);
    assert("B-LOOK"@ =~= seq!['B', '-', 'L', 'O', 'O', 'K']);
    assert("I-LOOK"@ =~= seq!['I', '-', 'L', 'O', 'O', 'K']);
    assert("B-MOVE"@ =~= seq!['B', '-', 'M', 'O', 'V', 'E']);
    assert("I-MOVE"@ =~= seq!['I', '-', 'M', 'O', 'V', 'E']);
    assert("B-TURN"@ =~= seq!['B', '-', 'T', 'U', 'R', 'N']);
    assert("I-TURN"@ =~= seq!['I', '-', 'T', 'U', 'R', 'N']);
}

} // verus!
