use vstd::prelude::*;

use ndarray::{Array2, ShapeError};
use tokenizers::{Encoding, Tokenizer};

use crate::report::{predictions, report, texts};

verus! {

#[verifier::external_type_specification]
#[verifier::external_body]
pub struct ExTokenizer(tokenizers::Tokenizer);

#[verifier::external_type_specification]
#[verifier::external_body]
pub struct ExEncoding(tokenizers::Encoding);

/// A two-dimensional `ndarray` array of 64-bit integers, as the classifier
/// takes its ids and attention mask. Verus sees nothing inside it: what it
/// holds is given by `array_elements` and `array_shape`.
#[verifier::external_body]
pub struct IdArray {
    pub array: Array2<i64>,
}

#[verifier::external_type_specification]
#[verifier::external_body]
pub struct ExShapeError(ndarray::ShapeError);

/// The ids of the word pieces of an encoding.
pub uninterp spec fn encoding_ids(encoding: Encoding) -> Seq<u32>;

/// The attention mask of an encoding.
pub uninterp spec fn encoding_mask(encoding: Encoding) -> Seq<u32>;

/// The word pieces of an encoding.
pub uninterp spec fn encoding_tokens(encoding: Encoding) -> Seq<Seq<char>>;

/// The elements of a two-dimensional array, in row-major order.
pub uninterp spec fn array_elements(array: IdArray) -> Seq<i64>;

/// The (rows, columns) shape of a two-dimensional array.
pub uninterp spec fn array_shape(array: IdArray) -> (usize, usize);

/// Holds when `encoding` is one that `tokenizer` can give for `text`
/// (special tokens added). A relation and not a function: a tokenizer whose
/// model drops merges at random (BPE dropout) can give different encodings
/// of one text.
pub uninterp spec fn tokenized(tokenizer: Tokenizer, text: Seq<char>, encoding: Encoding) -> bool;

/// Holds when `tokenizer` can fail on `text`. A relation, as `tokenized`
/// is: the outcome of one call may rest on chance.
pub uninterp spec fn tokenizing_fails(tokenizer: Tokenizer, text: Seq<char>) -> bool;

/// Splits `text` into word pieces with `Tokenizer::encode`, adding the
/// model's special tokens; `None` when the tokenizer reports an error. The
/// encoding it gives is one that `tokenizer` gives for `text`, and a failure
/// is one that `tokenizer` can meet on `text`; on which texts it fails is
/// not stated.
#[verifier::external_body]
fn encode(tokenizer: &Tokenizer, text: &str) -> (encoding: Option<Encoding>)
    ensures
        encoding matches Some(e) ==> tokenized(*tokenizer, text@, e),
        encoding is None ==> tokenizing_fails(*tokenizer, text@),
{
    match tokenizer.encode(text, true) {
        Ok(encoding) => Some(encoding),
        Err(_) => None,
    }
}

/// `Encoding::get_ids`, copied into a vector.
#[verifier::external_body]
fn ids_of(encoding: &Encoding) -> (ids: Vec<u32>)
    ensures
        ids@ == encoding_ids(*encoding),
{
    encoding.get_ids().to_vec()
}

/// `Encoding::get_attention_mask`, copied into a vector.
#[verifier::external_body]
fn mask_of(encoding: &Encoding) -> (mask: Vec<u32>)
    ensures
        mask@ == encoding_mask(*encoding),
{
    encoding.get_attention_mask().to_vec()
}

/// `Encoding::get_tokens`, copied into a vector.
#[verifier::external_body]
fn tokens_of(encoding: &Encoding) -> (tokens: Vec<String>)
    ensures
        texts(tokens@) == encoding_tokens(*encoding),
{
    encoding.get_tokens().to_vec()
}

/// Product of the non-zero axis lengths of a `rows` x `cols` shape.
pub open spec fn nonzero_product(rows: usize, cols: usize) -> int {
    (if rows == 0 { 1int } else { rows as int }) * (if cols == 0 { 1int } else { cols as int })
}

/// `Array2::from_shape_vec((rows, cols), values)`: it succeeds exactly when
/// the product of the non-zero axis lengths fits in `isize` and the shape
/// holds as many elements as `values`; the array then holds `values` in
/// row-major order.
#[verifier::external_body]
fn array_from_shape_vec(rows: usize, cols: usize, values: Vec<i64>) -> (array: Result<IdArray, ShapeError>)
    ensures
        array is Ok <==> (nonzero_product(rows, cols) <= isize::MAX && rows * cols == values@.len()),
        array matches Ok(a) ==> array_elements(a) == values@ && array_shape(a) == (rows, cols),
{
    match Array2::from_shape_vec((rows, cols), values) {
        Ok(array) => Ok(IdArray { array }),
        Err(e) => Err(e),
    }
}

/// Why the classifier's input could not be built.
#[derive(Debug, PartialEq, Eq)]
pub enum InputError {
    /// The tokenizer reported an error.
    Tokenizer,
    /// The ids or the mask did not fit a one-row array of the text's length.
    Shape,
}

/// The classifier's input for one text: its word pieces, and the ids and
/// attention mask as one-row arrays.
pub struct ModelInput {
    pub tokens: Vec<String>,
    pub input_ids: IdArray,
    pub attention_mask: IdArray,
}

/// `values` widened to 64 bits.
pub open spec fn widened(values: Seq<u32>) -> Seq<i64> {
    values.map_values(|v: u32| v as i64)
}

/// Widens each value to 64 bits.
pub fn widen(values: &Vec<u32>) -> (out: Vec<i64>)
    ensures
        out@ == widened(values@),
{
    let mut out: Vec<i64> = Vec::new();
    let n = values.len();
    for i in 0..n
        invariant
            n == values@.len(),
            out@ == widened(values@.take(i as int)),
    {
        out.push(values[i] as i64);
        assert(widened(values@.take(i + 1)) =~= widened(values@.take(i as int)).push(values@[i as int] as i64));
    }
    assert(values@.take(n as int) =~= values@);
    out
}

/// `input` holds `tokens`, and `ids` and `mask` widened to 64 bits, each as
/// a one-row array as long as `ids`.
pub open spec fn input_from(ids: Seq<u32>, mask: Seq<u32>, tokens: Seq<Seq<char>>, input: ModelInput) -> bool {
    &&& texts(input.tokens@) == tokens
    &&& array_elements(input.input_ids) == widened(ids)
    &&& array_shape(input.input_ids) == (1usize, ids.len() as usize)
    &&& array_elements(input.attention_mask) == widened(mask)
    &&& array_shape(input.attention_mask) == (1usize, ids.len() as usize)
}

/// Whether ids and a mask make a classifier input: the ids fit an array and
/// the mask is as long as the ids.
pub open spec fn fits(ids: Seq<u32>, mask: Seq<u32>) -> bool {
    ids.len() <= isize::MAX && mask.len() == ids.len()
}

/// Builds the classifier's input from the ids, the attention mask and the
/// word pieces of a text: the ids and the mask, widened to 64 bits, each as
/// a one-row array as long as the list of ids. Fails with `Shape` exactly
/// when the mask is not as long as the ids, or the ids are too many for an
/// array.
pub fn model_input(ids: &Vec<u32>, mask: &Vec<u32>, tokens: Vec<String>) -> (input: Result<ModelInput, InputError>)
    ensures
        input is Ok <==> fits(ids@, mask@),
        input matches Err(e) ==> e == InputError::Shape,
        input matches Ok(m) ==> input_from(ids@, mask@, texts(tokens@), m),
{
    let wide_ids = widen(ids);
    let wide_mask = widen(mask);
    let seq_len = wide_ids.len();
    let input_ids = match array_from_shape_vec(1, seq_len, wide_ids) {
        Ok(array) => array,
        Err(_) => {
            return Err(InputError::Shape);
        },
    };
    let attention_mask = match array_from_shape_vec(1, seq_len, wide_mask) {
        Ok(array) => array,
        Err(_) => {
            return Err(InputError::Shape);
        },
    };
    Ok(ModelInput { tokens, input_ids, attention_mask })
}

/// `input` is what `model_input` builds from the ids, mask and word pieces
/// of `encoding`.
pub open spec fn built_from(encoding: Encoding, input: ModelInput) -> bool {
    input_from(encoding_ids(encoding), encoding_mask(encoding), encoding_tokens(encoding), input)
}

/// Whether `model_input` accepts the ids and mask of `encoding`.
pub open spec fn fits_input(encoding: Encoding) -> bool {
    fits(encoding_ids(encoding), encoding_mask(encoding))
}

/// Tokenizes `text` and builds the classifier's input from it: `Tokenizer`
/// when the tokenizer fails, otherwise what `model_input` gives for the
/// encoding. The tokenizer may give one of several encodings of the text
/// (its model can drop merges at random), so the input is stated as built
/// from an encoding that the tokenizer gives for `text`, and a `Shape` error
/// as coming from such an encoding that `model_input` refuses; a
/// `Tokenizer` error comes from a failure the tokenizer can meet on `text`.
pub fn prepare_input(tokenizer: &Tokenizer, text: &str) -> (input: Result<ModelInput, InputError>)
    ensures
        input matches Ok(m) ==> {
            &&& array_shape(m.input_ids).0 == 1
            &&& array_shape(m.input_ids) == array_shape(m.attention_mask)
            &&& array_elements(m.input_ids).len() == array_shape(m.input_ids).1
        },
        input matches Ok(m) ==> exists|encoding: Encoding|
            #[trigger] tokenized(*tokenizer, text@, encoding) && built_from(encoding, m) && fits_input(encoding),
        input == Err::<ModelInput, InputError>(InputError::Shape) ==> exists|encoding: Encoding|
            #[trigger] tokenized(*tokenizer, text@, encoding) && !fits_input(encoding),
        input == Err::<ModelInput, InputError>(InputError::Tokenizer) ==> tokenizing_fails(*tokenizer, text@),
{
    match encode(tokenizer, text) {
        Some(encoding) => {
            let ids = ids_of(&encoding);
            let mask = mask_of(&encoding);
            let tokens = tokens_of(&encoding);
            let input = model_input(&ids, &mask, tokens);
            proof {
                match &input {
                    Ok(m) => {
                        assert(tokenized(*tokenizer, text@, encoding) && built_from(encoding, *m) && fits_input(encoding));
                    },
                    Err(_) => {
                        assert(tokenized(*tokenizer, text@, encoding) && !fits_input(encoding));
                    },
                }
            }
            input
        },
        None => Err(InputError::Tokenizer),
    }
}

} // verus!

verus! {

/// Two inputs built from the same encoding hold the same word pieces, ids
/// and mask; with the same class scores and probability texts they give the
/// same predictions and the same report lines. (Whether one text gives the
/// same encoding twice is the tokenizer's matter: see `tokenized`.)
pub proof fn lemma_same_encoding_same_report(
    encoding: Encoding,
    first: ModelInput,
    second: ModelInput,
    rows: Seq<Seq<Option<i64>>>,
    percents: Seq<Seq<char>>,
)
    requires
        built_from(encoding, first),
        built_from(encoding, second),
    ensures
        texts(first.tokens@) == texts(second.tokens@),
        array_elements(first.input_ids) == array_elements(second.input_ids),
        array_shape(first.input_ids) == array_shape(second.input_ids),
        array_elements(first.attention_mask) == array_elements(second.attention_mask),
        array_shape(first.attention_mask) == array_shape(second.attention_mask),
        report(predictions(texts(first.tokens@), rows), percents) == report(
            predictions(texts(second.tokens@), rows),
            percents,
        ),
{
}

} // verus!

verus! {

/// Widening keeps every value: the widened list is as long as the given
/// one and holds the same numbers.
pub proof fn lemma_widened_keeps_values(values: Seq<u32>)
    ensures
        widened(values).len() == values.len(),
        forall|i: int| 0 <= i < values.len() ==> #[trigger] widened(values)[i] as int == values[i] as int,
{
}

/// A classifier input holds exactly the given ids and mask values, in
/// order, and the given word pieces.
pub proof fn lemma_input_keeps_ids_and_mask(ids: Seq<u32>, mask: Seq<u32>, tokens: Seq<Seq<char>>, input: ModelInput)
    requires
        input_from(ids, mask, tokens, input),
    ensures
        array_elements(input.input_ids).len() == ids.len(),
        array_elements(input.attention_mask).len() == mask.len(),
        forall|i: int| 0 <= i < ids.len() ==> #[trigger] array_elements(input.input_ids)[i] as int == ids[i] as int,
        forall|i: int| 0 <= i < mask.len() ==> #[trigger] array_elements(input.attention_mask)[i] as int == mask[i] as int,
        texts(input.tokens@) == tokens,
{
    lemma_widened_keeps_values(ids);
    lemma_widened_keeps_values(mask);
}

} // verus!
