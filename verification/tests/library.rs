use std::time::Instant;

use contrivance::chat::{App, Effect, Message};
use contrivance::cubemap::{load_cubemap, CubemapError};
use contrivance::input::{model_input, prepare_input, InputError};
use contrivance::labels::{label_name, Sentiment, SentimentSentence, LABEL_COUNT};
use contrivance::report::{pad_right, predict_tokens, result_line, result_lines, TokenPrediction, ZERO_SCORE};
use contrivance::scene::{CubeState, SkyboxState};
use contrivance::scores::{score_key, select_best};
use contrivance::tokens::{clean_token, is_special_token};

fn key(x: f32) -> Option<i64> {
    score_key(x.to_bits())
}

#[test]
fn score_key_of_zeros_and_specials() {
    assert_eq!(key(0.0), Some(0));
    assert_eq!(key(-0.0), Some(0));
    assert_eq!(key(1.0), Some(0x3f80_0000));
    assert_eq!(key(-1.0), Some(-0x3f80_0000));
    assert_eq!(key(f32::INFINITY), Some(0x7f80_0000));
    assert_eq!(key(f32::NEG_INFINITY), Some(-0x7f80_0000));
    assert_eq!(key(f32::NAN), None);
    assert_eq!(key(-f32::NAN), None);
    assert_eq!(key(f32::MIN), Some(-0x7f7f_ffff));
}

#[test]
fn score_key_orders_as_floats() {
    let values = [
        f32::NEG_INFINITY,
        f32::MIN,
        -3.5,
        -1.0,
        -f32::MIN_POSITIVE,
        -1.0e-45,
        0.0,
        1.0e-45,
        f32::MIN_POSITIVE,
        0.25,
        1.0,
        7.5e10,
        f32::MAX,
        f32::INFINITY,
    ];
    for a in values.iter() {
        for b in values.iter() {
            let ka = key(*a).unwrap();
            let kb = key(*b).unwrap();
            assert_eq!(a < b, ka < kb, "{} {}", a, b);
            assert_eq!(a == b, ka == kb, "{} {}", a, b);
        }
    }
}

#[test]
fn select_best_picks_first_maximum() {
    assert_eq!(select_best(&vec![Some(1), Some(3), Some(3), Some(2)], 0), Some(1));
    assert_eq!(select_best(&vec![Some(5), None, Some(7)], 0), Some(2));
    assert_eq!(select_best(&vec![None, None], 0), None);
    assert_eq!(select_best(&vec![], 0), None);
    assert_eq!(select_best(&vec![Some(0), Some(-4)], 0), None);
    assert_eq!(select_best(&vec![Some(-4), Some(-9)], -10), Some(0));
}

/// The label the classifier reports for one row of logits, computed with
/// floats the way the chat window does.
fn float_winner(logits: &[f32]) -> (usize, f32) {
    let max_logit = logits.iter().fold(f32::NEG_INFINITY, |a, &b| a.max(b));
    let mut exp_sum = 0.0;
    for &x in logits {
        exp_sum += (x - max_logit).exp();
    }
    let mut best_prob = 0.0;
    let mut best_idx = 0;
    for (i, &x) in logits.iter().enumerate() {
        let prob = x / exp_sum;
        if prob > best_prob {
            best_prob = prob;
            best_idx = i;
        }
    }
    (best_idx, best_prob)
}

#[test]
fn select_best_agrees_with_float_comparisons() {
    let rows: Vec<Vec<f32>> = vec![
        vec![0.5, 2.0, -1.0, 2.0],
        vec![-1.0, -2.0, -0.5],
        vec![0.0, -0.0, 3.0, f32::NAN, 4.0],
        vec![f32::NAN, 1.0],
        vec![1.0, 1.0, 1.0],
    ];
    for row in rows.iter() {
        let max_logit = row.iter().fold(f32::NEG_INFINITY, |a, &b| a.max(b));
        let exp_sum: f32 = row.iter().map(|&x| (x - max_logit).exp()).sum();
        let keys: Vec<Option<i64>> = row.iter().map(|&x| key(x / exp_sum)).collect();
        let (idx, prob) = float_winner(row);
        let best = select_best(&keys, ZERO_SCORE);
        assert_eq!(best.unwrap_or(0), idx);
        assert_eq!(best.is_some(), prob > 0.0);
    }
}

#[test]
fn special_tokens() {
    assert!(is_special_token(&"[CLS]".to_string()));
    assert!(is_special_token(&"[SEP]".to_string()));
    assert!(!is_special_token(&"CLS".to_string()));
    assert!(!is_special_token(&"[cls]".to_string()));
    assert!(!is_special_token(&"".to_string()));
}

#[test]
fn clean_token_removes_markers() {
    for word in ["##ing", "###", "a##b##", "", "#", "##", "####", "a###b", "hé##llo", "plain"] {
        assert_eq!(clean_token(word), word.replace("##", ""), "{}", word);
    }
    assert_eq!(clean_token("##ing"), "ing");
    assert_eq!(clean_token("###"), "#");
}

#[test]
fn cleaned_words_hold_no_marker_and_stay_clean() {
    for word in ["#x##y###z####", "a#b#c", "##", "#####"] {
        let once = clean_token(word);
        assert!(!once.contains("##"));
        assert_eq!(clean_token(&once), once);
    }
}

#[test]
fn pad_right_pads_to_width() {
    assert_eq!(pad_right("ab", 5), "ab   ");
    assert_eq!(pad_right("abcdef", 3), "abcdef");
    assert_eq!(pad_right("", 2), "  ");
    assert_eq!(pad_right("é", 3), "é  ");
    assert_eq!(pad_right("ab", 2), "ab");
}

#[test]
fn result_line_matches_format() {
    let line = result_line("play", "B-MOVE", "3.2");
    assert_eq!(line, "Word: play            -> Label: B-MOVE     (3.2%)");
    assert_eq!(line, format!("Word: {:<15} -> Label: {:<10} ({}%)", "play", "B-MOVE", "3.2"));
    let long = result_line("abcdefghijklmnopq", "O", "0.0");
    assert_eq!(long, format!("Word: {:<15} -> Label: {:<10} ({}%)", "abcdefghijklmnopq", "O", "0.0"));
}

#[test]
fn label_names_in_model_order() {
    let names: Vec<&str> = (0..LABEL_COUNT).map(label_name).collect();
    assert_eq!(names, vec!["O", "B-LOOK", "I-LOOK", "B-MOVE", "I-MOVE", "B-TURN", "I-TURN"]);
}

#[test]
fn class_display_names() {
    assert_eq!(SentimentSentence::O.to_string(), "O");
    assert_eq!(SentimentSentence::BLook.to_string(), "BLook");
    assert_eq!(SentimentSentence::ILook.to_string(), "ILook");
    assert_eq!(SentimentSentence::BMove.to_string(), "BMove");
    assert_eq!(SentimentSentence::IMove.to_string(), "IMove");
    assert_eq!(SentimentSentence::BTurn.to_string(), "BTurn");
    assert_eq!(SentimentSentence::ITurn.to_string(), "ITurn");
    assert_eq!(Sentiment::Negative.to_string(), "Negative");
    assert_eq!(Sentiment::Positive.to_string(), "Positive");
    assert_eq!(Sentiment::Unknown.to_string(), "Unknown");
    assert!(SentimentSentence::O < SentimentSentence::ITurn);
    assert!(Sentiment::Negative < Sentiment::Unknown);
}

#[test]
fn predictions_skip_framing_tokens() {
    let tokens: Vec<String> = ["[CLS]", "turn", "##ing", "left", "[SEP]"].iter().map(|s| s.to_string()).collect();
    let rows: Vec<Vec<Option<i64>>> = vec![
        vec![Some(9), Some(1)],
        vec![Some(-1), Some(4), Some(2)],
        vec![None, Some(0)],
        vec![Some(3), Some(3)],
        vec![Some(8)],
    ];
    let predictions = predict_tokens(&tokens, &rows);
    assert_eq!(predictions.len(), 3);
    assert_eq!((predictions[0].row, predictions[0].word.as_str(), predictions[0].best), (1, "turn", Some(1)));
    assert_eq!((predictions[1].row, predictions[1].word.as_str(), predictions[1].best), (2, "ing", None));
    assert_eq!((predictions[2].row, predictions[2].word.as_str(), predictions[2].best), (3, "left", Some(0)));

    let fewer = predict_tokens(&tokens, &rows[..2].to_vec());
    assert_eq!(fewer.len(), 1);
}

#[test]
fn result_lines_report() {
    let predictions = vec![
        TokenPrediction { row: 1, word: "turn".to_string(), best: Some(5) },
        TokenPrediction { row: 2, word: "ing".to_string(), best: None },
    ];
    let percents = vec!["4.5".to_string(), "0.0".to_string()];
    let lines = result_lines(&predictions, &percents);
    assert_eq!(
        lines,
        vec![
            "--- Results ---".to_string(),
            "Word: turn            -> Label: B-TURN     (4.5%)".to_string(),
            "Word: ing             -> Label: O          (0.0%)".to_string(),
        ]
    );
    assert_eq!(result_lines(&vec![], &vec![]), vec!["--- Results ---".to_string()]);
}

#[test]
fn new_chat_greets() {
    let start = Instant::now();
    let app = App::new(start);
    assert_eq!(
        app.messages,
        vec![
            "System: Welcome to the chat!".to_string(),
            "System: Type a message below and press Enter.".to_string()
        ]
    );
    assert_eq!(app.input_value, "");
    assert_eq!(app.start_time, start);
    assert_eq!(app.title(), "Contrivance");
}

#[test]
fn default_chat_starts_now() {
    let before = Instant::now();
    let app = App::default();
    assert_eq!(app.messages.len(), 2);
    assert_eq!(app.messages[0], "System: Welcome to the chat!");
    assert_eq!(app.input_value, "");
    assert!(app.start_time >= before);
}

#[test]
fn typing_then_sending_records_and_requests() {
    let mut app = App::new(Instant::now());
    assert!(matches!(app.update(Message::InputChanged("look up".to_string())), Effect::Nothing));
    assert_eq!(app.input_value, "look up");
    assert_eq!(app.messages.len(), 2);
    match app.update(Message::SendMessage) {
        Effect::Analyze(text) => assert_eq!(text, "look up"),
        Effect::Nothing => panic!("a non-empty box is sent"),
    }
    assert_eq!(app.messages.len(), 3);
    assert_eq!(app.messages[2], "You: look up");
    app.receive_replies(vec!["--- Results ---".to_string(), "Word: look".to_string()]);
    assert_eq!(app.input_value, "");
    assert_eq!(app.messages.len(), 5);
    assert_eq!(app.messages[3], "--- Results ---");
    assert_eq!(app.messages[4], "Word: look");
}

#[test]
fn empty_box_and_ticks_change_nothing() {
    let mut app = App::new(Instant::now());
    assert!(matches!(app.update(Message::SendMessage), Effect::Nothing));
    assert!(matches!(app.update(Message::Tick(Instant::now())), Effect::Nothing));
    assert_eq!(app.messages.len(), 2);
    assert_eq!(app.input_value, "");
    app.update(Message::InputChanged("a".to_string()));
    app.update(Message::InputChanged("ab".to_string()));
    assert_eq!(app.input_value, "ab");
    app.update(Message::Tick(Instant::now()));
    assert_eq!(app.input_value, "ab");
    assert_eq!(app.messages.len(), 2);
}

#[test]
fn scene_states_are_empty() {
    let _cube = CubeState::default();
    let _sky = SkyboxState::default();
    assert_eq!(format!("{:?}", CubeState {}), "CubeState");
    assert_eq!(format!("{:?}", SkyboxState {}), "SkyboxState");
}

fn strings(tokens: &[&str]) -> Vec<String> {
    tokens.iter().map(|t| t.to_string()).collect()
}

#[test]
fn model_input_builds_one_row_arrays() {
    let input = model_input(&vec![101, 7, 102], &vec![1, 1, 1], strings(&["[CLS]", "go", "[SEP]"])).ok().unwrap();
    assert_eq!(input.tokens, strings(&["[CLS]", "go", "[SEP]"]));
    assert_eq!(input.input_ids.array.shape(), &[1, 3]);
    assert_eq!(input.input_ids.array.iter().copied().collect::<Vec<i64>>(), vec![101, 7, 102]);
    assert_eq!(input.attention_mask.array.shape(), &[1, 3]);
    assert_eq!(input.attention_mask.array.iter().copied().collect::<Vec<i64>>(), vec![1, 1, 1]);
    let empty = model_input(&vec![], &vec![], vec![]).ok().unwrap();
    assert_eq!(empty.input_ids.array.shape(), &[1, 0]);
}

#[test]
fn model_input_rejects_a_short_mask() {
    assert_eq!(model_input(&vec![101, 7, 102], &vec![1, 1], strings(&["a", "b", "c"])).err(), Some(InputError::Shape));
    assert_eq!(model_input(&vec![101], &vec![1, 1], strings(&["a"])).err(), Some(InputError::Shape));
}

const TOKENIZER_JSON: &str = r#"{
  "version": "1.0",
  "truncation": null,
  "padding": null,
  "added_tokens": [],
  "normalizer": null,
  "pre_tokenizer": {"type": "Whitespace"},
  "post_processor": {"type": "BertProcessing", "sep": ["[SEP]", 102], "cls": ["[CLS]", 101]},
  "decoder": null,
  "model": {"type": "WordLevel", "vocab": {"[UNK]": 0, "look": 1, "up": 2}, "unk_token": "[UNK]"}
}"#;

#[test]
fn prepare_input_tokenizes_with_framing() {
    let tokenizer: tokenizers::Tokenizer = TOKENIZER_JSON.parse().unwrap();
    let input = prepare_input(&tokenizer, "look up now").ok().unwrap();
    assert_eq!(
        input.tokens,
        vec!["[CLS]".to_string(), "look".to_string(), "up".to_string(), "[UNK]".to_string(), "[SEP]".to_string()]
    );
    assert_eq!(input.input_ids.array.iter().copied().collect::<Vec<i64>>(), vec![101, 1, 2, 0, 102]);
    assert_eq!(input.attention_mask.array.iter().copied().collect::<Vec<i64>>(), vec![1, 1, 1, 1, 1]);
    assert_eq!(input.input_ids.array.shape(), &[1, 5]);
}

#[test]
fn same_text_gives_same_report() {
    let tokenizer: tokenizers::Tokenizer = TOKENIZER_JSON.parse().unwrap();
    let first = prepare_input(&tokenizer, "look up").ok().unwrap();
    let second = prepare_input(&tokenizer, "look up").ok().unwrap();
    assert_eq!(first.tokens, second.tokens);
    assert_eq!(first.input_ids.array, second.input_ids.array);
    assert_eq!(first.attention_mask.array, second.attention_mask.array);
    let rows: Vec<Vec<Option<i64>>> = (0..first.tokens.len()).map(|i| vec![Some(i as i64), Some(2)]).collect();
    let percents = |n: usize| (0..n).map(|i| format!("{}.0", i)).collect::<Vec<String>>();
    let p1 = predict_tokens(&first.tokens, &rows);
    let p2 = predict_tokens(&second.tokens, &rows);
    assert_eq!(result_lines(&p1, &percents(p1.len())), result_lines(&p2, &percents(p2.len())));
}

#[test]
fn prepare_input_tokenizes_the_given_text() {
    let tokenizer: tokenizers::Tokenizer = TOKENIZER_JSON.parse().unwrap();
    let input = prepare_input(&tokenizer, "up").ok().unwrap();
    assert_eq!(input.tokens, strings(&["[CLS]", "up", "[SEP]"]));
    let empty = prepare_input(&tokenizer, "").ok().unwrap();
    assert_eq!(empty.tokens, strings(&["[CLS]", "[SEP]"]));
}

fn png(width: u32, height: u32, shade: u8) -> Vec<u8> {
    let img = image::RgbaImage::from_pixel(width, height, image::Rgba([shade, 0, 255 - shade, 255]));
    let mut bytes: Vec<u8> = Vec::new();
    img.write_to(&mut std::io::Cursor::new(&mut bytes), image::ImageFormat::Png).unwrap();
    bytes
}

#[test]
fn cubemap_decodes_six_faces() {
    let faces: Vec<Vec<u8>> = (0..6u8).map(|i| png(2, 1, i * 10)).collect();
    let refs: [&[u8]; 6] = [&faces[0], &faces[1], &faces[2], &faces[3], &faces[4], &faces[5]];
    let cubemap = load_cubemap(&refs).ok().unwrap();
    assert_eq!((cubemap.width, cubemap.height, cubemap.bytes_per_row), (2, 1, 8));
    assert_eq!(cubemap.faces.len(), 6);
    for (i, face) in cubemap.faces.iter().enumerate() {
        assert_eq!(face.layer, i as u32);
        let shade = i as u8 * 10;
        assert_eq!(face.rgba, vec![shade, 0, 255 - shade, 255, shade, 0, 255 - shade, 255]);
    }
}

#[test]
fn cubemap_reports_the_first_bad_face() {
    let good = png(1, 1, 0);
    let bad: Vec<u8> = vec![1, 2, 3, 4];
    let first_bad: [&[u8]; 6] = [&bad, &good, &good, &good, &good, &good];
    assert_eq!(load_cubemap(&first_bad).err(), Some(CubemapError::Undecodable(0)));
    let third_bad: [&[u8]; 6] = [&good, &good, &bad, &good, &bad, &good];
    assert_eq!(load_cubemap(&third_bad).err(), Some(CubemapError::Undecodable(2)));
}
