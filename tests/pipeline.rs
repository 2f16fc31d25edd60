use colbert_rs::dispatch::chunk_ranges;
use colbert_rs::error::ColbertError;
use colbert_rs::json::{
    features_from_fields, read_architecture, read_dense_features, select_architecture,
    Architecture, SentenceSettings,
};
use colbert_rs::postprocess::{filter_plan, kept_positions, pad_plan};
use colbert_rs::settings::{EncodingConfig, PaddingPlan};
use colbert_rs::tokenize::{
    assemble_batch, finish_batch, flatten_rows, load_tokenizer, mask_token_id, prefixed_texts, token_strings,
    tokenize_texts, EncodedText,
};

const TOKENIZER_JSON: &str = r#"{
  "version": "1.0",
  "truncation": null,
  "padding": null,
  "added_tokens": [],
  "normalizer": null,
  "pre_tokenizer": {"type": "WhitespaceSplit"},
  "post_processor": null,
  "decoder": null,
  "model": {
    "type": "WordLevel",
    "vocab": {"[UNK]": 0, "[MASK]": 1, "[Q]": 2, "[D]": 3, "rust": 4, "is": 5,
              "a": 6, "language": 7, "what": 8, "python": 9},
    "unk_token": "[UNK]"
  }
}"#;

fn config(do_qe: bool, attend: bool, query_length: usize) -> EncodingConfig {
    EncodingConfig::new(
        "[Q] ".to_string(),
        "[D] ".to_string(),
        "[MASK]".to_string(),
        1,
        do_qe,
        attend,
        Some(query_length),
        None,
        None,
    )
}

fn enc(ids: Vec<u32>, mask: Vec<u32>) -> EncodedText {
    let types = vec![0; ids.len()];
    EncodedText { ids, attention_mask: mask, type_ids: types }
}

#[test]
fn config_defaults() {
    let c = EncodingConfig::new(
        "[Q]".to_string(),
        "[D]".to_string(),
        "[MASK]".to_string(),
        103,
        true,
        true,
        None,
        None,
        None,
    );
    assert_eq!(c.query_length, 32);
    assert_eq!(c.document_length, 180);
    assert_eq!(c.batch_size, 32);
    assert!(c.attend_to_expansion_tokens);
    assert_eq!(c.mask_token_id, 103);
}

#[test]
fn attendance_without_expansion_is_off() {
    let with = config(false, true, 8);
    let without = config(false, false, 8);
    assert!(!with.attend_to_expansion_tokens);
    assert_eq!(with.attend_to_expansion_tokens, without.attend_to_expansion_tokens);
    assert!(!with.tokenize_plan(true).attend_all);
    assert!(!with.uses_expansion(true));
    assert!(config(true, false, 8).uses_expansion(true));
    assert!(!config(true, false, 8).uses_expansion(false));
}

#[test]
fn tokenize_plan_by_kind() {
    let c = config(true, true, 8);
    let q = c.tokenize_plan(true);
    assert_eq!(q.prefix, "[Q] ");
    assert_eq!(q.max_length, 8);
    assert!(q.attend_all);
    match q.padding {
        PaddingPlan::Fixed { length, pad_id, pad_token } => {
            assert_eq!(length, 8);
            assert_eq!(pad_id, 1);
            assert_eq!(pad_token, "[MASK]");
        }
        PaddingPlan::BatchLongest => panic!("queries use fixed padding"),
    }
    let d = c.tokenize_plan(false);
    assert_eq!(d.prefix, "[D] ");
    assert_eq!(d.max_length, 180);
    assert!(!d.attend_all);
    assert!(matches!(d.padding, PaddingPlan::BatchLongest));
}

#[test]
fn chunks_split_in_order() {
    let r = chunk_ranges(5, 2).unwrap();
    assert_eq!(r, vec![(0, 2), (2, 4), (4, 5)]);
    let total: usize = r.iter().map(|(a, b)| b - a).sum();
    assert_eq!(total, 5);
    assert_eq!(chunk_ranges(3, 10).unwrap(), vec![(0, 3)]);
    assert_eq!(chunk_ranges(4, 2).unwrap(), vec![(0, 2), (2, 4)]);
}

#[test]
fn chunks_reassemble_the_list() {
    let items: Vec<u32> = (0..7).collect();
    let r = chunk_ranges(items.len(), 3).unwrap();
    let mut back = Vec::new();
    for (a, b) in r {
        back.extend_from_slice(&items[a..b]);
    }
    assert_eq!(back, items);
}

#[test]
fn empty_input_list_is_an_operation_error() {
    match chunk_ranges(0, 32) {
        Err(ColbertError::Operation(m)) => assert_eq!(m, "Input sentences cannot be empty."),
        other => panic!("unexpected {:?}", other),
    }
    match chunk_ranges(3, 0) {
        Err(ColbertError::Operation(m)) => assert_eq!(m, "Batch size must be positive."),
        other => panic!("unexpected {:?}", other),
    }
}

#[test]
fn kept_positions_follow_the_mask() {
    assert_eq!(kept_positions(&vec![1, 0, 1, 1, 0]), vec![0, 2, 3]);
    assert_eq!(kept_positions(&vec![]), Vec::<usize>::new());
}

#[test]
fn pad_plan_pads_to_longest() {
    let p = pad_plan(&vec![3, 5, 1]);
    assert_eq!(p.target, 5);
    assert_eq!(p.pads, vec![2, 0, 4]);
}

#[test]
fn unattended_document_keeps_one_zero_row() {
    let p = filter_plan(&vec![vec![0, 0, 0], vec![1, 1, 0]]).unwrap();
    assert_eq!(p.rows, vec![vec![], vec![0, 1]]);
    assert_eq!(p.lengths, vec![1, 2]);
    assert_eq!(p.max_len, 2);
    assert_eq!(p.pads, vec![1, 0]);
    let single = filter_plan(&vec![vec![0, 0]]).unwrap();
    assert_eq!(single.lengths, vec![1]);
    assert_eq!(single.max_len, 1);
}

#[test]
fn filter_plan_of_empty_batch_fails() {
    assert!(matches!(filter_plan(&vec![]), Err(ColbertError::Operation(_))));
}

#[test]
fn prefixes_are_literal_text() {
    let r = prefixed_texts(&["rust".to_string(), "".to_string()], "[D]");
    assert_eq!(r, vec!["[D]rust".to_string(), "[D]".to_string()]);
}

#[test]
fn assemble_keeps_rows_and_can_attend_all() {
    let encs = vec![enc(vec![2, 4, 1], vec![1, 1, 0]), enc(vec![2, 5, 6], vec![1, 1, 1])];
    let b = assemble_batch(&encs, false).unwrap();
    assert_eq!(b.seq_len, 3);
    assert_eq!(b.token_ids, vec![vec![2, 4, 1], vec![2, 5, 6]]);
    assert_eq!(b.attention_mask, vec![vec![1, 1, 0], vec![1, 1, 1]]);
    let all = assemble_batch(&encs, true).unwrap();
    assert_eq!(all.attention_mask, vec![vec![1, 1, 1], vec![1, 1, 1]]);
}

#[test]
fn assemble_rejects_ragged_or_empty() {
    let encs = vec![enc(vec![2, 4], vec![1, 1]), enc(vec![2], vec![1])];
    assert!(matches!(assemble_batch(&encs, false), Err(ColbertError::Operation(_))));
    assert!(matches!(assemble_batch(&vec![], false), Err(ColbertError::Operation(_))));
}

#[test]
fn flatten_lays_rows_end_to_end() {
    assert_eq!(flatten_rows(&vec![vec![1, 2], vec![3], vec![]]), vec![1, 2, 3]);
}

#[test]
fn architecture_selection() {
    assert_eq!(select_architecture(Some("ModernBertModel".to_string())).unwrap(), Architecture::ModernBert);
    assert_eq!(select_architecture(Some("BertModel".to_string())).unwrap(), Architecture::Bert);
    assert_eq!(select_architecture(Some("BertForMaskedLM".to_string())).unwrap(), Architecture::Bert);
    match select_architecture(Some("GPT2".to_string())) {
        Err(ColbertError::Operation(m)) => assert_eq!(m, "Unsupported architecture: GPT2"),
        other => panic!("unexpected {:?}", other),
    }
    match select_architecture(None) {
        Err(ColbertError::Operation(m)) => {
            assert_eq!(m, "Missing or invalid 'architectures' in config.json")
        }
        other => panic!("unexpected {:?}", other),
    }
}

#[test]
fn architecture_from_config_document() {
    let a = read_architecture(br#"{"architectures": ["BertForMaskedLM"], "hidden_size": 8}"#);
    assert_eq!(a.unwrap(), Architecture::Bert);
    assert!(matches!(read_architecture(br#"{"architectures": []}"#), Err(ColbertError::Operation(_))));
    assert!(matches!(read_architecture(br#"{}"#), Err(ColbertError::Operation(_))));
    assert!(matches!(read_architecture(b"not json"), Err(ColbertError::Json(_))));
}

#[test]
fn dense_features_are_required() {
    assert_eq!(features_from_fields(Some(768), Some(128)).unwrap(), (768, 128));
    match features_from_fields(None, Some(128)) {
        Err(ColbertError::Operation(m)) => assert_eq!(m, "Missing 'in_features' in dense config"),
        other => panic!("unexpected {:?}", other),
    }
    match features_from_fields(Some(768), None) {
        Err(ColbertError::Operation(m)) => assert_eq!(m, "Missing 'out_features' in dense config"),
        other => panic!("unexpected {:?}", other),
    }
    assert!(matches!(read_dense_features(b"[1,"), Err(ColbertError::Json(_))));
    assert_eq!(read_dense_features(br#"{"in_features": 768, "out_features": 128}"#).unwrap(), (768, 128));
    assert!(matches!(read_dense_features(br#"{"in_features": 768}"#), Err(ColbertError::Operation(_))));
}

#[test]
fn sentence_settings_defaults() {
    let s = SentenceSettings::read(b"{}", b"{}", None).unwrap();
    assert_eq!(s.query_prefix, "[Q]");
    assert_eq!(s.document_prefix, "[D]");
    assert_eq!(s.mask_token, "[MASK]");
    assert!(s.do_query_expansion);
    assert!(!s.attend_to_expansion_tokens);
    assert_eq!(s.query_length, None);
    assert_eq!(s.batch_size, Some(32));
    let c = s.into_config(7);
    assert_eq!(c.query_length, 32);
    assert_eq!(c.document_length, 180);
    assert_eq!(c.mask_token_id, 7);
}

#[test]
fn sentence_settings_from_document() {
    let st = br#"{"query_prefix": "q:", "document_prefix": "d:", "do_query_expansion": false,
                 "attend_to_expansion_tokens": true, "query_length": 16, "document_length": 64}"#;
    let s = SentenceSettings::read(st, br#"{"mask_token": "<mask>"}"#, Some(4)).unwrap();
    assert_eq!(s.query_prefix, "q:");
    assert_eq!(s.document_prefix, "d:");
    assert_eq!(s.mask_token, "<mask>");
    assert_eq!(s.query_length, Some(16));
    assert_eq!(s.document_length, Some(64));
    assert_eq!(s.batch_size, Some(4));
    let c = s.into_config(1);
    assert!(!c.attend_to_expansion_tokens);
    assert!(matches!(SentenceSettings::read(b"{", b"{}", None), Err(ColbertError::Json(_))));
}

#[test]
fn mask_token_lookup() {
    let tok = load_tokenizer(TOKENIZER_JSON.as_bytes()).unwrap();
    assert_eq!(mask_token_id(&tok, "[MASK]").unwrap(), 1);
    match mask_token_id(&tok, "<mask>") {
        Err(ColbertError::Operation(m)) => {
            assert_eq!(m, "Token '<mask>' not found in the tokenizer's vocabulary.")
        }
        other => panic!("unexpected {:?}", other),
    }
    assert!(matches!(load_tokenizer(b"{}"), Err(ColbertError::Tokenizer(_))));
}

#[test]
fn queries_are_padded_to_fixed_length_with_mask() {
    let mut tok = load_tokenizer(TOKENIZER_JSON.as_bytes()).unwrap();
    let c = config(true, false, 8);
    let b = tokenize_texts(&mut tok, &c, &["what is rust".to_string()], true).unwrap();
    assert_eq!(b.seq_len, 8);
    assert_eq!(b.token_ids, vec![vec![2, 8, 5, 4, 1, 1, 1, 1]]);
    assert_eq!(b.attention_mask, vec![vec![1, 1, 1, 1, 0, 0, 0, 0]]);
    let attending = config(true, true, 8);
    let a = tokenize_texts(&mut tok, &attending, &["what is rust".to_string()], true).unwrap();
    assert_eq!(a.attention_mask, vec![vec![1; 8]]);
}

#[test]
fn documents_are_padded_to_batch_longest() {
    let mut tok = load_tokenizer(TOKENIZER_JSON.as_bytes()).unwrap();
    let c = config(true, true, 8);
    let docs = vec!["rust is a language".to_string(), "python".to_string()];
    let b = tokenize_texts(&mut tok, &c, &docs, false).unwrap();
    assert_eq!(b.seq_len, 5);
    assert_eq!(b.token_ids[0], vec![3, 4, 5, 6, 7]);
    assert_eq!(b.token_ids[1][..2], [3, 9]);
    assert_eq!(b.attention_mask[1], vec![1, 1, 0, 0, 0]);
    let tokens = token_strings(&tok, &b.token_ids);
    assert_eq!(tokens[0], vec!["[D]", "rust", "is", "a", "language"]);
}

#[test]
fn tokenizing_nothing_fails() {
    let mut tok = load_tokenizer(TOKENIZER_JSON.as_bytes()).unwrap();
    let c = config(true, false, 8);
    match tokenize_texts(&mut tok, &c, &[], true) {
        Err(ColbertError::Operation(m)) => assert_eq!(m, "Input sentences cannot be empty."),
        other => panic!("unexpected {:?}", other.is_ok()),
    }
}

#[test]
fn special_tokens_are_added_within_the_bound() {
    let json = TOKENIZER_JSON.replace(
        r#""post_processor": null"#,
        r#""post_processor": {"type": "BertProcessing", "sep": ["[SEP]", 11], "cls": ["[CLS]", 10]}"#,
    );
    let mut tok = load_tokenizer(json.as_bytes()).unwrap();
    let c = config(true, false, 6);
    let b = tokenize_texts(&mut tok, &c, &["what is rust language".to_string()], true).unwrap();
    assert_eq!(b.seq_len, 6);
    assert_eq!(b.token_ids, vec![vec![10, 2, 8, 5, 4, 11]]);
    let short = config(true, false, 1);
    match tokenize_texts(&mut tok, &short, &["what".to_string()], true) {
        Err(ColbertError::Operation(m)) => {
            assert_eq!(m, "Truncation length cannot hold the special tokens.")
        }
        other => panic!("unexpected {:?}", other.is_ok()),
    }
}

#[test]
fn unknown_ids_decode_to_empty_text() {
    let tok = load_tokenizer(TOKENIZER_JSON.as_bytes()).unwrap();
    let tokens = token_strings(&tok, &vec![vec![4, 999], vec![]]);
    assert_eq!(tokens, vec![vec!["rust".to_string(), String::new()], vec![]]);
}

#[test]
fn finished_batch_stays_within_the_bound() {
    let encs = vec![enc(vec![2, 4, 1], vec![1, 1, 0]), enc(vec![2, 5, 6], vec![1, 1, 1])];
    let b = finish_batch(&encs, 3, false).unwrap();
    assert_eq!(b.seq_len, 3);
    assert_eq!(b.token_ids, vec![vec![2, 4, 1], vec![2, 5, 6]]);
    match finish_batch(&encs, 2, false) {
        Err(ColbertError::Operation(m)) => {
            assert_eq!(m, "Tokenized inputs exceed the truncation length.")
        }
        other => panic!("unexpected {:?}", other.is_ok()),
    }
    let ragged = vec![enc(vec![2, 4], vec![1, 1]), enc(vec![2], vec![1])];
    assert!(matches!(finish_batch(&ragged, 8, true), Err(ColbertError::Operation(_))));
}
