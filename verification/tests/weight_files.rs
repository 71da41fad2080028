use candle_vllm::weight_files::{distinct_weight_files, index_weight_files, IndexError};

#[test]
fn each_file_once() {
    let values = vec![
        Some("model-00001.safetensors".to_string()),
        Some("model-00002.safetensors".to_string()),
        None,
        Some("model-00001.safetensors".to_string()),
        Some("model-00002.safetensors".to_string()),
    ];
    let mut files = distinct_weight_files(&values);
    files.sort();
    assert_eq!(files, vec!["model-00001.safetensors", "model-00002.safetensors"]);
    assert!(distinct_weight_files(&vec![None, None]).is_empty());
}

#[test]
fn index_text_shapes() {
    assert_eq!(index_weight_files("{not json"), Err(IndexError::InvalidJson));
    assert_eq!(index_weight_files(""), Err(IndexError::InvalidJson));
    assert_eq!(index_weight_files("{\"metadata\": {}}"), Err(IndexError::Missing));
    assert_eq!(index_weight_files("{\"weight_map\": [\"a\"]}"), Err(IndexError::NotAMap));
    assert_eq!(index_weight_files("{\"weight_map\": 3}"), Err(IndexError::NotAMap));
    assert_eq!(index_weight_files("{\"weight_map\": {}}"), Ok(vec![]));
}

#[test]
fn index_lists_each_file_once() {
    let text = r#"{
        "metadata": {"total_size": 10},
        "weight_map": {
            "model.embed_tokens.weight": "model-00001-of-00002.safetensors",
            "model.layers.0.mlp.weight": "model-00002-of-00002.safetensors",
            "model.layers.0.attn.weight": "model-00001-of-00002.safetensors",
            "odd.entry": 7
        }
    }"#;
    let mut files = index_weight_files(text).unwrap();
    files.sort();
    assert_eq!(files, vec!["model-00001-of-00002.safetensors", "model-00002-of-00002.safetensors"]);
}

#[test]
fn weight_map_field_name() {
    assert_eq!(candle_vllm::weight_files::WEIGHT_MAP_KEY, "weight_map");
}
