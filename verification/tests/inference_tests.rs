use disaster_cnn::inference::{argmax, class_name, logit_order_key, predict_from_logits};

/// An order-preserving integer encoding of a (non-NaN) floating logit.
fn order_key(logit: f32) -> i64 {
    logit_order_key(logit.to_bits())
}

#[test]
fn saved_model_logits_predict_flood() {
    // num_classes = 4, logits [0.1, 2.3, -1.0, 0.4]: the maximum sits at
    // index 1, which the fixed class list names "flood".
    let logits: Vec<i64> = [0.1f32, 2.3, -1.0, 0.4].iter().map(|&l| order_key(l)).collect();
    let (index, name) = predict_from_logits(&logits).unwrap();
    assert_eq!(index, 1);
    assert_eq!(name, "flood");
}

#[test]
fn order_key_preserves_order() {
    let values = [-10.0f32, -1.0, -0.25, 0.0, 0.1, 0.4, 2.3, 100.0];
    for w in values.windows(2) {
        assert!(order_key(w[0]) < order_key(w[1]));
    }
}

#[test]
fn order_key_encodes_bit_patterns() {
    assert_eq!(logit_order_key(0), 0);
    assert_eq!(logit_order_key(0x3f80_0000), 0x3f80_0000);
    assert_eq!(logit_order_key(0x8000_0000), -1);
    assert_eq!(logit_order_key(0xbf80_0000), -(0x3f80_0000i64) - 1);
}

#[test]
fn argmax_breaks_ties_toward_lowest_index() {
    assert_eq!(argmax(&vec![5, 5, 3]), Some(0));
    assert_eq!(argmax(&vec![3, 5, 5]), Some(1));
    assert_eq!(argmax(&vec![-7]), Some(0));
    assert_eq!(argmax(&vec![1, 2, 9, 2]), Some(2));
}

#[test]
fn argmax_of_empty_is_none() {
    assert_eq!(argmax(&Vec::new()), None);
    assert!(predict_from_logits(&Vec::new()).is_none());
}

#[test]
fn class_names_follow_the_fixed_list() {
    assert_eq!(class_name(0), "fire_and_smoke");
    assert_eq!(class_name(1), "flood");
    assert_eq!(class_name(2), "wildfire");
    assert_eq!(class_name(3), "normal");
    assert_eq!(class_name(4), "unknown");
    assert_eq!(class_name(1000), "unknown");
}
