use disaster_cnn::dataset::{
    lex_le_bytes, ClassEntry, DisasterImageDataset, DisasterLoader,
};

fn entry(name: &str, files: &[&str]) -> ClassEntry {
    ClassEntry {
        name: name.as_bytes().to_vec(),
        files: files.iter().map(|f| f.to_string()).collect(),
    }
}

#[test]
fn lex_le_bytes_orders_names() {
    assert!(lex_le_bytes(&b"abc".to_vec(), &b"abd".to_vec()));
    assert!(!lex_le_bytes(&b"abd".to_vec(), &b"abc".to_vec()));
    assert!(lex_le_bytes(&b"abc".to_vec(), &b"abc".to_vec()));
    assert!(lex_le_bytes(&b"ab".to_vec(), &b"abc".to_vec()));
    assert!(!lex_le_bytes(&b"abc".to_vec(), &b"ab".to_vec()));
    assert!(lex_le_bytes(&b"".to_vec(), &b"a".to_vec()));
    assert!(lex_le_bytes(&b"fire_and_smoke".to_vec(), &b"flood".to_vec()));
    assert!(lex_le_bytes(&b"flood".to_vec(), &b"normal".to_vec()));
    assert!(lex_le_bytes(&b"normal".to_vec(), &b"wildfire".to_vec()));
}

#[test]
fn two_class_split_gets_lexicographic_labels() {
    // Listing handed in out of order: labels still follow the
    // lexicographic rank of the class directory names.
    let classes = vec![
        entry("normal", &["DisasterData_split/test/normal/img2.jpg"]),
        entry("flood", &["DisasterData_split/test/flood/img1.jpg"]),
    ];
    let ds = DisasterImageDataset::new_classification(classes, false);
    assert_eq!(ds.len(), 2);
    let first = ds.get(0).unwrap();
    assert_eq!(first.image_path, "DisasterData_split/test/flood/img1.jpg");
    assert_eq!(first.label, 0);
    assert!(!first.is_train);
    let second = ds.get(1).unwrap();
    assert_eq!(second.image_path, "DisasterData_split/test/normal/img2.jpg");
    assert_eq!(second.label, 1);
}

#[test]
fn four_class_split_ranks_all_names() {
    let classes = vec![
        entry("wildfire", &["w/a.jpg", "w/b.jpg"]),
        entry("flood", &["f/a.jpg"]),
        entry("normal", &["n/a.jpg"]),
        entry("fire_and_smoke", &["s/a.jpg"]),
    ];
    let ds = DisasterImageDataset::new_classification(classes, true);
    assert_eq!(ds.len(), 5);
    assert_eq!(ds.get(0).unwrap().image_path, "s/a.jpg");
    assert_eq!(ds.get(0).unwrap().label, 0);
    assert_eq!(ds.get(1).unwrap().image_path, "f/a.jpg");
    assert_eq!(ds.get(1).unwrap().label, 1);
    assert_eq!(ds.get(2).unwrap().image_path, "n/a.jpg");
    assert_eq!(ds.get(2).unwrap().label, 2);
    assert_eq!(ds.get(3).unwrap().image_path, "w/a.jpg");
    assert_eq!(ds.get(3).unwrap().label, 3);
    assert_eq!(ds.get(4).unwrap().image_path, "w/b.jpg");
    assert_eq!(ds.get(4).unwrap().label, 3);
    assert!(ds.get(0).unwrap().is_train);
}

#[test]
fn building_twice_is_deterministic() {
    let make = || {
        vec![
            entry("flood", &["f/1.jpg", "f/2.jpg"]),
            entry("normal", &["n/1.jpg"]),
            entry("fire_and_smoke", &["s/1.jpg", "s/2.jpg", "s/3.jpg"]),
        ]
    };
    let d1 = DisasterImageDataset::new_classification(make(), false);
    let d2 = DisasterImageDataset::new_classification(make(), false);
    assert_eq!(d1.len(), d2.len());
    for i in 0..d1.len() {
        let a = d1.get(i).unwrap();
        let b = d2.get(i).unwrap();
        assert_eq!(a.image_path, b.image_path);
        assert_eq!(a.label, b.label);
        assert_eq!(a.is_train, b.is_train);
    }
}

#[test]
fn get_out_of_range_is_none() {
    let ds = DisasterImageDataset::new_classification(vec![entry("flood", &["f/1.jpg"])], false);
    assert!(ds.get(0).is_some());
    assert!(ds.get(1).is_none());
    assert!(ds.get(1000).is_none());
}

#[test]
fn loader_splits_set_training_flag() {
    let train = DisasterImageDataset::disaster_train(vec![entry("flood", &["f/1.jpg"])]);
    assert!(train.get(0).unwrap().is_train);
    let valid = DisasterImageDataset::disaster_valid(vec![entry("flood", &["f/1.jpg"])]);
    assert!(!valid.get(0).unwrap().is_train);
    let test = DisasterImageDataset::disaster_test(vec![entry("flood", &["f/1.jpg"])]);
    assert!(!test.get(0).unwrap().is_train);
}
