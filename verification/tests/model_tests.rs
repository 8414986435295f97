use disaster_cnn::dataset::IMAGE_SIZE;
use disaster_cnn::model::{Cnn, SeparableConv2d};
use disaster_cnn::training::{TrainingConfig, TrainingSchedule, TrainingState, NUM_CLASSES};

#[test]
fn forward_shape_maps_batches_to_logits() {
    let model = Cnn::new(NUM_CLASSES);
    for n in 1..6 {
        assert_eq!(model.forward_shape(n, 3, IMAGE_SIZE, IMAGE_SIZE), Some((n, NUM_CLASSES)));
    }
}

#[test]
fn forward_shape_rejects_bad_inputs() {
    let model = Cnn::new(NUM_CLASSES);
    assert_eq!(model.forward_shape(0, 3, IMAGE_SIZE, IMAGE_SIZE), None);
    assert_eq!(model.forward_shape(2, 1, IMAGE_SIZE, IMAGE_SIZE), None);
    assert_eq!(model.forward_shape(2, 3, 6, IMAGE_SIZE), None);
    assert_eq!(model.forward_shape(2, 3, IMAGE_SIZE, 0), None);
    assert_eq!(model.forward_shape(2, 3, 7, 7), Some((2, NUM_CLASSES)));
}

#[test]
fn forward_shape_tracks_class_count() {
    let model = Cnn::new(11);
    assert_eq!(model.forward_shape(4, 3, IMAGE_SIZE, IMAGE_SIZE), Some((4, 11)));
}

#[test]
fn separable_block_shape() {
    let block = SeparableConv2d::new(32, 64, 2);
    assert_eq!(block.forward_shape(32, 9, 9), Some((64, 5, 5)));
    assert_eq!(block.forward_shape(32, 8, 10), Some((64, 4, 5)));
    assert_eq!(block.forward_shape(16, 9, 9), None);
    assert_eq!(block.forward_shape(32, 0, 9), None);
    let unit = SeparableConv2d::new(64, 128, 1);
    assert_eq!(unit.forward_shape(64, 32, 32), Some((128, 32, 32)));
}

#[test]
fn training_config_defaults_and_builders() {
    let config = TrainingConfig::new();
    assert_eq!(config.num_epochs, 20);
    assert_eq!(config.batch_size, 32);
    assert_eq!(config.num_workers, 4);
    assert_eq!(config.seed, 42);
    assert_eq!(config.learning_rate_micros, 100);
    let tuned = TrainingConfig::new()
        .with_batch_size(32)
        .with_num_epochs(5)
        .with_learning_rate_micros(50);
    assert_eq!(tuned.num_epochs, 5);
    assert_eq!(tuned.batch_size, 32);
    assert_eq!(tuned.learning_rate_micros, 50);
    assert_eq!(tuned.seed, 42);
    let seeded = TrainingConfig::new().with_seed(7).with_num_workers(2);
    assert_eq!(seeded.seed, 7);
    assert_eq!(seeded.num_workers, 2);
}

#[test]
fn training_run_walks_epochs_then_saves() {
    let schedule = TrainingSchedule { num_epochs: 2, train_batches: 2, valid_batches: 1 };
    let mut state = TrainingState::Init;
    let mut visited = Vec::new();
    for _ in 0..9 {
        state = schedule.next(state);
        visited.push(state);
    }
    assert_eq!(
        visited,
        vec![
            TrainingState::TrainStep { epoch: 0, step: 0 },
            TrainingState::TrainStep { epoch: 0, step: 1 },
            TrainingState::ValidationStep { epoch: 0, step: 0 },
            TrainingState::TrainStep { epoch: 1, step: 0 },
            TrainingState::TrainStep { epoch: 1, step: 1 },
            TrainingState::ValidationStep { epoch: 1, step: 0 },
            TrainingState::Save,
            TrainingState::Done,
            TrainingState::Done,
        ]
    );
}

#[test]
fn training_run_with_no_epochs_just_saves() {
    let schedule = TrainingSchedule { num_epochs: 0, train_batches: 5, valid_batches: 5 };
    assert_eq!(schedule.next(TrainingState::Init), TrainingState::Save);
    let empty = TrainingSchedule { num_epochs: 3, train_batches: 0, valid_batches: 0 };
    assert_eq!(empty.next(TrainingState::Init), TrainingState::Save);
}
