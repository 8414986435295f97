//! Training orchestration: the run's configuration and its control flow.
//!
//! The work of each step — forward, cross-entropy loss, backward, AdamW
//! updates, metric tracking, checkpointing — is floating-point tensor
//! work on the compute backend outside this crate. What the library fixes
//! is everything around it: the hyperparameters a run is driven by (and
//! persisted with), the class count of the model it trains, and the
//! schedule that decides, state by state, whether the next step trains,
//! validates, checkpoints or stops.

use vstd::prelude::*;

verus! {

/// Number of classes the classifier distinguishes.
pub const NUM_CLASSES: usize = 4;

/// Hyperparameters of one training run, persisted beside the trained
/// parameters. The learning rate is stored in millionths, so the default
/// of 100 stands for 1e-4.
pub struct TrainingConfig {
    pub num_epochs: usize,
    pub batch_size: usize,
    pub num_workers: usize,
    pub seed: u64,
    pub learning_rate_micros: u64,
}

/// Number of batches a dataset of `len` items yields at `batch_size`
/// items per batch, the last batch possibly short.
pub fn batch_count(len: usize, batch_size: usize) -> (r: usize)
    ensures
        len > 0 && batch_size > 0 ==> r as int == (len - 1) as int / batch_size as int + 1,
        r == 0 <==> len == 0 || batch_size == 0,
{
    if batch_size == 0 || len == 0 {
        0
    } else {
        (len - 1) / batch_size + 1
    }
}

/// The control state of one training run: initialization, the training
/// steps of an epoch, the validation steps that follow them, the final
/// checkpoint, and the end.
#[derive(Clone, Copy, Debug, PartialEq, Eq)]
pub enum TrainingState {
    Init,
    TrainStep { epoch: usize, step: usize },
    ValidationStep { epoch: usize, step: usize },
    Save,
    Done,
}

/// The fixed sizes a run is driven by: how many epochs, and how many
/// train and validation batches each epoch visits.
#[derive(Clone, Copy, Debug)]
pub struct TrainingSchedule {
    pub num_epochs: usize,
    pub train_batches: usize,
    pub valid_batches: usize,
}

impl TrainingSchedule {
    /// A state the schedule can actually be in.
    pub open spec fn state_wf(self, state: TrainingState) -> bool {
        match state {
            TrainingState::Init => true,
            TrainingState::TrainStep { epoch, step } => epoch < self.num_epochs && step
                < self.train_batches,
            TrainingState::ValidationStep { epoch, step } => epoch < self.num_epochs && step
                < self.valid_batches,
            TrainingState::Save => true,
            TrainingState::Done => true,
        }
    }

    /// The first state of epoch `epoch`: its first training step, or —
    /// with nothing to train on — its first validation step, or the end
    /// of the run's epochs.
    pub open spec fn spec_epoch_start(self, epoch: int) -> TrainingState {
        if epoch >= self.num_epochs {
            TrainingState::Save
        } else if self.train_batches > 0 {
            TrainingState::TrainStep { epoch: epoch as usize, step: 0 }
        } else if self.valid_batches > 0 {
            TrainingState::ValidationStep { epoch: epoch as usize, step: 0 }
        } else {
            TrainingState::Save
        }
    }

    /// The successor of each state: training steps run through an epoch,
    /// validation steps follow them (never shuffled away), the last epoch
    /// is followed by the checkpoint, and the run then ends.
    pub open spec fn spec_next(self, state: TrainingState) -> TrainingState {
        match state {
            TrainingState::Init => self.spec_epoch_start(0),
            TrainingState::TrainStep { epoch, step } => if step + 1 < self.train_batches {
                TrainingState::TrainStep { epoch, step: (step + 1) as usize }
            } else if self.valid_batches > 0 {
                TrainingState::ValidationStep { epoch, step: 0 }
            } else {
                self.spec_epoch_start(epoch + 1)
            },
            TrainingState::ValidationStep { epoch, step } => if step + 1 < self.valid_batches {
                TrainingState::ValidationStep { epoch, step: (step + 1) as usize }
            } else {
                self.spec_epoch_start(epoch + 1)
            },
            TrainingState::Save => TrainingState::Done,
            TrainingState::Done => TrainingState::Done,
        }
    }

    /// Steps left before a run in `state` reaches `Done`.
    pub open spec fn remaining_steps(self, state: TrainingState) -> int {
        let epoch_cost = self.train_batches + self.valid_batches;
        match state {
            TrainingState::Init => 3 + self.num_epochs * epoch_cost,
            TrainingState::TrainStep { epoch, step } => 2 + (self.train_batches - step)
                + self.valid_batches + (self.num_epochs - 1 - epoch) * epoch_cost,
            TrainingState::ValidationStep { epoch, step } => 2 + (self.valid_batches - step) + (
            self.num_epochs - 1 - epoch) * epoch_cost,
            TrainingState::Save => 1,
            TrainingState::Done => 0,
        }
    }

    /// Law: every step strictly decreases the non-negative number of
    /// steps left, so a run that follows `next` from any allowed state
    /// reaches `Done` after finitely many steps.
    pub proof fn lemma_run_terminates(self, state: TrainingState)
        requires
            self.state_wf(state),
            !(state is Done),
        ensures
            0 <= self.remaining_steps(self.spec_next(state)),
            self.remaining_steps(self.spec_next(state)) < self.remaining_steps(state),
    {
        let n = self.num_epochs as int;
        let c = (self.train_batches + self.valid_batches) as int;
        assert(n * c >= 0 && (n - 1) * c + c == n * c) by (nonlinear_arith)
            requires
                n >= 0,
                c >= 0,
        ;
        match state {
            TrainingState::TrainStep { epoch, step: _ } => {
                let e = epoch as int;
                assert((n - 1 - e) * c >= 0 && (n - 1 - e) * c == (n - 2 - e) * c + c)
                    by (nonlinear_arith)
                    requires
                        0 <= e < n,
                        c >= 0,
                ;
                if e + 1 < n {
                    assert((n - 2 - e) * c >= 0) by (nonlinear_arith)
                        requires
                            e + 1 < n,
                            c >= 0,
                    ;
                }
            },
            TrainingState::ValidationStep { epoch, step: _ } => {
                let e = epoch as int;
                assert((n - 1 - e) * c >= 0 && (n - 1 - e) * c == (n - 2 - e) * c + c)
                    by (nonlinear_arith)
                    requires
                        0 <= e < n,
                        c >= 0,
                ;
            },
            _ => {
            },
        }
    }

    /// Law: a run never leaves the states its schedule allows.
    pub proof fn lemma_next_stays_wf(self, state: TrainingState)
        requires
            self.state_wf(state),
        ensures
            self.state_wf(self.spec_next(state)),
    {
    }

    /// Drives the run one step forward.
    pub fn next(&self, state: TrainingState) -> (r: TrainingState)
        requires
            self.state_wf(state),
        ensures
            r == self.spec_next(state),
            self.state_wf(r),
    {
        match state {
            TrainingState::Init => self.epoch_start(0),
            TrainingState::TrainStep { epoch, step } => {
                if step + 1 < self.train_batches {
                    TrainingState::TrainStep { epoch, step: step + 1 }
                } else if self.valid_batches > 0 {
                    TrainingState::ValidationStep { epoch, step: 0 }
                } else {
                    self.epoch_start_after(epoch)
                }
            },
            TrainingState::ValidationStep { epoch, step } => {
                if step + 1 < self.valid_batches {
                    TrainingState::ValidationStep { epoch, step: step + 1 }
                } else {
                    self.epoch_start_after(epoch)
                }
            },
            TrainingState::Save => TrainingState::Done,
            TrainingState::Done => TrainingState::Done,
        }
    }

    fn epoch_start(&self, epoch: usize) -> (r: TrainingState)
        ensures
            r == self.spec_epoch_start(epoch as int),
            self.state_wf(r),
    {
        if epoch >= self.num_epochs {
            TrainingState::Save
        } else if self.train_batches > 0 {
            TrainingState::TrainStep { epoch, step: 0 }
        } else if self.valid_batches > 0 {
            TrainingState::ValidationStep { epoch, step: 0 }
        } else {
            TrainingState::Save
        }
    }

    fn epoch_start_after(&self, epoch: usize) -> (r: TrainingState)
        requires
            epoch < self.num_epochs,
        ensures
            r == self.spec_epoch_start(epoch + 1),
            self.state_wf(r),
    {
        self.epoch_start(epoch + 1)
    }
}

impl TrainingConfig {
    /// The default configuration: 20 epochs, batches of 32, 4 loader
    /// workers, seed 42, learning rate 1e-4.
    pub fn new() -> (r: Self)
        ensures
            r == (TrainingConfig {
                num_epochs: 20,
                batch_size: 32,
                num_workers: 4,
                seed: 42,
                learning_rate_micros: 100,
            }),
    {
        TrainingConfig {
            num_epochs: 20,
            batch_size: 32,
            num_workers: 4,
            seed: 42,
            learning_rate_micros: 100,
        }
    }

    pub fn with_num_epochs(self, num_epochs: usize) -> (r: Self)
        ensures
            r == (TrainingConfig { num_epochs, ..self }),
    {
        TrainingConfig { num_epochs, ..self }
    }

    pub fn with_batch_size(self, batch_size: usize) -> (r: Self)
        ensures
            r == (TrainingConfig { batch_size, ..self }),
    {
        TrainingConfig { batch_size, ..self }
    }

    pub fn with_num_workers(self, num_workers: usize) -> (r: Self)
        ensures
            r == (TrainingConfig { num_workers, ..self }),
    {
        TrainingConfig { num_workers, ..self }
    }

    pub fn with_seed(self, seed: u64) -> (r: Self)
        ensures
            r == (TrainingConfig { seed, ..self }),
    {
        TrainingConfig { seed, ..self }
    }

    pub fn with_learning_rate_micros(self, learning_rate_micros: u64) -> (r: Self)
        ensures
            r == (TrainingConfig { learning_rate_micros, ..self }),
    {
        TrainingConfig { learning_rate_micros, ..self }
    }
}

} // verus!
