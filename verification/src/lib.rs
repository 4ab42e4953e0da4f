mod adapter;
mod callbacks;
mod folds;
mod producer;
mod updaters;

pub use adapter::IteratorTester;
pub use adapter::UpdateCombiner;
pub use adapter::UpdateVisitor;
pub use adapter::lemma_strategies_agree;
pub use callbacks::Combine;
pub use callbacks::MutUpdate;
pub use callbacks::Visitor;
pub use callbacks::combine_step;
pub use callbacks::combine_step_pre;
pub use callbacks::update_step;
pub use callbacks::update_step_pre;
pub use callbacks::visit_step;
pub use callbacks::visit_step_pre;
pub use folds::count_step;
pub use folds::fold_pre_spec;
pub use folds::fold_spec;
pub use folds::lemma_fold_count;
pub use folds::lemma_fold_empty;
pub use folds::lemma_fold_order;
pub use folds::lemma_fold_pre_total;
pub use folds::record_step;
pub use producer::Producer;
pub use producer::VecProducer;
pub use updaters::EvenSum;
pub use updaters::lemma_recorder_logs_the_sequence;
pub use updaters::Recorder;
pub use updaters::ThirdsCollector;
