pub mod candidates;
pub mod chooser;
pub mod feedback;
pub mod prune;
pub mod session;
pub mod subseq;
pub mod words;
