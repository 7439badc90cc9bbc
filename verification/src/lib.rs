pub mod checksum;
pub mod cmdline;
pub mod entries;
pub mod flags;
pub mod job;
pub mod model;
pub mod output;
pub mod plan;
pub mod preview;
pub mod probe;
pub mod progress;
pub mod propedit;
pub mod scan;
pub mod scheduler;
pub mod selection;
pub mod seqs;
pub mod synth;
pub mod text;
