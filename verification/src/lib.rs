pub mod backend;
pub mod commitment;
pub mod error;
pub mod prover;
pub mod randomness;
pub mod replica;
pub mod seqops;
pub mod types;
pub mod verify;
