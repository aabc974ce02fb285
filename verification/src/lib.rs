//! Building blocks of small tool-using language-model agents: the prompts
//! they send, the tools they call, the working memory they keep and the
//! decisions they take on each reply.

pub mod anatomy;
pub mod chat;
pub mod file_count;
pub mod function_calling;
pub mod graph;
pub mod planner;
pub mod puzzle;
pub mod scratchpad;
pub mod text;
pub mod tools;
