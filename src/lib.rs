//! An advisory panel over a chat-completion service: personalities that each
//! answer a question, the accumulation of their streamed answers, the brief
//! that gathers a panel's opinions for a synthesizing personality, and the
//! prompt loop that drives it all.

pub mod opinion;
pub mod brief;
pub mod interaction;
pub mod personality;
