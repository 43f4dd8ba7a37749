//! Session-domain logic for a chat application: lifecycle and phase state
//! machines, chat history bookkeeping, token accounting and session trees.
#![allow(unused_imports)]

pub mod assoc;
pub mod clock;
pub mod entry;
pub mod lifecycle;
pub mod phase;
pub mod machine;
pub mod transition;
pub mod token_cache;
pub mod prune;
pub mod gate;
pub mod ids;
pub mod idset;
pub mod tree;
pub mod token_stats;
pub mod strset;
pub mod profile;
pub mod session;
pub mod session_access;
pub mod session_view;
pub mod session_viewport;
pub mod session_history;
pub mod session_mutation;
pub mod session_stream;
pub mod session_tools;
pub mod protocol;
pub mod summary;
pub mod decisions;
pub mod builder;
pub mod skills;
pub mod stats_tree;
pub mod session_turn;
pub mod refresh;
pub mod session_restore;
pub mod persona_picker;
pub mod pin_cursor;
pub mod json;
pub mod rewrite;
pub mod picker_entry;
pub mod image_resolve;
