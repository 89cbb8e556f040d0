//! A keyboard-driven multi-selection over the files of one directory:
//! the catalog of entries in its fixed order, the selection session with its
//! cursor and preview text, and the mapping from key presses to commands.

mod entry;
mod keys;
mod laws;
mod order;
mod paths;
mod preview;
mod session;

pub use entry::{is_hidden_name, is_plain_relative, Entry, EntryView};
pub use keys::{char_command, command_for, command_of, digit_index, Command, Key, KeyPress};
pub use laws::{
    lemma_empty_session, lemma_select_all_none_count, lemma_select_only_one, lemma_toggle_twice,
    lemma_up_down_round_trip,
};
pub use order::{in_order, is_sorted, lex_le, lower_of, sort_catalog};
pub use paths::{relative_of, shown_path, shown_path_of};
pub use preview::{
    decimal, digit_char, empty_file_text, no_files_text, preview_of, preview_of_content,
    preview_of_error, preview_text, truncation_notice, utf8_len, PREVIEW_LIMIT,
};
pub use session::{
    after_command, after_down, after_select_all, after_select_none, after_select_only,
    after_toggle, after_toggle_preview, after_up, all_flags, clamp_index, count_selected,
    down_index, entry_line, only_flag, outcome_of, preview_title_of, selected_paths_of, toggled,
    up_index, Outcome, Session, SessionView, CANCEL_EXIT, CONFIRM_EXIT,
};
