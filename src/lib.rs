//! Fetches subtitles for video files: a size-seeded checksum over the first and
//! last block of each video names it, a remote service maps that name to subtitle
//! files, and a per-file state machine decides each next step.

mod fingerprint;
mod remote;
mod session;
mod text;

pub use fingerprint::{
    contents_result, create_hash, fingerprint_result, fingerprint_value, fingerprint_value_of,
    hash_contents, hash_result, le_word, lemma_deterministic, lemma_interior_ignored,
    lemma_single_block_file, word_modulus, word_sum, HashError, HASH_BLK_SIZE, WORDS_PER_BLOCK,
};
pub use remote::{
    download_body_of, download_endpoint, download_link, download_request_body, download_url,
    file_id_at, file_id_pointer, file_ids, file_ids_of, json_item_at, link_of, lookup_endpoint,
    lookup_query, lookup_url, pairs_view, url_with_query, JsonItem, ProtocolError,
};
pub use session::{
    classify_entry, failure_error, finish, is_video_extension, marks_video, step, transition,
    Action, EntryKind, Event, FileError, Failure, Outcome, Stage, Summary,
};
pub use text::{decimal, digit_char, hex16, hex_digits, to_decimal, to_hex16};
