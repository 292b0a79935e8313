//! A Bloom filter: a fixed-size bit array probed at `k` positions per item,
//! with the two-digest double-hashing scheme of Kirsch and Mitzenmacher
//! standing in for `k` independent hash functions.

mod bits;
mod filter;
mod hashing;
mod laws;

pub use filter::all_clear;
pub use filter::all_probes_set;
pub use filter::bits_after_insert;
pub use filter::index_spec;
pub use filter::BloomFilter;
pub use laws::bits_after_inserts;
pub use laws::bits_after_repeated_insert;
pub use laws::lemma_deterministic_indices;
pub use laws::lemma_empty_filter_finds_nothing;
pub use laws::lemma_insert_idempotent;
pub use laws::lemma_insert_preserves_probes;
pub use laws::lemma_insert_sets_own_probes;
pub use laws::lemma_inserts_keep_len;
pub use laws::lemma_no_false_negatives;
pub use laws::lemma_repeated_insert;
