//! A reversible codec between 32-bit IPv4 addresses and triples of words
//! drawn from a fixed 2048-entry dictionary.
//!
//! The 32 bits of an address are split into three groups of 11, 11 and 10
//! bits, least-significant group first; each group indexes the dictionary,
//! and the three words at those positions name the address.

pub mod codec;
pub mod english;
pub mod error;
pub mod text;
pub mod words;

pub use codec::Ip3;
pub use codec::ip3_to_ipv4;
pub use codec::ipv4_to_ip3;
pub use english::english_words;
pub use error::Ip3Error;
pub use text::format_ip3;
pub use text::format_ipv4;
pub use text::parse_ip3;
pub use text::parse_ipv4;
pub use words::Wordlist;
pub use words::in_word_list;
pub use words::word_to_bytes;
