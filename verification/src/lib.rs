//! Streaming reader of a location-history export.
//!
//! The document is read in one pass and never held as a whole. A tokenizer
//! lexes from a source of bytes, one buffer at a time; nested parsers pull
//! tokens off it and hand out one location per pull; builders validate the
//! fields of each record.
//!
//! Failures are of two kinds, and each is treated in one way throughout.
//! Input that is lexically or structurally corrupt cannot be trusted past
//! the place of the failure. A record that is read to its end and fails
//! validation fails alone: at the top it is handed out as a failure with
//! every reason, inside a nested collection it is left out, and the reading
//! goes on behind it.
//!
//! Every function that reads input comes in two forms. The one with the
//! plain name (`next_token`, `parse_locations`, `next`) asks in its
//! `requires` that the input be sound where it reads, and then has no
//! failure of the first kind to tell. The one whose name begins with `try_`
//! asks nothing: it reports corrupt input as a value, once, and the sequence
//! ends there. A caller that cannot know its input calls the second form.
//!
//! Nothing here computes with floating point. A number with a decimal point
//! keeps its text, and coordinates stay what the document holds: degrees
//! times ten million.

pub mod es;
pub mod google;
pub mod gtimeline;
pub mod json;
pub mod model;
pub mod text;
