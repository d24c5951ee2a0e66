//! Extraction for the tuples of one to thirty-two slots.

mod upto_16;
mod upto_24;
mod upto_32;
mod upto_8;
