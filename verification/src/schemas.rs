pub mod dictionary_index;
pub mod dictionary_tag_bank_v3;
pub mod dictionary_term_bank_v3;
pub mod term_bank_codec;
