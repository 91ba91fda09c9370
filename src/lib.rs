//! Session-based identity resolution and the email-domain gate that decides
//! who may create a meeting.

mod identity;
mod policy;
mod text;

pub use identity::{
    lemma_shared_fields_agree, optional_of, required_of, resolve_optional, resolve_required,
    AuthError, OptionalUser, RequiredUser, UserRecord,
};
pub use policy::{
    domain_admits, is_allowed, lemma_blank_patterns_deny, lemma_empty_allowlist_denies,
    lemma_one_pattern_suffices, permits, PolicyConfig,
};
pub use text::{has_suffix, is_split_of, is_white_space, join_with, trim_end_of, trim_of, trim_start_of};
