//! Password strength evaluation.
//!
//! A password is run through four analyzers (blacklist, length, character
//! variety, patterns), each of which may give one reason why the password is
//! deficient. A password whose evaluation ran to its end is scored from 0 to
//! 100 and sorted into a strength tier.
//!
//! The blacklist lives in a [`BlacklistStore`] that the application owns and
//! lends to each evaluation.

pub mod blacklist;
pub mod evaluation;
pub mod evaluator;
pub mod laws;
pub mod profile;
pub mod score;
pub mod secret;
pub mod sections;
pub mod text;

pub use blacklist::get_blacklist;
pub use blacklist::get_blacklist_path;
pub use blacklist::init_blacklist;
pub use blacklist::init_blacklist_from_path;
pub use blacklist::is_blacklisted;
pub use blacklist::reset_blacklist_for_testing;
pub use blacklist::BlacklistError;
pub use blacklist::BlacklistSource;
pub use blacklist::BlacklistStore;
pub use evaluation::PasswordEvaluation;
pub use evaluator::evaluate_password_strength;
pub use score::PasswordScore;
pub use score::PasswordStrength;
pub use secret::Password;
