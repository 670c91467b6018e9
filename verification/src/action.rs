//! The actions that can be rate limited, with their built-in defaults.

use vstd::prelude::*;

verus! {

/// An action that is rate limited per user.
#[derive(Debug, Clone, Copy, PartialEq, Eq, Hash, Structural)]
pub enum LimitedAction {
    /// Publishing a new version.
    PublishNew,
}

impl LimitedAction {
    /// The built-in refill interval of the action, in seconds.
    pub open spec fn spec_default_rate_seconds(&self) -> u64 {
        match self {
            LimitedAction::PublishNew => 3600,
        }
    }

    /// The built-in burst of the action.
    pub open spec fn spec_default_burst(&self) -> i32 {
        match self {
            LimitedAction::PublishNew => 5,
        }
    }

    /// The name under which the settings of the action are looked up in the
    /// environment.
    pub open spec fn spec_env_var_key(&self) -> Seq<char> {
        match self {
            LimitedAction::PublishNew => "PUBLISH_NEW"@,
        }
    }

    /// The integer that stands for the action in a stored row and in the
    /// settings of a limiter.
    pub open spec fn spec_code(&self) -> i32 {
        match self {
            LimitedAction::PublishNew => 0,
        }
    }

    /// The refill interval that the action runs on where none is
    /// configured, in seconds.
    #[verifier::when_used_as_spec(spec_default_rate_seconds)]
    pub fn default_rate_seconds(&self) -> (secs: u64)
        ensures
            secs == self.spec_default_rate_seconds(),
    {
        match self {
            LimitedAction::PublishNew => 60 * 60,
        }
    }

    /// The burst that the action runs on where none is configured.
    #[verifier::when_used_as_spec(spec_default_burst)]
    pub fn default_burst(&self) -> (burst: i32)
        ensures
            burst == self.spec_default_burst(),
    {
        match self {
            LimitedAction::PublishNew => 5,
        }
    }

    /// The name under which the settings of the action are looked up in the
    /// environment.
    pub fn env_var_key(&self) -> (key: &'static str)
        ensures
            key@ == self.spec_env_var_key(),
    {
        match self {
            LimitedAction::PublishNew => "PUBLISH_NEW",
        }
    }

    /// The integer that stands for the action in a stored row and in the
    /// settings of a limiter.
    #[verifier::when_used_as_spec(spec_code)]
    pub fn code(&self) -> (code: i32)
        ensures
            code == self.spec_code(),
    {
        match self {
            LimitedAction::PublishNew => 0,
        }
    }

    /// Every action has a built-in interval of at least one second, short
    /// enough to be counted in microseconds, a built-in burst that is not
    /// negative, and a code that is not negative.
    pub proof fn lemma_defaults_in_range(self)
        ensures
            1 <= self.spec_default_rate_seconds() <= 18_446_744_073_709,
            0 <= self.spec_default_burst(),
            0 <= self.spec_code(),
    {
    }

    /// No two actions share a code.
    pub proof fn lemma_code_injective(self, other: LimitedAction)
        requires
            self.spec_code() == other.spec_code(),
        ensures
            self == other,
    {
    }
}

} // verus!
