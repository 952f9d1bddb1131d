//! Live configuration of an editor session: whether linting is enabled and
//! how eagerly documents are linted again.

use vstd::prelude::*;

verus! {

/// When an enabled session lints a document again.
#[derive(Debug, Clone, Copy, PartialEq, Eq, Structural)]
pub enum Run {
    /// Only when the document is saved.
    OnSave,
    /// On every edit, and on save.
    OnType,
}

/// The trigger level a session is at, with a disabled session as the lowest
/// level. The order is `Disable < OnSave < OnType`.
#[derive(Debug, Clone, Copy, PartialEq, Eq, Structural)]
pub enum SyntheticRunLevel {
    Disable,
    OnSave,
    OnType,
}

/// The options an editor hands to the session.
#[derive(Debug, Clone, Copy, PartialEq, Eq, Structural)]
pub struct Options {
    pub run: Run,
    pub enable: bool,
}

impl SyntheticRunLevel {
    /// Position of the level in the order `Disable < OnSave < OnType`.
    pub open spec fn spec_rank(self) -> nat {
        match self {
            SyntheticRunLevel::Disable => 0,
            SyntheticRunLevel::OnSave => 1,
            SyntheticRunLevel::OnType => 2,
        }
    }

    /// Whether an event that needs `required` may proceed at this level:
    /// the level is at least `required`.
    pub open spec fn spec_permits(self, required: SyntheticRunLevel) -> bool {
        self.spec_rank() >= required.spec_rank()
    }

    pub fn rank(self) -> (r: u8)
        ensures
            r == self.spec_rank(),
    {
        match self {
            SyntheticRunLevel::Disable => 0,
            SyntheticRunLevel::OnSave => 1,
            SyntheticRunLevel::OnType => 2,
        }
    }

    #[verifier::when_used_as_spec(spec_permits)]
    pub fn permits(self, required: SyntheticRunLevel) -> (r: bool)
        ensures
            r == self.spec_permits(required),
    {
        self.rank() >= required.rank()
    }
}

impl Options {
    /// The level the options put the session at.
    pub open spec fn spec_lint_level(&self) -> SyntheticRunLevel {
        if self.enable {
            match self.run {
                Run::OnSave => SyntheticRunLevel::OnSave,
                Run::OnType => SyntheticRunLevel::OnType,
            }
        } else {
            SyntheticRunLevel::Disable
        }
    }

    /// The options a session starts with: enabled, linting on every edit.
    pub open spec fn spec_default() -> Options {
        Options { run: Run::OnType, enable: true }
    }

    #[verifier::when_used_as_spec(spec_lint_level)]
    pub fn get_lint_level(&self) -> (level: SyntheticRunLevel)
        ensures
            level == self.spec_lint_level(),
    {
        if self.enable {
            match self.run {
                Run::OnSave => SyntheticRunLevel::OnSave,
                Run::OnType => SyntheticRunLevel::OnType,
            }
        } else {
            SyntheticRunLevel::Disable
        }
    }
}

impl Default for Run {
    fn default() -> (r: Run)
        ensures
            r == Run::OnType,
    {
        Run::OnType
    }
}

impl Default for Options {
    fn default() -> (r: Options)
        ensures
            r == Options::spec_default(),
    {
        Options { run: Run::OnType, enable: true }
    }
}

/// A disabled session is below every level that an event can ask for, and
/// the level of enabled options is the level of their `run` setting.
pub proof fn lemma_lint_level_order(options: Options)
    ensures
        !options.enable ==> !options.spec_lint_level().spec_permits(SyntheticRunLevel::OnSave),
        options.enable ==> options.spec_lint_level().spec_permits(SyntheticRunLevel::OnSave),
        options.spec_lint_level().spec_permits(SyntheticRunLevel::OnType) <==> (options.enable
            && options.run == Run::OnType),
        options.spec_lint_level().spec_permits(SyntheticRunLevel::OnType)
            ==> options.spec_lint_level().spec_permits(SyntheticRunLevel::OnSave),
{
}

} // verus!
