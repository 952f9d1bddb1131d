//! The batch runner: the checks on its options and the restriction of the
//! discovered files to those of the wanted owners.

use crate::command::{CliLintOptions, CliRunResult, CliRunResultView, CodeownerOptions};
use crate::text::{chars_of, contains_string, strings_view, without_dot_slash};
use vstd::prelude::*;

verus! {

/// Why a configuration file and rule filters are refused together.
pub const CONFIG_WITH_FILTER: &'static str =
    "`--config` and rule filters cannot currently be used together. \nPlease use `--config` to specify a config file, or filter to specify rules.";

/// Why a configuration file and plugin options are refused together.
pub const CONFIG_WITH_PLUGINS: &'static str =
    "`--config` and plugin options cannot currently be used together. \nPlease use `--config` to specify a config file, or plugin options to enable plugins.";

/// Why an ownership file without wanted owners is refused.
pub const NO_CODEOWNERS: &'static str = "No wanted codeowners provided.";

/// Why a run ends when its ownership file gave nothing.
pub const CODEOWNERS_UNREADABLE: &'static str = "Codeowners file could not be read or parsed.";

/// An owner that an ownership file names for a path.
#[derive(Debug, Clone, PartialEq, Eq)]
pub enum Owner {
    Email(String),
    Team(String),
    Username(String),
}

impl Owner {
    /// The owner as the ownership file writes it.
    pub open spec fn spec_name(self) -> Seq<char> {
        match self {
            Owner::Email(name) => name@,
            Owner::Team(name) => name@,
            Owner::Username(name) => name@,
        }
    }

    /// The owner as the ownership file writes it.
    pub fn name(&self) -> (name: &String)
        ensures
            name@ == self.spec_name(),
    {
        match self {
            Owner::Email(name) => name,
            Owner::Team(name) => name,
            Owner::Username(name) => name,
        }
    }
}

/// The path under which an ownership file is asked for the owners of a
/// discovered file: the path of the file without a leading `./`, as the
/// ownership file writes paths.
pub open spec fn spec_ownership_key(path: Seq<char>) -> Seq<char> {
    without_dot_slash(path)
}

/// The path under which an ownership file is asked for the owners of the
/// discovered file at `path`.
pub fn ownership_key(path: &str) -> (key: String)
    ensures
        key@ == spec_ownership_key(path@),
{
    let chars = chars_of(path);
    if chars.len() >= 2 && chars[0] == '.' && chars[1] == '/' {
        String::from_str(path.substring_char(2, chars.len()))
    } else {
        String::from_str(path)
    }
}

/// A leading `./` never changes under which path the owners of a file are
/// looked up: a path that does not begin with `./` is its own key, and it is
/// the key of the same path with `./` before it.
pub proof fn lemma_dot_slash_changes_no_key(path: Seq<char>)
    requires
        !(path.len() >= 2 && path[0] == '.' && path[1] == '/'),
    ensures
        spec_ownership_key(path) == path,
        spec_ownership_key(seq!['.', '/'] + path) == path,
{
    assert((seq!['.', '/'] + path).skip(2) =~= path);
}

/// The owners that an ownership file names for each discovered path, in the
/// order of the paths: `None` for a path that no rule of the file matches.
pub type Ownership = Vec<Option<Vec<Owner>>>;

/// Whether one of `owners` is among the `wanted`.
pub open spec fn any_wanted(owners: Seq<Owner>, wanted: Seq<Seq<char>>) -> bool {
    exists|k: int| 0 <= k < owners.len() && wanted.contains(#[trigger] owners[k].spec_name())
}

/// Whether the path at `index` stays: the ownership file names owners for
/// it, one of whom is wanted.
pub open spec fn is_kept(ownership: Seq<Option<Vec<Owner>>>, wanted: Seq<Seq<char>>, index: int) -> bool {
    &&& 0 <= index < ownership.len()
    &&& ownership[index] matches Some(owners)
    &&& any_wanted(owners@, wanted)
}

/// Those of the first `n` paths that stay, in their order.
pub open spec fn kept_paths(
    paths: Seq<Seq<char>>,
    ownership: Seq<Option<Vec<Owner>>>,
    wanted: Seq<Seq<char>>,
    n: int,
) -> Seq<Seq<char>>
    decreases n,
{
    if n <= 0 {
        Seq::empty()
    } else if is_kept(ownership, wanted, n - 1) {
        kept_paths(paths, ownership, wanted, n - 1).push(paths[n - 1])
    } else {
        kept_paths(paths, ownership, wanted, n - 1)
    }
}

/// What the check of the options gives: a configuration file goes neither
/// with rule filters nor with plugin options.
pub open spec fn spec_check_options(options: CliLintOptions) -> CliRunResultView {
    if options.config is Some && options.filter.len() > 0 {
        CliRunResultView::InvalidOptions { message: CONFIG_WITH_FILTER@ }
    } else if options.config is Some && (options.enable_plugins.import_plugin
        || options.enable_plugins.jest_plugin || options.enable_plugins.jsx_a11y_plugin) {
        CliRunResultView::InvalidOptions { message: CONFIG_WITH_PLUGINS@ }
    } else {
        CliRunResultView::Nothing
    }
}

/// What the restriction to the wanted owners gives. Without an ownership
/// file every path stays. With one, owners must be wanted and the file must
/// have been read; then the paths stay for which it names a wanted owner.
pub open spec fn spec_apply_codeowners_file(
    options: CodeownerOptions,
    paths: Seq<Seq<char>>,
    ownership: Option<Ownership>,
) -> Result<Seq<Seq<char>>, CliRunResultView> {
    if options.codeowners_file is Some && options.codeowners.len() == 0 {
        Err(CliRunResultView::InvalidOptions { message: NO_CODEOWNERS@ })
    } else if options.codeowners_file is Some {
        match ownership {
            Some(named) => Ok(
                kept_paths(paths, named@, strings_view(options.codeowners@), paths.len() as int),
            ),
            None => Err(CliRunResultView::InvalidOptions { message: CODEOWNERS_UNREADABLE@ }),
        }
    } else {
        Ok(paths)
    }
}

/// The view of what the restriction gives.
pub open spec fn restricted_view(restricted: Result<Vec<String>, CliRunResult>) -> Result<
    Seq<Seq<char>>,
    CliRunResultView,
> {
    match restricted {
        Ok(paths) => Ok(strings_view(paths@)),
        Err(result) => Err(result@),
    }
}

/// The runner of a batch run.
#[derive(Debug)]
pub struct LintRunner {
    pub options: CliLintOptions,
}

impl LintRunner {
    pub fn new(options: CliLintOptions) -> (runner: LintRunner)
        ensures
            runner.options == options,
    {
        LintRunner { options }
    }

    /// Checks that the options go together. Nothing is read for it.
    pub fn check_options(&self) -> (result: CliRunResult)
        ensures
            result@ == spec_check_options(self.options),
    {
        let options = &self.options;
        if options.config.is_some() && options.filter.len() > 0 {
            return CliRunResult::invalid(CONFIG_WITH_FILTER);
        }
        if options.config.is_some() && (options.enable_plugins.import_plugin
            || options.enable_plugins.jest_plugin || options.enable_plugins.jsx_a11y_plugin) {
            return CliRunResult::invalid(CONFIG_WITH_PLUGINS);
        }
        CliRunResult::Nothing
    }

    /// Whether one of `owners` is among the `wanted`.
    fn any_owner_wanted(owners: &Vec<Owner>, wanted: &Vec<String>) -> (found: bool)
        ensures
            found == any_wanted(owners@, strings_view(wanted@)),
    {
        let mut k: usize = 0;
        while k < owners.len()
            invariant
                k <= owners.len(),
                forall|j: int|
                    0 <= j < k ==> !strings_view(wanted@).contains(
                        #[trigger] owners@[j].spec_name(),
                    ),
            decreases owners.len() - k,
        {
            if contains_string(wanted, owners[k].name()) {
                return true;
            }
            k += 1;
        }
        false
    }

    /// Restricts the discovered `paths` to those of the wanted owners.
    /// `ownership` is what the ownership file names for each path, where the
    /// options name such a file and it could be read.
    pub fn apply_codeowners_file(
        options: &CodeownerOptions,
        paths: Vec<String>,
        ownership: Option<Ownership>,
    ) -> (restricted: Result<Vec<String>, CliRunResult>)
        ensures
            restricted_view(restricted) == spec_apply_codeowners_file(
                *options,
                strings_view(paths@),
                ownership,
            ),
    {
        if options.codeowners_file.is_some() && options.codeowners.len() == 0 {
            return Err(CliRunResult::invalid(NO_CODEOWNERS));
        }
        if options.codeowners_file.is_some() {
            match ownership {
                Some(named) => {
                    let ghost wanted = strings_view(options.codeowners@);
                    let ghost all = strings_view(paths@);
                    let mut kept: Vec<String> = Vec::new();
                    let mut i: usize = 0;
                    while i < paths.len()
                        invariant
                            i <= paths.len(),
                            wanted == strings_view(options.codeowners@),
                            all == strings_view(paths@),
                            strings_view(kept@) == kept_paths(all, named@, wanted, i as int),
                        decreases paths.len() - i,
                    {
                        let keep = i < named.len() && match &named[i] {
                            Some(owners) => Self::any_owner_wanted(owners, &options.codeowners),
                            None => false,
                        };
                        if keep {
                            kept.push(paths[i].clone());
                        }
                        i += 1;
                    }
                    Ok(kept)
                },
                None => Err(CliRunResult::invalid(CODEOWNERS_UNREADABLE)),
            }
        } else {
            Ok(paths)
        }
    }
}

} // verus!
