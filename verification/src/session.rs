//! The session behind an editor connection: the workspace root, the live
//! options, the ignore set and the diagnostics cached for each document.
//! Each event of the editor is one call; what is to be done outside (a lint
//! to run, diagnostics to publish) comes back as a value.

use crate::cache::{
    cache_entries, cache_get, cache_insert, cache_keys, cache_new, cache_remove, CacheEntry,
    CacheView, EntryView,
};
use crate::ignore_set::{
    askable, can_ask, has_prefix, ignore_root, ignore_verdict, matcher_ignores, matcher_root,
    starts_with,
};
use crate::options::{Options, SyntheticRunLevel};
use crate::report::{
    diagnostics_of, diagnostics_view, report_diagnostics, reports_view, Diagnostic,
    DiagnosticReport, DiagnosticView, Range, ReportView,
};
use crate::text::{chars_of, leading_segment, leading_segment_len};
use dashmap::DashMap;
use ignore::gitignore::Gitignore;
use vstd::prelude::*;

verus! {

/// How the title of a quick fix begins.
pub const FIX_TITLE_START: &'static str = "Fix this ";

/// How the title of a quick fix ends.
pub const FIX_TITLE_END: &'static str = " problem";

/// The title of a quick fix for a finding whose message names no kind of
/// problem.
pub const GENERIC_FIX_TITLE: &'static str = "Fix this problem";

/// What a session says when its root is set a second time.
pub const ROOT_ALREADY_INITIALIZED: &'static str = "root uri already initialized";

/// A document as the editor names it.
#[derive(Debug, Clone, PartialEq, Eq)]
pub struct Document {
    /// The identity of the document: its URI.
    pub uri: String,
    /// The path part of the URI.
    pub path: String,
    /// Whether the path names a directory.
    pub is_dir: bool,
}

/// A lint that the session asks for: run the rule engine on the document
/// and report what it finds.
#[derive(Debug, Clone, PartialEq, Eq)]
pub struct LintRequest {
    /// The workspace root.
    pub root: String,
    /// The document to lint.
    pub uri: String,
    /// The content to lint; without it, what is on disk.
    pub content: Option<String>,
    /// The version of the content, where the editor gave one.
    pub version: Option<i32>,
}

/// Diagnostics to publish for a document; they replace what was published
/// for it before.
#[derive(Debug, PartialEq, Eq)]
pub struct Publish {
    pub uri: String,
    pub diagnostics: Vec<Diagnostic>,
}

/// A quick fix: the edit that replaces `range` of the document by
/// `new_text`.
#[derive(Debug, Clone, PartialEq, Eq)]
pub struct CodeAction {
    pub title: String,
    pub uri: String,
    pub range: Range,
    pub new_text: String,
}

/// Why a session refuses an event.
#[derive(Debug, Clone, Copy, PartialEq, Eq, Structural)]
pub enum SessionError {
    /// The workspace root was set before.
    AlreadyInitialized,
}

/// What came of a change of configuration.
#[derive(Debug, PartialEq, Eq)]
pub enum ConfigurationOutcome {
    /// The new options are in effect; `published` is to be published.
    Applied { published: Vec<Publish> },
    /// The editor sent no usable options: ask it for its configuration and
    /// hand the answer to [`Session::configuration_fetched`].
    Requested,
    /// The editor gave no usable options when asked either: the options
    /// stay as they were.
    Ignored,
}

/// How documents are kept in step with the editor.
#[derive(Debug, Clone, Copy, PartialEq, Eq, Structural)]
pub enum TextDocumentSync {
    /// The editor sends the whole document on each change.
    Full,
    /// The editor sends only what changed.
    Incremental,
}

/// The kinds of code action a server may offer.
#[derive(Debug, Clone, Copy, PartialEq, Eq, Structural)]
pub enum CodeActionKind {
    QuickFix,
    Refactor,
    Source,
}

/// What the session declares to the editor.
#[derive(Debug, Clone, PartialEq, Eq)]
pub struct Capabilities {
    pub text_document_sync: TextDocumentSync,
    pub code_action_kinds: Vec<CodeActionKind>,
    pub workspace_folders: bool,
    pub workspace_folder_change_notifications: bool,
}

/// What a [`LintRequest`] is.
pub ghost struct LintRequestView {
    pub root: Seq<char>,
    pub uri: Seq<char>,
    pub content: Option<Seq<char>>,
    pub version: Option<i32>,
}

/// What a [`Publish`] is.
pub ghost struct PublishView {
    pub uri: Seq<char>,
    pub diagnostics: Seq<DiagnosticView>,
}

/// What a [`CodeAction`] is.
pub ghost struct CodeActionView {
    pub title: Seq<char>,
    pub uri: Seq<char>,
    pub range: Range,
    pub new_text: Seq<char>,
}

/// The characters of a string that may be missing.
pub open spec fn option_view(text: Option<String>) -> Option<Seq<char>> {
    match text {
        Some(s) => Some(s@),
        None => None,
    }
}

impl View for LintRequest {
    type V = LintRequestView;

    open spec fn view(&self) -> LintRequestView {
        LintRequestView {
            root: self.root@,
            uri: self.uri@,
            content: option_view(self.content),
            version: self.version,
        }
    }
}

impl View for Publish {
    type V = PublishView;

    open spec fn view(&self) -> PublishView {
        PublishView { uri: self.uri@, diagnostics: diagnostics_view(self.diagnostics@) }
    }
}

impl View for CodeAction {
    type V = CodeActionView;

    open spec fn view(&self) -> CodeActionView {
        CodeActionView {
            title: self.title@,
            uri: self.uri@,
            range: self.range,
            new_text: self.new_text@,
        }
    }
}

/// The view of a lint request that may be missing.
pub open spec fn request_view(request: Option<LintRequest>) -> Option<LintRequestView> {
    match request {
        Some(r) => Some(r@),
        None => None,
    }
}

/// The view of a publication that may be missing.
pub open spec fn publish_view(publish: Option<Publish>) -> Option<PublishView> {
    match publish {
        Some(p) => Some(p@),
        None => None,
    }
}

/// The view of a quick fix that may be missing.
pub open spec fn action_view(action: Option<CodeAction>) -> Option<CodeActionView> {
    match action {
        Some(a) => Some(a@),
        None => None,
    }
}

/// The views of a list of reports that may be missing.
pub open spec fn found_view(reports: Option<Vec<DiagnosticReport>>) -> Option<Seq<ReportView>> {
    match reports {
        Some(list) => Some(reports_view(list@)),
        None => None,
    }
}

/// The documents that a list of publications is for, in order.
pub open spec fn published_uris(published: Seq<Publish>) -> Seq<Seq<char>> {
    published.map_values(|p: Publish| p.uri@)
}

/// Whether `published` retracts the diagnostics of every cached document:
/// one publication for each document that `cache` holds, each without
/// diagnostics.
pub open spec fn retracts_all(published: Seq<Publish>, cache: CacheView) -> bool {
    &&& published_uris(published).no_duplicates()
    &&& published_uris(published).to_set() == cache.dom()
    &&& forall|i: int| 0 <= i < published.len() ==> (#[trigger] published[i]).diagnostics@.len() == 0
}

/// Whether a report can serve a request for a quick fix at `range`: it is
/// about that range and has a fix.
pub open spec fn offers_fix(report: ReportView, range: Range) -> bool {
    report.diagnostic.range == range && report.fixed_content is Some
}

/// Whether the report at `index` is the first of `reports` that can serve a
/// request at `range`.
pub open spec fn is_first_fix(reports: Seq<ReportView>, range: Range, index: int) -> bool {
    &&& 0 <= index < reports.len()
    &&& offers_fix(reports[index], range)
    &&& forall|j: int| 0 <= j < index ==> !offers_fix(#[trigger] reports[j], range)
}

/// The title of the quick fix for a finding: built from what its message
/// says before the first colon, and the generic title where the message
/// holds no colon.
pub open spec fn fix_title(message: Seq<char>) -> Seq<char> {
    if message.contains(':') {
        FIX_TITLE_START@ + leading_segment(message, ':') + FIX_TITLE_END@
    } else {
        GENERIC_FIX_TITLE@
    }
}

/// The quick fix that a report with a fix gives for the document `uri`.
pub open spec fn fix_action(uri: Seq<char>, report: ReportView) -> CodeActionView
    recommends
        report.fixed_content is Some,
{
    CodeActionView {
        title: fix_title(report.diagnostic.message),
        uri,
        range: report.fixed_content->0.range,
        new_text: report.fixed_content->0.code,
    }
}

/// The quick fix for `range` among `reports`: that of the first report that
/// can serve the request, if there is one.
pub open spec fn first_fix(uri: Seq<char>, reports: Seq<ReportView>, range: Range) -> Option<
    CodeActionView,
> {
    if exists|i: int| is_first_fix(reports, range, i) {
        Some(fix_action(uri, reports[choose|i: int| is_first_fix(reports, range, i)]))
    } else {
        None
    }
}

/// The session behind one editor connection.
pub struct Session {
    root: Option<Option<String>>,
    options: Options,
    ignore: Option<Gitignore>,
    cache: DashMap<String, CacheEntry>,
}

/// What a [`Session`] is.
pub ghost struct SessionView {
    /// The workspace root: `None` until the session is initialized, then
    /// what it was initialized with for good.
    pub root: Option<Option<Seq<char>>>,
    /// The live options.
    pub options: Options,
    /// The ignore set, where one was built.
    pub ignore: Option<Gitignore>,
    /// The diagnostics cached for each document.
    pub cache: CacheView,
}

impl View for Session {
    type V = SessionView;

    closed spec fn view(&self) -> SessionView {
        SessionView {
            root: match self.root {
                Some(root) => Some(option_view(root)),
                None => None,
            },
            options: self.options,
            ignore: self.ignore,
            cache: cache_entries(self.cache),
        }
    }
}

impl SessionView {
    /// A session at its start: not initialized, with the default options,
    /// no ignore set and nothing cached.
    pub open spec fn start() -> SessionView {
        SessionView {
            root: None,
            options: Options::spec_default(),
            ignore: None,
            cache: CacheView::empty(),
        }
    }

    /// The trigger level of the session.
    pub open spec fn level(self) -> SyntheticRunLevel {
        self.options.spec_lint_level()
    }

    /// The workspace root, once the session is initialized with one.
    pub open spec fn workspace_root(self) -> Option<Seq<char>> {
        match self.root {
            Some(Some(root)) => Some(root),
            _ => None,
        }
    }

    /// The session after `initialize`, where it was not initialized before.
    pub open spec fn initialized(self, root: Option<Seq<char>>, options: Option<Options>) -> SessionView {
        SessionView {
            root: Some(root),
            options: match options {
                Some(given) => given,
                None => self.options,
            },
            ..self
        }
    }

    /// Whether the ignore set leaves out the document at `path`: the
    /// matcher's own answer for the path. Nothing is left out before the
    /// session has a root and an ignore set, nor what lies outside the
    /// root, nor a path that the matcher cannot be asked about.
    pub open spec fn is_ignored(self, path: Seq<char>, is_dir: bool) -> bool {
        match (self.workspace_root(), self.ignore) {
            (Some(root), Some(matcher)) => {
                &&& starts_with(path, root)
                &&& ignore_root(matcher) matches Some(matcher_root)
                &&& askable(path, matcher_root)
                &&& ignore_verdict(matcher, path, is_dir)
            },
            _ => false,
        }
    }

    /// Whether an event that needs the level `required` leads to a lint of
    /// the document at `path`: the session is initialized with a root, its
    /// level is at least `required`, and the document is not ignored.
    pub open spec fn lints(self, required: SyntheticRunLevel, path: Seq<char>, is_dir: bool) -> bool {
        &&& self.level().spec_permits(required)
        &&& self.workspace_root() is Some
        &&& !self.is_ignored(path, is_dir)
    }

    /// The lint that an event asks for, if it asks for one.
    pub open spec fn lint_request(
        self,
        required: SyntheticRunLevel,
        document: Document,
        content: Option<Seq<char>>,
        version: Option<i32>,
    ) -> Option<LintRequestView> {
        if self.lints(required, document.path@, document.is_dir) {
            Some(
                LintRequestView {
                    root: self.workspace_root()->0,
                    uri: document.uri@,
                    content,
                    version,
                },
            )
        } else {
            None
        }
    }

    /// The version that the cache holds for a document, if it holds one.
    pub open spec fn cached_version(self, uri: Seq<char>) -> Option<i32> {
        if self.cache.contains_key(uri) {
            self.cache[uri].version
        } else {
            None
        }
    }

    /// Whether a result for `version` of a document comes too late: the
    /// cache already holds the result for a later version.
    pub open spec fn is_stale(self, uri: Seq<char>, version: Option<i32>) -> bool {
        match (self.cached_version(uri), version) {
            (Some(held), Some(given)) => given < held,
            _ => false,
        }
    }

    /// The session, and what is to be published, after a lint has finished
    /// with `reports`. A lint that gave nothing changes nothing, nor does
    /// one that comes too late. Any other replaces the entry of the document
    /// and is published.
    pub open spec fn lint_finished(self, request: LintRequestView, reports: Option<Seq<ReportView>>) -> (
        SessionView,
        Option<PublishView>,
    ) {
        match reports {
            Some(found) if !self.is_stale(request.uri, request.version) => (
                SessionView {
                    cache: self.cache.insert(
                        request.uri,
                        EntryView {
                            version: match request.version {
                                Some(given) => Some(given),
                                None => self.cached_version(request.uri),
                            },
                            reports: found,
                        },
                    ),
                    ..self
                },
                Some(PublishView { uri: request.uri, diagnostics: report_diagnostics(found) }),
            ),
            _ => (self, None),
        }
    }

    /// The session after the editor changed its configuration.
    pub open spec fn configuration_changed(self, options: Options) -> SessionView {
        SessionView { options, ..self }
    }

    /// The session after a document was closed.
    pub open spec fn closed(self, uri: Seq<char>) -> SessionView {
        SessionView { cache: self.cache.remove(uri), ..self }
    }

    /// The quick fix for `range` of a document, if the cache holds one.
    pub open spec fn code_action(self, uri: Seq<char>, range: Range) -> Option<CodeActionView> {
        if self.cache.contains_key(uri) {
            first_fix(uri, self.cache[uri].reports, range)
        } else {
            None
        }
    }
}

impl SessionError {
    /// The error in words.
    pub fn message(&self) -> (message: String)
        ensures
            message@ == ROOT_ALREADY_INITIALIZED@,
    {
        String::from_str(ROOT_ALREADY_INITIALIZED)
    }
}

impl Session {
    /// A session at its start.
    pub fn new() -> (session: Session)
        ensures
            session@ == SessionView::start(),
    {
        Session { root: None, options: Options::default(), ignore: None, cache: cache_new() }
    }

    /// What the session declares to the editor: whole documents on each
    /// change, quick fixes and no other code action, and workspace folders
    /// with notice of their changes.
    pub fn capabilities() -> (capabilities: Capabilities)
        ensures
            capabilities.text_document_sync == TextDocumentSync::Full,
            capabilities.code_action_kinds@ == seq![CodeActionKind::QuickFix],
            capabilities.workspace_folders,
            capabilities.workspace_folder_change_notifications,
    {
        let mut code_action_kinds: Vec<CodeActionKind> = Vec::new();
        code_action_kinds.push(CodeActionKind::QuickFix);
        Capabilities {
            text_document_sync: TextDocumentSync::Full,
            code_action_kinds,
            workspace_folders: true,
            workspace_folder_change_notifications: true,
        }
    }

    /// The live options.
    pub fn options(&self) -> (options: Options)
        ensures
            options == self@.options,
    {
        self.options
    }

    /// The workspace root, once the session is initialized with one.
    pub fn workspace_root(&self) -> (root: Option<&String>)
        ensures
            match root {
                Some(path) => self@.workspace_root() == Some(path@),
                None => self@.workspace_root() is None,
            },
    {
        match &self.root {
            Some(Some(root)) => Some(root),
            _ => None,
        }
    }

    /// Sets the workspace root, once and for all, and the options, where the
    /// editor gave some. A second call is refused and changes nothing. The
    /// root comes back as the place to search for ignore files, whose
    /// matcher [`Session::ignore_set_built`] takes.
    pub fn initialize(&mut self, root: Option<String>, options: Option<Options>) -> (outcome: Result<
        Option<String>,
        SessionError,
    >)
        ensures
            match outcome {
                Ok(search) => {
                    &&& old(self)@.root is None
                    &&& final(self)@ == old(self)@.initialized(option_view(root), options)
                    &&& option_view(search) == option_view(root)
                },
                Err(error) => {
                    &&& old(self)@.root is Some
                    &&& final(self)@ == old(self)@
                    &&& error == SessionError::AlreadyInitialized
                },
            },
    {
        if self.root.is_some() {
            return Err(SessionError::AlreadyInitialized);
        }
        let search = match &root {
            Some(path) => Some(path.clone()),
            None => None,
        };
        self.root = Some(root);
        if let Some(given) = options {
            self.options = given;
        }
        Ok(search)
    }

    /// Takes the matcher built from the ignore files of the workspace, or
    /// none where it could not be built.
    pub fn ignore_set_built(&mut self, matcher: Option<Gitignore>)
        ensures
            final(self)@ == (SessionView { ignore: matcher, ..old(self)@ }),
    {
        self.ignore = matcher;
    }

    /// Whether the ignore set leaves out the document at `path`.
    pub fn is_ignored(&self, path: &str, is_dir: bool) -> (ignored: bool)
        ensures
            ignored == self@.is_ignored(path@, is_dir),
    {
        match (&self.root, &self.ignore) {
            (Some(Some(root)), Some(matcher)) => {
                let path_chars = chars_of(path);
                let root_chars = chars_of(root.as_str());
                if !has_prefix(&path_chars, &root_chars) {
                    return false;
                }
                match matcher_root(matcher) {
                    Some(matcher_root) => {
                        if !can_ask(path, matcher_root.as_str()) {
                            return false;
                        }
                        matcher_ignores(matcher, path, is_dir)
                    },
                    None => false,
                }
            },
            _ => false,
        }
    }

    /// The lint that an event on `document` asks for, if any.
    fn request(
        &self,
        required: SyntheticRunLevel,
        document: &Document,
        content: Option<String>,
        version: Option<i32>,
    ) -> (request: Option<LintRequest>)
        ensures
            request_view(request) == self@.lint_request(
                required,
                *document,
                option_view(content),
                version,
            ),
    {
        if !self.options.get_lint_level().permits(required) {
            return None;
        }
        if self.is_ignored(document.path.as_str(), document.is_dir) {
            return None;
        }
        match &self.root {
            Some(Some(root)) => Some(
                LintRequest { root: root.clone(), uri: document.uri.clone(), content, version },
            ),
            _ => None,
        }
    }

    /// The editor opened a document. Where the session lints on every edit,
    /// this asks for a lint of what is on disk.
    pub fn document_opened(&self, document: &Document, version: i32) -> (request: Option<
        LintRequest,
    >)
        ensures
            request_view(request) == self@.lint_request(
                SyntheticRunLevel::OnType,
                *document,
                None,
                Some(version),
            ),
    {
        self.request(SyntheticRunLevel::OnType, document, None, Some(version))
    }

    /// The editor changed a document; `changes` are the new contents it
    /// sent, of which the first counts. Where the session lints on every
    /// edit, this asks for a lint of that content.
    pub fn document_changed(&self, document: &Document, changes: &Vec<String>, version: i32) -> (request:
        Option<LintRequest>)
        ensures
            request_view(request) == self@.lint_request(
                SyntheticRunLevel::OnType,
                *document,
                if changes.len() > 0 {
                    Some(changes@[0]@)
                } else {
                    None
                },
                Some(version),
            ),
    {
        let content = if changes.len() > 0 {
            Some(changes[0].clone())
        } else {
            None
        };
        self.request(SyntheticRunLevel::OnType, document, content, Some(version))
    }

    /// The editor saved a document. Unless the session is disabled, this
    /// asks for a lint of what is on disk.
    pub fn document_saved(&self, document: &Document) -> (request: Option<LintRequest>)
        ensures
            request_view(request) == self@.lint_request(
                SyntheticRunLevel::OnSave,
                *document,
                None,
                None,
            ),
    {
        self.request(SyntheticRunLevel::OnSave, document, None, None)
    }

    /// A lint that the session asked for has finished; `reports` is what the
    /// rule engine found, or nothing where it could not lint the document.
    pub fn lint_finished(&mut self, request: LintRequest, reports: Option<Vec<DiagnosticReport>>) -> (publish:
        Option<Publish>)
        ensures
            (final(self)@, publish_view(publish)) == old(self)@.lint_finished(
                request@,
                found_view(reports),
            ),
    {
        match reports {
            Some(found) => {
                let held = match cache_get(&self.cache, request.uri.as_str()) {
                    Some(entry) => entry.version,
                    None => None,
                };
                let version = match (held, request.version) {
                    (Some(held_version), Some(given)) => {
                        if given < held_version {
                            return None;
                        }
                        Some(given)
                    },
                    (_, Some(given)) => Some(given),
                    (_, None) => held,
                };
                let diagnostics = diagnostics_of(&found);
                let key = request.uri.clone();
                cache_insert(&mut self.cache, key, CacheEntry { version, reports: found });
                Some(Publish { uri: request.uri, diagnostics })
            },
            None => None,
        }
    }

    /// The editor changed its configuration. The new options replace the
    /// old. Where they disable the session, the diagnostics of every cached
    /// document are retracted: the publications that come back are one for
    /// each cached document, each without diagnostics. The cache stays as it
    /// is.
    pub fn configuration_changed(&mut self, options: Options) -> (published: Vec<Publish>)
        ensures
            final(self)@ == old(self)@.configuration_changed(options),
            options.spec_lint_level() == SyntheticRunLevel::Disable ==> retracts_all(
                published@,
                old(self)@.cache,
            ),
            options.spec_lint_level() != SyntheticRunLevel::Disable ==> published@.len() == 0,
    {
        let mut published: Vec<Publish> = Vec::new();
        match options.get_lint_level() {
            SyntheticRunLevel::Disable => {
                let mut keys = cache_keys(&self.cache);
                let ghost all = keys@.map_values(|k: String| k@);
                let mut i: usize = 0;
                while i < keys.len()
                    invariant
                        i <= keys.len(),
                        all == keys@.map_values(|k: String| k@),
                        published.len() == i,
                        forall|j: int|
                            0 <= j < i ==> (#[trigger] published@[j]).uri@ == all[j]
                                && published@[j].diagnostics@.len() == 0,
                    decreases keys.len() - i,
                {
                    published.push(Publish { uri: keys[i].clone(), diagnostics: Vec::new() });
                    i += 1;
                }
                assert(published_uris(published@) =~= all);
            },
            _ => {},
        }
        self.options = options;
        published
    }

    /// The editor announced a change of configuration; `pushed` is what it
    /// sent along, where that could be read as options. Options that came
    /// along are put into effect as by [`Session::configuration_changed`];
    /// without them nothing changes and the configuration is to be asked
    /// for.
    pub fn configuration_received(&mut self, pushed: Option<Options>) -> (outcome:
        ConfigurationOutcome)
        ensures
            match (pushed, outcome) {
                (Some(options), ConfigurationOutcome::Applied { published }) => {
                    &&& final(self)@ == old(self)@.configuration_changed(options)
                    &&& options.spec_lint_level() == SyntheticRunLevel::Disable ==> retracts_all(
                        published@,
                        old(self)@.cache,
                    )
                    &&& options.spec_lint_level() != SyntheticRunLevel::Disable
                        ==> published@.len() == 0
                },
                (None, ConfigurationOutcome::Requested) => final(self)@ == old(self)@,
                _ => false,
            },
    {
        match pushed {
            Some(options) => ConfigurationOutcome::Applied {
                published: self.configuration_changed(options),
            },
            None => ConfigurationOutcome::Requested,
        }
    }

    /// The editor answered a request for its configuration; `pulled` is its
    /// answer, where that could be read as options. Options are put into
    /// effect as by [`Session::configuration_changed`]; without them the
    /// change is ignored and the options stay as they were.
    pub fn configuration_fetched(&mut self, pulled: Option<Options>) -> (outcome:
        ConfigurationOutcome)
        ensures
            match (pulled, outcome) {
                (Some(options), ConfigurationOutcome::Applied { published }) => {
                    &&& final(self)@ == old(self)@.configuration_changed(options)
                    &&& options.spec_lint_level() == SyntheticRunLevel::Disable ==> retracts_all(
                        published@,
                        old(self)@.cache,
                    )
                    &&& options.spec_lint_level() != SyntheticRunLevel::Disable
                        ==> published@.len() == 0
                },
                (None, ConfigurationOutcome::Ignored) => final(self)@ == old(self)@,
                _ => false,
            },
    {
        match pulled {
            Some(options) => ConfigurationOutcome::Applied {
                published: self.configuration_changed(options),
            },
            None => ConfigurationOutcome::Ignored,
        }
    }

    /// The editor closed a document: its entry leaves the cache. Nothing is
    /// published.
    pub fn document_closed(&mut self, uri: &str)
        ensures
            final(self)@ == old(self)@.closed(uri@),
    {
        cache_remove(&mut self.cache, uri);
    }

    /// The title of the quick fix for a finding with `message`.
    fn title_for(message: &String) -> (title: String)
        ensures
            title@ == fix_title(message@),
    {
        let chars = chars_of(message.as_str());
        let len = leading_segment_len(&chars, ':');
        if len == chars.len() {
            return String::from_str(GENERIC_FIX_TITLE);
        }
        let segment = message.as_str().substring_char(0, len);
        String::from_str(FIX_TITLE_START).concat(segment).concat(FIX_TITLE_END)
    }

    /// The editor asks for a quick fix at `range` of a document. This reads
    /// the cache and changes nothing: the answer is built from the first
    /// cached report of the document that is about exactly `range` and has a
    /// fix.
    pub fn code_action_requested(&self, uri: &str, range: Range) -> (action: Option<CodeAction>)
        ensures
            action_view(action) == self@.code_action(uri@, range),
    {
        match cache_get(&self.cache, uri) {
            Some(entry) => {
                let ghost reports = reports_view(entry.reports@);
                let mut i: usize = 0;
                while i < entry.reports.len()
                    invariant
                        i <= entry.reports.len(),
                        reports == reports_view(entry.reports@),
                        self@.cache.contains_key(uri@),
                        self@.cache[uri@].reports == reports,
                        forall|j: int| 0 <= j < i ==> !offers_fix(#[trigger] reports[j], range),
                    decreases entry.reports.len() - i,
                {
                    let report = &entry.reports[i];
                    if report.diagnostic.range == range {
                        if let Some(fix) = &report.fixed_content {
                            proof {
                                lemma_first_fix_is_first(uri@, reports, range, i as int);
                            }
                            return Some(
                                CodeAction {
                                    title: Self::title_for(&report.diagnostic.message),
                                    uri: String::from_str(uri),
                                    range: fix.range,
                                    new_text: fix.code.clone(),
                                },
                            );
                        }
                    }
                    i += 1;
                }
                proof {
                    lemma_first_fix_is_first(uri@, reports, range, 0);
                }
                None
            },
            None => None,
        }
    }
}

/// An event that needs a higher level than the session is at asks for no
/// lint, so nothing is published for it. A session that lints on save
/// asks for none when a document is opened or edited, and a disabled
/// session asks for none at all.
pub proof fn lemma_level_gates_lints(
    session: SessionView,
    required: SyntheticRunLevel,
    document: Document,
    content: Option<Seq<char>>,
    version: Option<i32>,
)
    requires
        !session.level().spec_permits(required),
    ensures
        session.lint_request(required, document, content, version) is None,
{
}

/// The level that each kind of options lets through: disabled options let
/// neither a save nor an edit lead to a lint, and options for linting on
/// save let no edit lead to one.
pub proof fn lemma_options_gate_lints(
    session: SessionView,
    document: Document,
    content: Option<Seq<char>>,
    version: Option<i32>,
)
    ensures
        !session.options.enable ==> session.lint_request(
            SyntheticRunLevel::OnSave,
            document,
            content,
            version,
        ) is None,
        !session.options.enable || session.options.run == crate::options::Run::OnSave
            ==> session.lint_request(SyntheticRunLevel::OnType, document, content, version) is None,
{
}

/// Once the editor has disabled the session, no opening, edit or save leads
/// to a lint, so nothing is published for any of them.
pub proof fn lemma_disabled_session_is_silent(
    session: SessionView,
    options: Options,
    required: SyntheticRunLevel,
    document: Document,
    content: Option<Seq<char>>,
    version: Option<i32>,
)
    requires
        !options.enable,
        required != SyntheticRunLevel::Disable,
    ensures
        session.configuration_changed(options).lint_request(required, document, content, version)
            is None,
{
}

/// A session that is not initialized with a root asks for no lint, whatever
/// the event.
pub proof fn lemma_uninitialized_is_silent(
    session: SessionView,
    required: SyntheticRunLevel,
    document: Document,
    content: Option<Seq<char>>,
    version: Option<i32>,
)
    requires
        session.workspace_root() is None,
    ensures
        session.lint_request(required, document, content, version) is None,
        !session.is_ignored(document.path@, document.is_dir),
{
}

/// Closing a document removes its entry: a request for a quick fix in it
/// then gives nothing, whatever the range. Other documents keep theirs.
pub proof fn lemma_closed_document_has_no_fix(
    session: SessionView,
    uri: Seq<char>,
    other: Seq<char>,
    range: Range,
)
    ensures
        !session.closed(uri).cache.contains_key(uri),
        session.closed(uri).code_action(uri, range) is None,
        other != uri ==> session.closed(uri).code_action(other, range) == session.code_action(
            other,
            range,
        ),
{
}

/// The cache entry of a document always belongs to the latest version that
/// was linted: a result for an older version than the cached one changes
/// nothing and is not published, and after any other result the cache holds
/// exactly the reports of that result.
pub proof fn lemma_cache_follows_latest_version(
    session: SessionView,
    request: LintRequestView,
    found: Seq<ReportView>,
)
    ensures
        session.is_stale(request.uri, request.version) ==> session.lint_finished(
            request,
            Some(found),
        ) == (session, None::<PublishView>),
        !session.is_stale(request.uri, request.version) ==> {
            let after = session.lint_finished(request, Some(found));
            &&& after.0.cache.contains_key(request.uri)
            &&& after.0.cache[request.uri].reports == found
            &&& after.1 == Some(
                PublishView { uri: request.uri, diagnostics: report_diagnostics(found) },
            )
        },
        ({
            let after = session.lint_finished(request, Some(found)).0;
            match (session.cached_version(request.uri), after.cached_version(request.uri)) {
                (Some(before), Some(now)) => before <= now,
                (Some(before), None) => false,
                _ => true,
            }
        }),
{
}

/// Documents do not interfere: finished lints of two different documents
/// leave the same session behind in either order, and a finished lint of one
/// document changes no quick fix of another.
pub proof fn lemma_documents_do_not_interfere(
    session: SessionView,
    one: LintRequestView,
    found_one: Option<Seq<ReportView>>,
    other: LintRequestView,
    found_other: Option<Seq<ReportView>>,
    range: Range,
)
    requires
        one.uri != other.uri,
    ensures
        session.lint_finished(one, found_one).0.lint_finished(other, found_other).0
            == session.lint_finished(other, found_other).0.lint_finished(one, found_one).0,
        session.lint_finished(one, found_one).0.code_action(other.uri, range)
            == session.code_action(other.uri, range),
        session.lint_finished(one, found_one).0.lint_finished(other, found_other).1
            == session.lint_finished(other, found_other).1,
{
    let a = session.lint_finished(one, found_one).0;
    let b = session.lint_finished(other, found_other).0;
    assert(a.lint_finished(other, found_other).0.cache =~= b.lint_finished(one, found_one).0.cache);
}

/// The root is set once: no event after `initialize` changes it.
pub proof fn lemma_root_is_set_once(
    session: SessionView,
    options: Options,
    uri: Seq<char>,
    request: LintRequestView,
    reports: Option<Seq<ReportView>>,
)
    ensures
        session.configuration_changed(options).root == session.root,
        session.closed(uri).root == session.root,
        session.lint_finished(request, reports).0.root == session.root,
{
}

/// The quick fix for a range comes from the first report about exactly that
/// range that has a fix, and there is none where no report is such.
pub proof fn lemma_first_fix_is_first(
    uri: Seq<char>,
    reports: Seq<ReportView>,
    range: Range,
    index: int,
)
    ensures
        is_first_fix(reports, range, index) ==> first_fix(uri, reports, range) == Some(
            fix_action(uri, reports[index]),
        ),
        first_fix(uri, reports, range) is None <==> forall|j: int|
            0 <= j < reports.len() ==> !offers_fix(#[trigger] reports[j], range),
{
    if exists|j: int| 0 <= j < reports.len() && offers_fix(#[trigger] reports[j], range) {
        let some = choose|j: int| 0 <= j < reports.len() && offers_fix(#[trigger] reports[j], range);
        lemma_some_fix_is_first(reports, range, some);
    }
}

/// Where some report can serve a request, one of them is the first.
proof fn lemma_some_fix_is_first(reports: Seq<ReportView>, range: Range, some: int)
    requires
        0 <= some < reports.len(),
        offers_fix(reports[some], range),
    ensures
        exists|i: int| is_first_fix(reports, range, i),
    decreases some,
{
    if exists|j: int| 0 <= j < some && offers_fix(#[trigger] reports[j], range) {
        let earlier = choose|j: int| 0 <= j < some && offers_fix(#[trigger] reports[j], range);
        lemma_some_fix_is_first(reports, range, earlier);
    } else {
        assert(is_first_fix(reports, range, some));
    }
}

} // verus!
