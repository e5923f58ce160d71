//! Finding the worker's runtime and entry script.
//!
//! A search is a list of candidate paths tried in order. Probing the file
//! system is the host's work: the search says what to probe next, the host
//! reports what it saw, and the search decides how to go on.

use crate::text::{chars_of, concat};
use vstd::prelude::*;
use vstd::string::*;

verus! {

/// The operating systems that the worker is run on.
#[derive(Debug, Clone, Copy, PartialEq, Eq, Structural)]
pub enum Platform {
    Windows,
    MacOs,
    Linux,
}

impl Platform {
    /// The separator written between the components of a path.
    pub open spec fn separator(self) -> char {
        match self {
            Platform::Windows => '\\',
            _ => '/',
        }
    }

    /// Whether `c` separates path components on this platform.
    pub open spec fn separates(self, c: char) -> bool {
        c == self.separator() || c == '/'
    }

    /// The separator between the entries of an executable search path.
    pub open spec fn list_separator(self) -> char {
        match self {
            Platform::Windows => ';',
            _ => ':',
        }
    }

    /// The separator written between the components of a path.
    pub fn path_separator(&self) -> (c: char)
        ensures
            c == self.separator(),
    {
        match self {
            Platform::Windows => '\\',
            _ => '/',
        }
    }

    /// The separator between the entries of an executable search path.
    pub fn search_path_separator(&self) -> (c: char)
        ensures
            c == self.list_separator(),
    {
        match self {
            Platform::Windows => ';',
            _ => ':',
        }
    }
}

impl Platform {
    /// The name of the environment variable that holds the user's home
    /// directory.
    pub open spec fn home_variable_name(self) -> Seq<char> {
        match self {
            Platform::Windows => "USERPROFILE"@,
            _ => "HOME"@,
        }
    }

    /// The name of the environment variable that holds the user's home
    /// directory.
    pub fn home_variable(&self) -> (out: &'static str)
        ensures
            out@ == self.home_variable_name(),
    {
        match self {
            Platform::Windows => "USERPROFILE",
            _ => "HOME",
        }
    }
}

/// The home directory that the environment names: the value of the home
/// variable, unless it is not set or empty.
pub fn home_directory(value: Option<String>) -> (out: Option<String>)
    ensures
        match value {
            Some(v) => if v@.len() > 0 {
                out == Some(v)
            } else {
                out is None
            },
            None => out is None,
        },
{
    match value {
        Some(v) => {
            if v.as_str().unicode_len() > 0 {
                Some(v)
            } else {
                None
            }
        },
        None => None,
    }
}

/// `rel` resolved against the directory `base`: the two are written one
/// after the other, with a separator between them unless `base` is empty or
/// already ends in one.
pub open spec fn joined(base: Seq<char>, rel: Seq<char>, platform: Platform) -> Seq<char> {
    if base.len() == 0 {
        rel
    } else if platform.separates(base.last()) {
        base + rel
    } else {
        base.push(platform.separator()) + rel
    }
}

/// The path of `rel` inside the directory `base`.
pub fn join_path(base: &str, rel: &str, platform: Platform) -> (out: String)
    ensures
        out@ == joined(base@, rel@, platform),
{
    let b = chars_of(base);
    if b.len() == 0 {
        return rel.to_owned();
    }
    let last = b[b.len() - 1];
    if last == platform.path_separator() || last == '/' {
        concat(base, rel)
    } else {
        let mut out = base.to_owned();
        out.push(platform.path_separator());
        out.append(rel);
        out
    }
}

/// The views of a list of strings.
pub open spec fn texts(v: Seq<String>) -> Seq<Seq<char>> {
    Seq::new(v.len(), |i: int| v[i]@)
}

/// Where a version manager keeps its installations: each installed version
/// is a directory under `base_dir`, and holds the executable at `executable`.
#[derive(Debug, PartialEq, Eq)]
pub struct VersionLayout {
    pub base_dir: String,
    pub executable: String,
}

/// The mathematical form of a [`VersionLayout`].
pub struct LayoutView {
    pub base_dir: Seq<char>,
    pub executable: Seq<char>,
}

impl View for VersionLayout {
    type V = LayoutView;

    open spec fn view(&self) -> LayoutView {
        LayoutView { base_dir: self.base_dir@, executable: self.executable@ }
    }
}

/// The views of a list of layouts.
pub open spec fn layouts_view(v: Seq<VersionLayout>) -> Seq<LayoutView> {
    Seq::new(v.len(), |i: int| v[i]@)
}

/// The executable of the version `version` in `layout`.
pub open spec fn version_candidate(layout: LayoutView, version: Seq<char>, platform: Platform) -> Seq<
    char,
> {
    joined(joined(layout.base_dir, version, platform), layout.executable, platform)
}

/// The executables of `versions` in `layout`, in the order of `versions`.
pub open spec fn version_candidates(
    layout: LayoutView,
    versions: Seq<Seq<char>>,
    platform: Platform,
) -> Seq<Seq<char>> {
    Seq::new(versions.len(), |i: int| version_candidate(layout, versions[i], platform))
}

/// What the host saw when it did what the search asked for.
#[derive(Debug, PartialEq, Eq)]
pub enum Observation {
    /// The command ran, or the file exists.
    Succeeded,
    /// The command did not run, the file does not exist, or the directory
    /// could not be listed.
    Failed,
    /// The entries of the listed directory, in the order of enumeration.
    Entries(Vec<String>),
}

/// The mathematical form of an [`Observation`].
pub enum ObservationView {
    Succeeded,
    Failed,
    Entries(Seq<Seq<char>>),
}

impl View for Observation {
    type V = ObservationView;

    open spec fn view(&self) -> ObservationView {
        match self {
            Observation::Succeeded => ObservationView::Succeeded,
            Observation::Failed => ObservationView::Failed,
            Observation::Entries(e) => ObservationView::Entries(texts(e@)),
        }
    }
}

/// What the search asks the host to do next, or how it ended.
#[derive(Debug, PartialEq, Eq)]
pub enum SearchAction {
    /// Run this command with a version-check argument.
    RunVersionCheck(String),
    /// See whether this file exists.
    ProbeFile(String),
    /// List the entries of this directory.
    ListDirectory(String),
    /// The search is over: this is the path to use.
    Found(String),
    /// The search is over: none of these paths exists.
    NotFound(Vec<String>),
}

/// The mathematical form of a [`SearchAction`].
pub enum SearchActionView {
    RunVersionCheck(Seq<char>),
    ProbeFile(Seq<char>),
    ListDirectory(Seq<char>),
    Found(Seq<char>),
    NotFound(Seq<Seq<char>>),
}

impl View for SearchAction {
    type V = SearchActionView;

    open spec fn view(&self) -> SearchActionView {
        match self {
            SearchAction::RunVersionCheck(c) => SearchActionView::RunVersionCheck(c@),
            SearchAction::ProbeFile(p) => SearchActionView::ProbeFile(p@),
            SearchAction::ListDirectory(d) => SearchActionView::ListDirectory(d@),
            SearchAction::Found(p) => SearchActionView::Found(p@),
            SearchAction::NotFound(c) => SearchActionView::NotFound(texts(c@)),
        }
    }
}

/// The state of a search, as a mathematical value.
pub struct SearchView {
    /// The command still to be checked, if any.
    pub command: Option<Seq<char>>,
    /// The paths still to be probed, in order.
    pub candidates: Seq<Seq<char>>,
    /// The layouts still to be listed, in order.
    pub layouts: Seq<LayoutView>,
    pub platform: Platform,
    /// The paths probed in vain so far.
    pub checked: Seq<Seq<char>>,
    /// The path found, once one is.
    pub found: Option<Seq<char>>,
}

impl SearchView {
    /// What the search asks for in this state.
    pub open spec fn action(self) -> SearchActionView {
        if let Some(p) = self.found {
            SearchActionView::Found(p)
        } else if let Some(c) = self.command {
            SearchActionView::RunVersionCheck(c)
        } else if self.candidates.len() > 0 {
            SearchActionView::ProbeFile(self.candidates[0])
        } else if self.layouts.len() > 0 {
            SearchActionView::ListDirectory(self.layouts[0].base_dir)
        } else {
            SearchActionView::NotFound(self.checked)
        }
    }

    /// Whether the search is over.
    pub open spec fn finished(self) -> bool {
        self.action() is Found || self.action() is NotFound
    }

    /// The state after the host reported `seen` for the action of this state.
    pub open spec fn step(self, seen: ObservationView) -> SearchView {
        match self.action() {
            SearchActionView::Found(_) => self,
            SearchActionView::NotFound(_) => self,
            SearchActionView::RunVersionCheck(c) => if seen is Succeeded {
                SearchView { command: None, found: Some(c), ..self }
            } else {
                SearchView { command: None, ..self }
            },
            SearchActionView::ProbeFile(p) => if seen is Succeeded {
                SearchView { found: Some(p), ..self }
            } else {
                SearchView {
                    candidates: self.candidates.drop_first(),
                    checked: self.checked.push(p),
                    ..self
                }
            },
            SearchActionView::ListDirectory(_) => SearchView {
                candidates: match seen {
                    ObservationView::Entries(versions) => version_candidates(
                        self.layouts[0],
                        versions,
                        self.platform,
                    ),
                    _ => Seq::empty(),
                },
                layouts: self.layouts.drop_first(),
                ..self
            },
        }
    }
}

/// What a host would see: the commands that run, the files that exist, and
/// what each listable directory holds.
pub struct World {
    pub commands: Set<Seq<char>>,
    pub files: Set<Seq<char>>,
    pub directories: Map<Seq<char>, Seq<Seq<char>>>,
}

impl World {
    /// What the host reports for `action`.
    pub open spec fn answer(self, action: SearchActionView) -> ObservationView {
        match action {
            SearchActionView::RunVersionCheck(c) => if self.commands.contains(c) {
                ObservationView::Succeeded
            } else {
                ObservationView::Failed
            },
            SearchActionView::ProbeFile(p) => if self.files.contains(p) {
                ObservationView::Succeeded
            } else {
                ObservationView::Failed
            },
            SearchActionView::ListDirectory(d) => if self.directories.dom().contains(d) {
                ObservationView::Entries(self.directories[d])
            } else {
                ObservationView::Failed
            },
            _ => ObservationView::Failed,
        }
    }

    /// The first existing path among `candidates`, then among the versions
    /// of each of `layouts` in turn.
    pub open spec fn first_existing(
        self,
        candidates: Seq<Seq<char>>,
        layouts: Seq<LayoutView>,
        platform: Platform,
    ) -> Option<Seq<char>>
        decreases layouts.len(), candidates.len(),
    {
        if candidates.len() > 0 {
            if self.files.contains(candidates[0]) {
                Some(candidates[0])
            } else {
                self.first_existing(candidates.drop_first(), layouts, platform)
            }
        } else if layouts.len() > 0 {
            let versions = if self.directories.dom().contains(layouts[0].base_dir) {
                self.directories[layouts[0].base_dir]
            } else {
                Seq::empty()
            };
            self.first_existing(
                version_candidates(layouts[0], versions, platform),
                layouts.drop_first(),
                platform,
            )
        } else {
            None
        }
    }

    /// What a search in state `search` finds in this world: the path
    /// already found; else the command if it runs; else the first existing
    /// path.
    pub open spec fn located(self, search: SearchView) -> Option<Seq<char>> {
        if search.found is Some {
            search.found
        } else if search.command is Some && self.commands.contains(search.command->0) {
            search.command
        } else {
            self.first_existing(search.candidates, search.layouts, search.platform)
        }
    }
}

/// A step changes nothing in what the search will find: whatever state a
/// search is in, doing what it asks and reporting what the world shows
/// leads to a state with the same result.
pub proof fn law_step_keeps_result(search: SearchView, world: World)
    ensures
        world.located(search.step(world.answer(search.action()))) == world.located(search),
{
    match search.action() {
        SearchActionView::ListDirectory(_) => {
            if !world.directories.dom().contains(search.layouts[0].base_dir) {
                assert(version_candidates(search.layouts[0], Seq::empty(), search.platform)
                    =~= Seq::<Seq<char>>::empty());
            }
        },
        _ => {},
    }
}

/// A search that is over reports what there was to find: the path that the
/// world leads to, or that there is none once every candidate is used up.
pub proof fn law_finished_search_is_right(search: SearchView, world: World)
    requires
        search.finished(),
    ensures
        search.action() matches SearchActionView::Found(p) ==> world.located(search) == Some(p),
        search.action() is NotFound ==> world.located(search) is None,
{
}

/// How much of a search is left: one for a command still to be checked,
/// one for each candidate and each layout. The layouts come first: listing
/// one may bring any number of candidates.
pub open spec fn work_left(search: SearchView) -> (nat, nat) {
    (
        search.layouts.len(),
        search.candidates.len() + if search.command is Some {
            1nat
        } else {
            0nat
        },
    )
}

/// Every step of a search that is not over uses up some of the work left,
/// so every search ends.
pub proof fn law_search_ends(search: SearchView, seen: ObservationView)
    requires
        !search.finished(),
    ensures
        search.step(seen).finished() || work_left(search.step(seen)).0 < work_left(search).0 || (
        work_left(search.step(seen)).0 == work_left(search).0 && work_left(search.step(seen)).1
            < work_left(search).1),
{
}

/// A search over a fixed list of candidates loses none of them: the
/// paths checked in vain and the paths still to be probed are, together
/// and in order, what they were before the step, as long as nothing is
/// found. So a search that ends without a path reports every candidate.
pub proof fn law_checked_paths_are_kept(search: SearchView, seen: ObservationView)
    requires
        search.layouts.len() == 0,
        search.command is None,
    ensures
        search.step(seen).found is None ==> search.step(seen).checked + search.step(
            seen,
        ).candidates == search.checked + search.candidates,
        search.step(seen).layouts.len() == 0,
        search.step(seen).command is None,
{
    let next = search.step(seen);
    if next.found is None {
        assert(next.checked + next.candidates =~= search.checked + search.candidates);
    }
}

/// The view of an optional string.
pub open spec fn opt_text(s: Option<String>) -> Option<Seq<char>> {
    match s {
        Some(t) => Some(t@),
        None => None,
    }
}

/// A copy of a list of strings.
pub fn clone_texts(v: &Vec<String>) -> (out: Vec<String>)
    ensures
        texts(out@) == texts(v@),
{
    let mut out: Vec<String> = Vec::new();
    let mut i: usize = 0;
    while i < v.len()
        invariant
            i <= v.len(),
            out.len() == i,
            forall|j: int| 0 <= j < i ==> out@[j]@ == v@[j]@,
        decreases v.len() - i,
    {
        out.push(v[i].clone());
        i += 1;
    }
    assert(texts(out@) =~= texts(v@));
    out
}

/// A search in progress.
#[derive(Debug, PartialEq, Eq)]
pub struct PathSearch {
    command: Option<String>,
    pending: Vec<String>,
    cursor: usize,
    layouts: Vec<VersionLayout>,
    next_layout: usize,
    platform: Platform,
    checked: Vec<String>,
    found: Option<String>,
}

impl View for PathSearch {
    type V = SearchView;

    closed spec fn view(&self) -> SearchView {
        SearchView {
            command: opt_text(self.command),
            candidates: if self.cursor <= self.pending.len() {
                texts(self.pending@).skip(self.cursor as int)
            } else {
                Seq::empty()
            },
            layouts: if self.next_layout <= self.layouts.len() {
                layouts_view(self.layouts@).skip(self.next_layout as int)
            } else {
                Seq::empty()
            },
            platform: self.platform,
            checked: texts(self.checked@),
            found: opt_text(self.found),
        }
    }
}

impl PathSearch {
    /// A search that first checks `command`, if there is one, then probes
    /// `candidates` in order, then the versions found under each of `layouts`.
    pub fn new(
        command: Option<String>,
        candidates: Vec<String>,
        layouts: Vec<VersionLayout>,
        platform: Platform,
    ) -> (out: PathSearch)
        ensures
            out@ == (SearchView {
                command: opt_text(command),
                candidates: texts(candidates@),
                layouts: layouts_view(layouts@),
                platform,
                checked: Seq::empty(),
                found: None,
            }),
    {
        let out = PathSearch {
            command,
            pending: candidates,
            cursor: 0,
            layouts,
            next_layout: 0,
            platform,
            checked: Vec::new(),
            found: None,
        };
        assert(out@.candidates =~= texts(candidates@));
        assert(out@.layouts =~= layouts_view(layouts@));
        assert(out@.checked =~= Seq::empty());
        out
    }

    /// What the host is to do next, or how the search ended.
    pub fn action(&self) -> (out: SearchAction)
        ensures
            out@ == self@.action(),
    {
        if let Some(p) = &self.found {
            SearchAction::Found(p.clone())
        } else if let Some(c) = &self.command {
            SearchAction::RunVersionCheck(c.clone())
        } else if self.cursor < self.pending.len() {
            SearchAction::ProbeFile(self.pending[self.cursor].clone())
        } else if self.next_layout < self.layouts.len() {
            SearchAction::ListDirectory(self.layouts[self.next_layout].base_dir.clone())
        } else {
            SearchAction::NotFound(clone_texts(&self.checked))
        }
    }

    /// Takes in what the host saw when it did what [`PathSearch::action`]
    /// asked for. Once the search is over nothing changes any more.
    pub fn observe(&mut self, seen: Observation)
        ensures
            final(self)@ == old(self)@.step(seen@),
    {
        if self.found.is_some() {
            return ;
        }
        if self.command.is_some() {
            let command = self.command.take();
            if let Observation::Succeeded = seen {
                self.found = command;
            }
            return ;
        }
        if self.cursor < self.pending.len() {
            if let Observation::Succeeded = seen {
                self.found = Some(self.pending[self.cursor].clone());
            } else {
                self.checked.push(self.pending[self.cursor].clone());
                self.cursor += 1;
                assert(final(self)@.candidates =~= old(self)@.candidates.drop_first());
                assert(final(self)@.checked =~= old(self)@.checked.push(
                    old(self)@.candidates[0],
                ));
            }
            return ;
        }
        if self.next_layout < self.layouts.len() {
            let mut fresh: Vec<String> = Vec::new();
            if let Observation::Entries(versions) = seen {
                let mut i: usize = 0;
                while i < versions.len()
                    invariant
                        i <= versions.len(),
                        fresh.len() == i,
                        self.next_layout < self.layouts.len(),
                        forall|j: int|
                            0 <= j < i ==> fresh@[j]@ == version_candidate(
                                self.layouts@[self.next_layout as int]@,
                                versions@[j]@,
                                self.platform,
                            ),
                    decreases versions.len() - i,
                {
                    let layout = &self.layouts[self.next_layout];
                    let dir = join_path(
                        layout.base_dir.as_str(),
                        versions[i].as_str(),
                        self.platform,
                    );
                    fresh.push(join_path(dir.as_str(), layout.executable.as_str(), self.platform));
                    i += 1;
                }
                assert(texts(fresh@) =~= version_candidates(
                    self.layouts@[self.next_layout as int]@,
                    texts(versions@),
                    self.platform,
                ));
            } else {
                assert(texts(fresh@) =~= Seq::empty());
            }
            self.pending = fresh;
            self.cursor = 0;
            self.next_layout += 1;
            assert(final(self)@.candidates =~= texts(fresh@));
            assert(final(self)@.layouts =~= old(self)@.layouts.drop_first());
            return ;
        }
    }
}

/// The runtime's command name.
pub open spec fn runtime_command_name() -> Seq<char> {
    "node"@
}

/// Where the runtime is installed by default, in the order of probing.
pub open spec fn standard_runtime_paths(platform: Platform) -> Seq<Seq<char>> {
    match platform {
        Platform::Windows => seq![
            "C:\\Program Files\\nodejs\\node.exe"@,
            "C:\\Program Files (x86)\\nodejs\\node.exe"@,
        ],
        Platform::MacOs => seq![
            "/opt/homebrew/bin/node"@,
            "/usr/local/bin/node"@,
            "/usr/bin/node"@,
        ],
        Platform::Linux => seq!["/usr/bin/node"@, "/usr/local/bin/node"@, "/snap/bin/node"@],
    }
}

/// The directories added to the worker's executable search path, so that
/// the worker finds the command-line tools it runs.
pub open spec fn tool_directories(platform: Platform) -> Seq<Seq<char>> {
    match platform {
        Platform::Windows => seq![
            "C:\\Program Files\\nodejs"@,
            "C:\\Program Files\\Microsoft SDKs\\Azure\\CLI2\\wbin"@,
        ],
        Platform::MacOs => seq!["/opt/homebrew/bin"@, "/usr/local/bin"@, "/usr/bin"@, "/bin"@],
        Platform::Linux => seq!["/usr/local/bin"@, "/usr/bin"@, "/bin"@],
    }
}

/// The version-manager layouts under the home directory `home`, in the
/// order of probing.
pub open spec fn version_layouts_under(platform: Platform, home: Seq<char>) -> Seq<LayoutView> {
    match platform {
        Platform::Windows => seq![
            LayoutView {
                base_dir: joined(home, "AppData\\Roaming\\nvm"@, platform),
                executable: "node.exe"@,
            },
            LayoutView {
                base_dir: joined(home, "AppData\\Roaming\\fnm\\node-versions"@, platform),
                executable: "installation\\node.exe"@,
            },
            LayoutView {
                base_dir: joined(home, "AppData\\Local\\Volta\\tools\\image\\node"@, platform),
                executable: "node.exe"@,
            },
        ],
        _ => seq![
            LayoutView {
                base_dir: joined(home, ".nvm/versions/node"@, platform),
                executable: "bin/node"@,
            },
            LayoutView {
                base_dir: joined(home, ".fnm/node-versions"@, platform),
                executable: "installation/bin/node"@,
            },
            LayoutView {
                base_dir: joined(home, ".volta/tools/image/node"@, platform),
                executable: "bin/node"@,
            },
            LayoutView {
                base_dir: joined(home, ".asdf/installs/nodejs"@, platform),
                executable: "bin/node"@,
            },
        ],
    }
}

/// The directory that holds bundled resources, relative to the directory
/// of the executable, on a platform that keeps the two apart.
pub open spec fn resource_directory(platform: Platform) -> Option<Seq<char>> {
    match platform {
        Platform::MacOs => Some("../Resources"@),
        _ => None,
    }
}

/// Everything about the worker's runtime that depends on the platform.
#[derive(Debug, PartialEq, Eq)]
pub struct PlatformProfile {
    pub platform: Platform,
    /// The command to try on the inherited search path.
    pub runtime_command: String,
    /// Default installation paths of the runtime.
    pub standard_paths: Vec<String>,
    /// Version-manager layouts that may hold a runtime.
    pub version_layouts: Vec<VersionLayout>,
    /// Directories appended to the worker's executable search path.
    pub tool_dirs: Vec<String>,
    /// Where bundled resources are, relative to the executable's directory.
    pub resource_dir: Option<String>,
    /// Whether the worker is spawned without a console window of its own.
    pub hide_console_window: bool,
}

fn layout(home: &str, base: &str, executable: &str, platform: Platform) -> (out: VersionLayout)
    ensures
        out@ == (LayoutView {
            base_dir: joined(home@, base@, platform),
            executable: executable@,
        }),
{
    VersionLayout { base_dir: join_path(home, base, platform), executable: executable.to_owned() }
}

impl PlatformProfile {
    /// The profile of `platform`. Version managers install under the
    /// user's home directory: without one no layout is probed. Only an
    /// optimized build on Windows hides the worker's console window.
    pub fn for_platform(platform: Platform, home_dir: Option<&str>, optimized: bool) -> (out:
        PlatformProfile)
        ensures
            out.platform == platform,
            out.runtime_command@ == runtime_command_name(),
            texts(out.standard_paths@) == standard_runtime_paths(platform),
            layouts_view(out.version_layouts@) == match home_dir {
                Some(home) => version_layouts_under(platform, home@),
                None => Seq::empty(),
            },
            texts(out.tool_dirs@) == tool_directories(platform),
            opt_text(out.resource_dir) == resource_directory(platform),
            out.hide_console_window == (platform == Platform::Windows && optimized),
    {
        let mut standard_paths: Vec<String> = Vec::new();
        let mut tool_dirs: Vec<String> = Vec::new();
        let mut version_layouts: Vec<VersionLayout> = Vec::new();
        let mut resource_dir: Option<String> = None;
        match platform {
            Platform::Windows => {
                standard_paths.push("C:\\Program Files\\nodejs\\node.exe".to_owned());
                standard_paths.push("C:\\Program Files (x86)\\nodejs\\node.exe".to_owned());
                tool_dirs.push("C:\\Program Files\\nodejs".to_owned());
                tool_dirs.push("C:\\Program Files\\Microsoft SDKs\\Azure\\CLI2\\wbin".to_owned());
                if let Some(home) = home_dir {
                    version_layouts.push(layout(home, "AppData\\Roaming\\nvm", "node.exe", platform));
                    version_layouts.push(
                        layout(
                            home,
                            "AppData\\Roaming\\fnm\\node-versions",
                            "installation\\node.exe",
                            platform,
                        ),
                    );
                    version_layouts.push(
                        layout(home, "AppData\\Local\\Volta\\tools\\image\\node", "node.exe", platform),
                    );
                }
            },
            Platform::MacOs => {
                standard_paths.push("/opt/homebrew/bin/node".to_owned());
                standard_paths.push("/usr/local/bin/node".to_owned());
                standard_paths.push("/usr/bin/node".to_owned());
                tool_dirs.push("/opt/homebrew/bin".to_owned());
                tool_dirs.push("/usr/local/bin".to_owned());
                tool_dirs.push("/usr/bin".to_owned());
                tool_dirs.push("/bin".to_owned());
                resource_dir = Some("../Resources".to_owned());
            },
            Platform::Linux => {
                standard_paths.push("/usr/bin/node".to_owned());
                standard_paths.push("/usr/local/bin/node".to_owned());
                standard_paths.push("/snap/bin/node".to_owned());
                tool_dirs.push("/usr/local/bin".to_owned());
                tool_dirs.push("/usr/bin".to_owned());
                tool_dirs.push("/bin".to_owned());
            },
        }
        if !matches!(platform, Platform::Windows) {
            if let Some(home) = home_dir {
                version_layouts.push(layout(home, ".nvm/versions/node", "bin/node", platform));
                version_layouts.push(
                    layout(home, ".fnm/node-versions", "installation/bin/node", platform),
                );
                version_layouts.push(layout(home, ".volta/tools/image/node", "bin/node", platform));
                version_layouts.push(layout(home, ".asdf/installs/nodejs", "bin/node", platform));
            }
        }
        assert(texts(standard_paths@) =~= standard_runtime_paths(platform));
        assert(texts(tool_dirs@) =~= tool_directories(platform));
        assert(layouts_view(version_layouts@) =~= match home_dir {
            Some(home) => version_layouts_under(platform, home@),
            None => Seq::empty(),
        });
        PlatformProfile {
            platform,
            runtime_command: "node".to_owned(),
            standard_paths,
            version_layouts,
            tool_dirs,
            resource_dir,
            hide_console_window: matches!(platform, Platform::Windows) && optimized,
        }
    }
}

/// The search for the worker's runtime: the command on the inherited
/// search path first, then the default installation paths, then the
/// versions that each version manager holds.
pub open spec fn runtime_search(profile: PlatformProfile) -> SearchView {
    SearchView {
        command: Some(profile.runtime_command@),
        candidates: texts(profile.standard_paths@),
        layouts: layouts_view(profile.version_layouts@),
        platform: profile.platform,
        checked: Seq::empty(),
        found: None,
    }
}

/// Starts the search for the worker's runtime.
pub fn find_runtime(profile: &PlatformProfile) -> (out: PathSearch)
    ensures
        out@ == runtime_search(*profile),
{
    let mut layouts: Vec<VersionLayout> = Vec::new();
    let mut i: usize = 0;
    while i < profile.version_layouts.len()
        invariant
            i <= profile.version_layouts.len(),
            layouts.len() == i,
            forall|j: int| 0 <= j < i ==> layouts@[j]@ == profile.version_layouts@[j]@,
        decreases profile.version_layouts.len() - i,
    {
        let l = &profile.version_layouts[i];
        layouts.push(VersionLayout { base_dir: l.base_dir.clone(), executable: l.executable.clone() });
        i += 1;
    }
    assert(layouts_view(layouts@) =~= layouts_view(profile.version_layouts@));
    PathSearch::new(
        Some(profile.runtime_command.clone()),
        clone_texts(&profile.standard_paths),
        layouts,
        profile.platform,
    )
}

/// A runtime that runs from the inherited search path is used by its bare
/// name, whatever is installed elsewhere.
pub proof fn law_runtime_on_search_path_is_used(profile: PlatformProfile, world: World)
    requires
        world.commands.contains(profile.runtime_command@),
    ensures
        world.located(runtime_search(profile)) == Some(profile.runtime_command@),
{
}

/// The entry script of a packaged application is preferred to one in a
/// development tree: where a packaged candidate exists, the search finds
/// the first such.
pub proof fn law_packaged_script_is_preferred(
    profile: PlatformProfile,
    exe_dir: Seq<char>,
    ancestors: Seq<Seq<char>>,
    world: World,
)
    requires
        world.files.contains(script_in(exe_dir, profile.platform)),
    ensures
        world.located(script_search(profile, exe_dir, ancestors)) == match opt_text(
            profile.resource_dir,
        ) {
            Some(r) => if world.files.contains(
                script_in(joined(exe_dir, r, profile.platform), profile.platform),
            ) {
                Some(script_in(joined(exe_dir, r, profile.platform), profile.platform))
            } else {
                Some(script_in(exe_dir, profile.platform))
            },
            None => Some(script_in(exe_dir, profile.platform)),
        },
{
    let search = script_search(profile, exe_dir, ancestors);
    let candidates = search.candidates;
    let platform = profile.platform;
    reveal_with_fuel(World::first_existing, 3);
    match opt_text(profile.resource_dir) {
        Some(r) => {
            let bundled = script_in(joined(exe_dir, r, platform), platform);
            assert(candidates[0] == bundled);
            assert(candidates.drop_first()[0] == script_in(exe_dir, platform));
        },
        None => {
            assert(candidates[0] == script_in(exe_dir, platform));
        },
    }
}

/// The worker's entry script inside the directory `dir`.
pub open spec fn script_in(dir: Seq<char>, platform: Platform) -> Seq<char> {
    joined(joined(joined(dir, "sidecar"@, platform), "dist"@, platform), "index.js"@, platform)
}

/// The worker's entry script inside the directory `dir`.
pub fn script_path_in(dir: &str, platform: Platform) -> (out: String)
    ensures
        out@ == script_in(dir@, platform),
{
    let a = join_path(dir, "sidecar", platform);
    let b = join_path(a.as_str(), "dist", platform);
    join_path(b.as_str(), "index.js", platform)
}

/// Where a packaged application holds the entry script, in the order of
/// probing: among the bundled resources where the platform keeps them
/// apart, then beside the executable.
pub open spec fn packaged_candidates(
    exe_dir: Seq<char>,
    resource_dir: Option<Seq<char>>,
    platform: Platform,
) -> Seq<Seq<char>> {
    match resource_dir {
        Some(r) => seq![
            script_in(joined(exe_dir, r, platform), platform),
            script_in(exe_dir, platform),
        ],
        None => seq![script_in(exe_dir, platform)],
    }
}

/// Where the entry script is looked for, in order: where a packaged
/// application holds it, then in each of `ancestors`.
pub open spec fn script_candidates(
    exe_dir: Seq<char>,
    resource_dir: Option<Seq<char>>,
    ancestors: Seq<Seq<char>>,
    platform: Platform,
) -> Seq<Seq<char>> {
    packaged_candidates(exe_dir, resource_dir, platform) + Seq::new(
        ancestors.len(),
        |i: int| script_in(ancestors[i], platform),
    )
}

/// The search for the worker's entry script.
pub open spec fn script_search(
    profile: PlatformProfile,
    exe_dir: Seq<char>,
    ancestors: Seq<Seq<char>>,
) -> SearchView {
    SearchView {
        command: None,
        candidates: script_candidates(
            exe_dir,
            opt_text(profile.resource_dir),
            ancestors,
            profile.platform,
        ),
        layouts: Seq::empty(),
        platform: profile.platform,
        checked: Seq::empty(),
        found: None,
    }
}

/// Starts the search for the worker's entry script. `exe_dir` is the
/// directory of the running executable, `ancestors` the directories to fall
/// back on in a development tree, nearest first.
pub fn find_script(profile: &PlatformProfile, exe_dir: &str, ancestors: &Vec<String>) -> (out:
    PathSearch)
    ensures
        out@ == script_search(*profile, exe_dir@, texts(ancestors@)),
{
    let platform = profile.platform;
    let mut candidates: Vec<String> = Vec::new();
    if let Some(r) = &profile.resource_dir {
        let resources = join_path(exe_dir, r.as_str(), platform);
        candidates.push(script_path_in(resources.as_str(), platform));
    }
    candidates.push(script_path_in(exe_dir, platform));
    let ghost packaged = packaged_candidates(exe_dir@, opt_text(profile.resource_dir), platform);
    assert(texts(candidates@) =~= packaged);
    let fixed = candidates.len();
    let mut i: usize = 0;
    while i < ancestors.len()
        invariant
            i <= ancestors.len(),
            fixed == packaged.len() <= 2,
            candidates.len() == fixed + i,
            forall|j: int| 0 <= j < fixed ==> candidates@[j]@ == packaged[j],
            forall|j: int|
                0 <= j < i ==> candidates@[fixed + j]@ == script_in(ancestors@[j]@, platform),
        decreases ancestors.len() - i,
    {
        candidates.push(script_path_in(ancestors[i].as_str(), platform));
        i += 1;
    }
    assert(texts(candidates@) =~= script_candidates(
        exe_dir@,
        opt_text(profile.resource_dir),
        texts(ancestors@),
        platform,
    ));
    let ghost all = layouts_view(Seq::<VersionLayout>::empty());
    assert(all =~= Seq::<LayoutView>::empty());
    PathSearch::new(None, candidates, Vec::new(), platform)
}

} // verus!
