use vstd::prelude::*;
use crate::text::chars_of;
use crate::text::push_text;
use crate::text::texts;

verus! {

/// The directory of this application under a configuration or data home.
pub const APPLICATION_DIR: &'static str = "bydit";

/// The credentials of the account and of the registered application.
#[derive(Clone, Debug)]
pub struct Config {
    pub user_agent: String,
    pub client_id: String,
    pub client_secret: String,
    pub username: String,
    pub password: String,
}

/// The directories of the environment that the search for a configuration
/// file starts from. Paths are texts with `/` between their components.
#[derive(Clone, Debug)]
pub struct EnvironmentPaths {
    pub xdg_config_home: Option<String>,
    pub xdg_data_home: Option<String>,
    pub home_dir: Option<String>,
    pub current_dir: Option<String>,
}

/// Whether a path starts at the root.
pub open spec fn is_absolute(path: Seq<char>) -> bool {
    path.len() > 0 && path[0] == '/'
}

/// The path `segment` taken from `base`: an absolute segment stands for
/// itself; otherwise it follows the base, with a `/` between the two unless
/// the base is empty or ends in one.
pub open spec fn joined(base: Seq<char>, segment: Seq<char>) -> Seq<char> {
    if is_absolute(segment) {
        segment
    } else if base.len() == 0 || base.last() == '/' {
        base + segment
    } else {
        base + seq!['/'] + segment
    }
}

/// Whether a path starts at the root.
pub fn path_is_absolute(path: &str) -> (r: bool)
    ensures
        r == is_absolute(path@),
{
    let chars = chars_of(path);
    chars.len() > 0 && chars[0] == '/'
}

/// Joins a path segment to a base path.
pub fn join_path(base: &str, segment: &str) -> (out: String)
    ensures
        out@ == joined(base@, segment@),
{
    let mut out = String::new();
    if path_is_absolute(segment) {
        push_text(&mut out, segment);
        return out;
    }
    let chars = chars_of(base);
    push_text(&mut out, base);
    if chars.len() > 0 && chars[chars.len() - 1] != '/' {
        push_text(&mut out, "/");
        proof {
            reveal_strlit("/");
            assert("/"@ == seq!['/']);
        }
    }
    push_text(&mut out, segment);
    out
}

/// The candidate under the configuration home: `$XDG_CONFIG_HOME/bydit`, or
/// `$HOME/.config/bydit` where no configuration home is set.
pub open spec fn config_home_candidate(filename: Seq<char>, env: EnvironmentPaths) -> Option<
    Seq<char>,
> {
    match (env.xdg_config_home, env.home_dir) {
        (Some(config_home), _) => Some(joined(joined(config_home@, APPLICATION_DIR@), filename)),
        (None, Some(home)) => Some(
            joined(joined(joined(home@, ".config"@), APPLICATION_DIR@), filename),
        ),
        (None, None) => None,
    }
}

/// The candidate under the data home: `$XDG_DATA_HOME/bydit`, or
/// `$HOME/.local/share/bydit` where no data home is set.
pub open spec fn data_home_candidate(filename: Seq<char>, env: EnvironmentPaths) -> Option<
    Seq<char>,
> {
    match (env.xdg_data_home, env.home_dir) {
        (Some(data_home), _) => Some(joined(joined(data_home@, APPLICATION_DIR@), filename)),
        (None, Some(home)) => Some(
            joined(
                joined(joined(joined(home@, ".local"@), "share"@), APPLICATION_DIR@),
                filename,
            ),
        ),
        (None, None) => None,
    }
}

/// A sequence of at most one element.
pub open spec fn optional(path: Option<Seq<char>>) -> Seq<Seq<char>> {
    match path {
        Some(p) => seq![p],
        None => Seq::empty(),
    }
}

/// The paths at which a configuration file is looked for, in order: an
/// absolute name only at itself; a relative one in the current directory
/// (`.` where it is unknown), then under the configuration home, then under
/// the data home.
pub open spec fn candidate_paths(filename: Seq<char>, env: EnvironmentPaths) -> Seq<Seq<char>> {
    if is_absolute(filename) {
        seq![filename]
    } else {
        seq![
            joined(
                match env.current_dir {
                    Some(dir) => dir@,
                    None => "."@,
                },
                filename,
            ),
        ] + optional(config_home_candidate(filename, env)) + optional(
            data_home_candidate(filename, env),
        )
    }
}

/// Lists the paths at which the configuration file `filename` is looked for.
pub fn candidate_paths_with_env(filename: &str, env_paths: &EnvironmentPaths) -> (paths: Vec<
    String,
>)
    ensures
        texts(paths@) == candidate_paths(filename@, *env_paths),
        paths@.len() >= 1,
{
    let mut paths: Vec<String> = Vec::new();
    if path_is_absolute(filename) {
        paths.push(filename.to_owned());
        assert(texts(paths@) == seq![filename@]);
        return paths;
    }
    let first = match &env_paths.current_dir {
        Some(dir) => join_path(dir.as_str(), filename),
        None => join_path(".", filename),
    };
    paths.push(first);
    assert(texts(paths@) == seq![first@]);
    let ghost so_far = texts(paths@);
    match (&env_paths.xdg_config_home, &env_paths.home_dir) {
        (Some(config_home), _) => {
            let dir = join_path(config_home.as_str(), APPLICATION_DIR);
            let path = join_path(dir.as_str(), filename);
            paths.push(path);
            assert(texts(paths@) == so_far.push(path@));
        },
        (None, Some(home)) => {
            let dot_config = join_path(home.as_str(), ".config");
            let dir = join_path(dot_config.as_str(), APPLICATION_DIR);
            let path = join_path(dir.as_str(), filename);
            paths.push(path);
            assert(texts(paths@) == so_far.push(path@));
        },
        (None, None) => {},
    }
    assert(texts(paths@) == so_far + optional(config_home_candidate(filename@, *env_paths)));
    let ghost so_far = texts(paths@);
    match (&env_paths.xdg_data_home, &env_paths.home_dir) {
        (Some(data_home), _) => {
            let dir = join_path(data_home.as_str(), APPLICATION_DIR);
            let path = join_path(dir.as_str(), filename);
            paths.push(path);
            assert(texts(paths@) == so_far.push(path@));
        },
        (None, Some(home)) => {
            let dot_local = join_path(home.as_str(), ".local");
            let share = join_path(dot_local.as_str(), "share");
            let dir = join_path(share.as_str(), APPLICATION_DIR);
            let path = join_path(dir.as_str(), filename);
            paths.push(path);
            assert(texts(paths@) == so_far.push(path@));
        },
        (None, None) => {},
    }
    assert(texts(paths@) == so_far + optional(data_home_candidate(filename@, *env_paths)));
    paths
}

/// The paths separated by a comma and a space.
pub open spec fn comma_separated(paths: Seq<Seq<char>>) -> Seq<char>
    decreases paths.len(),
{
    if paths.len() == 0 {
        Seq::empty()
    } else if paths.len() == 1 {
        paths[0]
    } else {
        comma_separated(paths.drop_last()) + ", "@ + paths.last()
    }
}

/// How a list of paths reads in a message: `none` for an empty list,
/// otherwise the paths separated by a comma and a space.
pub open spec fn formatted_paths(paths: Seq<Seq<char>>) -> Seq<char> {
    if paths.len() == 0 {
        "none"@
    } else {
        comma_separated(paths)
    }
}

/// Renders a list of paths for a message.
pub fn format_paths(paths: &Vec<String>) -> (out: String)
    ensures
        out@ == formatted_paths(texts(paths@)),
{
    if paths.len() == 0 {
        return "none".to_owned();
    }
    let mut out = String::new();
    push_text(&mut out, paths[0].as_str());
    let mut i: usize = 1;
    assert(texts(paths@).take(1) == seq![paths@[0]@]);
    while i < paths.len()
        invariant
            1 <= i <= paths.len(),
            out@ == comma_separated(texts(paths@).take(i as int)),
        decreases paths.len() - i,
    {
        let ghost upto = texts(paths@).take(i + 1);
        assert(upto.drop_last() == texts(paths@).take(i as int));
        assert(upto.last() == paths@[i as int]@);
        push_text(&mut out, ", ");
        push_text(&mut out, paths[i].as_str());
        i += 1;
    }
    assert(texts(paths@).take(paths.len() as int) == texts(paths@));
    out
}

/// What reading one candidate path gave.
#[derive(Debug)]
pub enum ReadOutcome {
    /// The file was read.
    Contents { text: String },
    /// There is no file at the path.
    NotFound,
    /// The file is there but could not be read.
    Failed { detail: String },
}

/// Why no configuration was loaded.
#[derive(Debug)]
pub enum ConfigError {
    /// No candidate path holds a file.
    NotFound { message: String },
    /// A candidate could not be read.
    ReadFailed { message: String },
    /// The file that was found does not hold a configuration.
    Invalid { message: String },
}

/// What the caller of a configuration search is to do next.
#[derive(Debug)]
pub enum ConfigAction {
    /// Read the file at `path` and hand back what that gave.
    Read { path: String },
    /// The search ends at `path`: decode `contents` as the configuration.
    Parse { path: String, contents: String },
    /// The search ends without a configuration.
    Fail { error: ConfigError },
    /// The search was over already; nothing changed.
    Rejected,
}

/// A search for the configuration file in progress.
#[derive(Debug)]
pub struct ConfigSearch {
    /// The name that was asked for.
    pub filename: String,
    /// The paths to try, in order.
    pub candidates: Vec<String>,
    /// Index of the candidate whose read is outstanding; the number of
    /// candidates once the search is over.
    pub next: usize,
}

/// The message for a file that is at none of the candidate paths.
pub open spec fn not_found_message(filename: Seq<char>, searched: Seq<Seq<char>>) -> Seq<char> {
    "Failed to locate config file '"@ + filename + "'. Checked paths: "@ + formatted_paths(
        searched,
    )
}

/// The message for a candidate that could not be read.
pub open spec fn read_failure_message(path: Seq<char>, detail: Seq<char>) -> Seq<char> {
    "Failed to read config file '"@ + path + "': "@ + detail
}

/// The message for a file that does not hold a configuration.
pub open spec fn parse_failure_message(path: Seq<char>, detail: Seq<char>) -> Seq<char> {
    "Failed to parse config file '"@ + path + "': "@ + detail
}

/// The error for a file at `origin` that could not be decoded, `detail`
/// being what the decoder reported.
pub fn parse_failure(origin: &str, detail: &str) -> (error: ConfigError)
    ensures
        error matches ConfigError::Invalid { message } && message@ == parse_failure_message(
            origin@,
            detail@,
        ),
{
    let mut message = String::new();
    push_text(&mut message, "Failed to parse config file '");
    push_text(&mut message, origin);
    push_text(&mut message, "': ");
    push_text(&mut message, detail);
    ConfigError::Invalid { message }
}

impl ConfigSearch {
    /// The action "read the candidate at index `next`".
    pub open spec fn reads_next(&self, action: ConfigAction) -> bool {
        action matches ConfigAction::Read { path } && path@ == self.candidates@[self.next as int]@
    }

    /// Begins the search for `filename` and asks for the first candidate.
    pub fn start(filename: &str, env_paths: &EnvironmentPaths) -> (r: (ConfigSearch, ConfigAction))
        ensures
            r.0.filename@ == filename@,
            texts(r.0.candidates@) == candidate_paths(filename@, *env_paths),
            r.0.next == 0,
            r.0.reads_next(r.1),
    {
        let candidates = candidate_paths_with_env(filename, env_paths);
        let action = ConfigAction::Read { path: candidates[0].clone() };
        let search = ConfigSearch { filename: filename.to_owned(), candidates, next: 0 };
        (search, action)
    }
}

/// Takes what the outstanding read gave and decides how the search goes on.
///
/// The first candidate that can be read ends the search with its contents.
/// A candidate without a file is passed over; when none is left, the search
/// fails and the message lists every path that was tried. A candidate that
/// is there but cannot be read ends the search at once.
pub fn load_config(search: &mut ConfigSearch, outcome: ReadOutcome) -> (action: ConfigAction)
    ensures
        final(search).filename == old(search).filename,
        final(search).candidates == old(search).candidates,
        old(search).next >= old(search).candidates@.len() ==> action is Rejected && *final(search)
            == *old(search),
        old(search).next < old(search).candidates@.len() ==> {
            let count = old(search).candidates@.len();
            let current = old(search).candidates@[old(search).next as int]@;
            match outcome {
                ReadOutcome::Contents { text } => {
                    &&& final(search).next == count
                    &&& action matches ConfigAction::Parse { path, contents }
                    &&& path@ == current
                    &&& contents@ == text@
                },
                ReadOutcome::NotFound => {
                    &&& final(search).next == old(search).next + 1
                    &&& if final(search).next < count {
                        final(search).reads_next(action)
                    } else {
                        &&& action matches ConfigAction::Fail { error }
                        &&& error matches ConfigError::NotFound { message }
                        &&& message@ == not_found_message(
                            old(search).filename@,
                            texts(old(search).candidates@),
                        )
                    }
                },
                ReadOutcome::Failed { detail } => {
                    &&& final(search).next == count
                    &&& action matches ConfigAction::Fail { error }
                    &&& error matches ConfigError::ReadFailed { message }
                    &&& message@ == read_failure_message(current, detail@)
                },
            }
        },
{
    let count = search.candidates.len();
    if search.next >= count {
        return ConfigAction::Rejected;
    }
    match outcome {
        ReadOutcome::Contents { text } => {
            let path = search.candidates[search.next].clone();
            search.next = count;
            ConfigAction::Parse { path, contents: text }
        },
        ReadOutcome::NotFound => {
            search.next = search.next + 1;
            if search.next < count {
                ConfigAction::Read { path: search.candidates[search.next].clone() }
            } else {
                let mut message = String::new();
                push_text(&mut message, "Failed to locate config file '");
                push_text(&mut message, search.filename.as_str());
                push_text(&mut message, "'. Checked paths: ");
                push_text(&mut message, format_paths(&search.candidates).as_str());
                ConfigAction::Fail { error: ConfigError::NotFound { message } }
            }
        },
        ReadOutcome::Failed { detail } => {
            let mut message = String::new();
            push_text(&mut message, "Failed to read config file '");
            push_text(&mut message, search.candidates[search.next].as_str());
            push_text(&mut message, "': ");
            push_text(&mut message, detail.as_str());
            search.next = count;
            ConfigAction::Fail { error: ConfigError::ReadFailed { message } }
        },
    }
}

} // verus!
