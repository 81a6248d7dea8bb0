//! The packager's configuration: where things are, which Docker image to
//! build in, how many jobs to run, and the checks it must pass.
use vstd::prelude::*;
use crate::error::Error;
use crate::paths::{join_path, path_debug, path_debug_text, path_join};
use crate::regex_match::{group_views, match_views, regex_all_matches, regex_captures_all};
use crate::text::owned;
use crate::version::{group, or_empty, replace_all, replace_all_exec};

verus! {

/// How the build image is obtained.
#[derive(Debug, Clone, PartialEq, Eq)]
pub enum DockerConfig {
    /// Use an existing Docker image
    Image { image: String },
    /// Build from a Dockerfile (its path, as text)
    Dockerfile { dockerfile: String },
}

/// Main configuration; paths are held as text.
#[derive(Debug, Clone, PartialEq, Eq)]
pub struct Config {
    /// Path to the colcon repository
    pub colcon_repo: String,
    /// Path to the collection of debian directories
    pub debian_dirs: String,
    /// Docker configuration
    pub docker: DockerConfig,
    /// ROS distribution, when given (otherwise detected)
    pub ros_distro: Option<String>,
    /// Output directory for .deb files
    pub output_dir: String,
    /// Number of parallel build jobs
    pub parallel_jobs: usize,
}

/// The output directory used when none is configured.
pub fn default_output_dir() -> (r: String)
    ensures
        r@ == "./output"@,
{
    owned("./output")
}

/// The number of parallel jobs used when none is configured: the available
/// parallelism when it is known, else 4.
pub fn default_parallel_jobs(available: Option<usize>) -> (r: usize)
    ensures
        r == match available {
            Some(n) => n,
            None => 4,
        },
{
    match available {
        Some(n) => n,
        None => 4,
    }
}

/// The pattern of an environment variable reference: `${NAME}` or `$NAME`.
pub open spec fn env_pattern() -> Seq<char> {
    "\\$\\{([^}]+)\\}|\\$([A-Za-z_][A-Za-z0-9_]*)"@
}

/// The variable a reference names: the braced name, else the bare one.
pub open spec fn reference_name(m: Seq<Option<Seq<char>>>) -> Option<Seq<char>> {
    match group(m, 1) {
        Some(n) => Some(n),
        None => group(m, 2),
    }
}

/// Every match names a variable and its whole text is not empty.
pub open spec fn well_formed_references(ms: Seq<Seq<Option<Seq<char>>>>) -> bool {
    forall|i: int|
        0 <= i < ms.len() ==> reference_name(#[trigger] ms[i]) is Some && group(ms[i], 0) is Some
            && group(ms[i], 0)->0.len() > 0
}

/// The value of the variable `name` in `env`: the first entry for it;
/// `None` when it is unset or not listed.
pub open spec fn env_value(env: Seq<(Seq<char>, Option<Seq<char>>)>, name: Seq<char>) -> Option<Seq<char>>
    decreases env.len(),
{
    if env.len() == 0 {
        None
    } else if env[0].0 == name {
        env[0].1
    } else {
        env_value(env.drop_first(), name)
    }
}

/// `text` with the references `ms[i..]` replaced in turn by their values:
/// each replacement rewrites every occurrence of the reference's text; an
/// unset variable is an error naming it.
pub open spec fn expand_from(
    ms: Seq<Seq<Option<Seq<char>>>>,
    i: int,
    env: Seq<(Seq<char>, Option<Seq<char>>)>,
    text: Seq<char>,
) -> Result<Seq<char>, Seq<char>>
    decreases ms.len() - i,
{
    if i < 0 || i >= ms.len() {
        Ok(text)
    } else {
        let name = or_empty(reference_name(ms[i]));
        match env_value(env, name) {
            None => Err("Environment variable not found: "@ + name),
            Some(v) => expand_from(ms, i + 1, env, replace_all(text, or_empty(group(ms[i], 0)), v)),
        }
    }
}

/// The text of a list of environment entries.
pub open spec fn env_views(env: Seq<(String, Option<String>)>) -> Seq<(Seq<char>, Option<Seq<char>>)> {
    env.map_values(|e: (String, Option<String>)| (e.0@, match e.1 {
        Some(v) => Some(v@),
        None => None,
    }))
}

/// The names of the variables `path` refers to, in order of reference.
pub fn env_var_names(path: &str) -> (r: Vec<String>)
    ensures
        well_formed_references(regex_all_matches(env_pattern(), path@)) ==> (r@.len()
            == regex_all_matches(env_pattern(), path@).len() && forall|i: int|
            0 <= i < r@.len() ==> Some(#[trigger] r@[i]@) == reference_name(
                regex_all_matches(env_pattern(), path@)[i],
            )),
{
    let ms = regex_captures_all("\\$\\{([^}]+)\\}|\\$([A-Za-z_][A-Za-z0-9_]*)", path);
    let ghost msv = match_views(ms@);
    let mut names: Vec<String> = Vec::new();
    let mut k: usize = 0;
    while k < ms.len()
        invariant
            k <= ms.len(),
            msv == match_views(ms@),
            msv == regex_all_matches(env_pattern(), path@),
            names@.len() <= k,
            well_formed_references(msv) ==> names@.len() == k && forall|i: int|
                0 <= i < k ==> Some(#[trigger] names@[i]@) == reference_name(msv[i]),
        decreases ms.len() - k,
    {
        let m = &ms[k];
        assert(msv[k as int] == group_views(m@));
        let name = if m.len() > 1 && m[1].is_some() {
            m[1].clone()
        } else if m.len() > 2 {
            m[2].clone()
        } else {
            None
        };
        match name {
            Some(n) => {
                names.push(n);
            },
            None => {},
        }
        k += 1;
    }
    names
}

/// The value of `name` in `env`.
fn lookup(env: &Vec<(String, Option<String>)>, name: &String) -> (r: Option<String>)
    ensures
        match r {
            Some(v) => env_value(env_views(env@), name@) == Some(v@),
            None => env_value(env_views(env@), name@) is None,
        },
{
    let ghost ev = env_views(env@);
    assert(ev.subrange(0, ev.len() as int) =~= ev);
    let mut k: usize = 0;
    while k < env.len()
        invariant
            k <= env.len(),
            ev == env_views(env@),
            env_value(ev, name@) == env_value(ev.subrange(k as int, ev.len() as int), name@),
        decreases env.len() - k,
    {
        let ghost rest = ev.subrange(k as int, ev.len() as int);
        assert(rest.drop_first() =~= ev.subrange(k + 1, ev.len() as int));
        if env[k].0 == *name {
            return match &env[k].1 {
                Some(v) => Some(v.clone()),
                None => None,
            };
        }
        k += 1;
    }
    None
}

/// `path` with its variable references `matches` (the matches of the
/// reference pattern in it) replaced by their values in `env`.
pub fn expand_with_matches(
    path: &str,
    matches: &Vec<Vec<Option<String>>>,
    env: &Vec<(String, Option<String>)>,
) -> (r: Result<String, Error>)
    requires
        well_formed_references(match_views(matches@)),
    ensures
        match expand_from(match_views(matches@), 0, env_views(env@), path@) {
            Ok(t) => r matches Ok(s) && s@ == t,
            Err(m) => r matches Err(Error::ConfigError { message }) && message@ == m,
        },
{
    let ghost ms = match_views(matches@);
    let ghost ev = env_views(env@);
    let mut text = owned(path);
    let mut k: usize = 0;
    while k < matches.len()
        invariant
            k <= matches.len(),
            ms == match_views(matches@),
            ev == env_views(env@),
            well_formed_references(ms),
            expand_from(ms, k as int, ev, text@) == expand_from(ms, 0, ev, path@),
        decreases matches.len() - k,
    {
        let m = &matches[k];
        assert(ms[k as int] == group_views(m@));
        assert(reference_name(ms[k as int]) is Some);
        let name: String = if m.len() > 1 && m[1].is_some() {
            m[1].clone().unwrap()
        } else {
            m[2].clone().unwrap()
        };
        let whole: String = m[0].clone().unwrap();
        match lookup(env, &name) {
            None => {
                let mut message = owned("Environment variable not found: ");
                message.append(name.as_str());
                return Err(Error::ConfigError { message });
            },
            Some(v) => {
                text = replace_all_exec(&text, whole.as_str(), v.as_str());
            },
        }
        k += 1;
    }
    Ok(text)
}

/// What expanding the references in `path` gives (see `expand_path`).
pub open spec fn path_expansion(path: Seq<char>, env: Seq<(Seq<char>, Option<Seq<char>>)>) -> Result<Seq<char>, Seq<char>> {
    let ms = regex_all_matches(env_pattern(), path);
    if well_formed_references(ms) {
        expand_from(ms, 0, env, path)
    } else {
        Ok(path)
    }
}

/// `path` with its environment variable references (`${NAME}` or `$NAME`)
/// replaced by their values in `env`, in order of reference; an unset
/// variable is a configuration error naming it. (Should a match not name a
/// variable, which the pattern rules out, the path is given back unchanged.)
pub fn expand_path(path: &str, env: &Vec<(String, Option<String>)>) -> (r: Result<String, Error>)
    ensures
        well_formed_references(regex_all_matches(env_pattern(), path@)) ==> match expand_from(
            regex_all_matches(env_pattern(), path@),
            0,
            env_views(env@),
            path@,
        ) {
            Ok(t) => r matches Ok(s) && s@ == t,
            Err(m) => r matches Err(Error::ConfigError { message }) && message@ == m,
        },
        !well_formed_references(regex_all_matches(env_pattern(), path@)) ==> (r matches Ok(s) && s@
            == path@),
{
    let ms = regex_captures_all("\\$\\{([^}]+)\\}|\\$([A-Za-z_][A-Za-z0-9_]*)", path);
    let ghost msv = match_views(ms@);
    let mut k: usize = 0;
    while k < ms.len()
        invariant
            k <= ms.len(),
            msv == match_views(ms@),
            msv == regex_all_matches(env_pattern(), path@),
            forall|i: int| 0 <= i < k ==> #[trigger] reference_name(msv[i]) is Some && group(msv[i], 0) is Some
                && group(msv[i], 0)->0.len() > 0,
        decreases ms.len() - k,
    {
        let m = &ms[k];
        assert(msv[k as int] == group_views(m@));
        let named = (m.len() > 1 && m[1].is_some()) || (m.len() > 2 && m[2].is_some());
        let whole_ok = m.len() > 0 && match &m[0] {
            Some(w) => !w.as_str().is_empty(),
            None => false,
        };
        if !(named && whole_ok) {
            proof {
                let g = group_views(m@);
                if m.len() > 1 {
                    assert(group(g, 1) == g[1]);
                }
                if m.len() > 2 {
                    assert(group(g, 2) == g[2]);
                }
                if m.len() > 0 {
                    assert(group(g, 0) == g[0]);
                }
                assert(!(reference_name(msv[k as int]) is Some && group(msv[k as int], 0) is Some
                    && group(msv[k as int], 0)->0.len() > 0));
                assert(!well_formed_references(msv));
            }
            return Ok(owned(path));
        }
        k += 1;
    }
    expand_with_matches(path, &ms, env)
}

/// What is known of the filesystem when a configuration is checked: which
/// paths exist, and how preparing (creating when missing) the two working
/// directories went.
#[derive(Debug, PartialEq, Eq)]
pub struct ConfigChecks {
    /// Whether the colcon repository exists
    pub repo_exists: bool,
    /// Whether its `src` directory exists
    pub src_exists: bool,
    /// Preparing the debian directories: done, or the creation error's message
    pub debian_dirs_ready: Result<(), String>,
    /// Preparing the output directory: done, or the creation error's message
    pub output_dir_ready: Result<(), String>,
    /// Whether the configured Dockerfile exists
    pub dockerfile_exists: bool,
}

/// A configuration error with the message `m`.
pub open spec fn config_error(m: Seq<char>) -> Result<(), Seq<char>> {
    Err(m)
}

/// The check of the repository: it exists and has a `src` directory.
pub open spec fn repository_check(repo: Seq<char>, repo_exists: bool, src_exists: bool) -> Result<(), Seq<char>> {
    if !repo_exists {
        Err("Colcon repository does not exist: "@ + path_debug_text(repo))
    } else if !src_exists {
        Err("Colcon repository missing src directory: "@ + path_debug_text(path_join(repo, "src"@)))
    } else {
        Ok(())
    }
}

/// The check of a prepared directory called `name`.
pub open spec fn directory_check(name: Seq<char>, ready: Result<(), Seq<char>>) -> Result<(), Seq<char>> {
    match ready {
        Ok(()) => Ok(()),
        Err(e) => Err("Failed to create "@ + name + ": "@ + e),
    }
}

/// The check of the Docker settings and the job count.
pub open spec fn docker_check(docker: DockerConfig, dockerfile_exists: bool, jobs: usize) -> Result<(), Seq<char>> {
    match docker {
        DockerConfig::Dockerfile { dockerfile } => if !dockerfile_exists {
            Err("Dockerfile does not exist: "@ + path_debug_text(dockerfile@))
        } else if jobs == 0 {
            Err("parallel_jobs must be at least 1"@)
        } else {
            Ok(())
        },
        DockerConfig::Image { image } => if image@.len() == 0 {
            Err("Docker image name cannot be empty"@)
        } else if jobs == 0 {
            Err("parallel_jobs must be at least 1"@)
        } else {
            Ok(())
        },
    }
}

/// The text of a unit result.
pub open spec fn unit_view(r: Result<(), String>) -> Result<(), Seq<char>> {
    match r {
        Ok(()) => Ok(()),
        Err(e) => Err(e@),
    }
}

/// The checks of a configuration, in order: repository, debian
/// directories, output directory, Docker settings, job count.
pub open spec fn config_check(c: Config, f: ConfigChecks) -> Result<(), Seq<char>> {
    match repository_check(c.colcon_repo@, f.repo_exists, f.src_exists) {
        Err(m) => Err(m),
        Ok(()) => match directory_check("debian_dirs"@, unit_view(f.debian_dirs_ready)) {
            Err(m) => Err(m),
            Ok(()) => match directory_check("output_dir"@, unit_view(f.output_dir_ready)) {
                Err(m) => Err(m),
                Ok(()) => docker_check(c.docker, f.dockerfile_exists, c.parallel_jobs),
            },
        },
    }
}

/// The outcome `r` is the check result `spec`, errors being configuration errors.
pub open spec fn check_outcome(r: Result<(), Error>, spec: Result<(), Seq<char>>) -> bool {
    match spec {
        Ok(()) => r is Ok,
        Err(m) => r matches Err(Error::ConfigError { message }) && message@ == m,
    }
}

/// A configuration error with the text `prefix` followed by `detail`.
fn config_error_exec(prefix: &str, detail: &str) -> (r: Error)
    ensures
        r matches Error::ConfigError { message } && message@ == prefix@ + detail@,
{
    let mut message = owned(prefix);
    message.append(detail);
    Error::ConfigError { message }
}

impl Config {
    /// The configuration with `${NAME}` and `$NAME` references in its paths
    /// (repository, debian directories, output directory, Dockerfile)
    /// replaced by their values in `env`; the first unset variable is an error.
    pub fn expand_env_vars(&mut self, env: &Vec<(String, Option<String>)>) -> (r: Result<(), Error>)
        ensures
            match config_expansion(*old(self), env_views(env@)) {
                Ok((c, d, o, f)) => r is Ok && final(self).colcon_repo@ == c && final(self).debian_dirs@ == d
                    && final(self).output_dir@ == o && match old(self).docker {
                    DockerConfig::Dockerfile { .. } => final(self).docker matches DockerConfig::Dockerfile {
                        dockerfile,
                    } && Some(dockerfile@) == f,
                    DockerConfig::Image { .. } => final(self).docker == old(self).docker,
                },
                Err(m) => r matches Err(Error::ConfigError { message }) && message@ == m,
            },
            final(self).ros_distro == old(self).ros_distro,
            final(self).parallel_jobs == old(self).parallel_jobs,
    {
        self.colcon_repo = match expand_path(self.colcon_repo.as_str(), env) {
            Ok(p) => p,
            Err(e) => return Err(e),
        };
        self.debian_dirs = match expand_path(self.debian_dirs.as_str(), env) {
            Ok(p) => p,
            Err(e) => return Err(e),
        };
        self.output_dir = match expand_path(self.output_dir.as_str(), env) {
            Ok(p) => p,
            Err(e) => return Err(e),
        };
        let expanded_docker = match &self.docker {
            DockerConfig::Dockerfile { dockerfile } => match expand_path(dockerfile.as_str(), env) {
                Ok(p) => Some(p),
                Err(e) => return Err(e),
            },
            DockerConfig::Image { .. } => None,
        };
        match expanded_docker {
            Some(p) => {
                self.docker = DockerConfig::Dockerfile { dockerfile: p };
            },
            None => {},
        }
        Ok(())
    }

    }

/// The repository, debian directories, output directory and Dockerfile of
/// `c` expanded in turn (see `path_expansion`); the first failure is the
/// result.
pub open spec fn config_expansion(c: Config, env: Seq<(Seq<char>, Option<Seq<char>>)>) -> Result<
    (Seq<char>, Seq<char>, Seq<char>, Option<Seq<char>>),
    Seq<char>,
> {
    match path_expansion(c.colcon_repo@, env) {
        Err(m) => Err(m),
        Ok(repo) => match path_expansion(c.debian_dirs@, env) {
            Err(m) => Err(m),
            Ok(dirs) => match path_expansion(c.output_dir@, env) {
                Err(m) => Err(m),
                Ok(out) => match c.docker {
                    DockerConfig::Dockerfile { dockerfile } => match path_expansion(dockerfile@, env) {
                        Err(m) => Err(m),
                        Ok(f) => Ok((repo, dirs, out, Some(f))),
                    },
                    DockerConfig::Image { .. } => Ok((repo, dirs, out, None)),
                },
            },
        },
    }
}

impl Config {
    /// The check of the repository: it must exist and have a `src` directory.
    pub fn check_repository(&self, repo_exists: bool, src_exists: bool) -> (r: Result<(), Error>)
        ensures
            check_outcome(r, repository_check(self.colcon_repo@, repo_exists, src_exists)),
    {
        if !repo_exists {
            let d = path_debug(self.colcon_repo.as_str());
            return Err(config_error_exec("Colcon repository does not exist: ", d.as_str()));
        }
        if !src_exists {
            let src_dir = join_path(self.colcon_repo.as_str(), "src");
            let d = path_debug(src_dir.as_str());
            return Err(config_error_exec("Colcon repository missing src directory: ", d.as_str()));
        }
        Ok(())
    }

    /// The check of a working directory called `name` after preparing it.
    pub fn check_directory(name: &str, ready: &Result<(), String>) -> (r: Result<(), Error>)
        ensures
            check_outcome(r, directory_check(name@, unit_view(*ready))),
    {
        match ready {
            Ok(()) => Ok(()),
            Err(e) => {
                let mut message = owned("Failed to create ");
                message.append(name);
                message.append(": ");
                message.append(e.as_str());
                Err(Error::ConfigError { message })
            },
        }
    }

    /// The check of the Docker settings and of the job count.
    pub fn check_docker(&self, dockerfile_exists: bool) -> (r: Result<(), Error>)
        ensures
            check_outcome(r, docker_check(self.docker, dockerfile_exists, self.parallel_jobs)),
    {
        match &self.docker {
            DockerConfig::Dockerfile { dockerfile } => {
                if !dockerfile_exists {
                    let d = path_debug(dockerfile.as_str());
                    return Err(config_error_exec("Dockerfile does not exist: ", d.as_str()));
                }
            },
            DockerConfig::Image { image } => {
                if image.as_str().is_empty() {
                    return Err(Error::ConfigError { message: owned("Docker image name cannot be empty") });
                }
            },
        }
        if self.parallel_jobs == 0 {
            return Err(Error::ConfigError { message: owned("parallel_jobs must be at least 1") });
        }
        Ok(())
    }

    /// Validates the configuration against what is known of the filesystem.
    pub fn validate(&self, checks: &ConfigChecks) -> (r: Result<(), Error>)
        ensures
            check_outcome(r, config_check(*self, *checks)),
    {
        match self.check_repository(checks.repo_exists, checks.src_exists) {
            Ok(()) => {},
            Err(e) => return Err(e),
        }
        match Config::check_directory("debian_dirs", &checks.debian_dirs_ready) {
            Ok(()) => {},
            Err(e) => return Err(e),
        }
        match Config::check_directory("output_dir", &checks.output_dir_ready) {
            Ok(()) => {},
            Err(e) => return Err(e),
        }
        self.check_docker(checks.dockerfile_exists)
    }

    /// The Docker image to run: the configured one, or the tag of the image
    /// built from the Dockerfile.
    pub fn docker_image(&self) -> (r: String)
        ensures
            r@ == match self.docker {
                DockerConfig::Image { image } => image@,
                DockerConfig::Dockerfile { .. } => "colcon-deb-builder:latest"@,
            },
    {
        match &self.docker {
            DockerConfig::Image { image } => image.clone(),
            DockerConfig::Dockerfile { .. } => owned("colcon-deb-builder:latest"),
        }
    }
}

} // verus!
