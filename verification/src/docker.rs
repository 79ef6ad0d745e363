//! Recipe synthesis: the pure functions that lower a build plan into
//! Dockerfile-equivalent instruction text.
use vstd::prelude::*;

use crate::cache::{sanitize_cache_key, spec_sanitize};
use crate::environment::{spec_env_lookup, EnvVar, Environment};
use crate::plan::{BuildPlan, StaticAsset};
use crate::strutil::{
    clone_string_vec, join_strings, replace_all, spec_join, spec_match_at, spec_replace,
};

verus! {

/// The configuration of one image build: naming, output routing, cache
/// control and metadata passed through to the build engine.
#[derive(Clone, Debug, Default)]
pub struct DockerBuilderOptions {
    pub name: Option<String>,
    pub out_dir: Option<String>,
    pub print_dockerfile: bool,
    pub tags: Vec<String>,
    pub labels: Vec<String>,
    pub quiet: bool,
    pub cache_key: Option<String>,
    pub no_cache: bool,
    pub platform: Vec<String>,
    pub current_dir: bool,
    pub nix_proxy: Option<String>,
    pub import_cache: Option<String>,
    pub export_cache: Option<String>,
    pub inline_caching: bool,
    pub no_error_without_start: bool,
}

impl DockerBuilderOptions {
    /// A field-by-field copy of the options.
    pub fn duplicate(&self) -> (r: DockerBuilderOptions)
        ensures
            r.name.deep_view() == self.name.deep_view(),
            r.out_dir.deep_view() == self.out_dir.deep_view(),
            r.print_dockerfile == self.print_dockerfile,
            r.tags@ == self.tags@,
            r.labels@ == self.labels@,
            r.quiet == self.quiet,
            r.cache_key.deep_view() == self.cache_key.deep_view(),
            r.no_cache == self.no_cache,
            r.platform@ == self.platform@,
            r.current_dir == self.current_dir,
            r.nix_proxy.deep_view() == self.nix_proxy.deep_view(),
            r.import_cache.deep_view() == self.import_cache.deep_view(),
            r.export_cache.deep_view() == self.export_cache.deep_view(),
            r.inline_caching == self.inline_caching,
            r.no_error_without_start == self.no_error_without_start,
    {
        DockerBuilderOptions {
            name: crate::strutil::clone_opt_string(&self.name),
            out_dir: crate::strutil::clone_opt_string(&self.out_dir),
            print_dockerfile: self.print_dockerfile,
            tags: clone_string_vec(&self.tags),
            labels: clone_string_vec(&self.labels),
            quiet: self.quiet,
            cache_key: crate::strutil::clone_opt_string(&self.cache_key),
            no_cache: self.no_cache,
            platform: clone_string_vec(&self.platform),
            current_dir: self.current_dir,
            nix_proxy: crate::strutil::clone_opt_string(&self.nix_proxy),
            import_cache: crate::strutil::clone_opt_string(&self.import_cache),
            export_cache: crate::strutil::clone_opt_string(&self.export_cache),
            inline_caching: self.inline_caching,
            no_error_without_start: self.no_error_without_start,
        }
    }
}

/// What an image build needs from the core: the image name, the
/// synthesized recipe text, and the plan the recipe came from. The
/// invoking layer writes the files and drives the build engine.
#[derive(Clone, Debug, PartialEq, Eq)]
pub struct ImageArtifacts {
    pub name: String,
    pub dockerfile: String,
    pub plan: BuildPlan,
}

/// Synthesizes build plans into recipe text for a Docker-compatible
/// engine; the invoking layer does the writing and process handling.
pub struct DockerBuilder {
    pub options: DockerBuilderOptions,
}

impl DockerBuilder {
    /// A builder carrying the given options.
    pub fn new(options: DockerBuilderOptions) -> (r: DockerBuilder)
        ensures
            r.options == options,
    {
        DockerBuilder { options }
    }
}

/// The image-build frontend: same synthesis core, newer invocation
/// plumbing in the invoking layer.
pub struct DockerImageBuilder {
    pub options: DockerBuilderOptions,
}

impl DockerImageBuilder {
    /// A builder carrying the given options.
    pub fn new(options: DockerBuilderOptions) -> (r: DockerImageBuilder)
        ensures
            r.options == options,
    {
        DockerImageBuilder { options }
    }
}

/// One `--mount=type=cache` clause for a cache directory: `~` expands to
/// the root home directory, and the mount id is the sanitized
/// concatenation of the cache key and the expanded directory.
pub open spec fn spec_mount_clause(key: Seq<char>, dir: Seq<char>) -> Seq<char> {
    let sd = spec_replace(dir, "~"@, "/root"@);
    let sk = spec_sanitize(key + "-"@ + sd);
    "--mount=type=cache,id="@ + sk + ",target="@ + sd
}

/// The space-joined cache-mount clauses for a phase: one per cache
/// directory, or empty when no cache key or no directories are set.
pub open spec fn spec_cache_mount(
    cache_key: Option<Seq<char>>,
    cache_directories: Option<Seq<Seq<char>>>,
) -> Seq<char> {
    match (cache_key, cache_directories) {
        (Some(key), Some(dirs)) => spec_join(
            dirs.map_values(|d: Seq<char>| spec_mount_clause(key, d)),
            " "@,
        ),
        _ => Seq::empty(),
    }
}

/// Builds the cache-mount directive string for one phase: one
/// `--mount=type=cache,id=<sanitized key>-<dir>,target=<dir>` clause per
/// cache directory, space-joined; empty without a cache key.
pub fn get_cache_mount(cache_key: &Option<String>, cache_directories: &Option<Vec<String>>) -> (r:
    String)
    ensures
        r@ == spec_cache_mount(cache_key.deep_view(), cache_directories.deep_view()),
{
    match (cache_key, cache_directories) {
        (Some(key), Some(dirs)) => {
            let ghost dv: Seq<Seq<char>> = dirs.deep_view();
            let ghost clause_of = |d: Seq<char>| spec_mount_clause(key@, d);
            let mut clauses: Vec<String> = Vec::new();
            let mut i: usize = 0;
            while i < dirs.len()
                invariant
                    0 <= i <= dirs.len(),
                    clauses.len() == i,
                    forall|j: int| 0 <= j < i ==> clauses@[j]@ == clause_of(dv[j]),
                decreases dirs.len() - i,
            {
                assert(dv[i as int] == dirs[i as int].deep_view());
                proof {
                    reveal_strlit("~");
                }
                let sanitized_dir = replace_all(dirs[i].as_str(), "~", "/root");
                let mut id_src: String = key.clone();
                id_src.append("-");
                id_src.append(sanitized_dir.as_str());
                let sanitized_key = sanitize_cache_key(id_src.as_str());
                let mut clause: String = String::from_str("--mount=type=cache,id=");
                clause.append(sanitized_key.as_str());
                clause.append(",target=");
                clause.append(sanitized_dir.as_str());
                assert(clause@ == clause_of(dv[i as int]));
                clauses.push(clause);
                i = i + 1;
            }
            assert(clauses.deep_view() =~= dv.map_values(clause_of));
            join_strings(&clauses, " ")
        },
        _ => String::new(),
    }
}

/// The copy instruction for a file set: empty for no files, else
/// `COPY <files space-joined> <app_dir>`.
pub open spec fn spec_copy_command(files: Seq<Seq<char>>, app_dir: Seq<char>) -> Seq<char> {
    if files.len() == 0 {
        Seq::empty()
    } else {
        "COPY "@ + spec_join(files, " "@) + " "@ + app_dir
    }
}

/// Emits the copy instruction bringing `files` into `app_dir`; an empty
/// file list emits nothing.
pub fn get_copy_command(files: &[String], app_dir: &str) -> (r: String)
    ensures
        r@ == spec_copy_command(files.deep_view(), app_dir@),
{
    if files.is_empty() {
        String::new()
    } else {
        let joined = join_strings_slice(files, " ");
        let mut r: String = String::from_str("COPY ");
        r.append(joined.as_str());
        r.append(" ");
        r.append(app_dir);
        assert(r@ =~= spec_copy_command(files.deep_view(), app_dir@));
        r
    }
}

/// The copy instruction carrying files over from an earlier build stage:
/// an empty file list copies the whole application directory from stage
/// `0`; otherwise each named file has `./` rewritten to the application
/// directory, and the files are copied from the named stage.
pub open spec fn spec_copy_from_command(
    from: Seq<char>,
    files: Seq<Seq<char>>,
    app_dir: Seq<char>,
) -> Seq<char> {
    if files.len() == 0 {
        "COPY --from=0 "@ + app_dir + " "@ + app_dir
    } else {
        "COPY --from="@ + from + " "@ + spec_join(
            files.map_values(|f: Seq<char>| spec_replace(f, "./"@, app_dir)),
            " "@,
        ) + " "@ + app_dir
    }
}

/// Emits the multi-stage copy instruction from stage `from` into
/// `app_dir`.
pub fn get_copy_from_command(from: &str, files: &[String], app_dir: &str) -> (r: String)
    ensures
        r@ == spec_copy_from_command(from@, files.deep_view(), app_dir@),
{
    if files.is_empty() {
        let mut r: String = String::from_str("COPY --from=0 ");
        r.append(app_dir);
        r.append(" ");
        r.append(app_dir);
        assert(r@ =~= spec_copy_from_command(from@, files.deep_view(), app_dir@));
        r
    } else {
        let ghost fv: Seq<Seq<char>> = files.deep_view();
        let ghost retarget = |f: Seq<char>| spec_replace(f, "./"@, app_dir@);
        let mut retargeted: Vec<String> = Vec::new();
        let mut i: usize = 0;
        while i < files.len()
            invariant
                0 <= i <= files.len(),
                retargeted.len() == i,
                forall|j: int| 0 <= j < i ==> retargeted@[j]@ == retarget(fv[j]),
            decreases files.len() - i,
        {
            assert(fv[i as int] == files[i as int].deep_view());
            proof {
                reveal_strlit("./");
            }
            let f = replace_all(files[i].as_str(), "./", app_dir);
            retargeted.push(f);
            i = i + 1;
        }
        assert(retargeted.deep_view() =~= fv.map_values(retarget));
        let joined = join_strings(&retargeted, " ");
        let mut r: String = String::from_str("COPY --from=");
        r.append(from);
        r.append(" ");
        r.append(joined.as_str());
        r.append(" ");
        r.append(app_dir);
        assert(r@ =~= spec_copy_from_command(from@, fv, app_dir@));
        r
    }
}

/// A command with every embedded double quote escaped by a backslash.
pub open spec fn spec_escape_quotes(s: Seq<char>) -> Seq<char> {
    spec_replace(s, "\""@, "\\\""@)
}

/// Reading an exec-form payload back: every `\"` pair collapses to `"`,
/// scanning left to right.
pub open spec fn spec_unescape_quotes(s: Seq<char>) -> Seq<char>
    decreases s.len(),
{
    if s.len() >= 2 && s[0] == '\\' && s[1] == '"' {
        seq!['"'] + spec_unescape_quotes(s.skip(2))
    } else if s.len() >= 1 {
        seq![s[0]] + spec_unescape_quotes(s.skip(1))
    } else {
        Seq::empty()
    }
}

proof fn lemma_escape_head(s: Seq<char>)
    requires
        s.len() > 0,
    ensures
        spec_escape_quotes(s).len() > 0,
        spec_escape_quotes(s)[0] != '"',
{
    reveal_strlit("\"");
    reveal_strlit("\\\"");
    if s[0] == '"' {
        assert(s.subrange(0, 1) =~= "\""@);
    } else {
        if spec_match_at(s, "\""@, 0) {
            assert(s.subrange(0, 1) == "\""@);
            assert(s.subrange(0, 1)[0] == s[0]);
            assert(s[0] == '"');
        }
    }
}

/// Exec-form quoting round-trip law: escaping a command for the exec-form
/// payload and then unescaping it yields the original command unchanged.
pub proof fn lemma_exec_quote_round_trip(s: Seq<char>)
    ensures
        spec_unescape_quotes(spec_escape_quotes(s)) == s,
    decreases s.len(),
{
    reveal_strlit("\"");
    reveal_strlit("\\\"");
    let pat = "\""@;
    let to = "\\\""@;
    if s.len() == 0 {
        assert(spec_escape_quotes(s) =~= Seq::<char>::empty());
        assert(spec_unescape_quotes(spec_escape_quotes(s)) =~= s);
    } else {
        lemma_exec_quote_round_trip(s.skip(1));
        let t = spec_escape_quotes(s);
        if s[0] == '"' {
            assert(s.subrange(0, 1) =~= pat);
            assert(spec_match_at(s, pat, 0));
            assert(t == to + spec_escape_quotes(s.skip(1)));
            assert(t[0] == '\\' && t[1] == '"');
            assert(t.skip(2) =~= spec_escape_quotes(s.skip(1)));
            assert(spec_unescape_quotes(t) == seq!['"'] + s.skip(1));
            assert(seq!['"'] + s.skip(1) =~= s);
        } else {
            assert(!spec_match_at(s, pat, 0)) by {
                if spec_match_at(s, pat, 0) {
                    assert(s.subrange(0, 1) == pat);
                    assert(s.subrange(0, 1)[0] == s[0]);
                    assert(s[0] == '"');
                }
            }
            assert(t == seq![s[0]] + spec_escape_quotes(s.skip(1)));
            assert(t.skip(1) =~= spec_escape_quotes(s.skip(1)));
            if t.len() >= 2 && t[0] == '\\' && t[1] == '"' {
                assert(spec_escape_quotes(s.skip(1)).len() > 0);
                assert(s.skip(1).len() > 0);
                lemma_escape_head(s.skip(1));
                assert(t[1] == spec_escape_quotes(s.skip(1))[0]);
                assert(false);
            }
            assert(spec_unescape_quotes(t) == seq![s[0]] + s.skip(1));
            assert(seq![s[0]] + s.skip(1) =~= s);
        }
    }
}

/// The exec-form entry-point instruction wrapping `command`.
pub open spec fn spec_exec_command(command: Seq<char>) -> Seq<char> {
    "CMD [\""@ + spec_escape_quotes(command) + "\"]"@
}

/// Emits the exec-form entry point `CMD ["<command>"]`, escaping double
/// quotes inside the command so the payload re-parses to the original.
pub fn get_exec_command(command: &str) -> (r: String)
    ensures
        r@ == spec_exec_command(command@),
{
    proof {
        reveal_strlit("\"");
    }
    let params = replace_all(command, "\"", "\\\"");
    let mut r: String = String::from_str("CMD [\"");
    r.append(params.as_str());
    r.append("\"]");
    assert(r@ =~= spec_exec_command(command@));
    r
}

/// The shell commands that archive one expanded cache directory and
/// upload the archive to `server_url`.
pub open spec fn spec_send_dir_cmds(server_url: Seq<char>, dir: Seq<char>) -> Seq<Seq<char>> {
    let sd = spec_replace(dir, "~"@, "/root"@);
    let cf = spec_replace(sd, "/"@, "%2f"@);
    seq![
        "tar -cf "@ + cf + ".tar.gz "@ + sd,
        "curl -v -F upload=@"@ + cf + ".tar.gz "@ + server_url,
    ]
}

/// The flattened upload command list over all cache directories.
pub open spec fn spec_send_cached_dirs(
    server_url: Seq<char>,
    dirs: Seq<Seq<char>>,
) -> Seq<Seq<char>>
    decreases dirs.len(),
{
    if dirs.len() == 0 {
        Seq::empty()
    } else {
        spec_send_dir_cmds(server_url, dirs[0]) + spec_send_cached_dirs(server_url, dirs.skip(1))
    }
}

/// Builds, for every cache directory, a pair of shell commands that
/// archive the directory and upload it to `server_url`.
pub fn get_send_cached_dirs_command(server_url: String, cache_directories: &Option<Vec<String>>)
    -> (r: Vec<String>)
    ensures
        r.deep_view() == match cache_directories.deep_view() {
            Some(dirs) => spec_send_cached_dirs(server_url@, dirs),
            None => Seq::<Seq<char>>::empty(),
        },
{
    match cache_directories {
        Some(dirs) => {
            let ghost dv: Seq<Seq<char>> = dirs.deep_view();
            let ghost full = spec_send_cached_dirs(server_url@, dv);
            let mut r: Vec<String> = Vec::new();
            proof {
                assert(dv.skip(0) =~= dv);
            }
            let mut i: usize = 0;
            while i < dirs.len()
                invariant
                    0 <= i <= dirs.len(),
                    full == r.deep_view() + spec_send_cached_dirs(server_url@, dv.skip(i as int)),
                decreases dirs.len() - i,
            {
                assert(dv[i as int] == dirs[i as int].deep_view());
                assert(dv.skip(i as int)[0] == dv[i as int]);
                proof {
                    reveal_strlit("~");
                    reveal_strlit("/");
                }
                let sanitized_dir = replace_all(dirs[i].as_str(), "~", "/root");
                let compressed = replace_all(sanitized_dir.as_str(), "/", "%2f");
                let mut tar_cmd: String = String::from_str("tar -cf ");
                tar_cmd.append(compressed.as_str());
                tar_cmd.append(".tar.gz ");
                tar_cmd.append(sanitized_dir.as_str());
                let mut curl_cmd: String = String::from_str("curl -v -F upload=@");
                curl_cmd.append(compressed.as_str());
                curl_cmd.append(".tar.gz ");
                curl_cmd.append(server_url.as_str());
                r.push(tar_cmd);
                r.push(curl_cmd);
                proof {
                    assert(dv.skip(i as int).skip(1) =~= dv.skip(i as int + 1));
                    assert(r.deep_view() + spec_send_cached_dirs(server_url@, dv.skip(i as int + 1))
                        =~= full);
                }
                i = i + 1;
            }
            proof {
                assert(spec_send_cached_dirs(server_url@, dv.skip(dirs.len() as int))
                    =~= Seq::<Seq<char>>::empty());
                assert(r.deep_view() + Seq::<Seq<char>>::empty() =~= r.deep_view());
            }
            r
        },
        None => Vec::new(),
    }
}

/// The `RUN <command>` lines of a phase, newline-joined.
pub open spec fn spec_run_block(cmds: Seq<Seq<char>>) -> Seq<char> {
    spec_join(cmds.map_values(|c: Seq<char>| "RUN "@ + c), "\n"@)
}

/// Emits one `RUN` line per phase command.
fn run_block(cmds: &Vec<String>) -> (r: String)
    ensures
        r@ == spec_run_block(cmds.deep_view()),
{
    let ghost cv: Seq<Seq<char>> = cmds.deep_view();
    let mut lines: Vec<String> = Vec::new();
    let mut i: usize = 0;
    while i < cmds.len()
        invariant
            0 <= i <= cmds.len(),
            lines.len() == i,
            forall|j: int| 0 <= j < i ==> lines@[j]@ == "RUN "@ + cv[j],
        decreases cmds.len() - i,
    {
        assert(cv[i as int] == cmds[i as int].deep_view());
        let mut line: String = String::from_str("RUN ");
        line.append(cmds[i].as_str());
        lines.push(line);
        i = i + 1;
    }
    assert(lines.deep_view() =~= cv.map_values(|c: Seq<char>| "RUN "@ + c));
    join_strings(&lines, "\n")
}

/// The `RUN <mounts> <command>` lines of a cached phase, newline-joined.
pub open spec fn spec_run_mount_block(cmds: Seq<Seq<char>>, mount: Seq<char>) -> Seq<char> {
    spec_join(cmds.map_values(|c: Seq<char>| "RUN "@ + mount + " "@ + c), "\n"@)
}

/// Emits one `RUN` line per phase command, each carrying the phase's
/// cache-mount clauses.
fn run_mount_block(cmds: &Vec<String>, mount: &str) -> (r: String)
    ensures
        r@ == spec_run_mount_block(cmds.deep_view(), mount@),
{
    let ghost cv: Seq<Seq<char>> = cmds.deep_view();
    let mut lines: Vec<String> = Vec::new();
    let mut i: usize = 0;
    while i < cmds.len()
        invariant
            0 <= i <= cmds.len(),
            lines.len() == i,
            forall|j: int| 0 <= j < i ==> lines@[j]@ == "RUN "@ + mount@ + " "@ + cv[j],
        decreases cmds.len() - i,
    {
        assert(cv[i as int] == cmds[i as int].deep_view());
        let mut line: String = String::from_str("RUN ");
        line.append(mount);
        line.append(" ");
        line.append(cmds[i].as_str());
        lines.push(line);
        i = i + 1;
    }
    assert(lines.deep_view() =~= cv.map_values(|c: Seq<char>| "RUN "@ + mount@ + " "@ + c));
    join_strings(&lines, "\n")
}

/// The single combined OS-package install instruction, or nothing when
/// the phase asks for no OS packages.
pub open spec fn spec_apt_block(pkgs: Seq<Seq<char>>) -> Seq<char> {
    if pkgs.len() == 0 {
        Seq::empty()
    } else {
        "RUN apt-get update && apt-get install -y "@ + spec_join(pkgs, " "@)
    }
}

/// Emits the OS-package install instruction for a non-empty package
/// list.
fn apt_block(pkgs: &Vec<String>) -> (r: String)
    ensures
        r@ == spec_apt_block(pkgs.deep_view()),
{
    if pkgs.len() == 0 {
        String::new()
    } else {
        let joined = join_strings(pkgs, " ");
        let mut r: String = String::from_str("RUN apt-get update && apt-get install -y ");
        r.append(joined.as_str());
        assert(r@ =~= spec_apt_block(pkgs.deep_view()));
        r
    }
}

/// The build-argument block: every plan variable declared as a
/// build-time `ARG` and re-exported as a runtime `ENV`.
pub open spec fn spec_args_block(vars: Seq<EnvVar>) -> Seq<char> {
    if vars.len() == 0 {
        Seq::empty()
    } else {
        "ARG "@ + spec_join(vars.map_values(|v: EnvVar| v.name@), " "@) + "\nENV "@ + spec_join(
            vars.map_values(|v: EnvVar| v.name@ + "=$"@ + v.name@),
            " "@,
        )
    }
}

/// Emits the variable block making plan variables visible both during
/// the build and in the running container.
fn args_block(vars: &Vec<EnvVar>) -> (r: String)
    ensures
        r@ == spec_args_block(vars@),
{
    if vars.len() == 0 {
        return String::new();
    }
    let ghost vv: Seq<EnvVar> = vars@;
    let mut names: Vec<String> = Vec::new();
    let mut exports: Vec<String> = Vec::new();
    let mut i: usize = 0;
    while i < vars.len()
        invariant
            0 <= i <= vars.len(),
            names.len() == i,
            exports.len() == i,
            forall|j: int| 0 <= j < i ==> names@[j]@ == vv[j].name@,
            forall|j: int| 0 <= j < i ==> exports@[j]@ == vv[j].name@ + "=$"@ + vv[j].name@,
        decreases vars.len() - i,
    {
        let name: String = vars[i].name.clone();
        let mut export: String = vars[i].name.clone();
        export.append("=$");
        export.append(vars[i].name.as_str());
        names.push(name);
        exports.push(export);
        i = i + 1;
    }
    assert(names.deep_view() =~= vv.map_values(|v: EnvVar| v.name@));
    assert(exports.deep_view() =~= vv.map_values(|v: EnvVar| v.name@ + "=$"@ + v.name@));
    let names_joined = join_strings(&names, " ");
    let exports_joined = join_strings(&exports, " ");
    let mut r: String = String::from_str("ARG ");
    r.append(names_joined.as_str());
    r.append("\nENV ");
    r.append(exports_joined.as_str());
    assert(r@ =~= spec_args_block(vv));
    r
}

/// The copy instructions staging every static asset from the context's
/// reserved asset directory into its destination, newline-joined.
pub open spec fn spec_assets_block(assets: Seq<StaticAsset>) -> Seq<char> {
    if assets.len() == 0 {
        Seq::empty()
    } else {
        spec_join(
            assets.map_values(|a: StaticAsset| "COPY assets/"@ + a.name@ + " /assets/"@ + a.name@),
            "\n"@,
        )
    }
}

/// Emits one copy instruction per static asset of the plan.
fn assets_block(assets: &Vec<StaticAsset>) -> (r: String)
    ensures
        r@ == spec_assets_block(assets@),
{
    if assets.len() == 0 {
        return String::new();
    }
    let ghost av: Seq<StaticAsset> = assets@;
    let mut lines: Vec<String> = Vec::new();
    let mut i: usize = 0;
    while i < assets.len()
        invariant
            0 <= i <= assets.len(),
            lines.len() == i,
            forall|j: int|
                0 <= j < i ==> lines@[j]@ == "COPY assets/"@ + av[j].name@ + " /assets/"@
                    + av[j].name@,
        decreases assets.len() - i,
    {
        let mut line: String = String::from_str("COPY assets/");
        line.append(assets[i].name.as_str());
        line.append(" /assets/");
        line.append(assets[i].name.as_str());
        lines.push(line);
        i = i + 1;
    }
    assert(lines.deep_view() =~= av.map_values(
        |a: StaticAsset| "COPY assets/"@ + a.name@ + " /assets/"@ + a.name@,
    ));
    join_strings(&lines, "\n")
}

/// The base image of the plan's setup phase; empty without one.
pub open spec fn spec_setup_base(p: BuildPlan) -> Seq<char> {
    match p.setup {
        Option::Some(s) => s.base_image@,
        Option::None => Seq::empty(),
    }
}

/// The setup phase's extra copied files; empty without any.
pub open spec fn spec_setup_only(p: BuildPlan) -> Seq<Seq<char>> {
    match p.setup {
        Option::Some(s) => match s.only_include_files {
            Option::Some(f) => f.deep_view(),
            Option::None => Seq::empty(),
        },
        Option::None => Seq::empty(),
    }
}

/// The setup phase's commands; empty without any.
pub open spec fn spec_setup_cmds(p: BuildPlan) -> Seq<Seq<char>> {
    match p.setup {
        Option::Some(s) => match s.cmds {
            Option::Some(c) => c.deep_view(),
            Option::None => Seq::empty(),
        },
        Option::None => Seq::empty(),
    }
}

/// The setup phase's OS packages; empty without any.
pub open spec fn spec_setup_apt(p: BuildPlan) -> Seq<Seq<char>> {
    match p.setup {
        Option::Some(s) => match s.apt_pkgs {
            Option::Some(a) => a.deep_view(),
            Option::None => Seq::empty(),
        },
        Option::None => Seq::empty(),
    }
}

/// The install phase's commands; empty without any.
pub open spec fn spec_install_cmds(p: BuildPlan) -> Seq<Seq<char>> {
    match p.install {
        Option::Some(ip) => match ip.cmds {
            Option::Some(c) => c.deep_view(),
            Option::None => Seq::empty(),
        },
        Option::None => Seq::empty(),
    }
}

/// The install phase's copy restriction, kept optional: absence means
/// the whole tree is copied at install time.
pub open spec fn spec_install_only(p: BuildPlan) -> Option<Seq<Seq<char>>> {
    match p.install {
        Option::Some(ip) => ip.only_include_files.deep_view(),
        Option::None => Option::None,
    }
}

/// The install phase's cache directories, if any.
pub open spec fn spec_install_cache_dirs(p: BuildPlan) -> Option<Seq<Seq<char>>> {
    match p.install {
        Option::Some(ip) => ip.cache_directories.deep_view(),
        Option::None => Option::None,
    }
}

/// The install phase's extra `PATH` entries, if any.
pub open spec fn spec_install_paths(p: BuildPlan) -> Option<Seq<Seq<char>>> {
    match p.install {
        Option::Some(ip) => ip.paths.deep_view(),
        Option::None => Option::None,
    }
}

/// The build phase's commands; empty without any.
pub open spec fn spec_build_cmds(p: BuildPlan) -> Seq<Seq<char>> {
    match p.build {
        Option::Some(b) => match b.cmds {
            Option::Some(c) => c.deep_view(),
            Option::None => Seq::empty(),
        },
        Option::None => Seq::empty(),
    }
}

/// The build phase's copy restriction, if any.
pub open spec fn spec_build_only(p: BuildPlan) -> Option<Seq<Seq<char>>> {
    match p.build {
        Option::Some(b) => b.only_include_files.deep_view(),
        Option::None => Option::None,
    }
}

/// The build phase's cache directories, if any.
pub open spec fn spec_build_cache_dirs(p: BuildPlan) -> Option<Seq<Seq<char>>> {
    match p.build {
        Option::Some(b) => b.cache_directories.deep_view(),
        Option::None => Option::None,
    }
}

/// The start phase's command, if any.
pub open spec fn spec_start_cmd(p: BuildPlan) -> Option<Seq<char>> {
    match p.start {
        Option::Some(s) => s.cmd.deep_view(),
        Option::None => Option::None,
    }
}

/// The start phase's alternate run image, if any.
pub open spec fn spec_start_run_image(p: BuildPlan) -> Option<Seq<char>> {
    match p.start {
        Option::Some(s) => s.run_image.deep_view(),
        Option::None => Option::None,
    }
}

/// The start phase's copy restriction, if any.
pub open spec fn spec_start_only(p: BuildPlan) -> Option<Seq<Seq<char>>> {
    match p.start {
        Option::Some(s) => s.only_include_files.deep_view(),
        Option::None => Option::None,
    }
}

/// The plan's environment variables; empty without any.
pub open spec fn spec_plan_vars(p: BuildPlan) -> Seq<EnvVar> {
    match p.variables {
        Option::Some(v) => v@,
        Option::None => Seq::empty(),
    }
}

/// The plan's static assets; empty without any.
pub open spec fn spec_plan_assets(p: BuildPlan) -> Seq<StaticAsset> {
    match p.static_assets {
        Option::Some(a) => a@,
        Option::None => Seq::empty(),
    }
}

/// The files the install phase copies: its restriction if present, else
/// the whole build context.
pub open spec fn spec_install_files(p: BuildPlan) -> Seq<Seq<char>> {
    match spec_install_only(p) {
        Option::Some(f) => f,
        Option::None => seq!["."@],
    }
}

/// The files the build phase copies: its restriction if present; else
/// nothing when the install phase already copied the whole tree, and the
/// whole tree otherwise.
pub open spec fn spec_build_files(p: BuildPlan) -> Seq<Seq<char>> {
    match spec_build_only(p) {
        Option::Some(f) => f,
        Option::None => if spec_install_only(p) is None {
            Seq::empty()
        } else {
            seq!["."@]
        },
    }
}

/// The `NIXPACKS_NO_CACHE` override is set to a truthy value.
pub open spec fn spec_no_cache_env(env: Environment) -> bool {
    match spec_env_lookup(env.variables@, "NIXPACKS_"@ + "NO_CACHE"@) {
        Option::Some(v) => v == "1"@ || v == "true"@,
        Option::None => false,
    }
}

/// The cache key that synthesis actually uses: the configured key,
/// unless caching is switched off by option or environment override.
pub open spec fn spec_effective_cache_key(
    opts: DockerBuilderOptions,
    env: Environment,
) -> Option<Seq<char>> {
    if !opts.no_cache && !spec_no_cache_env(env) {
        opts.cache_key.deep_view()
    } else {
        Option::None
    }
}

/// The build-time `PATH` extension line, when the install phase declares
/// extra path entries.
pub open spec fn spec_build_path_line(p: BuildPlan) -> Seq<char> {
    match spec_install_paths(p) {
        Option::Some(paths) => "ENV PATH "@ + spec_join(paths, ":"@) + ":$PATH"@,
        Option::None => Seq::empty(),
    }
}

/// The shell-profile append that extends `PATH` for the runtime
/// container as well.
pub open spec fn spec_run_path_line(p: BuildPlan) -> Seq<char> {
    match spec_install_paths(p) {
        Option::Some(paths) => "RUN printf '\\nPATH="@ + spec_join(paths, ":"@)
            + ":$PATH' >> /root/.profile"@,
        Option::None => Seq::empty(),
    }
}

/// The start instruction: `CMD <command>`, or nothing when the plan has
/// no start command.
pub open spec fn spec_start_line(p: BuildPlan) -> Seq<char> {
    match spec_start_cmd(p) {
        Option::Some(c) => "CMD "@ + c,
        Option::None => Seq::empty(),
    }
}

/// The final-stage setup: with a run image, a second `FROM` stage that
/// carries over TLS trust roots and copies the start phase's files (or
/// the whole application directory) from the first stage; without one,
/// an ordinary copy of the start files into the single stage.
pub open spec fn spec_run_image_setup(p: BuildPlan) -> Seq<char> {
    match spec_start_run_image(p) {
        Option::Some(ri) => "\n                FROM "@ + ri
            + "\n                WORKDIR /app/\n                COPY --from=0 /etc/ssl/certs /etc/ssl/certs\n                RUN true\n                "@
            + spec_copy_from_command(
            "0"@,
            match spec_start_only(p) {
                Option::Some(f) => f,
                Option::None => Seq::empty(),
            },
            "/app/"@,
        ) + "\n            "@,
        Option::None => spec_copy_command(
            match spec_start_only(p) {
                Option::Some(f) => f,
                Option::None => seq!["."@],
            },
            "/app/"@,
        ),
    }
}

/// The copy bringing the environment expression and the setup phase's
/// extra files into the image.
pub open spec fn spec_setup_copy_line(p: BuildPlan) -> Seq<char> {
    "COPY "@ + spec_join(seq![".nixpacks/environment.nix"@] + spec_setup_only(p), " "@) + " /app/"@
}

/// Every line of the synthesized recipe, in order. Lines that a plan
/// does not need are empty rather than absent, so the layout is fixed.
pub open spec fn spec_dockerfile_lines(
    p: BuildPlan,
    opts: DockerBuilderOptions,
    env: Environment,
) -> Seq<Seq<char>> {
    let ck = spec_effective_cache_key(opts, env);
    seq![
        "FROM "@ + spec_setup_base(p),
        Seq::<char>::empty(),
        "WORKDIR /app/"@,
        Seq::<char>::empty(),
        "# Setup"@,
        spec_setup_copy_line(p),
        "RUN nix-env -if environment.nix"@,
        spec_apt_block(spec_setup_apt(p)),
        spec_run_block(spec_setup_cmds(p)),
        Seq::<char>::empty(),
        spec_assets_block(spec_plan_assets(p)),
        Seq::<char>::empty(),
        "# Load environment variables"@,
        spec_args_block(spec_plan_vars(p)),
        Seq::<char>::empty(),
        "# Install"@,
        spec_copy_command(spec_install_files(p), "/app/"@),
        spec_run_mount_block(
            spec_install_cmds(p),
            spec_cache_mount(ck, spec_install_cache_dirs(p)),
        ),
        Seq::<char>::empty(),
        spec_build_path_line(p),
        spec_run_path_line(p),
        Seq::<char>::empty(),
        "# Build"@,
        spec_copy_command(spec_build_files(p), "/app/"@),
        spec_run_mount_block(spec_build_cmds(p), spec_cache_mount(ck, spec_build_cache_dirs(p))),
        Seq::<char>::empty(),
        "# Start"@,
        spec_run_image_setup(p),
        spec_start_line(p),
        Seq::<char>::empty(),
    ]
}

/// The full recipe text: the fixed line layout, newline-joined. The
/// same plan, options and environment always give this same text.
pub open spec fn spec_dockerfile(
    p: BuildPlan,
    opts: DockerBuilderOptions,
    env: Environment,
) -> Seq<char> {
    spec_join(spec_dockerfile_lines(p, opts, env), "\n"@)
}

/// Emits the first `FROM` line of the recipe.
fn emit_from_line(plan: &BuildPlan) -> (r: String)
    ensures
        r@ == "FROM "@ + spec_setup_base(*plan),
{
    let mut r: String = String::from_str("FROM ");
    if let Option::Some(s) = &plan.setup {
        r.append(s.base_image.as_str());
    }
    assert(r@ =~= "FROM "@ + spec_setup_base(*plan));
    r
}

/// Emits the setup-stage copy of the environment expression and the
/// setup phase's extra files.
fn emit_setup_copy(plan: &BuildPlan) -> (r: String)
    ensures
        r@ == spec_setup_copy_line(*plan),
{
    let mut setup_files: Vec<String> = Vec::new();
    setup_files.push(".nixpacks/environment.nix".to_owned());
    if let Option::Some(s) = &plan.setup {
        if let Option::Some(f) = &s.only_include_files {
            let mut extra = clone_string_vec(f);
            setup_files.append(&mut extra);
        }
    }
    assert(setup_files.deep_view() =~= seq![".nixpacks/environment.nix"@] + spec_setup_only(*plan));
    let sf_joined = join_strings(&setup_files, " ");
    let mut r: String = String::from_str("COPY ");
    r.append(sf_joined.as_str());
    r.append(" /app/");
    r
}

/// Emits the OS-package instruction of the setup phase.
fn emit_apt_line(plan: &BuildPlan) -> (r: String)
    ensures
        r@ == spec_apt_block(spec_setup_apt(*plan)),
{
    let empty_cmds: Vec<String> = Vec::new();
    assert(empty_cmds.deep_view() =~= Seq::<Seq<char>>::empty());
    match &plan.setup {
        Option::Some(s) => match &s.apt_pkgs {
            Option::Some(a) => apt_block(a),
            Option::None => apt_block(&empty_cmds),
        },
        Option::None => apt_block(&empty_cmds),
    }
}

/// Emits the setup phase's `RUN` lines.
fn emit_setup_cmds(plan: &BuildPlan) -> (r: String)
    ensures
        r@ == spec_run_block(spec_setup_cmds(*plan)),
{
    let empty_cmds: Vec<String> = Vec::new();
    assert(empty_cmds.deep_view() =~= Seq::<Seq<char>>::empty());
    match &plan.setup {
        Option::Some(s) => match &s.cmds {
            Option::Some(c) => run_block(c),
            Option::None => run_block(&empty_cmds),
        },
        Option::None => run_block(&empty_cmds),
    }
}

/// Emits the static-asset copy lines of the plan.
fn emit_assets(plan: &BuildPlan) -> (r: String)
    ensures
        r@ == spec_assets_block(spec_plan_assets(*plan)),
{
    let empty_assets: Vec<StaticAsset> = Vec::new();
    match &plan.static_assets {
        Option::Some(a) => assets_block(a),
        Option::None => assets_block(&empty_assets),
    }
}

/// Emits the variable declaration block of the plan.
fn emit_args(plan: &BuildPlan) -> (r: String)
    ensures
        r@ == spec_args_block(spec_plan_vars(*plan)),
{
    let empty_vars: Vec<EnvVar> = Vec::new();
    match &plan.variables {
        Option::Some(v) => args_block(v),
        Option::None => args_block(&empty_vars),
    }
}

/// Emits the install-stage copy: the phase's restriction, or the whole
/// tree when it has none.
fn emit_install_copy(plan: &BuildPlan) -> (r: String)
    ensures
        r@ == spec_copy_command(spec_install_files(*plan), "/app/"@),
{
    let mut dot_files: Vec<String> = Vec::new();
    dot_files.push(".".to_owned());
    assert(dot_files.deep_view() =~= seq!["."@]);
    match &plan.install {
        Option::Some(ip) => match &ip.only_include_files {
            Option::Some(f) => {
                let fs = f.as_slice();
                assert(fs.deep_view() =~= f.deep_view());
                get_copy_command(fs, "/app/")
            },
            Option::None => get_copy_command(dot_files.as_slice(), "/app/"),
        },
        Option::None => get_copy_command(dot_files.as_slice(), "/app/"),
    }
}

/// Emits the install phase's `RUN` lines with its cache mounts.
fn emit_install_cmds(plan: &BuildPlan, cache_key: &Option<String>) -> (r: String)
    ensures
        r@ == spec_run_mount_block(
            spec_install_cmds(*plan),
            spec_cache_mount(cache_key.deep_view(), spec_install_cache_dirs(*plan)),
        ),
{
    let empty_cmds: Vec<String> = Vec::new();
    assert(empty_cmds.deep_view() =~= Seq::<Seq<char>>::empty());
    let none_dirs: Option<Vec<String>> = Option::None;
    let mount: String = match &plan.install {
        Option::Some(ip) => get_cache_mount(cache_key, &ip.cache_directories),
        Option::None => get_cache_mount(cache_key, &none_dirs),
    };
    match &plan.install {
        Option::Some(ip) => match &ip.cmds {
            Option::Some(c) => run_mount_block(c, mount.as_str()),
            Option::None => run_mount_block(&empty_cmds, mount.as_str()),
        },
        Option::None => run_mount_block(&empty_cmds, mount.as_str()),
    }
}

/// Emits the pair of `PATH` extension lines when the install phase
/// declares extra path entries; two empty lines otherwise.
fn emit_path_lines(plan: &BuildPlan) -> (r: (String, String))
    ensures
        r.0@ == spec_build_path_line(*plan),
        r.1@ == spec_run_path_line(*plan),
{
    if let Option::Some(ip) = &plan.install {
        if let Option::Some(paths) = &ip.paths {
            let joined = join_strings(paths, ":");
            let mut bp: String = String::from_str("ENV PATH ");
            bp.append(joined.as_str());
            bp.append(":$PATH");
            let mut rp: String = String::from_str("RUN printf '\\nPATH=");
            rp.append(joined.as_str());
            rp.append(":$PATH' >> /root/.profile");
            return (bp, rp);
        }
    }
    (String::new(), String::new())
}

/// Emits the build-stage copy: the phase's restriction; else nothing
/// when install already copied the whole tree, and the whole tree
/// otherwise.
fn emit_build_copy(plan: &BuildPlan) -> (r: String)
    ensures
        r@ == spec_copy_command(spec_build_files(*plan), "/app/"@),
{
    let empty_files: Vec<String> = Vec::new();
    let mut dot_files: Vec<String> = Vec::new();
    dot_files.push(".".to_owned());
    assert(dot_files.deep_view() =~= seq!["."@]);
    if let Option::Some(b) = &plan.build {
        if let Option::Some(f) = &b.only_include_files {
            let fs = f.as_slice();
            assert(fs.deep_view() =~= f.deep_view());
            return get_copy_command(fs, "/app/");
        }
    }
    let install_unrestricted: bool = match &plan.install {
        Option::Some(ip) => ip.only_include_files.is_none(),
        Option::None => true,
    };
    if install_unrestricted {
        let es = empty_files.as_slice();
        assert(es.deep_view() =~= Seq::<Seq<char>>::empty());
        get_copy_command(es, "/app/")
    } else {
        get_copy_command(dot_files.as_slice(), "/app/")
    }
}

/// Emits the build phase's `RUN` lines with its cache mounts.
fn emit_build_cmds(plan: &BuildPlan, cache_key: &Option<String>) -> (r: String)
    ensures
        r@ == spec_run_mount_block(
            spec_build_cmds(*plan),
            spec_cache_mount(cache_key.deep_view(), spec_build_cache_dirs(*plan)),
        ),
{
    let empty_cmds: Vec<String> = Vec::new();
    assert(empty_cmds.deep_view() =~= Seq::<Seq<char>>::empty());
    let none_dirs: Option<Vec<String>> = Option::None;
    let mount: String = match &plan.build {
        Option::Some(b) => get_cache_mount(cache_key, &b.cache_directories),
        Option::None => get_cache_mount(cache_key, &none_dirs),
    };
    match &plan.build {
        Option::Some(b) => match &b.cmds {
            Option::Some(c) => run_mount_block(c, mount.as_str()),
            Option::None => run_mount_block(&empty_cmds, mount.as_str()),
        },
        Option::None => run_mount_block(&empty_cmds, mount.as_str()),
    }
}

/// Emits the final-stage setup: the second `FROM` stage when the start
/// phase names a run image, else an ordinary copy of the start files.
fn emit_run_image_setup(plan: &BuildPlan) -> (r: String)
    ensures
        r@ == spec_run_image_setup(*plan),
{
    let empty_files: Vec<String> = Vec::new();
    let mut dot_files: Vec<String> = Vec::new();
    dot_files.push(".".to_owned());
    assert(dot_files.deep_view() =~= seq!["."@]);
    match &plan.start {
        Option::Some(sp) => match &sp.run_image {
            Option::Some(ri) => {
                let copy_cmd: String = match &sp.only_include_files {
                    Option::Some(f) => {
                        let fs = f.as_slice();
                        assert(fs.deep_view() =~= f.deep_view());
                        get_copy_from_command("0", fs, "/app/")
                    },
                    Option::None => {
                        let es = empty_files.as_slice();
                        assert(es.deep_view() =~= Seq::<Seq<char>>::empty());
                        get_copy_from_command("0", es, "/app/")
                    },
                };
                let mut s: String = String::from_str("\n                FROM ");
                s.append(ri.as_str());
                s.append(
                    "\n                WORKDIR /app/\n                COPY --from=0 /etc/ssl/certs /etc/ssl/certs\n                RUN true\n                ",
                );
                s.append(copy_cmd.as_str());
                s.append("\n            ");
                s
            },
            Option::None => match &sp.only_include_files {
                Option::Some(f) => {
                    let fs = f.as_slice();
                    assert(fs.deep_view() =~= f.deep_view());
                    get_copy_command(fs, "/app/")
                },
                Option::None => get_copy_command(dot_files.as_slice(), "/app/"),
            },
        },
        Option::None => get_copy_command(dot_files.as_slice(), "/app/"),
    }
}

/// Emits the `CMD` line, or an empty line when the plan has no start
/// command.
fn emit_start_line(plan: &BuildPlan) -> (r: String)
    ensures
        r@ == spec_start_line(*plan),
{
    match &plan.start {
        Option::Some(sp) => match &sp.cmd {
            Option::Some(c) => {
                let mut s: String = String::from_str("CMD ");
                s.append(c.as_str());
                s
            },
            Option::None => String::new(),
        },
        Option::None => String::new(),
    }
}

impl DockerBuilder {
    /// The cache key that synthesis uses, after the no-cache option and
    /// the `NIXPACKS_NO_CACHE` override are taken into account.
    fn effective_cache_key(&self, env: &Environment) -> (r: Option<String>)
        ensures
            r.deep_view() == spec_effective_cache_key(self.options, *env),
    {
        if !self.options.no_cache && !env.is_config_variable_truthy("NO_CACHE") {
            match &self.options.cache_key {
                Option::Some(k) => Option::Some(k.clone()),
                Option::None => Option::None,
            }
        } else {
            Option::None
        }
    }

    /// Lowers a build plan into the recipe text an image-build engine
    /// consumes. Pure and total over any plan shape: fatal validation of
    /// a missing start command happens before synthesis is invoked.
    #[verifier::rlimit(100)]
    pub fn create_dockerfile(&self, plan: &BuildPlan, env: &Environment) -> (r: String)
        ensures
            r@ == spec_dockerfile(*plan, self.options, *env),
    {
        let ghost p: BuildPlan = *plan;
        let cache_key = self.effective_cache_key(env);
        let l_from = emit_from_line(plan);
        let l_setup_copy = emit_setup_copy(plan);
        let l_apt = emit_apt_line(plan);
        let l_setup_cmd = emit_setup_cmds(plan);
        let l_assets = emit_assets(plan);
        let l_args = emit_args(plan);
        let l_install_copy = emit_install_copy(plan);
        let l_install_cmd = emit_install_cmds(plan, &cache_key);
        let path_lines = emit_path_lines(plan);
        let l_build_path = path_lines.0;
        let l_run_path = path_lines.1;
        let l_build_copy = emit_build_copy(plan);
        let l_build_cmd = emit_build_cmds(plan, &cache_key);
        let l_run_image = emit_run_image_setup(plan);
        let l_start = emit_start_line(plan);

        let mut lines: Vec<String> = Vec::new();
        lines.push(l_from);
        lines.push(String::new());
        lines.push(String::from_str("WORKDIR /app/"));
        lines.push(String::new());
        lines.push(String::from_str("# Setup"));
        lines.push(l_setup_copy);
        lines.push(String::from_str("RUN nix-env -if environment.nix"));
        lines.push(l_apt);
        lines.push(l_setup_cmd);
        lines.push(String::new());
        lines.push(l_assets);
        lines.push(String::new());
        lines.push(String::from_str("# Load environment variables"));
        lines.push(l_args);
        lines.push(String::new());
        lines.push(String::from_str("# Install"));
        lines.push(l_install_copy);
        lines.push(l_install_cmd);
        lines.push(String::new());
        lines.push(l_build_path);
        lines.push(l_run_path);
        lines.push(String::new());
        lines.push(String::from_str("# Build"));
        lines.push(l_build_copy);
        lines.push(l_build_cmd);
        lines.push(String::new());
        lines.push(String::from_str("# Start"));
        lines.push(l_run_image);
        lines.push(l_start);
        lines.push(String::new());
        assert(lines.deep_view() =~= spec_dockerfile_lines(p, self.options, *env));
        join_strings(&lines, "\n")
    }
}

/// `flag` followed by each item in turn: the repeated-option calling
/// convention of the build engine.
pub open spec fn spec_flag_pairs(flag: Seq<char>, items: Seq<Seq<char>>) -> Seq<Seq<char>>
    decreases items.len(),
{
    if items.len() == 0 {
        Seq::empty()
    } else {
        seq![flag, items[0]] + spec_flag_pairs(flag, items.skip(1))
    }
}

/// One `--build-arg NAME=VALUE` pair per plan variable.
pub open spec fn spec_build_arg_pairs(vars: Seq<EnvVar>) -> Seq<Seq<char>>
    decreases vars.len(),
{
    if vars.len() == 0 {
        Seq::empty()
    } else {
        seq!["--build-arg"@, vars[0].name@ + "="@ + vars[0].value@] + spec_build_arg_pairs(
            vars.skip(1),
        )
    }
}

/// The full argument list handed to the build engine: context and
/// recipe paths, image tag, cache control, the plan's variables as
/// build arguments, and the caller's tags, labels and platforms.
pub open spec fn spec_docker_build_args(
    p: BuildPlan,
    name: Seq<char>,
    root_path: Seq<char>,
    dockerfile_path: Seq<char>,
    opts: DockerBuilderOptions,
) -> Seq<Seq<char>> {
    seq!["build"@, root_path, "-t"@, name, "-f"@, dockerfile_path] + (if opts.quiet {
        seq!["--quiet"@]
    } else {
        Seq::empty()
    }) + (if opts.no_cache {
        seq!["--no-cache"@]
    } else {
        Seq::empty()
    }) + (match opts.import_cache.deep_view() {
        Option::Some(v) => seq!["--import-cache"@, v],
        Option::None => Seq::empty(),
    }) + (match opts.export_cache.deep_view() {
        Option::Some(v) => seq!["--export-cache"@, v],
        Option::None => Seq::empty(),
    }) + spec_build_arg_pairs(spec_plan_vars(p)) + spec_flag_pairs("-t"@, opts.tags.deep_view())
        + spec_flag_pairs("--label"@, opts.labels.deep_view()) + spec_flag_pairs(
        "--platform"@,
        opts.platform.deep_view(),
    )
}

/// Appends `flag` followed by each item to `out`.
fn push_flag_pairs(out: &mut Vec<String>, flag: &str, items: &Vec<String>)
    ensures
        final(out)@.len() == old(out)@.len() + 2 * items@.len(),
        final(out).deep_view() == old(out).deep_view() + spec_flag_pairs(
            flag@,
            items.deep_view(),
        ),
{
    let ghost iv: Seq<Seq<char>> = items.deep_view();
    let ghost full = old(out).deep_view() + spec_flag_pairs(flag@, iv);
    proof {
        assert(iv.skip(0) =~= iv);
    }
    let mut i: usize = 0;
    while i < items.len()
        invariant
            0 <= i <= items.len(),
            out@.len() == old(out)@.len() + 2 * i,
            full == out.deep_view() + spec_flag_pairs(flag@, iv.skip(i as int)),
        decreases items.len() - i,
    {
        assert(iv.skip(i as int)[0] == iv[i as int]);
        assert(iv[i as int] == items[i as int].deep_view());
        out.push(flag.to_owned());
        out.push(items[i].clone());
        proof {
            assert(iv.skip(i as int).skip(1) =~= iv.skip(i as int + 1));
            assert(out.deep_view() + spec_flag_pairs(flag@, iv.skip(i as int + 1)) =~= full);
        }
        i = i + 1;
    }
    proof {
        assert(spec_flag_pairs(flag@, iv.skip(items.len() as int)) =~= Seq::<Seq<char>>::empty());
        assert(out.deep_view() + Seq::<Seq<char>>::empty() =~= out.deep_view());
    }
}

/// Computes the argument list of the image-build invocation; the
/// invoking layer turns it into a process call.
pub fn get_docker_build_args(
    plan: &BuildPlan,
    name: &str,
    root_path: &str,
    dockerfile_path: &str,
    options: &DockerBuilderOptions,
) -> (r: Vec<String>)
    ensures
        r.deep_view() == spec_docker_build_args(*plan, name@, root_path@, dockerfile_path@,
            *options),
{
    let ghost p: BuildPlan = *plan;
    let mut args: Vec<String> = Vec::new();
    args.push("build".to_owned());
    args.push(root_path.to_owned());
    args.push("-t".to_owned());
    args.push(name.to_owned());
    args.push("-f".to_owned());
    args.push(dockerfile_path.to_owned());
    if options.quiet {
        args.push("--quiet".to_owned());
    }
    if options.no_cache {
        args.push("--no-cache".to_owned());
    }
    if let Option::Some(v) = &options.import_cache {
        args.push("--import-cache".to_owned());
        args.push(v.clone());
    }
    if let Option::Some(v) = &options.export_cache {
        args.push("--export-cache".to_owned());
        args.push(v.clone());
    }
    let ghost head = args.deep_view();
    proof {
        assert(head =~= seq!["build"@, root_path@, "-t"@, name@, "-f"@, dockerfile_path@] + (
        if options.quiet {
            seq!["--quiet"@]
        } else {
            Seq::<Seq<char>>::empty()
        }) + (if options.no_cache {
            seq!["--no-cache"@]
        } else {
            Seq::<Seq<char>>::empty()
        }) + (match options.import_cache.deep_view() {
            Option::Some(v) => seq!["--import-cache"@, v],
            Option::None => Seq::<Seq<char>>::empty(),
        }) + (match options.export_cache.deep_view() {
            Option::Some(v) => seq!["--export-cache"@, v],
            Option::None => Seq::<Seq<char>>::empty(),
        }));
    }
    let empty_vars: Vec<EnvVar> = Vec::new();
    let vars: &Vec<EnvVar> = match &plan.variables {
        Option::Some(v) => v,
        Option::None => &empty_vars,
    };
    let ghost vv: Seq<EnvVar> = vars@;
    let ghost mid = head + spec_build_arg_pairs(spec_plan_vars(p));
    proof {
        assert(vv.skip(0) =~= vv);
    }
    let mut i: usize = 0;
    while i < vars.len()
        invariant
            0 <= i <= vars.len(),
            mid == args.deep_view() + spec_build_arg_pairs(vv.skip(i as int)),
        decreases vars.len() - i,
    {
        assert(vv.skip(i as int)[0] == vv[i as int]);
        args.push("--build-arg".to_owned());
        let mut pair: String = vars[i].name.clone();
        pair.append("=");
        pair.append(vars[i].value.as_str());
        args.push(pair);
        proof {
            assert(vv.skip(i as int).skip(1) =~= vv.skip(i as int + 1));
            assert(args.deep_view() + spec_build_arg_pairs(vv.skip(i as int + 1)) =~= mid);
        }
        i = i + 1;
    }
    proof {
        assert(spec_build_arg_pairs(vv.skip(vars.len() as int)) =~= Seq::<Seq<char>>::empty());
        assert(args.deep_view() + Seq::<Seq<char>>::empty() =~= args.deep_view());
    }
    push_flag_pairs(&mut args, "-t", &options.tags);
    push_flag_pairs(&mut args, "--label", &options.labels);
    push_flag_pairs(&mut args, "--platform", &options.platform);
    assert(args.deep_view() =~= spec_docker_build_args(p, name@, root_path@, dockerfile_path@,
        *options));
    args
}

/// Determinism law: for a fixed plan, fixed options and a fixed
/// environment, synthesis yields one text; two syntheses of the same
/// inputs are identical.
pub proof fn lemma_dockerfile_deterministic(
    p: BuildPlan,
    opts: DockerBuilderOptions,
    env: Environment,
    r1: Seq<char>,
    r2: Seq<char>,
)
    requires
        r1 == spec_dockerfile(p, opts, env),
        r2 == spec_dockerfile(p, opts, env),
    ensures
        r1 == r2,
{
}

/// Joins the strings of a slice, separated by `sep`.
fn join_strings_slice(parts: &[String], sep: &str) -> (r: String)
    ensures
        r@ == spec_join(parts.deep_view(), sep@),
{
    let ghost pd: Seq<Seq<char>> = parts.deep_view();
    let mut v: Vec<String> = Vec::new();
    let mut i: usize = 0;
    while i < parts.len()
        invariant
            0 <= i <= parts.len(),
            v.len() == i,
            forall|j: int| 0 <= j < i ==> v.deep_view()[j] == pd[j],
        decreases parts.len() - i,
    {
        assert(pd[i as int] == parts[i as int].deep_view());
        let s: String = parts[i].clone();
        v.push(s);
        i = i + 1;
    }
    assert(v.deep_view() =~= pd);
    join_strings(&v, sep)
}

} // verus!
