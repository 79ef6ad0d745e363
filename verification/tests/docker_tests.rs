use nixpacks::docker::{
    get_cache_mount, get_copy_command, get_copy_from_command, get_docker_build_args,
    get_exec_command, get_send_cached_dirs_command, DockerBuilder, DockerBuilderOptions,
};
use nixpacks::environment::{EnvVar, Environment};
use nixpacks::plan::{BuildPhase, BuildPlan, InstallPhase, SetupPhase, StartPhase};
use nixpacks::nix::Pkg;

#[test]
fn docker_test_get_cache_mount() {
    let cache_key = Some("cache_key".to_string());
    let cache_directories = Some(vec!["dir1".to_string(), "dir2".to_string()]);

    let expected = "--mount=type=cache,id=cache_key-dir1,target=dir1 --mount=type=cache,id=cache_key-dir2,target=dir2";
    let actual = get_cache_mount(&cache_key, &cache_directories);

    assert_eq!(expected, actual);
}

#[test]
fn docker_test_get_cache_mount_invalid_cache_key() {
    let cache_key = Some("my cache key".to_string());
    let cache_directories = Some(vec!["dir1".to_string(), "dir2".to_string()]);

    let expected = "--mount=type=cache,id=my-cache-key-dir1,target=dir1 --mount=type=cache,id=my-cache-key-dir2,target=dir2";
    let actual = get_cache_mount(&cache_key, &cache_directories);

    assert_eq!(expected, actual);
}

#[test]
fn utils_test_get_cache_mount() {
    let cache_key = Some("cache_key".to_string());
    let cache_directories = Some(vec!["dir1".to_string(), "dir2".to_string()]);

    let expected = "--mount=type=cache,id=cache_key-dir1,target=dir1 --mount=type=cache,id=cache_key-dir2,target=dir2";
    let actual = get_cache_mount(&cache_key, &cache_directories);

    assert_eq!(expected, actual);
}

#[test]
fn utils_test_get_cache_mount_invalid_cache_key() {
    let cache_key = Some("my cache key".to_string());
    let cache_directories = Some(vec!["dir1".to_string(), "dir2".to_string()]);

    let expected = "--mount=type=cache,id=my-cache-key-dir1,target=dir1 --mount=type=cache,id=my-cache-key-dir2,target=dir2";
    let actual = get_cache_mount(&cache_key, &cache_directories);

    assert_eq!(expected, actual);
}

#[test]
fn test_get_cache_mount_none() {
    let cache_directories = Some(vec!["dir1".to_string()]);
    assert_eq!("", get_cache_mount(&None, &cache_directories));
    assert_eq!("", get_cache_mount(&Some("key".to_string()), &None));
}

#[test]
fn test_get_cache_mount_home_expansion() {
    let cache_key = Some("k".to_string());
    let cache_directories = Some(vec!["~/.m2".to_string()]);
    assert_eq!(
        "--mount=type=cache,id=k--root-.m2,target=/root/.m2",
        get_cache_mount(&cache_key, &cache_directories)
    );
}

#[test]
fn test_get_copy_command() {
    let files = vec!["file1".to_string(), "file2".to_string()];
    let app_dir = "app";

    assert_eq!("".to_owned(), get_copy_command(&[], app_dir));
    assert_eq!(
        format!("COPY {} {}", files.join(" "), app_dir),
        get_copy_command(&files, app_dir)
    );
}

#[test]
fn test_get_copy_from_command() {
    let from = "0";
    let files = vec!["file1".to_string(), "file2".to_string()];
    let app_dir = "app";

    assert_eq!(
        format!("COPY --from=0 {} {}", app_dir, app_dir),
        get_copy_from_command(from, &[], app_dir)
    );
    assert_eq!(
        format!("COPY --from={} {} {}", from, files.join(" "), app_dir),
        get_copy_from_command(from, &files, app_dir)
    );
}

#[test]
fn test_get_copy_from_command_retargets_relative_paths() {
    let files = vec!["./build/libs".to_string()];
    assert_eq!(
        "COPY --from=1 /app/build/libs /app/",
        get_copy_from_command("1", &files, "/app/")
    );
}

#[test]
fn test_get_exec_cmd() {
    assert_eq!(
        "CMD [\"command1\"]".to_string(),
        get_exec_command("command1")
    );

    assert_eq!(
        "CMD [\"command1 command2\"]".to_string(),
        get_exec_command("command1 command2")
    );

    assert_eq!(
        "CMD [\"command1 command2 -l \\\"asdf\\\"\"]".to_string(),
        get_exec_command("command1 command2 -l \"asdf\"")
    );
}

#[test]
fn test_get_send_cached_dirs_command() {
    let dirs = Some(vec!["~/.cache".to_string()]);
    let cmds = get_send_cached_dirs_command("http://server/upload".to_string(), &dirs);
    assert_eq!(
        vec![
            "tar -cf %2froot%2f.cache.tar.gz /root/.cache".to_string(),
            "curl -v -F upload=@%2froot%2f.cache.tar.gz http://server/upload".to_string(),
        ],
        cmds
    );
    let no_cmds = get_send_cached_dirs_command("u".to_string(), &None);
    assert!(no_cmds.is_empty());
}

fn sample_plan() -> BuildPlan {
    let setup = SetupPhase::new(vec![Pkg::new("jdk")]);
    let mut install = InstallPhase::new("mvn install");
    install.cache_directories = Some(vec!["~/.m2".to_string()]);
    let build = BuildPhase::new("mvn package");
    let start = StartPhase::new("java -jar target/app.jar");
    let mut plan = BuildPlan::new(Some(setup), Some(install), Some(build), Some(start));
    plan.variables = Some(vec![EnvVar {
        name: "PORT".to_string(),
        value: "3000".to_string(),
    }]);
    plan
}

#[test]
fn test_create_dockerfile_deterministic() {
    let plan = sample_plan();
    let mut options = DockerBuilderOptions::default();
    options.cache_key = Some("cache_key".to_string());
    let env = Environment::default();
    let builder1 = DockerBuilder::new(options.duplicate());
    let builder2 = DockerBuilder::new(options);
    let first = builder1.create_dockerfile(&plan, &env);
    let second = builder2.create_dockerfile(&plan, &env);
    assert_eq!(first, second);
}

#[test]
fn test_create_dockerfile_layout() {
    let plan = sample_plan();
    let options = DockerBuilderOptions::default();
    let env = Environment::default();
    let builder = DockerBuilder::new(options);
    let dockerfile = builder.create_dockerfile(&plan, &env);
    assert!(dockerfile.starts_with("FROM ghcr.io/railwayapp/nix\n"));
    assert!(dockerfile.contains("WORKDIR /app/"));
    assert!(dockerfile.contains("COPY .nixpacks/environment.nix /app/"));
    assert!(dockerfile.contains("RUN nix-env -if environment.nix"));
    assert!(dockerfile.contains("ARG PORT\nENV PORT=$PORT"));
    assert!(dockerfile.contains("RUN  mvn install"));
    assert!(dockerfile.contains("RUN  mvn package"));
    assert!(dockerfile.contains("CMD java -jar target/app.jar"));
    assert!(dockerfile.ends_with("\n"));
}

#[test]
fn test_create_dockerfile_cache_mounts_enabled_and_disabled() {
    let plan = sample_plan();
    let env = Environment::default();

    let mut with_cache = DockerBuilderOptions::default();
    with_cache.cache_key = Some("cache_key".to_string());
    let dockerfile = DockerBuilder::new(with_cache).create_dockerfile(&plan, &env);
    assert!(dockerfile
        .contains("RUN --mount=type=cache,id=cache_key--root-.m2,target=/root/.m2 mvn install"));

    let mut no_cache = DockerBuilderOptions::default();
    no_cache.cache_key = Some("cache_key".to_string());
    no_cache.no_cache = true;
    let plain = DockerBuilder::new(no_cache).create_dockerfile(&plan, &env);
    assert!(!plain.contains("--mount=type=cache"));

    let mut env_disabled = DockerBuilderOptions::default();
    env_disabled.cache_key = Some("cache_key".to_string());
    let env_no_cache = Environment::new(vec![EnvVar {
        name: "NIXPACKS_NO_CACHE".to_string(),
        value: "1".to_string(),
    }]);
    let plain2 = DockerBuilder::new(env_disabled).create_dockerfile(&plan, &env_no_cache);
    assert!(!plain2.contains("--mount=type=cache"));
}

#[test]
fn test_create_dockerfile_no_start_command_emits_no_cmd() {
    let mut plan = sample_plan();
    plan.start = Some(StartPhase {
        cmd: None,
        run_image: None,
        only_include_files: None,
    });
    let builder = DockerBuilder::new(DockerBuilderOptions::default());
    let dockerfile = builder.create_dockerfile(&plan, &Environment::default());
    assert!(!dockerfile.contains("CMD"));
}

#[test]
fn test_create_dockerfile_run_image_stage() {
    let mut plan = sample_plan();
    plan.start = Some(StartPhase {
        cmd: Some("./app".to_string()),
        run_image: Some("debian:slim".to_string()),
        only_include_files: Some(vec!["./bin".to_string()]),
    });
    let builder = DockerBuilder::new(DockerBuilderOptions::default());
    let dockerfile = builder.create_dockerfile(&plan, &Environment::default());
    assert!(dockerfile.contains("FROM debian:slim"));
    assert!(dockerfile.contains("COPY --from=0 /etc/ssl/certs /etc/ssl/certs"));
    assert!(dockerfile.contains("RUN true"));
    assert!(dockerfile.contains("COPY --from=0 /app/bin /app/"));
}

#[test]
fn test_create_dockerfile_build_copy_suppressed() {
    // No install or build restriction: the whole tree is copied at the
    // install phase (and again for the final stage), while the build
    // phase emits no redundant copy instruction of its own.
    let plan = sample_plan();
    let builder = DockerBuilder::new(DockerBuilderOptions::default());
    let dockerfile = builder.create_dockerfile(&plan, &Environment::default());
    let copies = dockerfile.lines().filter(|l| *l == "COPY . /app/").count();
    assert_eq!(2, copies);

    // A restricted install phase makes the build phase copy the tree.
    let mut restricted = sample_plan();
    let mut install = InstallPhase::new("mvn install");
    install.only_include_files = Some(vec!["pom.xml".to_string()]);
    restricted.install = Some(install);
    let builder = DockerBuilder::new(DockerBuilderOptions::default());
    let dockerfile = builder.create_dockerfile(&restricted, &Environment::default());
    assert!(dockerfile.contains("COPY pom.xml /app/"));
    assert_eq!(
        2,
        dockerfile.lines().filter(|l| *l == "COPY . /app/").count()
    );
}

#[test]
fn test_create_dockerfile_path_extension() {
    let mut plan = sample_plan();
    let mut install = InstallPhase::new("npm ci");
    install.paths = Some(vec!["/app/node_modules/.bin".to_string()]);
    plan.install = Some(install);
    let builder = DockerBuilder::new(DockerBuilderOptions::default());
    let dockerfile = builder.create_dockerfile(&plan, &Environment::default());
    assert!(dockerfile.contains("ENV PATH /app/node_modules/.bin:$PATH"));
    assert!(dockerfile
        .contains("RUN printf '\\nPATH=/app/node_modules/.bin:$PATH' >> /root/.profile"));
}

#[test]
fn test_get_docker_build_args() {
    let plan = sample_plan();
    let mut options = DockerBuilderOptions::default();
    options.quiet = true;
    options.tags = vec!["extra".to_string()];
    options.labels = vec!["team=core".to_string()];
    options.platform = vec!["linux/amd64".to_string()];
    options.import_cache = Some("type=local,src=/cache".to_string());
    let args = get_docker_build_args(&plan, "img", "/ctx", "/ctx/.nixpacks/Dockerfile", &options);
    assert_eq!(
        vec![
            "build".to_string(),
            "/ctx".to_string(),
            "-t".to_string(),
            "img".to_string(),
            "-f".to_string(),
            "/ctx/.nixpacks/Dockerfile".to_string(),
            "--quiet".to_string(),
            "--import-cache".to_string(),
            "type=local,src=/cache".to_string(),
            "--build-arg".to_string(),
            "PORT=3000".to_string(),
            "-t".to_string(),
            "extra".to_string(),
            "--label".to_string(),
            "team=core".to_string(),
            "--platform".to_string(),
            "linux/amd64".to_string(),
        ],
        args
    );
}
