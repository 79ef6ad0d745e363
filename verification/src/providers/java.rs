//! The Java provider: Maven and Gradle strategies, with JDK version
//! inference from wrapper metadata, version files and overrides.
use vstd::prelude::*;

use crate::app::{lemma_read_file_some_iff_includes, spec_includes_dir, spec_includes_file,
    spec_read_file, App};
use crate::environment::{spec_env_lookup, EnvVar, Environment};
use crate::errors::NixpacksError;
use crate::nix::Pkg;
use crate::plan::{BuildPhase, BuildPlan, SetupPhase, StartPhase};
use crate::strutil::{contains_str, parse_i32_or_zero, spec_contains, spec_parse_i32_or_zero,
    spec_trim, trim_str};

verus! {

/// What the Gradle wrapper-metadata regex
/// `(distributionUrl[\S].*[gradle])(-)([0-9|\.]*)` captures as its third
/// group on the first match of a text, if the text matches at all.
pub uninterp spec fn gradle_dist_version_of(s: Seq<char>) -> Option<Seq<char>>;

/// Relies on regex::Regex::captures with the pattern
/// `(distributionUrl[\S].*[gradle])(-)([0-9|\.]*)`: the third capture
/// group of the first match, a function of the text alone.
#[verifier::external_body]
fn gradle_dist_version(s: &str) -> (r: Option<String>)
    ensures
        r.deep_view() == gradle_dist_version_of(s@),
{
    match regex::Regex::new(r"(distributionUrl[\S].*[gradle])(-)([0-9|\.]*)") {
        Ok(re) => re.captures(s).and_then(|c| c.get(3).map(|m| m.as_str().to_owned())),
        Err(_) => None,
    }
}

/// What the permissive version regex
/// `^(?:[\sa-zA-Z-"']*)(\d*)(?:\.*)(\d*)(?:\.*\d*)(?:["']?)$` captures as
/// its first group, if the text matches at all.
pub uninterp spec fn loose_version_digits_of(s: Seq<char>) -> Option<Seq<char>>;

/// Relies on regex::Regex::captures with the pattern
/// `^(?:[\sa-zA-Z-"']*)(\d*)(?:\.*)(\d*)(?:\.*\d*)(?:["']?)$`: the first
/// capture group of the match, a function of the text alone.
#[verifier::external_body]
fn loose_version_digits(s: &str) -> (r: Option<String>)
    ensures
        r.deep_view() == loose_version_digits_of(s@),
{
    match regex::Regex::new(r#"^(?:[\sa-zA-Z-"']*)(\d*)(?:\.*)(\d*)(?:\.*\d*)(?:["']?)$"#) {
        Ok(re) => re.captures(s).and_then(|c| c.get(1).map(|m| m.as_str().to_owned())),
        Err(_) => None,
    }
}

/// What the placeholder regex `\$\{(\w+)` captures as its first group
/// over every match of a text, in text order.
pub uninterp spec fn config_placeholder_names_of(s: Seq<char>) -> Seq<Seq<char>>;

/// Relies on regex::Regex::captures_iter with the pattern `\$\{(\w+)`:
/// the first capture group of every match in text order, a function of
/// the text alone.
#[verifier::external_body]
fn config_placeholder_names(s: &str) -> (r: Vec<String>)
    ensures
        r.deep_view() == config_placeholder_names_of(s@),
{
    let mut out: Vec<String> = Vec::new();
    if let Ok(re) = regex::Regex::new(r"\$\{(\w+)") {
        for c in re.captures_iter(s) {
            if let Some(m) = c.get(1) {
                out.push(m.as_str().to_owned());
            }
        }
    }
    out
}

/// The tree looks like a Maven project: any `pom.*` convention present.
pub open spec fn spec_is_maven_app(app: App) -> bool {
    ||| spec_includes_file(app.files@, "pom.xml"@)
    ||| spec_includes_dir(app.directories.deep_view(), "pom.atom"@)
    ||| spec_includes_dir(app.directories.deep_view(), "pom.clj"@)
    ||| spec_includes_dir(app.directories.deep_view(), "pom.groovy"@)
    ||| spec_includes_file(app.files@, "pom.rb"@)
    ||| spec_includes_file(app.files@, "pom.scala"@)
    ||| spec_includes_file(app.files@, "pom.yaml"@)
    ||| spec_includes_file(app.files@, "pom.yml"@)
}

/// The Maven executable: the project's wrapper when it ships one, the
/// system `mvn` otherwise.
pub open spec fn spec_maven_exe(app: App) -> Seq<char> {
    if spec_includes_file(app.files@, "mvnw"@) && spec_includes_file(
        app.files@,
        ".mvn/wrapper/maven-wrapper.properties"@,
    ) {
        "./mvnw"@
    } else {
        "mvn"@
    }
}

/// The content of a file, or empty text when the tree lacks it.
pub open spec fn spec_read_or_empty(app: App, name: Seq<char>) -> Seq<char> {
    match spec_read_file(app.files@, name) {
        Option::Some(c) => c,
        Option::None => Seq::empty(),
    }
}

/// The port flag inferred from `pom.xml`: WildFly Swarm and Spring Boot
/// applications get their server port wired to `$PORT`.
pub open spec fn spec_port_config(app: App) -> Seq<char> {
    let pom = spec_read_or_empty(app, "pom.xml"@);
    if spec_contains(pom, "<groupId>org.wildfly.swarm"@) {
        "-Dswarm.http.port=$PORT"@
    } else if spec_contains(pom, "<groupId>org.springframework.boot"@) && spec_contains(
        pom,
        "<artifactId>spring-boot"@,
    ) {
        "-Dserver.port=$PORT"@
    } else {
        Seq::empty()
    }
}

/// The Maven start command, with the port flag when a `pom.xml` exists.
pub open spec fn spec_java_start_cmd(app: App) -> Seq<char> {
    if spec_includes_file(app.files@, "pom.xml"@) {
        "java "@ + spec_port_config(app) + " $JAVA_OPTS -jar target/*jar"@
    } else {
        "java $JAVA_OPTS -jar target/*jar"@
    }
}

/// The tree ships the Gradle wrapper script.
pub open spec fn spec_has_gradlew(app: App) -> bool {
    spec_includes_file(app.files@, "gradlew"@)
}

/// The tree holds a Gradle build file.
pub open spec fn spec_has_gradle_build(app: App) -> bool {
    spec_includes_file(app.files@, "build.gradle"@) || spec_includes_file(
        app.files@,
        "build.gradle.kts"@,
    )
}

/// The tree holds a Gradle settings file.
pub open spec fn spec_has_gradle_settings(app: App) -> bool {
    spec_includes_file(app.files@, "settings.gradle"@)
}

/// The tree holds the Gradle wrapper's properties file.
pub open spec fn spec_has_gradle_wrapper_props(app: App) -> bool {
    spec_includes_file(app.files@, "gradle/wrapper/gradle-wrapper.properties"@)
}

/// A complete Gradle project: wrapper script plus all required files.
pub open spec fn spec_is_gradle_app(app: App) -> bool {
    spec_has_gradlew(app) && spec_has_gradle_build(app) && spec_has_gradle_settings(app)
        && spec_has_gradle_wrapper_props(app)
}

/// A partially detected Gradle project: the wrapper script without its
/// required files, a user configuration error reported loudly.
pub open spec fn spec_gradle_invalid(app: App) -> bool {
    spec_has_gradlew(app) && !spec_is_gradle_app(app)
}

/// The message a partially detected Gradle project fails with, naming
/// whichever required file is missing.
pub open spec fn spec_gradle_structure_err_msg(app: App) -> Seq<char> {
    if !spec_has_gradle_build(app) {
        "Gradle project detected with invalid files, please make sure you have build.gradle or build.gradle.kts at the root of your project directory"@
    } else if !spec_has_gradle_settings(app) {
        "Gradle project detected with invalid files, please make sure you have settings.gradle at the root of your project directory"@
    } else {
        "Gradle project detected with invalid files, please make sure you have gradle/wrapper/gradle-wrapper.properties in your project directory"@
    }
}

/// The JDK package a version token resolves to: the digits the
/// permissive pattern finds decide between the legacy and current JDKs.
pub open spec fn spec_jdk_from_version_token(v: Seq<char>) -> Seq<char> {
    match loose_version_digits_of(spec_trim(v)) {
        Option::None => "jdk"@,
        Option::Some(d) => {
            let n = spec_parse_i32_or_zero(d);
            if n == 6 {
                "jdk11"@
            } else if n < 6 {
                "jdk8"@
            } else {
                "jdk"@
            }
        },
    }
}

/// The raw version text Gradle JDK inference works from: the override,
/// then the `.gradle-version` file, then the wrapper metadata.
pub open spec fn spec_gradle_version_source(app: App, env: Environment) -> Option<Seq<char>> {
    match spec_env_lookup(env.variables@, "NIXPACKS_"@ + "GRADLE_VERSION"@) {
        Option::Some(v) => Option::Some(v),
        Option::None => match spec_read_file(app.files@, ".gradle-version"@) {
            Option::Some(c) => Option::Some(c),
            Option::None => match spec_read_file(
                app.files@,
                "gradle/wrapper/gradle-wrapper.properties"@,
            ) {
                Option::Some(c) => gradle_dist_version_of(c),
                Option::None => Option::None,
            },
        },
    }
}

/// The JDK package name Gradle inference resolves to.
pub open spec fn spec_gradle_jdk_name(app: App, env: Environment) -> Seq<char> {
    match spec_gradle_version_source(app, env) {
        Option::Some(v) => spec_jdk_from_version_token(v),
        Option::None => "jdk"@,
    }
}

/// JDK inference must read the wrapper metadata and fails only when
/// that file is missing and no other source was given.
pub open spec fn spec_gradle_jdk_errs(app: App, env: Environment) -> bool {
    &&& spec_env_lookup(env.variables@, "NIXPACKS_"@ + "GRADLE_VERSION"@) is None
    &&& spec_read_file(app.files@, ".gradle-version"@) is None
    &&& spec_read_file(app.files@, "gradle/wrapper/gradle-wrapper.properties"@) is None
}

/// The Gradle build file's text: `build.gradle` when present, else the
/// Kotlin `build.gradle.kts`, else empty text.
pub open spec fn spec_gradle_file_content(app: App) -> Seq<char> {
    if spec_includes_file(app.files@, "build.gradle"@) {
        spec_read_or_empty(app, "build.gradle"@)
    } else if spec_includes_file(app.files@, "build.gradle.kts"@) {
        spec_read_or_empty(app, "build.gradle.kts"@)
    } else {
        Seq::empty()
    }
}

/// The build file names Spring Boot or Grails.
pub open spec fn spec_is_spring_boot(content: Seq<char>) -> bool {
    ||| spec_contains(content, "org.springframework.boot:spring-boot"@)
    ||| spec_contains(content, "spring-boot-gradle-plugin"@)
    ||| spec_contains(content, "org.springframework.boot"@)
    ||| spec_contains(content, "org.grails:grails-"@)
}

/// The Spring configuration file the placeholder scan reads: the YAML
/// convention first, then the properties convention, else empty text.
pub open spec fn spec_spring_config_content(app: App) -> Seq<char> {
    if spec_includes_file(app.files@, "src/main/resources/config/application.yml"@) {
        spec_read_or_empty(app, "src/main/resources/config/application.yml"@)
    } else if spec_includes_file(app.files@, "src/main/resources/config/application.properties"@) {
        spec_read_or_empty(app, "src/main/resources/config/application.properties"@)
    } else {
        Seq::empty()
    }
}

/// The variable names of an environment list, in order.
pub open spec fn spec_env_names(vars: Seq<EnvVar>) -> Seq<Seq<char>> {
    vars.map_values(|v: EnvVar| v.name@)
}

/// `n` occurs among `names`.
pub open spec fn spec_name_in(names: Seq<Seq<char>>, n: Seq<char>) -> bool {
    exists|j: int| 0 <= j < names.len() && names[j] == n
}

/// `taken` extended by the entries of `pending` in first-occurrence
/// order, skipping names already present: the mapping stays one entry
/// per name.
pub open spec fn spec_dedup_names(pending: Seq<Seq<char>>, taken: Seq<Seq<char>>) -> Seq<Seq<char>>
    decreases pending.len(),
{
    if pending.len() == 0 {
        taken
    } else if spec_name_in(taken, pending[0]) {
        spec_dedup_names(pending.skip(1), taken)
    } else {
        spec_dedup_names(pending.skip(1), taken.push(pending[0]))
    }
}

/// True when some variable of `vars` is named `name`.
fn has_var_named(vars: &Vec<EnvVar>, name: &str) -> (r: bool)
    ensures
        r == spec_name_in(spec_env_names(vars@), name@),
{
    let mut j: usize = 0;
    while j < vars.len()
        invariant
            0 <= j <= vars@.len(),
            forall|i: int| 0 <= i < j ==> spec_env_names(vars@)[i] != name@,
        decreases vars@.len() - j,
    {
        assert(spec_env_names(vars@)[j as int] == vars@[j as int].name@);
        if crate::strutil::str_eq(vars[j].name.as_str(), name) {
            return true;
        }
        j = j + 1;
    }
    false
}

/// A Maven build plan for `app`: Maven and a JDK in setup, the batch
/// install-and-list build, and the jar start command.
pub open spec fn spec_maven_plan(plan: BuildPlan, app: App) -> bool {
    &&& plan.setup matches Some(s) && {
        &&& s.pkgs@.len() == 2
        &&& s.pkgs@[0].name@ == "maven"@ && s.pkgs@[0].version is None
        &&& s.pkgs@[1].name@ == "jdk"@ && s.pkgs@[1].version is None
        &&& s.apt_pkgs is None
        &&& s.cmds is None
        &&& s.only_include_files is None
        &&& s.base_image@ == "ghcr.io/railwayapp/nix"@
    }
    &&& plan.install is None
    &&& plan.build matches Some(b) && {
        &&& b.cmds matches Some(c) && c.deep_view() == seq![
            spec_maven_exe(app)
                + " -DoutputFile=target/mvn-dependency-list.log -B -DskipTests clean dependency:list install"@,
        ]
        &&& b.only_include_files is None
        &&& b.cache_directories is None
    }
    &&& plan.start matches Some(st) && {
        &&& st.cmd matches Some(c) && c@ == spec_java_start_cmd(app)
        &&& st.run_image is None
        &&& st.only_include_files is None
    }
    &&& plan.variables is None
    &&& plan.static_assets is None
}

/// A Gradle build plan for `app`: the inferred JDK in setup, the
/// wrapper build, and the Spring-aware jar start command.
pub open spec fn spec_gradle_plan(plan: BuildPlan, app: App, env: Environment) -> bool {
    &&& plan.setup matches Some(s) && {
        &&& s.pkgs@.len() == 1
        &&& s.pkgs@[0].name@ == spec_gradle_jdk_name(app, env) && s.pkgs@[0].version is None
        &&& s.apt_pkgs is None
        &&& s.cmds is None
        &&& s.only_include_files is None
        &&& s.base_image@ == "ghcr.io/railwayapp/nix"@
    }
    &&& plan.install is None
    &&& plan.build matches Some(b) && {
        &&& b.cmds matches Some(c) && c.deep_view() == seq!["./gradlew build -x check"@]
        &&& b.only_include_files is None
        &&& b.cache_directories is None
    }
    &&& plan.start matches Some(st) && {
        &&& st.cmd matches Some(c) && c@
            == "bash -c \"java -Dserver.port=$PORT $JAVA_OPTS -jar ./build/libs/*.jar\""@
        &&& st.run_image is None
        &&& st.only_include_files is None
    }
    &&& plan.variables is None
    &&& plan.static_assets is None
}

/// The Java language strategy: Gradle when a complete Gradle project is
/// present, Maven otherwise.
pub struct JavaProvider {}

impl JavaProvider {
    /// The provider's registry name.
    pub fn name(&self) -> (r: &'static str)
        ensures
            r@ == "Java"@,
    {
        "Java"
    }

    /// Detects a Java project: Maven files, or a complete Gradle
    /// project. A partial Gradle project fails loudly instead of
    /// falling through.
    pub fn detect(&self, app: &App, _env: &Environment) -> (r: Result<bool, NixpacksError>)
        ensures
            r matches Ok(b) ==> b == (spec_is_maven_app(*app) || spec_is_gradle_app(*app)),
            r is Ok <==> (spec_is_maven_app(*app) || !spec_gradle_invalid(*app)),
            r matches Err(e) ==> e matches NixpacksError::InvalidProjectStructure(m) && m@
                == spec_gradle_structure_err_msg(*app),
    {
        if self.is_maven_app(app) {
            return Result::Ok(true);
        }
        match GradleHelper::is_gradle_app(app) {
            Result::Ok(b) => Result::Ok(b),
            Result::Err(e) => Result::Err(e),
        }
    }

    /// The selected strategy's plan: the Gradle plan for a complete
    /// Gradle project, else the Maven plan. A partial Gradle project is
    /// an error even when Maven files are present.
    pub fn get_build_plan(&self, app: &App, env: &Environment) -> (r: Result<
        Option<BuildPlan>,
        NixpacksError,
    >)
        ensures
            r is Ok <==> !spec_gradle_invalid(*app),
            r matches Ok(p) ==> p matches Some(plan) && (if spec_is_gradle_app(*app) {
                spec_gradle_plan(plan, *app, *env)
            } else {
                spec_maven_plan(plan, *app)
            }),
            r matches Err(e) ==> e matches NixpacksError::InvalidProjectStructure(m) && m@
                == spec_gradle_structure_err_msg(*app),
    {
        match GradleHelper::is_gradle_app(app) {
            Result::Err(e) => Result::Err(e),
            Result::Ok(true) => {
                match GradleHelper::get_gradle_build_plan(app, env) {
                    Result::Ok(plan) => Result::Ok(Option::Some(plan)),
                    Result::Err(e) => {
                        proof {
                            lemma_read_file_some_iff_includes(
                                app.files@,
                                "gradle/wrapper/gradle-wrapper.properties"@,
                            );
                        }
                        assert(false);
                        Result::Err(e)
                    },
                }
            },
            Result::Ok(false) => Result::Ok(Option::Some(self.get_maven_build_plan(app))),
        }
    }

    /// The Maven plan: Maven and a JDK, the offline-friendly build, and
    /// the jar start command.
    pub fn get_maven_build_plan(&self, app: &App) -> (r: BuildPlan)
        ensures
            spec_maven_plan(r, *app),
    {
        let mut pkgs: Vec<Pkg> = Vec::new();
        pkgs.push(Pkg::new("maven"));
        pkgs.push(Pkg::new("jdk"));
        let setup = SetupPhase::new(pkgs);
        let mvn_exe = self.get_maven_exe(app);
        let mut build_cmd: String = mvn_exe;
        build_cmd.append(
            " -DoutputFile=target/mvn-dependency-list.log -B -DskipTests clean dependency:list install",
        );
        let build = BuildPhase::new(build_cmd.as_str());
        let start_cmd = self.get_start_cmd(app);
        let start = StartPhase::new(start_cmd.as_str());
        BuildPlan::new(
            Option::Some(setup),
            Option::None,
            Option::Some(build),
            Option::Some(start),
        )
    }

    /// True when any Maven project convention is present.
    pub fn is_maven_app(&self, app: &App) -> (r: bool)
        ensures
            r == spec_is_maven_app(*app),
    {
        app.includes_file("pom.xml") || app.includes_directory("pom.atom")
            || app.includes_directory("pom.clj") || app.includes_directory("pom.groovy")
            || app.includes_file("pom.rb") || app.includes_file("pom.scala")
            || app.includes_file("pom.yaml") || app.includes_file("pom.yml")
    }

    /// The Maven executable to build with: the project wrapper when it
    /// ships one.
    pub fn get_maven_exe(&self, app: &App) -> (r: String)
        ensures
            r@ == spec_maven_exe(*app),
    {
        if app.includes_file("mvnw") && app.includes_file(".mvn/wrapper/maven-wrapper.properties")
        {
            "./mvnw".to_owned()
        } else {
            "mvn".to_owned()
        }
    }

    /// The start command running the built jar, with the inferred port
    /// flag when a `pom.xml` exists.
    pub fn get_start_cmd(&self, app: &App) -> (r: String)
        ensures
            r@ == spec_java_start_cmd(*app),
    {
        if app.includes_file("pom.xml") {
            let port = self.get_port_config(app);
            let mut r: String = String::from_str("java ");
            r.append(port.as_str());
            r.append(" $JAVA_OPTS -jar target/*jar");
            r
        } else {
            "java $JAVA_OPTS -jar target/*jar".to_owned()
        }
    }

    /// The port flag inferred from `pom.xml`: WildFly Swarm and Spring
    /// Boot get their server port wired to `$PORT`.
    pub fn get_port_config(&self, app: &App) -> (r: String)
        ensures
            r@ == spec_port_config(*app),
    {
        proof {
            lemma_read_file_some_iff_includes(app.files@, "pom.xml"@);
        }
        let pom: String = match app.read_file("pom.xml") {
            Result::Ok(c) => c,
            Result::Err(_) => String::new(),
        };
        if contains_str(pom.as_str(), "<groupId>org.wildfly.swarm") {
            "-Dswarm.http.port=$PORT".to_owned()
        } else if contains_str(pom.as_str(), "<groupId>org.springframework.boot") && contains_str(
            pom.as_str(),
            "<artifactId>spring-boot",
        ) {
            "-Dserver.port=$PORT".to_owned()
        } else {
            String::new()
        }
    }
}

/// The Gradle side of the Java strategy.
pub struct GradleHelper {}

impl GradleHelper {
    /// Recognizes a Gradle project by its wrapper script, and demands
    /// the build, settings and wrapper-properties files once the script
    /// is present: a partial project is a configuration error, not a
    /// reason to fall through.
    pub fn is_gradle_app(app: &App) -> (r: Result<bool, NixpacksError>)
        ensures
            r matches Ok(b) ==> b == spec_is_gradle_app(*app),
            r is Ok <==> (!spec_has_gradlew(*app) || spec_is_gradle_app(*app)),
            r matches Err(e) ==> e matches NixpacksError::InvalidProjectStructure(m) && m@
                == spec_gradle_structure_err_msg(*app),
    {
        let is_gradle = app.includes_file("gradlew");
        if !is_gradle {
            return Result::Ok(false);
        }
        if !(app.includes_file("build.gradle") || app.includes_file("build.gradle.kts")) {
            return Result::Err(
                NixpacksError::InvalidProjectStructure(
                    "Gradle project detected with invalid files, please make sure you have build.gradle or build.gradle.kts at the root of your project directory".to_owned(),
                ),
            );
        }
        if !app.includes_file("settings.gradle") {
            return Result::Err(
                NixpacksError::InvalidProjectStructure(
                    "Gradle project detected with invalid files, please make sure you have settings.gradle at the root of your project directory".to_owned(),
                ),
            );
        }
        if !(app.includes_file("gradle/wrapper/gradle-wrapper.properties")) {
            return Result::Err(
                NixpacksError::InvalidProjectStructure(
                    "Gradle project detected with invalid files, please make sure you have gradle/wrapper/gradle-wrapper.properties in your project directory".to_owned(),
                ),
            );
        }
        Result::Ok(true)
    }

    /// The Gradle plan: the inferred JDK, the wrapper build, and the
    /// Spring-aware start command.
    pub fn get_gradle_build_plan(app: &App, env: &Environment) -> (r: Result<
        BuildPlan,
        NixpacksError,
    >)
        ensures
            r is Ok <==> !spec_gradle_jdk_errs(*app, *env),
            r matches Ok(plan) ==> spec_gradle_plan(plan, *app, *env),
            r matches Err(e) ==> e matches NixpacksError::MissingFile(p) && p@
                == "gradle/wrapper/gradle-wrapper.properties"@,
    {
        let jdk_pkg = match GradleHelper::get_jdk_pgk(app, env) {
            Result::Ok(p) => p,
            Result::Err(e) => {
                return Result::Err(e);
            },
        };
        let mut pkgs: Vec<Pkg> = Vec::new();
        pkgs.push(jdk_pkg);
        let setup = SetupPhase::new(pkgs);
        let build = BuildPhase::new("./gradlew build -x check");
        let start = StartPhase::new(
            "bash -c \"java -Dserver.port=$PORT $JAVA_OPTS -jar ./build/libs/*.jar\"",
        );
        Result::Ok(
            BuildPlan::new(
                Option::Some(setup),
                Option::None,
                Option::Some(build),
                Option::Some(start),
            ),
        )
    }

    /// The Gradle build file's text: `build.gradle` when present, else
    /// the Kotlin `build.gradle.kts`, else empty text. Always succeeds.
    pub fn read_gradle_file(app: &App) -> (r: Result<String, NixpacksError>)
        ensures
            r matches Ok(c) && c@ == spec_gradle_file_content(*app),
    {
        if app.includes_file("build.gradle") {
            match app.read_file("build.gradle") {
                Result::Ok(c) => Result::Ok(c),
                Result::Err(e) => {
                    assert(false);
                    Result::Err(e)
                },
            }
        } else if app.includes_file("build.gradle.kts") {
            match app.read_file("build.gradle.kts") {
                Result::Ok(c) => Result::Ok(c),
                Result::Err(e) => {
                    assert(false);
                    Result::Err(e)
                },
            }
        } else {
            Result::Ok(String::new())
        }
    }

    /// True when the Gradle build file names Spring Boot or Grails.
    /// Always succeeds.
    pub fn is_spring_boot(app: &App) -> (r: Result<bool, NixpacksError>)
        ensures
            r matches Ok(b) && b == spec_is_spring_boot(spec_gradle_file_content(*app)),
    {
        let content = match GradleHelper::read_gradle_file(app) {
            Result::Ok(c) => c,
            Result::Err(e) => {
                assert(false);
                return Result::Err(e);
            },
        };
        let r = contains_str(content.as_str(), "org.springframework.boot:spring-boot")
            || contains_str(content.as_str(), "spring-boot-gradle-plugin") || contains_str(
            content.as_str(),
            "org.springframework.boot",
        ) || contains_str(content.as_str(), "org.grails:grails-");
        Result::Ok(r)
    }

    /// The Gradle environment: daemonless, quiet Gradle options, plus
    /// an empty placeholder variable for every `${NAME` reference in the
    /// Spring configuration file of a Spring Boot project. The result
    /// is a mapping: one entry per name, repeats skipped. Always
    /// succeeds.
    pub fn get_gradle_env_vars(app: &App) -> (r: Result<Vec<EnvVar>, NixpacksError>)
        ensures
            r matches Ok(vars) && {
                &&& vars@.len() >= 1
                &&& vars@[0].name@ == "GRADLE_OPTS"@
                &&& vars@[0].value@
                    == "-Dorg.gradle.daemon=false -Dorg.gradle.internal.launcher.welcomeMessageEnabled=false"@
                &&& forall|i: int, j: int|
                    0 <= i < j < vars@.len() ==> (#[trigger] vars@[i]).name@ != (
                    #[trigger] vars@[j]).name@
                &&& forall|k: int|
                    1 <= k < vars@.len() ==> (#[trigger] vars@[k]).value@ == Seq::<char>::empty()
                &&& spec_env_names(vars@) == {
                    let config = spec_spring_config_content(*app);
                    if spec_is_spring_boot(spec_gradle_file_content(*app)) && config.len() > 0 {
                        spec_dedup_names(config_placeholder_names_of(config), seq!["GRADLE_OPTS"@])
                    } else {
                        seq!["GRADLE_OPTS"@]
                    }
                }
            },
    {
        let mut vars: Vec<EnvVar> = Vec::new();
        vars.push(
            EnvVar {
                name: "GRADLE_OPTS".to_owned(),
                value:
                    "-Dorg.gradle.daemon=false -Dorg.gradle.internal.launcher.welcomeMessageEnabled=false".to_owned(),
            },
        );
        assert(spec_env_names(vars@) =~= seq!["GRADLE_OPTS"@]);
        let spring = match GradleHelper::is_spring_boot(app) {
            Result::Ok(b) => b,
            Result::Err(e) => {
                assert(false);
                return Result::Err(e);
            },
        };
        if spring {
            let config: String = if app.includes_file("src/main/resources/config/application.yml")
            {
                match app.read_file("src/main/resources/config/application.yml") {
                    Result::Ok(c) => c,
                    Result::Err(e) => {
                        assert(false);
                        return Result::Err(e);
                    },
                }
            } else if app.includes_file("src/main/resources/config/application.properties") {
                match app.read_file("src/main/resources/config/application.properties") {
                    Result::Ok(c) => c,
                    Result::Err(e) => {
                        assert(false);
                        return Result::Err(e);
                    },
                }
            } else {
                String::new()
            };
            assert(config@ == spec_spring_config_content(*app));
            let clen = config.as_str().unicode_len();
            if clen > 0 {
                let names = config_placeholder_names(config.as_str());
                let ghost nv = config_placeholder_names_of(config@);
                let ghost full = spec_dedup_names(nv, seq!["GRADLE_OPTS"@]);
                proof {
                    assert(nv.skip(0) =~= nv);
                }
                let mut k: usize = 0;
                while k < names.len()
                    invariant
                        0 <= k <= names.len(),
                        names.deep_view() == nv,
                        vars@.len() >= 1,
                        vars@[0].name@ == "GRADLE_OPTS"@,
                        vars@[0].value@
                            == "-Dorg.gradle.daemon=false -Dorg.gradle.internal.launcher.welcomeMessageEnabled=false"@,
                        forall|i: int, j: int|
                            0 <= i < j < vars@.len() ==> (#[trigger] vars@[i]).name@ != (
                            #[trigger] vars@[j]).name@,
                        forall|i: int|
                            1 <= i < vars@.len() ==> (#[trigger] vars@[i]).value@ == Seq::<
                                char,
                            >::empty(),
                        full == spec_dedup_names(nv.skip(k as int), spec_env_names(vars@)),
                    decreases names.len() - k,
                {
                    assert(nv[k as int] == names[k as int].deep_view());
                    assert(nv.skip(k as int)[0] == nv[k as int]);
                    let ghost prior = vars@;
                    if !has_var_named(&vars, names[k].as_str()) {
                        let name: String = names[k].clone();
                        vars.push(EnvVar { name, value: String::new() });
                        proof {
                            assert(spec_env_names(vars@) =~= spec_env_names(prior).push(
                                nv[k as int],
                            ));
                            assert(forall|i: int|
                                0 <= i < prior.len() ==> (#[trigger] prior[i]).name@
                                    == spec_env_names(prior)[i]);
                        }
                    }
                    proof {
                        assert(nv.skip(k as int).skip(1) =~= nv.skip(k as int + 1));
                    }
                    k = k + 1;
                }
                assert(nv.skip(names.len() as int).len() == 0);
            }
        }
        Result::Ok(vars)
    }

    /// Resolves the JDK package by priority: the
    /// `NIXPACKS_GRADLE_VERSION` override, then the `.gradle-version`
    /// file, then the version named by the wrapper metadata; unparsable
    /// versions fall back to the default.
    pub fn get_jdk_pgk(app: &App, env: &Environment) -> (r: Result<Pkg, NixpacksError>)
        ensures
            r is Ok <==> !spec_gradle_jdk_errs(*app, *env),
            r matches Ok(p) ==> p.name@ == spec_gradle_jdk_name(*app, *env) && p.version is None,
            r matches Err(e) ==> e matches NixpacksError::MissingFile(p) && p@
                == "gradle/wrapper/gradle-wrapper.properties"@,
    {
        proof {
            lemma_read_file_some_iff_includes(app.files@, ".gradle-version"@);
            lemma_read_file_some_iff_includes(
                app.files@,
                "gradle/wrapper/gradle-wrapper.properties"@,
            );
        }
        let from_env: Option<String> = env.get_config_variable("GRADLE_VERSION");
        let custom: Option<String> = match from_env {
            Option::Some(v) => Option::Some(v),
            Option::None => {
                if app.includes_file(".gradle-version") {
                    match app.read_file(".gradle-version") {
                        Result::Ok(c) => Option::Some(c),
                        Result::Err(e) => {
                            assert(false);
                            return Result::Err(e);
                        },
                    }
                } else {
                    let content = match app.read_file("gradle/wrapper/gradle-wrapper.properties") {
                        Result::Ok(c) => c,
                        Result::Err(e) => {
                            return Result::Err(e);
                        },
                    };
                    gradle_dist_version(content.as_str())
                }
            },
        };
        match custom {
            Option::None => Result::Ok(Pkg::new("jdk")),
            Option::Some(v) => {
                let trimmed = trim_str(v.as_str());
                match loose_version_digits(trimmed) {
                    Option::None => Result::Ok(Pkg::new("jdk")),
                    Option::Some(d) => {
                        let n = parse_i32_or_zero(d.as_str());
                        if n == 6 {
                            Result::Ok(Pkg::new("jdk11"))
                        } else if n < 6 {
                            Result::Ok(Pkg::new("jdk8"))
                        } else {
                            Result::Ok(Pkg::new("jdk"))
                        }
                    },
                }
            },
        }
    }
}

} // verus!
