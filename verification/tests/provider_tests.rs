use nixpacks::app::{App, SourceFile};
use nixpacks::environment::{EnvVar, Environment};
use nixpacks::errors::NixpacksError;
use nixpacks::nix::Pkg;
use nixpacks::providers::clojure::ClojureProvider;
use nixpacks::providers::fsharp::FSharpProvider;
use nixpacks::providers::java::{GradleHelper, JavaProvider};
use nixpacks::{create_docker_image, generate_build_plan, get_providers};
use nixpacks::chain::GeneratePlanOptions;
use nixpacks::docker::DockerBuilderOptions;

fn app_with_files(files: Vec<(&str, &str)>) -> App {
    let files = files
        .into_iter()
        .map(|(p, c)| SourceFile {
            path: p.to_string(),
            content: c.to_string(),
        })
        .collect();
    App::new(files, Vec::new())
}

fn clojure_app() -> App {
    app_with_files(vec![("project.clj", "(defproject example \"0.1.0\")")])
}

fn clojure_jdk11_app() -> App {
    app_with_files(vec![
        ("project.clj", "(defproject example \"0.1.0\")"),
        (".jdk-version", "11"),
    ])
}

#[test]
fn test_no_version() {
    assert_eq!(
        ClojureProvider::get_nix_jdk_package(&clojure_app(), &Environment::default()).unwrap(),
        Pkg::new("jdk8")
    );
}

#[test]
fn test_custom_version() {
    assert_eq!(
        ClojureProvider::get_nix_jdk_package(&clojure_jdk11_app(), &Environment::default())
            .unwrap(),
        Pkg::new("jdk11")
    );
}

#[test]
fn test_version_from_environment_variable() {
    assert_eq!(
        ClojureProvider::get_nix_jdk_package(
            &clojure_app(),
            &Environment::new(vec![EnvVar {
                name: "NIXPACKS_JDK_VERSION".to_string(),
                value: "11".to_string()
            }])
        )
        .unwrap(),
        Pkg::new("jdk11")
    );
}

#[test]
fn test_jdk_version_trimmed_before_matching() {
    // The version file's content is trimmed before the digit pattern
    // runs; untrimmed text would fail the anchored match and fall back.
    let app = app_with_files(vec![
        ("project.clj", ""),
        (".jdk-version", "  11 \n"),
    ]);
    assert_eq!(
        ClojureProvider::get_nix_jdk_package(&app, &Environment::default()).unwrap(),
        Pkg::new("jdk11")
    );
}

#[test]
fn test_jdk_version_unparsable_falls_back() {
    let app = app_with_files(vec![("project.clj", ""), (".jdk-version", "113")]);
    assert_eq!(
        ClojureProvider::get_nix_jdk_package(&app, &Environment::default()).unwrap(),
        Pkg::new("jdk8")
    );
}

#[test]
fn test_fsharp_detect_and_start() {
    let provider = FSharpProvider {};
    let env = Environment::default();
    let app = app_with_files(vec![("src/Api.fsproj", "<Project></Project>")]);
    assert!(provider.detect(&app, &env));
    let start = provider.start(&app, &env).unwrap();
    assert_eq!(Some("./out/Api".to_string()), start.cmd);

    let other = app_with_files(vec![("main.go", "package main")]);
    assert!(!provider.detect(&other, &env));
}

#[test]
fn test_fsharp_plan_shape() {
    let app = app_with_files(vec![("Api.fsproj", "")]);
    let plan = generate_build_plan(&app, Vec::new(), &GeneratePlanOptions::default()).unwrap();
    let setup = plan.setup.unwrap();
    assert_eq!(vec![Pkg::new("dotnet-sdk")], setup.pkgs);
    assert_eq!(
        Some(vec!["dotnet restore".to_string()]),
        plan.install.unwrap().cmds
    );
    assert_eq!(
        Some(vec![
            "dotnet publish --no-restore -c Release -o out".to_string()
        ]),
        plan.build.unwrap().cmds
    );
    assert_eq!(Some("./out/Api".to_string()), plan.start.unwrap().cmd);
    let vars = plan.variables.unwrap();
    assert_eq!(3, vars.len());
    assert_eq!("ASPNETCORE_ENVIRONMENT", vars[0].name);
    assert_eq!("Production", vars[0].value);
}

#[test]
fn test_chain_priority_earlier_provider_wins() {
    // The tree matches both the F# and the Clojure detection
    // predicates; the earlier registration wins and its plan comes
    // back.
    let app = app_with_files(vec![("Api.fsproj", ""), ("project.clj", "")]);
    let plan = generate_build_plan(&app, Vec::new(), &GeneratePlanOptions::default()).unwrap();
    let setup = plan.setup.unwrap();
    assert_eq!(vec![Pkg::new("dotnet-sdk")], setup.pkgs);
    assert_eq!(Some("./out/Api".to_string()), plan.start.unwrap().cmd);
}

#[test]
fn test_provider_registry_order() {
    let providers = get_providers();
    let names: Vec<&str> = providers.iter().map(|p| p.name()).collect();
    assert_eq!(vec!["fsharp", "clojure", "Java"], names);
}

#[test]
fn test_no_provider_detected() {
    let app = app_with_files(vec![("main.go", "package main")]);
    let result = generate_build_plan(&app, Vec::new(), &GeneratePlanOptions::default());
    assert_eq!(Err(NixpacksError::NoProviderDetected), result);
}

#[test]
fn test_maven_plan() {
    let provider = JavaProvider {};
    let app = app_with_files(vec![(
        "pom.xml",
        "<project><groupId>org.example</groupId></project>",
    )]);
    assert!(provider.is_maven_app(&app));
    assert_eq!("mvn", provider.get_maven_exe(&app));
    let plan = provider.get_maven_build_plan(&app);
    assert_eq!(
        vec![Pkg::new("maven"), Pkg::new("jdk")],
        plan.setup.unwrap().pkgs
    );
    assert_eq!(
        Some(vec![
            "mvn -DoutputFile=target/mvn-dependency-list.log -B -DskipTests clean dependency:list install"
                .to_string()
        ]),
        plan.build.unwrap().cmds
    );
    assert_eq!(
        Some("java  $JAVA_OPTS -jar target/*jar".to_string()),
        plan.start.unwrap().cmd
    );
}

#[test]
fn test_maven_wrapper_and_spring_boot_port() {
    let provider = JavaProvider {};
    let app = app_with_files(vec![
        (
            "pom.xml",
            "<project><groupId>org.springframework.boot</groupId><artifactId>spring-boot-starter</artifactId></project>",
        ),
        ("mvnw", "#!/bin/sh"),
        (".mvn/wrapper/maven-wrapper.properties", "distributionUrl=x"),
    ]);
    assert_eq!("./mvnw", provider.get_maven_exe(&app));
    assert_eq!("-Dserver.port=$PORT", provider.get_port_config(&app));
    assert_eq!(
        "java -Dserver.port=$PORT $JAVA_OPTS -jar target/*jar",
        provider.get_start_cmd(&app)
    );
}

#[test]
fn test_wildfly_swarm_port() {
    let provider = JavaProvider {};
    let app = app_with_files(vec![(
        "pom.xml",
        "<project><groupId>org.wildfly.swarm</groupId></project>",
    )]);
    assert_eq!("-Dswarm.http.port=$PORT", provider.get_port_config(&app));
}

fn gradle_app_files(version_line: &str) -> Vec<(&'static str, String)> {
    vec![
        ("gradlew", "#!/bin/sh".to_string()),
        ("build.gradle", "plugins { id 'java' }".to_string()),
        ("settings.gradle", "rootProject.name = 'demo'".to_string()),
        (
            "gradle/wrapper/gradle-wrapper.properties",
            version_line.to_string(),
        ),
    ]
}

fn gradle_app(version_line: &str) -> App {
    let files = gradle_app_files(version_line)
        .into_iter()
        .map(|(p, c)| SourceFile {
            path: p.to_string(),
            content: c,
        })
        .collect();
    App::new(files, Vec::new())
}

#[test]
fn test_gradle_detection_and_plan() {
    let app = gradle_app(
        "distributionUrl=https\\://services.gradle.org/distributions/gradle-7.4.2-bin.zip",
    );
    assert_eq!(Ok(true), GradleHelper::is_gradle_app(&app));
    let plan = GradleHelper::get_gradle_build_plan(&app, &Environment::default()).unwrap();
    assert_eq!(vec![Pkg::new("jdk")], plan.setup.unwrap().pkgs);
    assert_eq!(
        Some(vec!["./gradlew build -x check".to_string()]),
        plan.build.unwrap().cmds
    );
    assert_eq!(
        Some("bash -c \"java -Dserver.port=$PORT $JAVA_OPTS -jar ./build/libs/*.jar\"".to_string()),
        plan.start.unwrap().cmd
    );
}

#[test]
fn test_gradle_jdk_from_wrapper_metadata() {
    // The distribution URL names the Gradle version; old lines map to
    // old JDKs.
    let old = gradle_app(
        "distributionUrl=https\\://services.gradle.org/distributions/gradle-5.6.4-bin.zip",
    );
    assert_eq!(
        Pkg::new("jdk8"),
        GradleHelper::get_jdk_pgk(&old, &Environment::default()).unwrap()
    );
    let new = gradle_app(
        "distributionUrl=https\\://services.gradle.org/distributions/gradle-7.4.2-bin.zip",
    );
    assert_eq!(
        Pkg::new("jdk"),
        GradleHelper::get_jdk_pgk(&new, &Environment::default()).unwrap()
    );
}

#[test]
fn test_gradle_jdk_from_version_file_and_override() {
    let mut files = gradle_app_files("distributionUrl=gradle-7.4.2");
    files.push((".gradle-version", "6".to_string()));
    let app = App::new(
        files
            .into_iter()
            .map(|(p, c)| SourceFile {
                path: p.to_string(),
                content: c,
            })
            .collect(),
        Vec::new(),
    );
    assert_eq!(
        Pkg::new("jdk11"),
        GradleHelper::get_jdk_pgk(&app, &Environment::default()).unwrap()
    );
    // The explicit override takes precedence over both files.
    let env = Environment::new(vec![EnvVar {
        name: "NIXPACKS_GRADLE_VERSION".to_string(),
        value: "5".to_string(),
    }]);
    assert_eq!(Pkg::new("jdk8"), GradleHelper::get_jdk_pgk(&app, &env).unwrap());
}

#[test]
fn test_gradle_invalid_structure_fails_loudly() {
    let app = app_with_files(vec![("gradlew", "#!/bin/sh")]);
    let result = GradleHelper::is_gradle_app(&app);
    match result {
        Err(NixpacksError::InvalidProjectStructure(m)) => {
            assert!(m.contains("build.gradle"));
        }
        other => panic!("expected InvalidProjectStructure, got {:?}", other),
    }
    // Detection of the whole Java provider surfaces the same error.
    let provider = JavaProvider {};
    assert!(provider.detect(&app, &Environment::default()).is_err());
}

#[test]
fn test_gradle_missing_wrapper_properties_message() {
    let app = app_with_files(vec![
        ("gradlew", ""),
        ("build.gradle", ""),
        ("settings.gradle", ""),
    ]);
    match GradleHelper::is_gradle_app(&app) {
        Err(NixpacksError::InvalidProjectStructure(m)) => {
            assert!(m.contains("gradle/wrapper/gradle-wrapper.properties"));
        }
        other => panic!("expected InvalidProjectStructure, got {:?}", other),
    }
}

#[test]
fn test_read_gradle_file_and_spring_boot() {
    let app = gradle_app("distributionUrl=gradle-7.4");
    assert_eq!(
        Ok("plugins { id 'java' }".to_string()),
        GradleHelper::read_gradle_file(&app)
    );
    assert_eq!(Ok(false), GradleHelper::is_spring_boot(&app));

    let spring_files = vec![
        ("gradlew", ""),
        ("build.gradle", "apply plugin: 'org.springframework.boot'"),
        ("settings.gradle", ""),
        ("gradle/wrapper/gradle-wrapper.properties", ""),
    ];
    let spring_app = app_with_files(spring_files);
    assert_eq!(Ok(true), GradleHelper::is_spring_boot(&spring_app));
}

#[test]
fn test_gradle_env_vars_placeholders() {
    let app = app_with_files(vec![
        ("gradlew", ""),
        ("build.gradle", "apply plugin: 'org.springframework.boot'"),
        ("settings.gradle", ""),
        ("gradle/wrapper/gradle-wrapper.properties", ""),
        (
            "src/main/resources/config/application.yml",
            "server:\n  port: ${PORT}\n  host: ${HOST}\n",
        ),
    ]);
    let vars = GradleHelper::get_gradle_env_vars(&app).unwrap();
    assert_eq!("GRADLE_OPTS", vars[0].name);
    assert_eq!(
        "-Dorg.gradle.daemon=false -Dorg.gradle.internal.launcher.welcomeMessageEnabled=false",
        vars[0].value
    );
    assert_eq!(3, vars.len());
    assert_eq!("PORT", vars[1].name);
    assert_eq!("", vars[1].value);
    assert_eq!("HOST", vars[2].name);
}

#[test]
fn test_create_docker_image_artifacts() {
    let app = clojure_app();
    let artifacts = create_docker_image(
        &app,
        Vec::new(),
        &GeneratePlanOptions::default(),
        &DockerBuilderOptions::default(),
    )
    .unwrap();
    // Without a configured name, a fresh 36-character identifier is
    // generated.
    assert_eq!(36, artifacts.name.len());
    assert!(artifacts
        .dockerfile
        .contains("CMD java $JAVA_OPTS -jar target/uberjar/*standalone.jar"));

    let mut named = DockerBuilderOptions::default();
    named.name = Some("my-image".to_string());
    let artifacts2 =
        create_docker_image(&app, Vec::new(), &GeneratePlanOptions::default(), &named).unwrap();
    assert_eq!("my-image", artifacts2.name);
}

#[test]
fn test_generate_build_plan_deterministic() {
    // Two compilations of the same tree and environment yield
    // structurally identical plans.
    let app = gradle_app("distributionUrl=gradle-7.4.2");
    let first =
        generate_build_plan(&app, vec!["NIXPACKS_GRADLE_VERSION=7"], &GeneratePlanOptions::default())
            .unwrap();
    let second =
        generate_build_plan(&app, vec!["NIXPACKS_GRADLE_VERSION=7"], &GeneratePlanOptions::default())
            .unwrap();
    assert_eq!(first, second);
}

#[test]
fn test_read_gradle_file_kotlin_variant() {
    // A tree with only the Kotlin build file reads that file, so
    // Spring Boot detection works on Kotlin-only projects too.
    let app = app_with_files(vec![(
        "build.gradle.kts",
        "plugins { id(\"org.springframework.boot\") }",
    )]);
    assert_eq!(
        Ok("plugins { id(\"org.springframework.boot\") }".to_string()),
        GradleHelper::read_gradle_file(&app)
    );
    assert_eq!(Ok(true), GradleHelper::is_spring_boot(&app));
}

#[test]
fn test_gradle_missing_settings_message() {
    // The wrapper script and a build file without a settings file:
    // the error names the missing settings.gradle.
    let app = app_with_files(vec![("gradlew", "#!/bin/sh"), ("build.gradle", "")]);
    match GradleHelper::is_gradle_app(&app) {
        Err(NixpacksError::InvalidProjectStructure(m)) => {
            assert!(m.contains("settings.gradle"));
            assert!(!m.contains("build.gradle or build.gradle.kts"));
        }
        other => panic!("expected InvalidProjectStructure, got {:?}", other),
    }
}

#[test]
fn test_gradle_env_vars_deduplicated() {
    // A placeholder repeated in the configuration file yields one
    // entry, and a placeholder named like the seeded Gradle options
    // does not displace them.
    let app = app_with_files(vec![
        ("gradlew", ""),
        ("build.gradle", "apply plugin: 'org.springframework.boot'"),
        ("settings.gradle", ""),
        ("gradle/wrapper/gradle-wrapper.properties", ""),
        (
            "src/main/resources/config/application.yml",
            "a: ${PORT}\nb: ${PORT}\nc: ${GRADLE_OPTS}\n",
        ),
    ]);
    let vars = GradleHelper::get_gradle_env_vars(&app).unwrap();
    assert_eq!(2, vars.len());
    assert_eq!("GRADLE_OPTS", vars[0].name);
    assert_eq!(
        "-Dorg.gradle.daemon=false -Dorg.gradle.internal.launcher.welcomeMessageEnabled=false",
        vars[0].value
    );
    assert_eq!("PORT", vars[1].name);
    assert_eq!("", vars[1].value);
}

#[test]
fn test_create_docker_image_no_provider() {
    let app = app_with_files(vec![("main.go", "")]);
    let result = create_docker_image(
        &app,
        Vec::new(),
        &GeneratePlanOptions::default(),
        &DockerBuilderOptions::default(),
    );
    assert_eq!(Err(NixpacksError::NoProviderDetected), result);
}
