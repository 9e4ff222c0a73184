use feather::action::base::configure_systemd::SERVICE_TEMPLATE;
use feather::action::base::install_java::JavaVersion;
use feather::cache::{CacheOp, FirstEntry, LinkProbe, Resolution};
use feather::cli::{InitArgs, JavaSelection};
use feather::config::{ConfigGenerator, FileWrite, SERVER_PROPERTIES};
use feather::host::{CommandLine, HostOs, IoFailure, IoKind};
use feather::installer::{DirectoryCreation, InstallStage, MinecraftServerInstaller};
use feather::java::{DownloadFailure, JavaInstaller};
use feather::minecraft::{MinecraftInstaller, PackDownload};
use feather::modpack::java::{ensure_java_present, link_plan};
use feather::modpack::modrinth::{ModrinthFile, ModrinthModpack};
use feather::modpack::{Loader, LoaderType, MinecraftProfile, Modpack};
use feather::network::{MinecraftVersion, MinecraftVersions, VersionType};
use feather::text_map::TextMap;
use feather::version::GameVersion;

fn version(text: &str) -> GameVersion {
    GameVersion::new(text).unwrap()
}

fn fabric_profile(modpack: Option<Modpack>) -> MinecraftProfile {
    MinecraftProfile {
        version: version("1.20.1"),
        loader: Some(Loader { name: LoaderType::Fabric, version: version("0.15.11") }),
        modpack,
    }
}

fn file(path: &str, downloads: &[&str]) -> ModrinthFile {
    ModrinthFile {
        path: path.to_string(),
        hashes: TextMap::new(),
        downloads: downloads.iter().map(|d| d.to_string()).collect(),
        file_size: 1,
        env: None,
    }
}

fn pack() -> Modpack {
    Modpack::Modrinth(ModrinthModpack {
        format_version: 1,
        version_id: "1".to_string(),
        name: "p".to_string(),
        summary: None,
        files: vec![
            file("mods/a.jar", &["https://cdn/a.jar", "https://mirror/a.jar"]),
            file("mods/none.jar", &[]),
            file("config/b.toml", &["https://cdn/b.toml"]),
        ],
        dependencies: TextMap::new(),
    })
}

fn args() -> InitArgs {
    InitArgs {
        file: "pack.mrpack".to_string(),
        working_dir: ".minecraft".to_string(),
        java: JavaSelection::Auto,
        java_args: vec!["-Xmx4G".to_string(), "-Xms4G".to_string()],
    }
}

#[test]
fn config_files() {
    let config = ConfigGenerator::new("/srv/a");
    assert_eq!(
        config.create_eula_file(),
        FileWrite {
            path: "/srv/a/eula.txt".to_string(),
            content: "eula=true".to_string(),
            failure: "Failed to write EULA file: /srv/a/eula.txt".to_string(),
        }
    );
    assert_eq!(
        config.create_feather_env_file(
            "/opt/feather/java/17/bin/java",
            &vec!["-Xmx4G".to_string(), "-Xms4G".to_string()],
            "server.jar"
        ),
        FileWrite {
            path: "/srv/a/feather.env".to_string(),
            content:
                "JAVA_EXECUTABLE=/opt/feather/java/17/bin/java\nJAVA_ARGS=-Xmx4G -Xms4G\nSERVER_JAR=server.jar\n"
                    .to_string(),
            failure: "Failed to write Feather environment file: /srv/a/feather.env".to_string(),
        }
    );
    assert_eq!(config.create_server_properties(true), None);
    let properties = config.create_server_properties(false).unwrap();
    assert_eq!(properties.path, "/srv/a/server.properties");
    assert_eq!(properties.content, SERVER_PROPERTIES);
    assert_eq!(properties.failure, "Failed to write server.properties: /srv/a/server.properties");
    assert!(SERVER_PROPERTIES.starts_with("#Minecraft server properties\nserver-port=25565\n"));
    assert!(SERVER_PROPERTIES.ends_with("view-distance=10\nwhite-list=false\n"));
    assert_eq!(SERVER_PROPERTIES.lines().count(), 21);
}

#[test]
fn java_installer_resolves_like_the_cache() {
    let installer = JavaInstaller::new("/c");
    assert_eq!(installer.determine_java_version(&version("1.20.6")), JavaVersion::Java21);
    assert_eq!(installer.determine_java_version(&version("1.12.2")), JavaVersion::Java8);
    assert_eq!(installer.get_java_executable(&JavaVersion::Java21, HostOs::Linux), "/c/21/bin/java");
    assert_eq!(
        installer.install(JavaVersion::Java21, "linux", "x86_64", LinkProbe::Live),
        Ok(Resolution::Cached { executable: "/c/21/bin/java".to_string() })
    );
    assert_eq!(
        installer.install(JavaVersion::Java21, "macos", "aarch64", LinkProbe::Dangling),
        Ok(Resolution::Fetch {
            url: "https://api.adoptium.net/v3/binary/latest/21/ga/mac/aarch64/jdk/hotspot/normal/eclipse"
                .to_string()
        })
    );
    assert_eq!(
        installer.install(JavaVersion::Java21, "freebsd", "x86_64", LinkProbe::Absent),
        Err("Unsupported OS: freebsd".to_string())
    );
}

#[test]
fn java_installer_plans_and_messages() {
    let installer = JavaInstaller::new("/c");
    let unpack = installer.unpack_plan(b"bytes");
    assert_eq!(
        unpack.ops,
        vec![
            CacheOp::CreateRoot { path: "/c".to_string() },
            CacheOp::Unpack { into: unpack.content_dir.clone() },
        ]
    );
    let entry = FirstEntry::Entry { path: "/c/ff/jdk".to_string(), is_dir: true };
    let plan =
        installer.link_plan(&JavaVersion::Java17, HostOs::Linux, "/c/ff", &entry, LinkProbe::Occupied).unwrap();
    assert_eq!(
        plan.ops,
        vec![
            CacheOp::RemoveLink { path: "/c/17".to_string() },
            CacheOp::Link { target: "/c/ff/jdk".to_string(), link: "/c/17".to_string() },
        ]
    );
    assert_eq!(plan.executable, "/c/17/bin/java");
    let fresh =
        installer.link_plan(&JavaVersion::Java17, HostOs::Linux, "/c/ff", &entry, LinkProbe::Absent).unwrap();
    assert_eq!(
        fresh.ops,
        vec![CacheOp::Link { target: "/c/ff/jdk".to_string(), link: "/c/17".to_string() }]
    );
    let failure = |first: &FirstEntry| {
        installer
            .link_plan(&JavaVersion::Java17, HostOs::Linux, "/c/ff", first, LinkProbe::Absent)
            .map(|p| p.executable)
    };
    assert_eq!(
        failure(&FirstEntry::Nothing),
        Err("Could not find JDK directory inside unpacked archive at /c/ff".to_string())
    );
    assert_eq!(
        failure(&FirstEntry::Entry { path: "/c/ff/x".to_string(), is_dir: false }),
        Err("Could not find JDK directory inside unpacked archive at /c/ff".to_string())
    );
    let denied = IoFailure { kind: IoKind::PermissionDenied, detail: "denied".to_string() };
    assert_eq!(
        failure(&FirstEntry::Unlisted(denied.clone())),
        Err("Failed to read unpacked JDK directory: /c/ff".to_string())
    );
    assert_eq!(
        failure(&FirstEntry::Unknown { path: "/c/ff/x".to_string(), cause: denied }),
        Err("Failed to read unpacked JDK directory: /c/ff".to_string())
    );
    assert_eq!(
        JavaInstaller::download_failed("https://x", &DownloadFailure::Request),
        "Failed to download Java from https://x"
    );
    assert_eq!(
        JavaInstaller::download_failed("https://x", &DownloadFailure::Status("404 Not Found".to_string())),
        "Failed to download Java: HTTP 404 Not Found"
    );
    assert_eq!(
        JavaInstaller::download_failed("https://x", &DownloadFailure::Body),
        "Failed to read Java download response"
    );
    assert_eq!(
        JavaInstaller::operation_failed(&CacheOp::CreateRoot { path: "/c".to_string() }),
        "Failed to create cache directory: /c"
    );
    assert_eq!(
        JavaInstaller::operation_failed(&CacheOp::Unpack { into: "/c/ff".to_string() }),
        "Failed to unpack Java to /c/ff"
    );
    assert_eq!(
        JavaInstaller::operation_failed(&CacheOp::RemoveLink { path: "/c/17".to_string() }),
        "Failed to remove existing symlink: /c/17"
    );
    assert_eq!(
        JavaInstaller::operation_failed(&CacheOp::Link {
            target: "/c/ff/jdk".to_string(),
            link: "/c/17".to_string()
        }),
        "Failed to create symlink from /c/17 to /c/ff/jdk"
    );
    assert_eq!(
        JavaInstaller::operation_failed(&CacheOp::Chown {
            path: "/c/17".to_string(),
            uid: 1,
            gid: 1
        }),
        "Failed to change owner of /c/17"
    );
}

#[test]
fn server_downloads_for_a_fabric_profile() {
    let installer = MinecraftInstaller::new("/srv/a");
    let plain = installer.install(&fabric_profile(None)).unwrap();
    assert_eq!(
        plain.server,
        PackDownload {
            url: "https://meta.fabricmc.net/v2/versions/loader/1.20.1/0.15.11/1.0.1/server/jar"
                .to_string(),
            target: "/srv/a/server.jar".to_string(),
            required: true,
        }
    );
    assert_eq!(plain.mods_dir, None);
    assert_eq!(plain.mods, vec![]);
    let packed = installer.install(&fabric_profile(Some(pack()))).unwrap();
    assert_eq!(packed.mods_dir, Some("/srv/a/mods".to_string()));
    assert_eq!(
        packed.mods,
        vec![
            PackDownload {
                url: "https://cdn/a.jar".to_string(),
                target: "/srv/a/mods/mods/a.jar".to_string(),
                required: false,
            },
            PackDownload {
                url: "https://cdn/b.toml".to_string(),
                target: "/srv/a/mods/config/b.toml".to_string(),
                required: false,
            },
        ]
    );
}

#[test]
fn vanilla_profiles_are_not_installed_directly() {
    let installer = MinecraftInstaller::new("/srv/a");
    let vanilla = MinecraftProfile { version: version("1.20.1"), loader: None, modpack: Some(pack()) };
    assert_eq!(
        installer.install(&vanilla).unwrap_err(),
        "Vanilla Minecraft server installation is not yet supported. Minecraft version: 1.20.1"
    );
}

#[test]
fn direct_installer_stages() {
    let profile = fabric_profile(None);
    let name = profile.hash();
    let installer = MinecraftServerInstaller::new(profile, &args(), "/opt/feather/java", "/opt/feather/servers");
    let server_dir = format!("/opt/feather/servers/{name}");
    assert_eq!(installer.server_directory(), &server_dir);
    assert_eq!(
        installer.install(),
        vec![
            InstallStage::Directories,
            InstallStage::User,
            InstallStage::Java,
            InstallStage::Server,
            InstallStage::ConfigFiles,
            InstallStage::Systemd,
        ]
    );
    assert_eq!(InstallStage::Directories.context(), "Failed to create directories");
    assert_eq!(InstallStage::User.context(), "Failed to create feather user");
    assert_eq!(InstallStage::Java.context(), "Failed to install Java");
    assert_eq!(InstallStage::Server.context(), "Failed to install Minecraft server");
    assert_eq!(InstallStage::ConfigFiles.context(), "Failed to create configuration files");
    assert_eq!(InstallStage::Systemd.context(), "Failed to setup systemd service");
    assert_eq!(
        installer.create_directories(),
        vec![
            DirectoryCreation {
                path: "/opt/feather/java".to_string(),
                failure: "Failed to create Java cache directory: /opt/feather/java".to_string(),
            },
            DirectoryCreation {
                path: server_dir.clone(),
                failure: format!("Failed to create server directory: {server_dir}"),
            },
        ]
    );
    let (java_installer, java_version) = installer.install_java();
    assert_eq!(java_version, JavaVersion::Java17);
    assert_eq!(
        java_installer.get_java_executable(&java_version, HostOs::Linux),
        "/opt/feather/java/17/bin/java"
    );
    let downloads = installer.install_minecraft_server().unwrap();
    assert_eq!(downloads.server.target, format!("{server_dir}/server.jar"));
    let files = installer.create_config_files("/opt/feather/java/17/bin/java");
    assert_eq!(files.len(), 2);
    assert_eq!(files[0].path, format!("{server_dir}/eula.txt"));
    assert_eq!(files[0].content, "eula=true");
    assert_eq!(files[1].path, format!("{server_dir}/feather.env"));
    assert_eq!(
        files[1].content,
        "JAVA_EXECUTABLE=/opt/feather/java/17/bin/java\nJAVA_ARGS=-Xmx4G -Xms4G\nSERVER_JAR=server.jar\n"
    );
}

#[test]
fn direct_installer_commands() {
    let installer = MinecraftServerInstaller::new(fabric_profile(None), &args(), "/c", "/s");
    assert_eq!(
        MinecraftServerInstaller::user_exists_command(),
        CommandLine {
            program: "id".to_string(),
            args: vec!["feather".to_string()],
            process_group: None,
            null_stdin: false,
        }
    );
    assert_eq!(installer.create_user(true), None);
    assert_eq!(
        installer.create_user(false),
        Some(CommandLine {
            program: "sudo".to_string(),
            args: vec![
                "useradd".to_string(),
                "-r".to_string(),
                "-s".to_string(),
                "/bin/false".to_string(),
                "feather".to_string(),
            ],
            process_group: None,
            null_stdin: false,
        })
    );
    let (write, reload) = installer.setup_systemd();
    assert_eq!(write.path, "/etc/systemd/system/feather.service");
    assert_eq!(write.content, SERVICE_TEMPLATE);
    assert_eq!(
        write.failure,
        "Failed to write systemd service file: /etc/systemd/system/feather.service"
    );
    assert_eq!(
        reload,
        CommandLine {
            program: "sudo".to_string(),
            args: vec!["systemctl".to_string(), "daemon-reload".to_string()],
            process_group: None,
            null_stdin: false,
        }
    );
}

fn announced(id: &str, url: &str) -> MinecraftVersion {
    MinecraftVersion {
        id: id.to_string(),
        version_type: VersionType::Release,
        url: url.to_string(),
        sha1: "0".to_string(),
    }
}

#[test]
fn announced_versions_are_found_by_id() {
    let versions = MinecraftVersions::from(vec![
        announced("1.20.1", "first"),
        announced("1.20.2", "second"),
        announced("1.20.1", "third"),
    ]);
    assert_eq!(versions.get_version("1.20.2").unwrap().url, "second");
    assert_eq!(versions.get_version("1.20.1").unwrap().url, "third");
    assert!(versions.get_version("1.20.3").is_none());
    assert!(MinecraftVersions::from(vec![]).get_version("1.20.1").is_none());
    assert_eq!(VersionType::from_str("release"), Some(VersionType::Release));
    assert_eq!(VersionType::from_str("snapshot"), Some(VersionType::Snapshot));
    assert_eq!(VersionType::from_str("old_alpha"), Some(VersionType::OldAlpha));
    assert_eq!(VersionType::from_str("old_beta"), Some(VersionType::OldBeta));
    assert_eq!(VersionType::from_str("beta"), None);
}

#[test]
fn pack_resolver_trusts_a_readable_entry() {
    assert_eq!(
        ensure_java_present(JavaVersion::Java17, "linux", "x86_64", Some("/c/ff/jdk-17")),
        Ok(Resolution::Cached { executable: "/c/ff/jdk-17/bin/java".to_string() })
    );
    assert_eq!(
        ensure_java_present(JavaVersion::Java8, "macos", "aarch64", None),
        Ok(Resolution::Fetch {
            url: "https://api.adoptium.net/v3/binary/latest/8/ga/mac/aarch64/jdk/hotspot/normal/eclipse"
                .to_string()
        })
    );
    assert_eq!(
        ensure_java_present(JavaVersion::Java8, "haiku", "x86_64", None),
        Err("Unsupported OS: haiku".to_string())
    );
    let plan = link_plan(
        JavaVersion::Java17,
        "/c",
        HostOs::Linux,
        "/c/ff",
        &FirstEntry::Entry { path: "/c/ff/jdk-17".to_string(), is_dir: true },
    )
    .unwrap();
    assert_eq!(
        plan.ops,
        vec![CacheOp::Link { target: "/c/ff/jdk-17".to_string(), link: "/c/17".to_string() }]
    );
    assert_eq!(plan.executable, "/c/17/bin/java");
    assert_eq!(
        link_plan(JavaVersion::Java17, "/c", HostOs::Linux, "/c/ff", &FirstEntry::Nothing)
            .map(|p| p.executable),
        Err("No JDK directory found in /c/ff".to_string())
    );
}

#[test]
fn failed_downloads_end_or_skip() {
    let server = PackDownload {
        url: "https://meta/server".to_string(),
        target: "/srv/a/server.jar".to_string(),
        required: true,
    };
    let extra = PackDownload {
        url: "https://cdn/a.jar".to_string(),
        target: "/srv/a/mods/a.jar".to_string(),
        required: false,
    };
    let status = DownloadFailure::Status("404 Not Found".to_string());
    assert_eq!(
        server.download_failed(&DownloadFailure::Request),
        Some("Failed to download Fabric server from https://meta/server".to_string())
    );
    assert_eq!(
        server.download_failed(&status),
        Some("Failed to download Fabric server: HTTP 404 Not Found".to_string())
    );
    assert_eq!(
        server.download_failed(&DownloadFailure::Body),
        Some("Failed to read Fabric server response".to_string())
    );
    assert_eq!(
        extra.download_failed(&DownloadFailure::Request),
        Some("Failed to download mod from https://cdn/a.jar".to_string())
    );
    assert_eq!(extra.download_failed(&status), None);
    assert_eq!(
        extra.download_failed(&DownloadFailure::Body),
        Some("Failed to read mod file response".to_string())
    );
    assert_eq!(server.write_failed(), "Failed to write server.jar to /srv/a/server.jar");
    assert_eq!(extra.write_failed(), "Failed to write mod file: /srv/a/mods/a.jar");
}
