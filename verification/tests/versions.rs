use feather::action::base::install_fabric_loader::{Download, InstallFabricLoaderAction};
use feather::action::report::ErrorCategory;
use feather::action::stateful::{ActionErrorKind, ActionState};
use feather::fabric::{
    installer_jar_path, installer_jar_url, installer_versions_url, InstallerVersion,
    BASE_FABRIC_URL,
};
use feather::version::{GameVersion, VersionKind};

fn version(text: &str) -> GameVersion {
    GameVersion::new(text).unwrap()
}

fn installer(text: &str) -> InstallerVersion {
    InstallerVersion {
        version: version(text),
        url: format!("https://maven.fabricmc.net/installer-{text}.jar"),
        stable: true,
    }
}

#[test]
fn semantic_versions_are_ideal() {
    let parsed = version("1.20.5");
    assert_eq!(parsed.kind(), VersionKind::Ideal { major: 1, minor: 20, patch: 5 });
    assert_eq!(parsed.text(), "1.20.5");
    let with_build = version("0.16.14+build.3");
    assert_eq!(with_build.kind(), VersionKind::Ideal { major: 0, minor: 16, patch: 14 });
    assert_eq!(with_build.text(), "0.16.14+build.3");
}

#[test]
fn other_versions_keep_their_text() {
    let general = version("1.20");
    assert_eq!(general.kind(), VersionKind::General);
    assert_eq!(general.text(), "1.20");
    let complex = version("000.007-1");
    assert_eq!(complex.kind(), VersionKind::Complex);
    assert_eq!(complex.text(), "000.007-1");
}

#[test]
fn what_is_no_version_does_not_parse() {
    assert_eq!(GameVersion::new(""), None);
    assert_eq!(GameVersion::new("   "), None);
}

#[test]
fn version_clone_is_equal() {
    let parsed = version("1.21.1");
    assert_eq!(parsed.clone(), parsed);
}

#[test]
fn fabric_addresses() {
    assert_eq!(BASE_FABRIC_URL, "https://meta.fabricmc.net/v2/");
    assert_eq!(
        installer_versions_url(),
        Ok("https://meta.fabricmc.net/v2/versions/installer".to_string())
    );
    assert_eq!(
        installer_jar_url(&installer("1.0.1"), &version("1.20.1"), &version("0.15.11")),
        Ok("https://meta.fabricmc.net/v2/versions/loader/1.20.1/0.15.11/1.0.1/server/jar".to_string())
    );
    assert_eq!(installer_jar_path("/srv/a"), "/srv/a/fabric-server-installer.jar");
}

#[test]
fn fabric_loader_is_always_planned_uncompleted() {
    let planned =
        InstallFabricLoaderAction::plan(version("1.20.1"), version("0.15.11"), "/srv/a".to_string())
            .unwrap();
    assert_eq!(planned.current_state(), ActionState::Uncompleted);
    assert_eq!(planned.inner_ref().revert_steps(), vec![]);
}

#[test]
fn fabric_loader_downloads_the_first_listed_installer() {
    let planned =
        InstallFabricLoaderAction::plan(version("1.20.1"), version("0.15.11"), "/srv/a".to_string())
            .unwrap();
    let action = planned.inner_ref();
    assert_eq!(
        action.execute_download(&vec![installer("1.0.1"), installer("1.0.0")]),
        Ok(Download {
            url: "https://meta.fabricmc.net/v2/versions/loader/1.20.1/0.15.11/1.0.1/server/jar"
                .to_string(),
            target: "/srv/a/fabric-server-installer.jar".to_string(),
        })
    );
    assert_eq!(
        action.execute_download(&vec![]),
        Err(ActionErrorKind::Other("No Fabric installer versions found".to_string()))
    );
    let failed = action.download_failed("https://meta.fabricmc.net/x", &installer("1.0.1"));
    assert_eq!(
        failed,
        ActionErrorKind::Transport {
            url: "https://meta.fabricmc.net/x".to_string(),
            message: "Failed to download Fabric installer for version 1.0.1 and loader version 0.15.11"
                .to_string(),
        }
    );
    assert_eq!(failed.category(), ErrorCategory::TransportFailure);
}
