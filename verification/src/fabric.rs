//! Addresses and file names of the Fabric installer service.

use vstd::prelude::*;
use vstd::string::*;

use crate::text::{join_path, joined_path};
use crate::version::{GameVersion, GameVersionView};

verus! {

/// The root of the Fabric metadata service.
pub const BASE_FABRIC_URL: &'static str = "https://meta.fabricmc.net/v2/";

/// The file that the downloaded installer is written to.
pub const INSTALLER_FILE: &'static str = "fabric-server-installer.jar";

/// One version of the installer, as the service lists it.
#[derive(Clone, Debug)]
pub struct InstallerVersion {
    pub version: GameVersion,
    pub url: String,
    pub stable: bool,
}

/// What [`InstallerVersion`] looks like to contracts: the same value with every text as a
/// sequence of characters.
pub struct InstallerVersionView {
    pub version: GameVersionView,
    pub url: Seq<char>,
    pub stable: bool,
}

impl View for InstallerVersion {
    type V = InstallerVersionView;

    open spec fn view(&self) -> InstallerVersionView {
        InstallerVersionView { version: self.version@, url: self.url@, stable: self.stable }
    }
}

impl DeepView for InstallerVersion {
    type V = InstallerVersionView;

    open spec fn deep_view(&self) -> InstallerVersionView {
        self@
    }
}

/// What `Url::join` makes of `reference` against the address `base`: the
/// resulting address as text, or the description of why there is none.
pub uninterp spec fn url_joined(base: Seq<char>, reference: Seq<char>) -> Result<
    Seq<char>,
    Seq<char>,
>;

/// Calls `Url::join` of the `url` crate, as `reqwest` hands it on: `base` is
/// parsed as an absolute address, `reference` is resolved against it, and the
/// result is given back as text. A failure of either step is given back as
/// the text that the error displays. The contract only gives that result its
/// name.
#[verifier::external_body]
fn join_url(base: &str, reference: &str) -> (r: Result<String, String>)
    ensures
        match r {
            Ok(address) => url_joined(base@, reference@) == Ok::<Seq<char>, Seq<char>>(address@),
            Err(reason) => url_joined(base@, reference@) == Err::<Seq<char>, Seq<char>>(reason@),
        },
{
    let parsed = reqwest::Url::parse(base).map_err(|e| e.to_string())?;
    let joined = parsed.join(reference).map_err(|e| e.to_string())?;
    Ok(String::from(joined))
}

/// The part of the service's address space that lists the installer versions.
pub open spec fn installer_versions_reference() -> Seq<char> {
    "versions/installer"@
}

/// The part of the service's address space that serves the server installer
/// for a game version, a loader version and an installer version.
pub open spec fn installer_jar_reference(
    minecraft: Seq<char>,
    loader: Seq<char>,
    installer: Seq<char>,
) -> Seq<char> {
    "versions/loader/"@ + minecraft + "/"@ + loader + "/"@ + installer + "/server/jar"@
}

/// The address that lists the installer versions.
pub fn installer_versions_url() -> (r: Result<String, String>)
    ensures
        match r {
            Ok(address) => url_joined(BASE_FABRIC_URL@, installer_versions_reference()) == Ok::<
                Seq<char>,
                Seq<char>,
            >(address@),
            Err(reason) => url_joined(BASE_FABRIC_URL@, installer_versions_reference()) == Err::<
                Seq<char>,
                Seq<char>,
            >(reason@),
        },
{
    join_url(BASE_FABRIC_URL, "versions/installer")
}

/// The address of the server installer for the given versions.
pub fn installer_jar_url(
    installer_version: &InstallerVersion,
    minecraft_version: &GameVersion,
    fabric_version: &GameVersion,
) -> (r: Result<String, String>)
    ensures
        ({
            let reference = installer_jar_reference(
                minecraft_version@.text,
                fabric_version@.text,
                installer_version@.version.text,
            );
            match r {
                Ok(address) => url_joined(BASE_FABRIC_URL@, reference) == Ok::<
                    Seq<char>,
                    Seq<char>,
                >(address@),
                Err(reason) => url_joined(BASE_FABRIC_URL@, reference) == Err::<
                    Seq<char>,
                    Seq<char>,
                >(reason@),
            }
        }),
{
    let mut reference = String::from_str("versions/loader/");
    reference.append(minecraft_version.text().as_str());
    reference.append("/");
    reference.append(fabric_version.text().as_str());
    reference.append("/");
    reference.append(installer_version.version.text().as_str());
    reference.append("/server/jar");
    join_url(BASE_FABRIC_URL, reference.as_str())
}

/// The file in `directory` that the downloaded installer is written to.
pub fn installer_jar_path(directory: &str) -> (r: String)
    ensures
        r@ == joined_path(directory@, INSTALLER_FILE@),
{
    join_path(directory, INSTALLER_FILE)
}

} // verus!
