//! What is to be installed: the game version, the mod loader and the pack.

use vstd::prelude::*;
use vstd::string::*;

pub mod java;
pub mod modrinth;

use crate::action::base::install_fabric_loader::{InstallFabricLoaderAction, InstallFabricLoaderView};
use crate::action::base::{BaseAction, BaseActionView};
use crate::action::stateful::{ActionErrorKind, ActionState, StatefulAction};
use crate::fingerprint::{finish, new_hasher, of_text};
pub use crate::modpack::modrinth::ModrinthModpack;
use crate::text::{concat2, hex_string, hex_text, same_text};
use crate::version::{GameVersion, GameVersionView};

verus! {

/// The mod loaders that can be installed.
#[derive(Clone, Copy, Debug, PartialEq, Eq, Structural)]
pub enum LoaderType {
    Fabric,
}

impl LoaderType {
    /// The loader's name.
    pub open spec fn label(self) -> Seq<char> {
        match self {
            LoaderType::Fabric => "fabric"@,
        }
    }

    /// The loader that a name stands for, if it stands for one.
    pub open spec fn parsed(name: Seq<char>) -> Option<LoaderType> {
        if name == "fabric"@ || name == "fabric-loader"@ {
            Some(LoaderType::Fabric)
        } else {
            None
        }
    }

    /// What is said of a name that stands for no loader.
    pub open spec fn unknown(name: Seq<char>) -> Seq<char> {
        "Unknown mod loader: "@ + name
    }

    /// The loader's name.
    pub fn to_string(&self) -> (r: String)
        ensures
            r@ == self.label(),
    {
        match self {
            LoaderType::Fabric => String::from_str("fabric"),
        }
    }

    /// The loader that `s` names; an unknown name is answered with a message.
    pub fn from_str(s: &str) -> (r: Result<LoaderType, String>)
        ensures
            match LoaderType::parsed(s@) {
                Some(loader) => r == Ok::<LoaderType, String>(loader),
                None => r is Err && r->Err_0@ == LoaderType::unknown(s@),
            },
    {
        if same_text(s, "fabric") || same_text(s, "fabric-loader") {
            Ok(LoaderType::Fabric)
        } else {
            Err(concat2("Unknown mod loader: ", s))
        }
    }
}

/// A mod loader in a version.
#[derive(Clone, Debug)]
pub struct Loader {
    pub name: LoaderType,
    pub version: GameVersion,
}

impl Loader {
    /// The loader's name, without its version.
    pub fn to_string(&self) -> (r: String)
        ensures
            r@ == self.name.label(),
    {
        self.name.to_string()
    }
}

/// A pack of mods, in one of the formats that can be read.
#[derive(Clone, Debug)]
pub enum Modpack {
    Modrinth(ModrinthModpack),
}

/// What is to be installed.
#[derive(Clone, Debug)]
pub struct MinecraftProfile {
    pub version: GameVersion,
    pub loader: Option<Loader>,
    pub modpack: Option<Modpack>,
}

/// The text that tells one installation from another, given the hash of the
/// pack if there is a pack: the game version, the loader's name or `vanilla`,
/// and the pack's hash in hexadecimal or `none`, joined by hyphens.
pub open spec fn snapshot_text(
    version: Seq<char>,
    loader: Option<LoaderType>,
    pack_hash: Option<u64>,
) -> Seq<char> {
    version + "-"@ + (match loader {
        Some(l) => l.label(),
        None => "vanilla"@,
    }) + "-"@ + (match pack_hash {
        Some(h) => hex_text(h as nat),
        None => "none"@,
    })
}

impl MinecraftProfile {
    /// The name of the profile's loader, if it has one.
    pub open spec fn loader_type(&self) -> Option<LoaderType> {
        match self.loader {
            Some(l) => Some(l.name),
            None => None,
        }
    }

    /// The version of the profile's loader, if it has one.
    pub open spec fn loader_version(&self) -> Option<GameVersionView> {
        match self.loader {
            Some(l) => Some(l.version@),
            None => None,
        }
    }

    /// The snapshot of a profile, given the hash of its pack.
    pub fn snapshot_with(&self, pack_hash: Option<u64>) -> (r: String)
        ensures
            r@ == snapshot_text(self.version@.text, self.loader_type(), pack_hash),
    {
        let mut r = self.version.text().clone();
        r.append("-");
        match &self.loader {
            Some(loader) => {
                r.append(loader.to_string().as_str());
            },
            None => {
                r.append("vanilla");
            },
        }
        r.append("-");
        match pack_hash {
            Some(h) => {
                r.append(hex_string(h).as_str());
            },
            None => {
                r.append("none");
            },
        }
        r
    }

    /// The text that tells this installation from others. A profile without
    /// a pack has the snapshot that [`snapshot_text`] gives without a hash; a
    /// profile with a pack has the one it gives with the hash of the pack,
    /// whatever that hash is.
    pub fn snapshot(&self) -> (r: String)
        ensures
            self.modpack is None ==> r@ == snapshot_text(
                self.version@.text,
                self.loader_type(),
                None,
            ),
            self.modpack is Some ==> exists|h: u64|
                r@ == #[trigger] snapshot_text(self.version@.text, self.loader_type(), Some(h)),
    {
        match &self.modpack {
            Some(Modpack::Modrinth(pack)) => {
                let mut state = new_hasher();
                pack.hash(&mut state);
                self.snapshot_with(Some(finish(&state)))
            },
            None => self.snapshot_with(None),
        }
    }

    /// The name of the installation's working directory: the hash of the
    /// snapshot, in hexadecimal, whatever that hash is.
    pub fn hash(&self) -> (r: String)
        ensures
            exists|h: u64| r@ == #[trigger] hex_text(h as nat),
    {
        let snapshot = self.snapshot();
        let h = of_text(snapshot.as_str());
        hex_string(h)
    }

    /// The profile that a pack asks for: its game version, its loader and
    /// the pack itself. `None` where the pack names no game version that can
    /// be read, or a loader that cannot.
    pub fn try_import(modpack: Modpack) -> (r: Option<Self>)
        ensures
            match modpack {
                Modpack::Modrinth(pack) => (r is Some <==> pack.has_minecraft_version()
                    && pack.has_readable_loader()) && (r is Some ==> {
                    &&& r->Some_0.modpack == Some(modpack)
                    &&& crate::version::versioning_of(
                        pack.dependencies@[pack.minecraft_entry()->Some_0].1,
                    ) == Some(r->Some_0.version@)
                    &&& match pack.loader_entry() {
                        Some(i) => r->Some_0.loader is Some && Some(r->Some_0.loader->Some_0.name)
                            == LoaderType::parsed(pack.dependencies@[i].0)
                            && crate::version::versioning_of(pack.dependencies@[i].1) == Some(
                            r->Some_0.loader->Some_0.version@,
                        ),
                        None => r->Some_0.loader is None,
                    }
                }),
            },
    {
        match modpack {
            Modpack::Modrinth(pack) => {
                if !pack.is_readable() {
                    return None;
                }
                let version = pack.get_minecraft_version();
                let loader = pack.get_loader();
                Some(MinecraftProfile { version, loader, modpack: Some(Modpack::Modrinth(pack)) })
            },
        }
    }

    /// The actions that install what the profile asks for beyond the game
    /// itself: for a Fabric loader the download of its installer into
    /// `working_dir`, and nothing without a loader.
    pub fn plan(&self, working_dir: &str) -> (r: Result<
        Vec<StatefulAction<BaseAction>>,
        ActionErrorKind,
    >)
        ensures
            r is Ok,
            self.loader is None ==> r->Ok_0@.len() == 0,
            self.loader is Some ==> r->Ok_0@.len() == 1 && r->Ok_0@[0].state()
                == ActionState::Uncompleted && r->Ok_0@[0].action()@
                == BaseActionView::InstallFabricLoader(
                InstallFabricLoaderView {
                    minecraft_version: self.version@,
                    loader_version: self.loader->Some_0.version@,
                    working_dir: working_dir@,
                },
            ),
    {
        let mut actions: Vec<StatefulAction<BaseAction>> = Vec::new();
        match &self.loader {
            Some(loader) => match loader.name {
                LoaderType::Fabric => {
                    match InstallFabricLoaderAction::plan(
                        self.version.clone(),
                        loader.version.clone(),
                        String::from_str(working_dir),
                    ) {
                        Ok(planned) => {
                            actions.push(planned.boxed());
                        },
                        Err(e) => {
                            return Err(e);
                        },
                    }
                },
            },
            None => {},
        }
        Ok(actions)
    }
}

} // verus!
