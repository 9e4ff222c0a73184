//! What the command line asks for.

use vstd::prelude::*;
use vstd::string::*;

pub mod printer;

use crate::text::same_text;

verus! {

/// The command line, parsed.
#[derive(Clone, Debug)]
pub struct Cli {
    pub command: Commands,
}

/// Which Java runtime a server is to run on.
#[derive(Clone, Debug, PartialEq, Eq)]
pub enum JavaSelection {
    /// The runtime that the game version needs, from the cache.
    Auto,
    /// The runtime that the system provides.
    System,
    /// The runtime at this path.
    Custom(String),
}

/// What [`JavaSelection`] looks like to contracts: the same value with every text as a
/// sequence of characters.
pub enum JavaSelectionView {
    Auto,
    System,
    Custom(Seq<char>),
}

impl View for JavaSelection {
    type V = JavaSelectionView;

    open spec fn view(&self) -> JavaSelectionView {
        match self {
            JavaSelection::Auto => JavaSelectionView::Auto,
            JavaSelection::System => JavaSelectionView::System,
            JavaSelection::Custom(path) => JavaSelectionView::Custom(path@),
        }
    }
}

impl JavaSelectionView {
    /// The selection that a word on the command line stands for: `auto` and
    /// `system` for themselves, every other word for a path.
    pub open spec fn parsed(word: Seq<char>) -> JavaSelectionView {
        if word == "auto"@ {
            JavaSelectionView::Auto
        } else if word == "system"@ {
            JavaSelectionView::System
        } else {
            JavaSelectionView::Custom(word)
        }
    }
}

impl Default for JavaSelection {
    fn default() -> (r: Self)
        ensures
            r@ == JavaSelectionView::Auto,
    {
        JavaSelection::Auto
    }
}

impl JavaSelection {
    /// Reads a selection. Every word is one, so this never fails.
    pub fn from_str(s: &str) -> (r: Result<Self, String>)
        ensures
            r is Ok,
            r->Ok_0@ == JavaSelectionView::parsed(s@),
    {
        if same_text(s, "auto") {
            Ok(JavaSelection::Auto)
        } else if same_text(s, "system") {
            Ok(JavaSelection::System)
        } else {
            Ok(JavaSelection::Custom(String::from_str(s)))
        }
    }
}

/// What `init` is told.
#[derive(Clone, Debug)]
pub struct InitArgs {
    /// Path to the modpack file to import.
    pub file: String,
    /// Path to the working directory.
    pub working_dir: String,
    /// The Java runtime to use.
    pub java: JavaSelection,
    /// Arguments for the Java runtime that runs the server.
    pub java_args: Vec<String>,
}

/// The commands.
#[derive(Clone, Debug)]
pub enum Commands {
    /// Initialize a new server.
    Init(InitArgs),
}

/// The working directory that `init` uses unless told otherwise.
pub const DEFAULT_WORKING_DIR: &'static str = ".minecraft";

/// The arguments that the Java runtime gets unless told otherwise.
pub open spec fn default_java_arguments() -> Seq<Seq<char>> {
    seq![
        "-XX:+UseG1GC"@,
        "-XX:+ParallelRefProcEnabled"@,
        "-XX:MaxGCPauseMillis=200"@,
        "-XX:+UnlockExperimentalVMOptions"@,
        "-XX:+DisableExplicitGC"@,
        "-XX:+AlwaysPreTouch"@,
        "-XX:G1HeapRegionSize=16M"@,
        "-XX:G1NewSizePercent=30"@,
        "-XX:G1MaxNewSizePercent=40"@,
        "-XX:G1HeapWastePercent=5"@,
        "-XX:G1MixedGCCountTarget=4"@,
        "-XX:InitiatingHeapOccupancyPercent=15"@,
        "-XX:G1MixedGCLiveThresholdPercent=90"@,
        "-XX:G1RSetUpdatingPauseTimePercent=5"@,
        "-XX:SurvivorRatio=32"@,
        "-XX:+PerfDisableSharedMem"@,
        "-XX:MaxTenuringThreshold=1"@,
        "-Dusing.aikars.flags=https://mcflags.emc.gs"@,
        "-Daikars.new.flags=true"@,
    ]
}

/// The arguments that the Java runtime gets unless told otherwise.
pub fn default_java_args() -> (r: Vec<String>)
    ensures
        r.deep_view() == default_java_arguments(),
{
    let mut r: Vec<String> = Vec::new();
    r.push(String::from_str("-XX:+UseG1GC"));
    r.push(String::from_str("-XX:+ParallelRefProcEnabled"));
    r.push(String::from_str("-XX:MaxGCPauseMillis=200"));
    r.push(String::from_str("-XX:+UnlockExperimentalVMOptions"));
    r.push(String::from_str("-XX:+DisableExplicitGC"));
    r.push(String::from_str("-XX:+AlwaysPreTouch"));
    r.push(String::from_str("-XX:G1HeapRegionSize=16M"));
    r.push(String::from_str("-XX:G1NewSizePercent=30"));
    r.push(String::from_str("-XX:G1MaxNewSizePercent=40"));
    r.push(String::from_str("-XX:G1HeapWastePercent=5"));
    r.push(String::from_str("-XX:G1MixedGCCountTarget=4"));
    r.push(String::from_str("-XX:InitiatingHeapOccupancyPercent=15"));
    r.push(String::from_str("-XX:G1MixedGCLiveThresholdPercent=90"));
    r.push(String::from_str("-XX:G1RSetUpdatingPauseTimePercent=5"));
    r.push(String::from_str("-XX:SurvivorRatio=32"));
    r.push(String::from_str("-XX:+PerfDisableSharedMem"));
    r.push(String::from_str("-XX:MaxTenuringThreshold=1"));
    r.push(String::from_str("-Dusing.aikars.flags=https://mcflags.emc.gs"));
    r.push(String::from_str("-Daikars.new.flags=true"));
    r
}

} // verus!
