//! The index of a Modrinth pack, as far as the installation reads it.

use vstd::prelude::*;

use crate::fingerprint::{feed_all, Feed, FeedView};
use crate::modpack::{Loader, LoaderType};
use crate::text::same_text;
use crate::text_map::{position_of, TextMap};
use crate::version::{versioning_of, GameVersion};

use rustc_hash::FxHasher;

verus! {

/// Whether a side of the game can, must or cannot use a file.
#[derive(Clone, Copy, Debug, PartialEq, Eq, Structural)]
pub enum EnvironmentSupport {
    Required,
    Optional,
    Unsupported,
}

/// What each side makes of a file.
#[derive(Clone, Copy, Debug, PartialEq, Eq, Structural)]
pub struct MinecraftEnvironment {
    pub client: EnvironmentSupport,
    pub server: EnvironmentSupport,
}

/// One file of a pack.
#[derive(Clone, Debug)]
pub struct ModrinthFile {
    pub path: String,
    /// Checksums of the file, by algorithm.
    pub hashes: TextMap,
    /// Addresses that serve the file.
    pub downloads: Vec<String>,
    pub file_size: u64,
    pub env: Option<MinecraftEnvironment>,
}

/// What the first `upto` of the entries hand to a hasher: of each entry the key,
/// then the value.
pub open spec fn pair_feeds(entries: Seq<(Seq<char>, Seq<char>)>, upto: int) -> Seq<FeedView>
    decreases upto,
{
    if upto <= 0 {
        Seq::empty()
    } else {
        pair_feeds(entries, upto - 1).push(FeedView::Text(entries[upto - 1].0)).push(
            FeedView::Text(entries[upto - 1].1),
        )
    }
}

/// What the first `upto` of the texts hand to a hasher: each text.
pub open spec fn text_feeds(texts: Seq<String>, upto: int) -> Seq<FeedView>
    decreases upto,
{
    if upto <= 0 {
        Seq::empty()
    } else {
        text_feeds(texts, upto - 1).push(FeedView::Text(texts[upto - 1]@))
    }
}

/// What the first `upto` of the files hand to a hasher: each file what
/// identifies it.
pub open spec fn file_feeds(files: Seq<ModrinthFile>, upto: int) -> Seq<FeedView>
    decreases upto,
{
    if upto <= 0 {
        Seq::empty()
    } else {
        file_feeds(files, upto - 1) + files[upto - 1].identity()
    }
}

/// Appends the entries of `map` to `feeds`: of each entry the key, then the
/// value.
fn feed_pairs<'a>(map: &'a TextMap, feeds: &mut Vec<Feed<'a>>)
    ensures
        final(feeds).deep_view() == old(feeds).deep_view() + pair_feeds(map@, map@.len() as int),
{
    let ghost before = feeds.deep_view();
    let mut i: usize = 0;
    while i < map.len()
        invariant
            i <= map@.len(),
            feeds.deep_view() == before + pair_feeds(map@, i as int),
        decreases map@.len() - i,
    {
        let ghost so_far = feeds.deep_view();
        feeds.push(Feed::Text(map.key_at(i).as_str()));
        feeds.push(Feed::Text(map.value_at(i).as_str()));
        assert(feeds.deep_view() =~= so_far.push(FeedView::Text(map@[i as int].0)).push(
            FeedView::Text(map@[i as int].1),
        ));
        i = i + 1;
    }
}

impl ModrinthFile {
    /// What identifies the file, in the order in which it is handed to a
    /// hasher: its path, its checksums in their order, the number of its
    /// addresses and the addresses, and its size. What each side makes of the
    /// file is no part of it.
    pub open spec fn identity(&self) -> Seq<FeedView> {
        seq![FeedView::Text(self.path@)] + pair_feeds(self.hashes@, self.hashes@.len() as int)
            + seq![FeedView::Length(self.downloads@.len() as usize)] + text_feeds(
            self.downloads@,
            self.downloads@.len() as int,
        ) + seq![FeedView::Number(self.file_size)]
    }

    /// Appends what identifies the file to `feeds`.
    pub fn feed_into<'a>(&'a self, feeds: &mut Vec<Feed<'a>>)
        ensures
            final(feeds).deep_view() == old(feeds).deep_view() + self.identity(),
    {
        let ghost before = feeds.deep_view();
        feeds.push(Feed::Text(self.path.as_str()));
        assert(feeds.deep_view() =~= before + seq![FeedView::Text(self.path@)]);
        feed_pairs(&self.hashes, feeds);
        let ghost hashed = feeds.deep_view();
        feeds.push(Feed::Length(self.downloads.len()));
        assert(feeds.deep_view() =~= hashed + seq![
            FeedView::Length(self.downloads@.len() as usize),
        ]);
        let ghost counted = feeds.deep_view();
        let mut j: usize = 0;
        while j < self.downloads.len()
            invariant
                j <= self.downloads.len(),
                feeds.deep_view() == counted + text_feeds(self.downloads@, j as int),
            decreases self.downloads.len() - j,
        {
            let ghost so_far = feeds.deep_view();
            feeds.push(Feed::Text(self.downloads[j].as_str()));
            assert(feeds.deep_view() =~= so_far.push(FeedView::Text(self.downloads@[j as int]@)));
            j = j + 1;
        }
        let ghost listed = feeds.deep_view();
        feeds.push(Feed::Number(self.file_size));
        assert(feeds.deep_view() =~= listed + seq![FeedView::Number(self.file_size)]);
    }

    /// What identifies the file, in the order in which it is handed to a
    /// hasher.
    pub fn feed(&self) -> (r: Vec<Feed>)
        ensures
            r.deep_view() == self.identity(),
    {
        let mut feeds: Vec<Feed> = Vec::new();
        self.feed_into(&mut feeds);
        feeds
    }

    /// Feeds the file to a hasher: what [`ModrinthFile::feed`] lists, first to
    /// last.
    pub fn hash(&self, state: &mut FxHasher) {
        feed_all(state, &self.feed());
    }
}

/// The index of a pack: what it is called, what it consists of and what it
/// depends on.
#[derive(Clone, Debug)]
pub struct ModrinthModpack {
    pub format_version: u32,
    pub version_id: String,
    pub name: String,
    pub summary: Option<String>,
    pub files: Vec<ModrinthFile>,
    /// What the pack depends on, by name, with the version it asks for.
    pub dependencies: TextMap,
}

/// Whether a dependency's name is the name of a mod loader.
pub open spec fn names_loader(key: Seq<char>) -> bool {
    key == "forge"@ || key == "fabric-loader"@ || key == "quilt-loader"@ || key == "neoforge"@
}

/// The index of the first dependency among the first `upto` that names a mod
/// loader, if there is one.
pub open spec fn loader_position(dependencies: Seq<(Seq<char>, Seq<char>)>, upto: int) -> Option<
    int,
>
    decreases upto,
{
    if upto <= 0 {
        None
    } else {
        match loader_position(dependencies, upto - 1) {
            Some(i) => Some(i),
            None => if names_loader(dependencies[upto - 1].0) {
                Some(upto - 1)
            } else {
                None
            },
        }
    }
}

impl ModrinthModpack {
    /// The dependency that names the game itself.
    pub open spec fn minecraft_entry(&self) -> Option<int> {
        position_of(self.dependencies@, "minecraft"@)
    }

    /// The dependency that names the pack's mod loader: the first one that
    /// names any.
    pub open spec fn loader_entry(&self) -> Option<int> {
        loader_position(self.dependencies@, self.dependencies@.len() as int)
    }

    /// Whether the pack names its game version in a way that can be read.
    pub open spec fn has_minecraft_version(&self) -> bool {
        self.minecraft_entry() is Some && versioning_of(
            self.dependencies@[self.minecraft_entry()->Some_0].1,
        ) is Some
    }

    /// Whether the pack's mod loader, if it names one, is one that is known
    /// and has a version that can be read.
    pub open spec fn has_readable_loader(&self) -> bool {
        self.loader_entry() is Some ==> LoaderType::parsed(
            self.dependencies@[self.loader_entry()->Some_0].0,
        ) is Some && versioning_of(self.dependencies@[self.loader_entry()->Some_0].1) is Some
    }

    /// The game version that the pack is made for.
    pub fn get_minecraft_version(&self) -> (r: GameVersion)
        requires
            self.has_minecraft_version(),
        ensures
            versioning_of(self.dependencies@[self.minecraft_entry()->Some_0].1) == Some(r@),
    {
        let text = self.dependencies.get("minecraft").unwrap();
        GameVersion::new(text.as_str()).unwrap()
    }

    fn loader_index(&self) -> (r: Option<usize>)
        ensures
            match r {
                Some(i) => self.loader_entry() == Some(i as int) && i < self.dependencies@.len(),
                None => self.loader_entry() is None,
            },
    {
        let mut i: usize = 0;
        while i < self.dependencies.len()
            invariant
                i <= self.dependencies@.len(),
                loader_position(self.dependencies@, i as int) is None,
            decreases self.dependencies@.len() - i,
        {
            let key = self.dependencies.key_at(i).as_str();
            if same_text(key, "forge") || same_text(key, "fabric-loader") || same_text(
                key,
                "quilt-loader",
            ) || same_text(key, "neoforge") {
                proof {
                    lemma_loader_found(self.dependencies@, i as int + 1);
                }
                return Some(i);
            }
            i = i + 1;
        }
        None
    }

    /// The mod loader that the pack asks for, if it asks for one: the first of
    /// its dependencies that names a loader, with the version it asks for.
    pub fn get_loader(&self) -> (r: Option<Loader>)
        requires
            self.has_readable_loader(),
        ensures
            match self.loader_entry() {
                Some(i) => r is Some && Some(r->Some_0.name) == LoaderType::parsed(
                    self.dependencies@[i].0,
                ) && versioning_of(self.dependencies@[i].1) == Some(r->Some_0.version@),
                None => r is None,
            },
    {
        match self.loader_index() {
            Some(i) => {
                let name = LoaderType::from_str(self.dependencies.key_at(i).as_str());
                let version = GameVersion::new(self.dependencies.value_at(i).as_str());
                Some(Loader { version: version.unwrap(), name: name.unwrap() })
            },
            None => None,
        }
    }

    /// Whether [`ModrinthModpack::get_minecraft_version`] and
    /// [`ModrinthModpack::get_loader`] can be asked: whether the pack names a
    /// game version that can be read and no loader that cannot.
    pub fn is_readable(&self) -> (r: bool)
        ensures
            r == (self.has_minecraft_version() && self.has_readable_loader()),
    {
        let game = match self.dependencies.get("minecraft") {
            Some(text) => GameVersion::new(text.as_str()).is_some(),
            None => false,
        };
        let loader = match self.loader_index() {
            Some(i) => {
                LoaderType::from_str(self.dependencies.key_at(i).as_str()).is_ok()
                    && GameVersion::new(self.dependencies.value_at(i).as_str()).is_some()
            },
            None => true,
        };
        game && loader
    }

    /// What the pack's summary hands to a hasher: the number of its variant,
    /// and the summary if there is one.
    pub open spec fn summary_feeds(&self) -> Seq<FeedView> {
        match self.summary {
            Some(summary) => seq![FeedView::Variant(1), FeedView::Text(summary@)],
            None => seq![FeedView::Variant(0)],
        }
    }

    /// What identifies the pack, in the order in which it is handed to a
    /// hasher: its version, its name, its summary, the number of its files
    /// and what identifies each of them, and its dependencies in their order.
    /// The version of the index format is no part of it.
    pub open spec fn identity(&self) -> Seq<FeedView> {
        seq![FeedView::Text(self.version_id@), FeedView::Text(self.name@)] + self.summary_feeds()
            + seq![FeedView::Length(self.files@.len() as usize)] + file_feeds(
            self.files@,
            self.files@.len() as int,
        ) + pair_feeds(self.dependencies@, self.dependencies@.len() as int)
    }

    /// What identifies the pack, in the order in which it is handed to a
    /// hasher.
    pub fn feed(&self) -> (r: Vec<Feed>)
        ensures
            r.deep_view() == self.identity(),
    {
        let mut feeds: Vec<Feed> = Vec::new();
        feeds.push(Feed::Text(self.version_id.as_str()));
        feeds.push(Feed::Text(self.name.as_str()));
        match &self.summary {
            Some(summary) => {
                feeds.push(Feed::Variant(1));
                feeds.push(Feed::Text(summary.as_str()));
            },
            None => {
                feeds.push(Feed::Variant(0));
            },
        }
        feeds.push(Feed::Length(self.files.len()));
        let ghost head = feeds.deep_view();
        assert(head =~= seq![FeedView::Text(self.version_id@), FeedView::Text(self.name@)]
            + self.summary_feeds() + seq![FeedView::Length(self.files@.len() as usize)]);
        let mut i: usize = 0;
        while i < self.files.len()
            invariant
                i <= self.files.len(),
                feeds.deep_view() == head + file_feeds(self.files@, i as int),
            decreases self.files.len() - i,
        {
            self.files[i].feed_into(&mut feeds);
            assert(feeds.deep_view() =~= head + file_feeds(self.files@, i as int + 1));
            i = i + 1;
        }
        feed_pairs(&self.dependencies, &mut feeds);
        feeds
    }

    /// Feeds the pack to a hasher: what [`ModrinthModpack::feed`] lists, first
    /// to last.
    pub fn hash(&self, state: &mut FxHasher) {
        feed_all(state, &self.feed());
    }
}

/// A loader's name found among the first entries is what a search of all of
/// them finds.
pub proof fn lemma_loader_found(dependencies: Seq<(Seq<char>, Seq<char>)>, upto: int)
    requires
        0 < upto <= dependencies.len(),
        loader_position(dependencies, upto - 1) is None,
        names_loader(dependencies[upto - 1].0),
    ensures
        loader_position(dependencies, dependencies.len() as int) == Some(upto - 1),
{
    lemma_loader_position_stays(dependencies, upto, dependencies.len() as int);
}

/// What is found among the first `upto` entries is found among any more of
/// them.
pub proof fn lemma_loader_position_stays(
    dependencies: Seq<(Seq<char>, Seq<char>)>,
    upto: int,
    more: int,
)
    requires
        0 <= upto <= more,
        loader_position(dependencies, upto) is Some,
    ensures
        loader_position(dependencies, more) == loader_position(dependencies, upto),
    decreases more - upto,
{
    if upto < more {
        lemma_loader_position_stays(dependencies, upto, more - 1);
    }
}

} // verus!
