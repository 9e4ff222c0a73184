//! Version numbers as the `versions` crate reads them.

use vstd::prelude::*;

verus! {

/// The three shapes of version number that the parser tells apart.
#[derive(Clone, Copy, Debug, PartialEq, Eq, Structural)]
pub enum VersionKind {
    /// A semantic version; its three leading numbers are at hand.
    Ideal { major: u32, minor: u32, patch: u32 },
    /// Close to a semantic version, but not one.
    General,
    /// Anything else that still parses.
    Complex,
}

/// A parsed version number: its shape and its canonical text.
#[derive(Debug, PartialEq, Eq)]
pub struct GameVersion {
    kind: VersionKind,
    text: String,
}

/// What [`GameVersion`] looks like to contracts: the same value with every text as a
/// sequence of characters.
pub struct GameVersionView {
    pub kind: VersionKind,
    pub text: Seq<char>,
}

impl View for GameVersion {
    type V = GameVersionView;

    closed spec fn view(&self) -> GameVersionView {
        GameVersionView { kind: self.kind, text: self.text@ }
    }
}

impl DeepView for GameVersion {
    type V = GameVersionView;

    open spec fn deep_view(&self) -> GameVersionView {
        self@
    }
}

/// What `versions::Versioning::new` makes of `text`: nothing if it does not
/// parse, else the shape it found and the text that the parsed value displays.
pub uninterp spec fn versioning_of(text: Seq<char>) -> Option<GameVersionView>;

/// Calls `versions::Versioning::new`, which tries the text as a semantic
/// version, then as a general version, then as anything else, and takes the
/// result apart: the variant, for a semantic version its `major`, `minor` and
/// `patch`, and the text that the value's `Display` gives. The contract only
/// gives that result its name.
#[verifier::external_body]
fn parse_versioning(text: &str) -> (r: Option<GameVersion>)
    ensures
        match r {
            Some(v) => versioning_of(text@) == Some(v@),
            None => versioning_of(text@) is None,
        },
{
    let parsed = versions::Versioning::new(text)?;
    let shown = parsed.to_string();
    let kind = match parsed {
        versions::Versioning::Ideal(v) => VersionKind::Ideal {
            major: v.major,
            minor: v.minor,
            patch: v.patch,
        },
        versions::Versioning::General(_) => VersionKind::General,
        versions::Versioning::Complex(_) => VersionKind::Complex,
    };
    Some(GameVersion { kind, text: shown })
}

impl GameVersion {
    /// Parses a version number; `None` where the text is none.
    pub fn new(text: &str) -> (r: Option<GameVersion>)
        ensures
            match r {
                Some(v) => versioning_of(text@) == Some(v@),
                None => versioning_of(text@) is None,
            },
    {
        parse_versioning(text)
    }

    /// The shape of the version.
    pub fn kind(&self) -> (r: VersionKind)
        ensures
            r == self@.kind,
    {
        self.kind
    }

    /// The canonical text of the version.
    pub fn text(&self) -> (r: &String)
        ensures
            r@ == self@.text,
    {
        &self.text
    }
}

impl Clone for GameVersion {
    fn clone(&self) -> (r: Self)
        ensures
            r@ == self@,
    {
        GameVersion { kind: self.kind, text: self.text.clone() }
    }
}

} // verus!
