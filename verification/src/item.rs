//! The unit of capture and what becomes of it once resolved.

use vstd::prelude::*;
use vstd::string::StringExecFns;
use crate::protocol::PlaybackConfig;

verus! {

/// Identifies one capturable unit: an opaque identifier plus the display
/// metadata that names the stored artifact.
#[derive(Debug)]
pub struct CaptureItem {
    pub item_id: String,
    pub name: String,
    pub artist: String,
}

/// Mathematical value of a [`CaptureItem`].
pub struct CaptureItemView {
    pub item_id: Seq<char>,
    pub name: Seq<char>,
    pub artist: Seq<char>,
}

impl View for CaptureItem {
    type V = CaptureItemView;

    open spec fn view(&self) -> CaptureItemView {
        CaptureItemView { item_id: self.item_id@, name: self.name@, artist: self.artist@ }
    }
}

impl PartialEq for CaptureItem {
    /// Two items are equal when identifier and metadata are.
    fn eq(&self, other: &Self) -> (equal: bool) {
        self.item_id == other.item_id && self.name == other.name && self.artist == other.artist
    }
}

impl Eq for CaptureItem {

}

impl vstd::std_specs::cmp::PartialEqSpecImpl for CaptureItem {
    open spec fn obeys_eq_spec() -> bool {
        true
    }

    open spec fn eq_spec(&self, other: &Self) -> bool {
        self@ == other@
    }
}

impl Clone for CaptureItem {
    fn clone(&self) -> (copy: Self)
        ensures
            copy@ == self@,
    {
        CaptureItem {
            item_id: self.item_id.clone(),
            name: self.name.clone(),
            artist: self.artist.clone(),
        }
    }
}

/// Name of the artifact an item is stored under: `"{artist} - {name}.ogg"`.
pub open spec fn artifact_name(item: CaptureItemView) -> Seq<char> {
    item.artist + " - "@ + item.name + ".ogg"@
}

/// Why an item could not be resolved to a byte stream.
#[derive(Clone, Copy, Debug, PartialEq, Eq, Structural)]
pub enum LoadError {
    /// No item goes by the identifier.
    NotFound,
    /// The session refused or dropped the request.
    SessionFailure,
    /// The cache held an entry it could not make sense of.
    CacheInconsistency,
    /// The bytes could not be fetched.
    TransportFailure,
}

/// The resolved byte stream of one item, read from its start. It belongs to
/// the task that asked for it.
#[derive(Debug)]
pub struct LoadedCaptureItem {
    source: Vec<u8>,
}

impl View for LoadedCaptureItem {
    type V = Seq<u8>;

    closed spec fn view(&self) -> Seq<u8> {
        self.source@
    }
}

impl LoadedCaptureItem {
    /// Gives up the stream's bytes.
    pub fn into_source(self) -> (bytes: Vec<u8>)
        ensures
            bytes@ == self@,
    {
        self.source
    }
}

/// What `load` makes of the item loader's answer: the stream on success, the
/// loader's own error otherwise.
pub open spec fn load_result(
    answer: Result<Vec<u8>, LoadError>,
    loaded: Result<LoadedCaptureItem, LoadError>,
) -> bool {
    match answer {
        Ok(bytes) => loaded is Ok && loaded->Ok_0@ == bytes@,
        Err(reason) => loaded == Err::<LoadedCaptureItem, LoadError>(reason),
    }
}

impl CaptureItem {
    /// Resolves the item to its byte stream by way of the item loader, which
    /// is asked once, for this item's identifier, with the handles and the
    /// configuration given.
    pub fn load<S, N, C, L>(
        &self,
        session: &S,
        cdn: N,
        cache: C,
        config: &PlaybackConfig,
        loader: L,
    ) -> (loaded: Result<LoadedCaptureItem, LoadError>) where
        L: FnOnce(&String, &S, N, C, &PlaybackConfig) -> Result<Vec<u8>, LoadError>,

        requires
            call_requires(loader, (&self.item_id, session, cdn, cache, config)),
        ensures
            exists|answer: Result<Vec<u8>, LoadError>|
                #[trigger] call_ensures(loader, (&self.item_id, session, cdn, cache, config), answer)
                    && load_result(answer, loaded),
    {
        match loader(&self.item_id, session, cdn, cache, config) {
            Ok(source) => Ok(LoadedCaptureItem { source }),
            Err(reason) => Err(reason),
        }
    }

    /// Computes the artifact name; it depends on the item's metadata alone.
    pub fn file_name(&self) -> (name: String)
        ensures
            name@ == artifact_name(self@),
    {
        let mut name = self.artist.clone();
        name.append(" - ");
        name.append(self.name.as_str());
        name.append(".ogg");
        name
    }
}

} // verus!
