//! Catalog model: album and track records, the classification that decides
//! which tracks are playable, and album lookup. The records are plain values;
//! parsing the on-disk metadata repository into them happens outside this
//! crate.

use vstd::prelude::*;

verus! {

/// Classification of a track. Only `Normal` tracks are playable: selection
/// never produces any other kind.
#[derive(Clone, Copy, Debug, PartialEq, Eq, Structural)]
pub enum TrackType {
    Normal,
    Instrumental,
    Absolute,
    Drama,
    Radio,
    Vocal,
}

impl TrackType {
    /// A track may be drawn by the selector exactly when its type is `Normal`.
    pub open spec fn spec_is_playable(self) -> bool {
        self is Normal
    }

    pub fn is_playable(&self) -> (r: bool)
        ensures
            r == self.spec_is_playable(),
    {
        matches!(self, TrackType::Normal)
    }
}

/// One track of a disc, as the metadata repository describes it.
#[derive(Clone, Debug, PartialEq, Eq)]
pub struct TrackRecord {
    pub title: String,
    pub artist: String,
    pub track_type: TrackType,
}

/// One disc of an album.
#[derive(Clone, Debug, PartialEq, Eq)]
pub struct DiscRecord {
    pub tracks: Vec<TrackRecord>,
}

/// One album of the catalog, identified by its catalog id.
#[derive(Clone, Debug, PartialEq, Eq)]
pub struct AlbumRecord {
    pub album_id: String,
    pub title: String,
    pub discs: Vec<DiscRecord>,
}

/// Identifies one playable item: catalog id plus 1-based disc and track
/// indices, together with the metadata that captioning reads. Ephemeral:
/// produced by filtering and selection, consumed by preparation.
#[derive(Clone, Debug, PartialEq, Eq)]
pub struct TrackRef {
    pub album_id: String,
    /// 1-based index of the disc within its album.
    pub disc_id: usize,
    /// 1-based index of the track within its disc.
    pub track_id: usize,
    /// Number of tracks on the disc the item belongs to.
    pub disc_total: usize,
    pub title: String,
    pub artist: String,
    pub album_title: String,
    pub track_type: TrackType,
}

/// The `TrackRef` that filtering builds for track `t` of disc `d` of `album`
/// (both 0-based here; the reference carries them 1-based).
pub open spec fn spec_track_ref(album: AlbumRecord, d: int, t: int) -> TrackRef {
    TrackRef {
        album_id: album.album_id,
        disc_id: (d + 1) as usize,
        track_id: (t + 1) as usize,
        disc_total: album.discs@[d].tracks@.len() as usize,
        title: album.discs@[d].tracks@[t].title,
        artist: album.discs@[d].tracks@[t].artist,
        album_title: album.title,
        track_type: album.discs@[d].tracks@[t].track_type,
    }
}

/// References to the playable tracks among the first `n` tracks of disc `d`,
/// in track order.
pub open spec fn disc_playable_upto(album: AlbumRecord, d: int, n: int) -> Seq<TrackRef>
    decreases n,
{
    if n <= 0 {
        Seq::empty()
    } else {
        disc_playable_upto(album, d, n - 1) + if album.discs@[d].tracks@[n
            - 1].track_type.spec_is_playable() {
            seq![spec_track_ref(album, d, n - 1)]
        } else {
            Seq::empty()
        }
    }
}

/// References to all playable tracks of disc `d`, in track order.
pub open spec fn disc_playable(album: AlbumRecord, d: int) -> Seq<TrackRef> {
    disc_playable_upto(album, d, album.discs@[d].tracks@.len() as int)
}

/// References to the playable tracks of the first `n` discs, disc by disc.
pub open spec fn album_playable_upto(album: AlbumRecord, n: int) -> Seq<TrackRef>
    decreases n,
{
    if n <= 0 {
        Seq::empty()
    } else {
        album_playable_upto(album, n - 1) + disc_playable(album, n - 1)
    }
}

/// References to all playable tracks of `album`, disc by disc, track by track.
pub open spec fn album_playable(album: AlbumRecord) -> Seq<TrackRef> {
    album_playable_upto(album, album.discs@.len() as int)
}

/// The first album of `albums` whose catalog id is `id`, if any.
pub open spec fn spec_find_album(albums: Seq<AlbumRecord>, id: Seq<char>) -> Option<AlbumRecord>
    decreases albums.len(),
{
    if albums.len() == 0 {
        None
    } else if albums[0].album_id@ == id {
        Some(albums[0])
    } else {
        spec_find_album(albums.drop_first(), id)
    }
}

/// The full candidate corpus for the album ids `ids`, restricted to their
/// first `n` entries: for each id that resolves to an album, that album's
/// playable tracks, in catalog order.
pub open spec fn corpus_upto(albums: Seq<AlbumRecord>, ids: Seq<String>, n: int) -> Seq<TrackRef>
    decreases n,
{
    if n <= 0 {
        Seq::empty()
    } else {
        corpus_upto(albums, ids, n - 1) + match spec_find_album(albums, ids[n - 1]@) {
            Some(a) => album_playable(a),
            None => Seq::empty(),
        }
    }
}

/// The full candidate corpus for the album ids `ids`.
pub open spec fn corpus(albums: Seq<AlbumRecord>, ids: Seq<String>) -> Seq<TrackRef> {
    corpus_upto(albums, ids, ids.len() as int)
}

/// Every reference that disc-level filtering yields is playable and carries
/// the disc's 1-based position.
pub proof fn lemma_disc_playable_upto_playable(album: AlbumRecord, d: int, n: int)
    ensures
        forall|i: int|
            0 <= i < disc_playable_upto(album, d, n).len() ==> (#[trigger] disc_playable_upto(
                album,
                d,
                n,
            )[i]).track_type.spec_is_playable(),
    decreases n,
{
    if n > 0 {
        lemma_disc_playable_upto_playable(album, d, n - 1);
    }
}

/// Every reference that album-level filtering yields is playable.
pub proof fn lemma_album_playable_upto_playable(album: AlbumRecord, n: int)
    ensures
        forall|i: int|
            0 <= i < album_playable_upto(album, n).len() ==> (#[trigger] album_playable_upto(
                album,
                n,
            )[i]).track_type.spec_is_playable(),
    decreases n,
{
    if n > 0 {
        lemma_album_playable_upto_playable(album, n - 1);
        lemma_disc_playable_upto_playable(
            album,
            n - 1,
            album.discs@[n - 1].tracks@.len() as int,
        );
    }
}

/// Every reference in the candidate corpus is playable: filtering admits
/// `Normal` tracks only.
pub proof fn lemma_corpus_playable(albums: Seq<AlbumRecord>, ids: Seq<String>, n: int)
    ensures
        forall|i: int|
            0 <= i < corpus_upto(albums, ids, n).len() ==> (#[trigger] corpus_upto(
                albums,
                ids,
                n,
            )[i]).track_type.spec_is_playable(),
    decreases n,
{
    if n > 0 {
        lemma_corpus_playable(albums, ids, n - 1);
        match spec_find_album(albums, ids[n - 1]@) {
            Some(a) => {
                lemma_album_playable_upto_playable(a, a.discs@.len() as int);
            },
            None => {},
        }
    }
}

/// The catalog: an in-memory set of album records, looked up by catalog id.
pub struct RepoManager {
    albums: Vec<AlbumRecord>,
}

impl RepoManager {
    /// The album records the manager was built over, in their given order.
    pub closed spec fn catalog(self) -> Seq<AlbumRecord> {
        self.albums@
    }

    pub fn new(albums: Vec<AlbumRecord>) -> (r: Self)
        ensures
            r.catalog() == albums@,
    {
        RepoManager { albums }
    }

    /// Looks the album up by its catalog id; the first record with that id.
    pub fn load_album(&self, album_id: &String) -> (r: Option<&AlbumRecord>)
        ensures
            match r {
                Some(a) => spec_find_album(self.catalog(), album_id@) == Some(*a),
                None => spec_find_album(self.catalog(), album_id@) is None,
            },
    {
        let n = self.albums.len();
        let mut i: usize = 0;
        proof {
            assert(self.albums@.skip(0) =~= self.albums@);
        }
        while i < n
            invariant
                n == self.albums@.len(),
                0 <= i <= n,
                spec_find_album(self.albums@, album_id@) == spec_find_album(
                    self.albums@.skip(i as int),
                    album_id@,
                ),
            decreases n - i,
        {
            if self.albums[i].album_id == *album_id {
                proof {
                    assert(self.albums@.skip(i as int)[0] == self.albums@[i as int]);
                }
                return Some(&self.albums[i]);
            }
            proof {
                assert(self.albums@.skip(i as int).drop_first() =~= self.albums@.skip(
                    i as int + 1,
                ));
            }
            i = i + 1;
        }
        proof {
            assert(self.albums@.skip(n as int).len() == 0);
        }
        None
    }
}

} // verus!
