//! Track selection: filtering the catalog down to the playable candidate set
//! and sampling one track from it at random, either uniformly over all
//! tracks or uniformly over albums and then over the album's tracks.

use vstd::prelude::*;
use rand::Rng;
use crate::errors::SelectionError;
use crate::repo::AlbumRecord;
use crate::repo::RepoManager;
use crate::repo::TrackRef;
use crate::repo::album_playable;
use crate::repo::corpus;
use crate::repo::corpus_upto;
use crate::repo::lemma_corpus_playable;

verus! {

/// Relies on `rand::Rng::gen_range` over `rand::thread_rng`: a draw from the
/// uniform distribution on `0..n`. Nothing can be promised of which value
/// comes back beyond its range; `gen_range` panics on an empty range, so the
/// range is required to be nonempty.
#[verifier::external_body]
fn gen_index(n: usize) -> (r: usize)
    requires
        n > 0,
    ensures
        r < n,
{
    rand::thread_rng().gen_range(0..n)
}

/// An immutable candidate list of playable tracks.
pub struct TrackList {
    inner: Vec<TrackRef>,
}

impl View for TrackList {
    type V = Seq<TrackRef>;

    closed spec fn view(&self) -> Seq<TrackRef> {
        self.inner@
    }
}

impl TrackList {
    pub fn new(tracks: Vec<TrackRef>) -> (r: Self)
        ensures
            r@ == tracks@,
    {
        TrackList { inner: tracks }
    }

    pub fn len(&self) -> (n: usize)
        ensures
            n == self@.len(),
    {
        self.inner.len()
    }

    pub fn get(&self, i: usize) -> (t: &TrackRef)
        requires
            i < self@.len(),
        ensures
            *t == self@[i as int],
    {
        &self.inner[i]
    }

    /// One track of the list, drawn uniformly at random; `EmptyCorpus`
    /// exactly when the list is empty.
    pub fn random(&self) -> (r: Result<&TrackRef, SelectionError>)
        ensures
            r is Ok <==> self@.len() > 0,
            r matches Err(e) ==> e == SelectionError::EmptyCorpus,
            r matches Ok(t) ==> self@.contains(*t),
    {
        let n = self.inner.len();
        if n == 0 {
            Err(SelectionError::EmptyCorpus)
        } else {
            let k = gen_index(n);
            proof {
                assert(self@[k as int] == self.inner@[k as int]);
            }
            Ok(&self.inner[k])
        }
    }
}

/// The concatenation of the first `n` groups of `groups`, in order.
pub open spec fn flat_upto(groups: Seq<Seq<TrackRef>>, n: int) -> Seq<TrackRef>
    decreases n,
{
    if n <= 0 {
        Seq::empty()
    } else {
        flat_upto(groups, n - 1) + groups[n - 1]
    }
}

/// The concatenation of all groups of `groups`, in order.
pub open spec fn flat(groups: Seq<Seq<TrackRef>>) -> Seq<TrackRef> {
    flat_upto(groups, groups.len() as int)
}

/// The contents of each list in `gs`, in order.
pub open spec fn group_views(gs: Seq<TrackList>) -> Seq<Seq<TrackRef>> {
    gs.map_values(|g: TrackList| g@)
}

proof fn lemma_flat_upto_push(groups: Seq<Seq<TrackRef>>, g: Seq<TrackRef>, n: int)
    requires
        0 <= n <= groups.len(),
    ensures
        flat_upto(groups.push(g), n) == flat_upto(groups, n),
    decreases n,
{
    if n > 0 {
        lemma_flat_upto_push(groups, g, n - 1);
    }
}

/// Appending a group extends the flattened sequence by that group.
pub proof fn lemma_flat_push(groups: Seq<Seq<TrackRef>>, g: Seq<TrackRef>)
    ensures
        flat(groups.push(g)) == flat(groups) + g,
{
    lemma_flat_upto_push(groups, g, groups.len() as int);
    assert(groups.push(g)[groups.len() as int] == g);
}

/// Every element of every group occurs in the flattened sequence.
pub proof fn lemma_flat_upto_contains(groups: Seq<Seq<TrackRef>>, n: int, g: int, j: int)
    requires
        0 <= g < n <= groups.len(),
        0 <= j < groups[g].len(),
    ensures
        flat_upto(groups, n).contains(groups[g][j]),
    decreases n,
{
    if g == n - 1 {
        assert(flat_upto(groups, n)[flat_upto(groups, n - 1).len() + j] == groups[g][j]);
    } else {
        lemma_flat_upto_contains(groups, n - 1, g, j);
        let s = flat_upto(groups, n - 1);
        let k = choose|k: int| 0 <= k < s.len() && s[k] == groups[g][j];
        assert(flat_upto(groups, n)[k] == groups[g][j]);
    }
}

/// The flattened prefix never shrinks and stays within the whole.
proof fn lemma_flat_upto_len_mono(groups: Seq<Seq<TrackRef>>, m: int, n: int)
    requires
        0 <= m <= n <= groups.len(),
    ensures
        flat_upto(groups, m).len() <= flat_upto(groups, n).len(),
    decreases n,
{
    if m < n {
        lemma_flat_upto_len_mono(groups, m, n - 1);
    }
}

impl RepoManager {
    /// The flat candidate list over `album_ids`: for each id that resolves
    /// to an album, that album's playable tracks, in catalog order.
    pub fn filter_tracks(&self, album_ids: &Vec<String>) -> (r: TrackList)
        ensures
            r@ == corpus(self.catalog(), album_ids@),
    {
        let mut out: Vec<TrackRef> = Vec::new();
        let n = album_ids.len();
        let mut i: usize = 0;
        while i < n
            invariant
                n == album_ids@.len(),
                i <= n,
                out@ == corpus_upto(self.catalog(), album_ids@, i as int),
            decreases n - i,
        {
            match self.load_album(&album_ids[i]) {
                Some(album) => {
                    push_album_tracks(&mut out, album);
                },
                None => {},
            }
            proof {
                assert(out@ =~= corpus_upto(self.catalog(), album_ids@, i as int + 1));
            }
            i = i + 1;
        }
        TrackList::new(out)
    }

    /// The candidate corpus over `album_ids`, grouped by album: one nonempty
    /// list per album that contributes at least one playable track, so that
    /// the concatenation of the groups is exactly the flat corpus.
    pub fn filter_tracks_by_album(&self, album_ids: &Vec<String>) -> (r: Vec<TrackList>)
        ensures
            flat(group_views(r@)) == corpus(self.catalog(), album_ids@),
            forall|g: int| 0 <= g < r@.len() ==> (#[trigger] r@[g])@.len() > 0,
    {
        let mut groups: Vec<TrackList> = Vec::new();
        let n = album_ids.len();
        let mut i: usize = 0;
        while i < n
            invariant
                n == album_ids@.len(),
                i <= n,
                flat(group_views(groups@)) == corpus_upto(self.catalog(), album_ids@, i as int),
                forall|g: int| 0 <= g < groups@.len() ==> (#[trigger] groups@[g])@.len() > 0,
            decreases n - i,
        {
            match self.load_album(&album_ids[i]) {
                Some(album) => {
                    let mut tracks: Vec<TrackRef> = Vec::new();
                    push_album_tracks(&mut tracks, album);
                    if tracks.len() > 0 {
                        let list = TrackList::new(tracks);
                        proof {
                            lemma_flat_push(group_views(groups@), list@);
                            assert(group_views(groups@.push(list)) =~= group_views(
                                groups@,
                            ).push(list@));
                        }
                        groups.push(list);
                    }
                },
                None => {},
            }
            proof {
                assert(flat(group_views(groups@)) =~= corpus_upto(
                    self.catalog(),
                    album_ids@,
                    i as int + 1,
                ));
            }
            i = i + 1;
        }
        groups
    }
}

/// Appends to `out` the references of all playable tracks of `album`,
/// disc by disc, track by track.
fn push_album_tracks(out: &mut Vec<TrackRef>, album: &AlbumRecord)
    ensures
        final(out)@ == old(out)@ + album_playable(*album),
{
    proof {
        assert(out@ =~= out@ + crate::repo::album_playable_upto(*album, 0));
    }
    let nd = album.discs.len();
    let mut d: usize = 0;
    while d < nd
        invariant
            nd == album.discs@.len(),
            d <= nd,
            out@ == old(out)@ + crate::repo::album_playable_upto(*album, d as int),
        decreases nd - d,
    {
        push_disc_tracks(out, album, d);
        proof {
            assert(out@ =~= old(out)@ + crate::repo::album_playable_upto(*album, d as int + 1));
        }
        d = d + 1;
    }
}

/// Appends to `out` the references of the playable tracks of disc `d` of
/// `album`, in track order.
fn push_disc_tracks(out: &mut Vec<TrackRef>, album: &AlbumRecord, d: usize)
    requires
        d < album.discs@.len(),
    ensures
        final(out)@ == old(out)@ + crate::repo::disc_playable(*album, d as int),
{
    proof {
        assert(out@ =~= out@ + crate::repo::disc_playable_upto(*album, d as int, 0));
    }
    let total = album.discs[d].tracks.len();
    let mut t: usize = 0;
    while t < total
        invariant
            d < album.discs@.len(),
            total == album.discs@[d as int].tracks@.len(),
            t <= total,
            out@ == old(out)@ + crate::repo::disc_playable_upto(*album, d as int, t as int),
        decreases total - t,
    {
        let track = &album.discs[d].tracks[t];
        if track.track_type.is_playable() {
            proof {
                assert(album.discs.len() == album.discs@.len());
            }
            let track_ref = TrackRef {
                album_id: album.album_id.clone(),
                disc_id: d + 1,
                track_id: t + 1,
                disc_total: total,
                title: track.title.clone(),
                artist: track.artist.clone(),
                album_title: album.title.clone(),
                track_type: track.track_type,
            };
            proof {
                assert(track_ref == crate::repo::spec_track_ref(*album, d as int, t as int));
            }
            out.push(track_ref);
        }
        proof {
            assert(out@ =~= old(out)@ + crate::repo::disc_playable_upto(
                *album,
                d as int,
                t as int + 1,
            ));
        }
        t = t + 1;
    }
}

/// Whether one track or one album at a time is drawn uniformly: flat gives
/// every track equal weight, album-then-track gives every album equal weight
/// regardless of its track count.
#[derive(Clone, Copy, Debug, PartialEq, Eq, Structural)]
pub enum SelectionStrategy {
    FlatUniform,
    AlbumThenTrack,
}

/// Samples one playable track from a precomputed, immutable candidate set,
/// under an explicitly configured strategy.
pub struct TrackSelector {
    strategy: SelectionStrategy,
    groups: Vec<TrackList>,
    total: usize,
}

impl TrackSelector {
    /// All candidates, as one sequence: the groups, concatenated.
    pub closed spec fn candidates(self) -> Seq<TrackRef> {
        flat(group_views(self.groups@))
    }

    pub closed spec fn spec_strategy(self) -> SelectionStrategy {
        self.strategy
    }

    /// Validity: the cached total matches the candidate count and no group
    /// is empty.
    pub closed spec fn wf(self) -> bool {
        &&& self.total == self.candidates().len()
        &&& forall|g: int| 0 <= g < self.groups@.len() ==> (#[trigger] self.groups@[g])@.len() > 0
    }

    /// Builds a selector over candidate groups, one group per album.
    pub fn new(strategy: SelectionStrategy, groups: Vec<TrackList>) -> (r: Self)
        requires
            forall|g: int| 0 <= g < groups@.len() ==> (#[trigger] groups@[g])@.len() > 0,
            flat(group_views(groups@)).len() <= usize::MAX,
        ensures
            r.wf(),
            r.candidates() == flat(group_views(groups@)),
            r.spec_strategy() == strategy,
    {
        let n = groups.len();
        let mut total: usize = 0;
        let mut g: usize = 0;
        while g < n
            invariant
                n == groups@.len(),
                g <= n,
                total == flat_upto(group_views(groups@), g as int).len(),
                flat(group_views(groups@)).len() <= usize::MAX,
            decreases n - g,
        {
            proof {
                lemma_flat_upto_len_mono(group_views(groups@), g as int + 1, n as int);
                assert(group_views(groups@)[g as int] == groups@[g as int]@);
            }
            total = total + groups[g].len();
            g = g + 1;
        }
        TrackSelector { strategy, groups, total }
    }

    /// One candidate, drawn at random under the configured strategy;
    /// `EmptyCorpus` exactly when the candidate set is empty. Whatever comes
    /// back is a member of the candidate set.
    pub fn random(&self) -> (r: Result<&TrackRef, SelectionError>)
        requires
            self.wf(),
        ensures
            r is Ok <==> self.candidates().len() > 0,
            r matches Err(e) ==> e == SelectionError::EmptyCorpus,
            r matches Ok(t) ==> self.candidates().contains(*t),
    {
        if self.total == 0 {
            return Err(SelectionError::EmptyCorpus);
        }
        match self.strategy {
            SelectionStrategy::AlbumThenTrack => {
                proof {
                    if self.groups@.len() == 0 {
                        assert(self.candidates().len() == 0);
                    }
                }
                let g = gen_index(self.groups.len());
                proof {
                    assert(group_views(self.groups@)[g as int] == self.groups@[g as int]@);
                }
                let group = &self.groups[g];
                let j = gen_index(group.len());
                proof {
                    lemma_flat_upto_contains(
                        group_views(self.groups@),
                        self.groups@.len() as int,
                        g as int,
                        j as int,
                    );
                }
                Ok(group.get(j))
            },
            SelectionStrategy::FlatUniform => {
                let mut k = gen_index(self.total);
                let ghost k0: int = k as int;
                let mut g: usize = 0;
                loop
                    invariant
                        self.wf(),
                        g <= self.groups@.len(),
                        flat_upto(group_views(self.groups@), g as int).len() + k == k0,
                        k0 < self.candidates().len(),
                    decreases self.groups@.len() - g,
                {
                    proof {
                        if g == self.groups@.len() {
                            assert(flat_upto(group_views(self.groups@), g as int)
                                == self.candidates());
                            assert(false);
                        }
                        assert(group_views(self.groups@)[g as int] == self.groups@[g as int]@);
                    }
                    let group = &self.groups[g];
                    let len_g = group.len();
                    if k < len_g {
                        proof {
                            lemma_flat_upto_contains(
                                group_views(self.groups@),
                                self.groups@.len() as int,
                                g as int,
                                k as int,
                            );
                        }
                        return Ok(group.get(k));
                    }
                    k = k - len_g;
                    proof {
                        assert(self.groups.len() == self.groups@.len());
                    }
                    g = g + 1;
                }
            },
        }
    }
}

/// Selection safety: any track that filtering put into the candidate corpus
/// is playable, so `random` over a filtered corpus never yields a track of
/// an excluded type.
pub proof fn lemma_selected_track_playable(
    albums: Seq<AlbumRecord>,
    ids: Seq<String>,
    t: TrackRef,
)
    requires
        corpus(albums, ids).contains(t),
    ensures
        t.track_type.spec_is_playable(),
{
    lemma_corpus_playable(albums, ids, ids.len() as int);
    let i = choose|i: int| 0 <= i < corpus(albums, ids).len() && corpus(albums, ids)[i] == t;
    assert(corpus_upto(albums, ids, ids.len() as int)[i] == t);
}

} // verus!
