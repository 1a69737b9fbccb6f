//! What the pipeline needs to know of a record kind: where its records are
//! read from, where their projections are written to, and how a record is
//! identified and projected.

use vstd::prelude::*;
use vstd::std_specs::convert::FromSpec;
use crate::music_struct::{
    Album, AlbumMeilisearch, Artist, ArtistMeilisearch, DeezerId, Music, MusicMeilisearch,
};

verus! {

/// A kind of record that can be read from the store and indexed for search.
pub trait Record: Sized {
    /// The document that the search index keeps of a record of this kind.
    type Projection;

    /// The record's identifier.
    spec fn spec_id(&self) -> DeezerId;

    /// The projection of the record.
    spec fn spec_project(self) -> Self::Projection;

    /// The identifier under which the index keeps a projection.
    spec fn projection_id(projection: Self::Projection) -> DeezerId;

    /// Name of the store's collection that holds the records of this kind.
    spec fn spec_collection_name() -> Seq<char>;

    /// Name of the search index that holds the projections of this kind.
    spec fn spec_index_name() -> Seq<char>;

    /// A projection is indexed under the identifier of its record.
    proof fn projection_keeps_id(self)
        ensures
            Self::projection_id(self.spec_project()) == self.spec_id(),
    ;

    /// Name of the store's collection that holds the records of this kind.
    fn collection_name() -> (name: &'static str)
        ensures
            name@ == Self::spec_collection_name(),
    ;

    /// Name of the search index that holds the projections of this kind.
    fn index_name() -> (name: &'static str)
        ensures
            name@ == Self::spec_index_name(),
    ;

    /// The record's identifier.
    fn id(&self) -> (id: DeezerId)
        ensures
            id == self.spec_id(),
    ;

    /// Reduces the record to its projection. The identifier and the fields
    /// that the index displays or ranks by are kept as they are; all other
    /// fields are left out.
    fn project(self) -> (projection: Self::Projection)
        ensures
            projection == self.spec_project(),
            Self::projection_id(projection) == self.spec_id(),
    ;
}

impl Record for Music {
    type Projection = MusicMeilisearch;

    open spec fn spec_id(&self) -> DeezerId {
        self.id
    }

    open spec fn spec_project(self) -> MusicMeilisearch {
        MusicMeilisearch::from_spec(self)
    }

    open spec fn projection_id(projection: MusicMeilisearch) -> DeezerId {
        projection.id
    }

    open spec fn spec_collection_name() -> Seq<char> {
        "Music"@
    }

    open spec fn spec_index_name() -> Seq<char> {
        "musics"@
    }

    proof fn projection_keeps_id(self) {
    }

    fn collection_name() -> (name: &'static str) {
        "Music"
    }

    fn index_name() -> (name: &'static str) {
        "musics"
    }

    fn id(&self) -> (id: DeezerId) {
        self.id
    }

    fn project(self) -> (projection: MusicMeilisearch) {
        MusicMeilisearch::from(self)
    }
}

impl Record for Album {
    type Projection = AlbumMeilisearch;

    open spec fn spec_id(&self) -> DeezerId {
        self.id
    }

    open spec fn spec_project(self) -> AlbumMeilisearch {
        AlbumMeilisearch::from_spec(self)
    }

    open spec fn projection_id(projection: AlbumMeilisearch) -> DeezerId {
        projection.id
    }

    open spec fn spec_collection_name() -> Seq<char> {
        "Album"@
    }

    open spec fn spec_index_name() -> Seq<char> {
        "albums"@
    }

    proof fn projection_keeps_id(self) {
    }

    fn collection_name() -> (name: &'static str) {
        "Album"
    }

    fn index_name() -> (name: &'static str) {
        "albums"
    }

    fn id(&self) -> (id: DeezerId) {
        self.id
    }

    fn project(self) -> (projection: AlbumMeilisearch) {
        AlbumMeilisearch::from(self)
    }
}

impl Record for Artist {
    type Projection = ArtistMeilisearch;

    open spec fn spec_id(&self) -> DeezerId {
        self.id
    }

    open spec fn spec_project(self) -> ArtistMeilisearch {
        ArtistMeilisearch::from_spec(self)
    }

    open spec fn projection_id(projection: ArtistMeilisearch) -> DeezerId {
        projection.id
    }

    open spec fn spec_collection_name() -> Seq<char> {
        "Artist"@
    }

    open spec fn spec_index_name() -> Seq<char> {
        "artists"@
    }

    proof fn projection_keeps_id(self) {
    }

    fn collection_name() -> (name: &'static str) {
        "Artist"
    }

    fn index_name() -> (name: &'static str) {
        "artists"
    }

    fn id(&self) -> (id: DeezerId) {
        self.id
    }

    fn project(self) -> (projection: ArtistMeilisearch) {
        ArtistMeilisearch::from(self)
    }
}

/// The projections of `records`, in the same order.
pub open spec fn project_all<R: Record>(records: Seq<R>) -> Seq<R::Projection> {
    records.map_values(|record: R| record.spec_project())
}

/// Projects a whole batch: one projection for each record, in the same order.
pub fn project_batch<R: Record>(records: Vec<R>) -> (projections: Vec<R::Projection>)
    ensures
        projections@ == project_all(records@),
{
    let ghost all = records@;
    let mut projections: Vec<R::Projection> = Vec::with_capacity(records.len());
    for record in iter: records
        invariant
            iter.seq() == all,
            projections@ == project_all(all.take(iter.index() as int)),
    {
        proof {
            all.lemma_map_take_succ(|record: R| record.spec_project(), iter.index() as int);
        }
        projections.push(record.project());
    }
    assert(all.take(all.len() as int) =~= all);
    projections
}

} // verus!
