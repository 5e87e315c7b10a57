use freddie::laserbeam::{PathMut, Project};

// An enum node in the middle of the tree: Queen II, pressed as "Side White" and "Side Black".
enum QueenII {
    Pressing(Side),
}

enum Side {
    White(WhiteQueen),
    Black(BlackQueen),
}

struct WhiteQueen {
    bpm: u32,
}

struct BlackQueen {
    title: String,
}

type SidePath<'a> = PathMut<Side, &'a mut QueenII>;
type WhiteQueenPath<'a> = PathMut<WhiteQueen, SidePath<'a>>;
type BlackQueenPath<'a> = PathMut<BlackQueen, SidePath<'a>>;

enum QueenResolved<'a> {
    WhiteQueen(WhiteQueenPath<'a>),
    BlackQueen(BlackQueenPath<'a>),
}

struct ToSide;

impl<'a> Project<&'a mut QueenII, Side> for ToSide {
    fn project_mut<'p>(&self, parent: &'p mut &'a mut QueenII) -> &'p mut Side {
        let QueenII::Pressing(side) = &mut **parent;
        side
    }

    fn project<'p>(&self, parent: &'p &'a mut QueenII) -> &'p Side {
        let QueenII::Pressing(side) = &**parent;
        side
    }
}

struct ToWhite;

impl<'a> Project<SidePath<'a>, WhiteQueen> for ToWhite {
    fn project_mut<'p>(&self, parent: &'p mut SidePath<'a>) -> &'p mut WhiteQueen {
        match parent.get_mut() {
            Side::White(w) => w,
            Side::Black(_) => unreachable!("projected onto the active side only"),
        }
    }

    fn project<'p>(&self, parent: &'p SidePath<'a>) -> &'p WhiteQueen {
        match parent.get() {
            Side::White(w) => w,
            Side::Black(_) => unreachable!("projected onto the active side only"),
        }
    }
}

struct ToBlack;

impl<'a> Project<SidePath<'a>, BlackQueen> for ToBlack {
    fn project_mut<'p>(&self, parent: &'p mut SidePath<'a>) -> &'p mut BlackQueen {
        match parent.get_mut() {
            Side::Black(b) => b,
            Side::White(_) => unreachable!("projected onto the active side only"),
        }
    }

    fn project<'p>(&self, parent: &'p SidePath<'a>) -> &'p BlackQueen {
        match parent.get() {
            Side::Black(b) => b,
            Side::White(_) => unreachable!("projected onto the active side only"),
        }
    }
}

fn resolve_queen(record: &mut QueenII) -> QueenResolved<'_> {
    let side = PathMut::from_fn(record, ToSide);
    if matches!(side.get(), Side::White(_)) {
        QueenResolved::WhiteQueen(PathMut::from_fn(side, ToWhite))
    } else {
        QueenResolved::BlackQueen(PathMut::from_fn(side, ToBlack))
    }
}

#[test]
fn descends_through_a_non_root_enum() {
    let mut record = QueenII::Pressing(Side::White(WhiteQueen { bpm: 1 }));
    match resolve_queen(&mut record) {
        QueenResolved::WhiteQueen(mut p) => {
            p.get_mut().bpm += 41;
            let _ = p.into_parent();
        }
        QueenResolved::BlackQueen(_) => unreachable!("pressed Side White"),
    }
    let QueenII::Pressing(Side::White(track)) = &record else {
        unreachable!()
    };
    assert_eq!(track.bpm, 42);
}

#[test]
fn picks_the_active_variant() {
    let mut record = QueenII::Pressing(Side::Black(BlackQueen {
        title: "The March of the Black Queen".to_owned(),
    }));
    match resolve_queen(&mut record) {
        QueenResolved::BlackQueen(mut p) => p.get_mut().title.push('!'),
        QueenResolved::WhiteQueen(_) => unreachable!("pressed Side Black"),
    }
    let QueenII::Pressing(Side::Black(track)) = &record else {
        unreachable!()
    };
    assert_eq!(track.title, "The March of the Black Queen!");
}

// Resolve to the active leaf, walk up, swap the variant through the path, and resolve again from
// that same subtree path: Catalog -> MediaType -> {Album, Single}.
struct Catalog {
    featured: MediaType,
}

enum MediaType {
    Album(Album),
    Single(Single),
}

struct Album {
    title: String,
}

struct Single {
    title: String,
}

type MediaTypePath<'a> = PathMut<MediaType, &'a mut Catalog>;
type AlbumPath<'a> = PathMut<Album, MediaTypePath<'a>>;
type SinglePath<'a> = PathMut<Single, MediaTypePath<'a>>;

enum CatalogResolved<'a> {
    Album(AlbumPath<'a>),
    Single(SinglePath<'a>),
}

struct ToFeatured;

impl<'a> Project<&'a mut Catalog, MediaType> for ToFeatured {
    fn project_mut<'p>(&self, parent: &'p mut &'a mut Catalog) -> &'p mut MediaType {
        &mut parent.featured
    }

    fn project<'p>(&self, parent: &'p &'a mut Catalog) -> &'p MediaType {
        &parent.featured
    }
}

struct ToAlbum;

impl<'a> Project<MediaTypePath<'a>, Album> for ToAlbum {
    fn project_mut<'p>(&self, parent: &'p mut MediaTypePath<'a>) -> &'p mut Album {
        match parent.get_mut() {
            MediaType::Album(a) => a,
            MediaType::Single(_) => unreachable!("projected onto the active variant only"),
        }
    }

    fn project<'p>(&self, parent: &'p MediaTypePath<'a>) -> &'p Album {
        match parent.get() {
            MediaType::Album(a) => a,
            MediaType::Single(_) => unreachable!("projected onto the active variant only"),
        }
    }
}

struct ToSingle;

impl<'a> Project<MediaTypePath<'a>, Single> for ToSingle {
    fn project_mut<'p>(&self, parent: &'p mut MediaTypePath<'a>) -> &'p mut Single {
        match parent.get_mut() {
            MediaType::Single(s) => s,
            MediaType::Album(_) => unreachable!("projected onto the active variant only"),
        }
    }

    fn project<'p>(&self, parent: &'p MediaTypePath<'a>) -> &'p Single {
        match parent.get() {
            MediaType::Single(s) => s,
            MediaType::Album(_) => unreachable!("projected onto the active variant only"),
        }
    }
}

fn resolve_media(media: MediaTypePath<'_>) -> CatalogResolved<'_> {
    if matches!(media.get(), MediaType::Album(_)) {
        CatalogResolved::Album(PathMut::from_fn(media, ToAlbum))
    } else {
        CatalogResolved::Single(PathMut::from_fn(media, ToSingle))
    }
}

fn resolve_catalog(catalog: &mut Catalog) -> CatalogResolved<'_> {
    resolve_media(PathMut::from_fn(catalog, ToFeatured))
}

#[test]
fn resolve_walk_up_swap_variant_then_reresolve() {
    let mut catalog = Catalog {
        featured: MediaType::Single(Single {
            title: "Bohemian Rhapsody".to_string(),
        }),
    };

    let mut media = match resolve_catalog(&mut catalog) {
        CatalogResolved::Single(mut single) => {
            assert_eq!(single.get_mut().title, "Bohemian Rhapsody");
            single.into_parent()
        }
        CatalogResolved::Album(_) => unreachable!("featured a single"),
    };

    *media.get_mut() = MediaType::Album(Album {
        title: "A Night at the Opera".to_string(),
    });

    match resolve_media(media) {
        CatalogResolved::Album(mut album) => album.get_mut().title.push_str(" (Remastered)"),
        CatalogResolved::Single(_) => unreachable!("just swapped to an album"),
    }

    let MediaType::Album(a) = &catalog.featured else {
        unreachable!()
    };
    assert_eq!(a.title, "A Night at the Opera (Remastered)");
}

// A root enum descending into a child with two possible parents: the root's `Single` variant and
// `Record.opener`.
enum Discography {
    Single(Track),
    Album(Record),
}

struct Record {
    opener: Track,
}

struct Track {
    title: String,
}

enum TrackParent<'a> {
    Discography(&'a mut Discography),
    Record(Box<RecordPath<'a>>),
}

type RecordPath<'a> = PathMut<Record, &'a mut Discography>;
type TrackPath<'a> = PathMut<Track, TrackParent<'a>>;

enum DiscographyResolved<'a> {
    Track(TrackPath<'a>),
}

struct ToRecord;

impl<'a> Project<&'a mut Discography, Record> for ToRecord {
    fn project_mut<'p>(&self, parent: &'p mut &'a mut Discography) -> &'p mut Record {
        match &mut **parent {
            Discography::Album(r) => r,
            Discography::Single(_) => unreachable!("projected onto the active variant only"),
        }
    }

    fn project<'p>(&self, parent: &'p &'a mut Discography) -> &'p Record {
        match &**parent {
            Discography::Album(r) => r,
            Discography::Single(_) => unreachable!("projected onto the active variant only"),
        }
    }
}

struct ToTrack;

impl<'a> Project<TrackParent<'a>, Track> for ToTrack {
    fn project_mut<'p>(&self, parent: &'p mut TrackParent<'a>) -> &'p mut Track {
        match parent {
            TrackParent::Discography(d) => match &mut **d {
                Discography::Single(t) => t,
                Discography::Album(_) => unreachable!("projected onto the active variant only"),
            },
            TrackParent::Record(r) => &mut r.get_mut().opener,
        }
    }

    fn project<'p>(&self, parent: &'p TrackParent<'a>) -> &'p Track {
        match parent {
            TrackParent::Discography(d) => match &**d {
                Discography::Single(t) => t,
                Discography::Album(_) => unreachable!("projected onto the active variant only"),
            },
            TrackParent::Record(r) => &r.get().opener,
        }
    }
}

fn resolve_discography(disco: &mut Discography) -> DiscographyResolved<'_> {
    if matches!(disco, Discography::Single(_)) {
        DiscographyResolved::Track(PathMut::from_fn(TrackParent::Discography(disco), ToTrack))
    } else {
        let record = PathMut::from_fn(disco, ToRecord);
        DiscographyResolved::Track(PathMut::from_fn(TrackParent::Record(Box::new(record)), ToTrack))
    }
}

#[test]
fn root_enum_into_multi_parent_via_single() {
    let mut disco = Discography::Single(Track {
        title: "Bohemian Rhapsody".to_owned(),
    });
    match resolve_discography(&mut disco) {
        DiscographyResolved::Track(mut p) => p.get_mut().title.push_str(" (Remastered)"),
    }
    let Discography::Single(t) = &disco else { unreachable!() };
    assert_eq!(t.title, "Bohemian Rhapsody (Remastered)");
}

#[test]
fn root_enum_into_multi_parent_via_album_opener() {
    let mut disco = Discography::Album(Record {
        opener: Track {
            title: "Death on Two Legs".to_owned(),
        },
    });
    match resolve_discography(&mut disco) {
        DiscographyResolved::Track(mut p) => p.get_mut().title.push('!'),
    }
    let Discography::Album(r) = &disco else { unreachable!() };
    assert_eq!(r.opener.title, "Death on Two Legs!");
}
