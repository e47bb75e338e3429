//! The cache of rasterized faces.
//!
//! Rasterizing is the expensive step of a frame, and from one frame to the
//! next neither the face nor the viewport tends to change. The store keeps
//! the last few pixel buffers, each under the face and the size of the
//! viewport it was made for, in a ring of slots: a new buffer takes the slot under the
//! cursor, whatever that slot held, and the cursor moves on.

use crate::face::{Face, FaceDocuments};
use crate::layout::Area;
use crate::raster::{document_is_valid, parse_document, pixmap_fits, pixmap_height};
use crate::raster::{pixel_count, pixmap_width, render_tree, MAX_TARGET};
use resvg::tiny_skia::{Pixmap, Transform};
use std::rc::Rc;
use vstd::prelude::*;

verus! {

/// How many rasterized faces the store keeps.
pub const CACHE_SIZE: usize = 5;

/// Why a document could not be rasterized.
#[derive(Copy, Clone, Debug, PartialEq, Eq, Structural)]
pub enum RasterError {
    /// The text is not a valid document.
    InvalidDocument,
    /// No pixel buffer of the size asked for can be had.
    AllocationFailed,
}

/// A rasterized face together with what it was made for.
pub struct PixmapCache {
    pub pixmap: Pixmap,
    pub area: Area,
    pub face: Face,
}

impl PixmapCache {
    /// Whether this entry serves `face` in `area`: it was made for that
    /// face and for an area as wide and as high. Where on the screen the
    /// area lies makes no difference to the pixels.
    pub open spec fn is_for(&self, face: Face, area: Area) -> bool {
        &&& self.face == face
        &&& self.area.width == area.width
        &&& self.area.height == area.height
    }

    /// Whether the pixels fill the area: as many columns of pixels as of
    /// cells, and two rows of pixels for each row of cells.
    pub open spec fn fills_area(&self) -> bool {
        &&& pixmap_width(self.pixmap) == self.area.width
        &&& pixmap_height(self.pixmap) == 2 * self.area.height
        &&& pixel_count(self.pixmap) == self.area.width * (2 * self.area.height)
    }
}

/// The size in pixels of a face rasterized for `area`: one pixel across
/// and two pixels down for each cell.
pub open spec fn target_of(area: Area) -> (u32, u32) {
    (area.width as u32, (2 * area.height) as u32)
}

/// Whether `face` can be rasterized for `area`.
pub open spec fn rasterizes(face: Face, area: Area) -> bool {
    document_is_valid(face.document()) && pixmap_fits(target_of(area).0, target_of(area).1)
}

/// What a store holds: its slots in order, and the slot that the next new
/// entry goes to.
pub struct StoreState {
    pub slots: Seq<Option<Rc<PixmapCache>>>,
    pub cursor: nat,
}

impl StoreState {
    /// A store that holds nothing yet.
    pub open spec fn empty() -> StoreState {
        StoreState { slots: Seq::new(CACHE_SIZE as nat, |k: int| None), cursor: 0 }
    }

    /// The store has all of its slots, and the cursor is on one of them.
    pub open spec fn wf(self) -> bool {
        self.slots.len() == CACHE_SIZE && self.cursor < CACHE_SIZE
    }

    /// Whether slot `index` holds an entry that serves `face` in `area`.
    pub open spec fn hit(self, face: Face, area: Area, index: int) -> bool {
        &&& 0 <= index < self.slots.len()
        &&& self.slots[index] matches Some(entry)
        &&& entry.is_for(face, area)
    }

    /// Whether slot `index` is the first that holds an entry that serves
    /// `face` in `area`.
    pub open spec fn first_hit(self, face: Face, area: Area, index: int) -> bool {
        &&& self.hit(face, area, index)
        &&& forall|earlier: int| 0 <= earlier < index ==> !self.hit(face, area, earlier)
    }

    /// The entry that a lookup of `face` in `area` finds: that of the first
    /// slot that holds one that serves them.
    pub open spec fn lookup(self, face: Face, area: Area) -> Option<Rc<PixmapCache>> {
        if exists|index: int| self.first_hit(face, area, index) {
            self.slots[choose|index: int| self.first_hit(face, area, index)]
        } else {
            None
        }
    }

    /// The store after `entry` went in: it has taken the slot under the
    /// cursor, and the cursor has moved on, from the last slot to the first.
    pub open spec fn insert(self, entry: Rc<PixmapCache>) -> StoreState {
        StoreState {
            slots: self.slots.update(self.cursor as int, Some(entry)),
            cursor: ((self.cursor + 1) % (CACHE_SIZE as nat)) as nat,
        }
    }

    /// The store after the entries went in, one after the other.
    pub open spec fn insert_all(self, entries: Seq<Rc<PixmapCache>>) -> StoreState
        decreases entries.len(),
    {
        if entries.len() == 0 {
            self
        } else {
            self.insert_all(entries.drop_last()).insert(entries.last())
        }
    }
}

/// What `get` does with a store: a hit hands out the entry found and leaves
/// the store alone. A miss rasterizes; where that works, the new entry goes
/// in and is handed out, and where it does not, nothing is handed out and
/// the store stays as it was.
pub open spec fn get_outcome(
    before: StoreState,
    face: Face,
    area: Area,
    entry: Option<Rc<PixmapCache>>,
    after: StoreState,
) -> bool {
    match before.lookup(face, area) {
        Some(found) => entry == Some(found) && after == before,
        None => match entry {
            Some(fresh) => {
                &&& rasterizes(face, area)
                &&& fresh.face == face
                &&& fresh.area == area
                &&& fresh.fills_area()
                &&& after == before.insert(fresh)
            },
            None => !rasterizes(face, area) && after == before,
        },
    }
}

/// The rasterized faces of the last few frames.
pub struct FacePixmapStore {
    caches: Vec<Option<Rc<PixmapCache>>>,
    index: usize,
    documents: FaceDocuments,
}

impl View for FacePixmapStore {
    type V = StoreState;

    closed spec fn view(&self) -> StoreState {
        StoreState { slots: self.caches@, cursor: self.index as nat }
    }
}

impl FacePixmapStore {
    /// The store has all of its slots, the cursor is on one of them, and
    /// the pixels of every entry fill the area that the entry was made for.
    pub closed spec fn wf(&self) -> bool {
        &&& self.caches.len() == CACHE_SIZE
        &&& self.index < CACHE_SIZE
        &&& forall|i: int|
            0 <= i < self.caches.len() ==> (#[trigger] self.caches[i] matches Some(entry)
                ==> entry.fills_area())
    }

    /// A well-formed store has a well-formed view.
    pub proof fn lemma_view_wf(&self)
        requires
            self.wf(),
        ensures
            self@.wf(),
    {
    }

    /// The size in pixels of a face rasterized for `area`.
    pub fn target_size(area: Area) -> (size: (u32, u32))
        ensures
            size == target_of(area),
    {
        (area.width as u32, area.height as u32 * 2)
    }

    /// Looks for an entry that serves `face` in `area`: one made for that
    /// face and for an area of the same width and height.
    pub fn get_from_cache(&self, face: Face, area: Area) -> (entry: Option<Rc<PixmapCache>>)
        requires
            self.wf(),
        ensures
            entry == self@.lookup(face, area),
            entry matches Some(found) ==> found.fills_area(),
    {
        let mut i: usize = 0;
        while i < self.caches.len()
            invariant
                self.wf(),
                i <= self.caches.len(),
                forall|earlier: int| 0 <= earlier < i ==> !self@.hit(face, area, earlier),
            decreases self.caches.len() - i,
        {
            match &self.caches[i] {
                Some(cache) => {
                    if cache.face == face && cache.area.width == area.width
                        && cache.area.height == area.height {
                        assert(self@.first_hit(face, area, i as int));
                        return Some(cache.clone());
                    }
                },
                None => {},
            }
            i += 1;
        }
        None
    }

    /// Hands out the rasterized `face` for `area`: the entry that the store
    /// holds for them, or else a new one, which goes into the store.
    /// `transform` maps the logical canvas onto the pixels of `area`; it is
    /// put to use only where nothing is found. Where the face cannot be
    /// rasterized, nothing is handed out and the frame goes without a face.
    pub fn get(&mut self, face: Face, area: Area, transform: Transform) -> (entry: Option<
        Rc<PixmapCache>,
    >)
        requires
            old(self).wf(),
        ensures
            final(self).wf(),
            get_outcome(old(self)@, face, area, entry, final(self)@),
            entry matches Some(found) ==> found.fills_area(),
    {
        if let Some(cache) = self.get_from_cache(face, area) {
            return Some(cache);
        }
        let (width, height) = Self::target_size(area);
        let pixmap = match Self::get_svg_pixmap(self.documents.get(face), width, height, transform) {
            Ok(pixmap) => pixmap,
            Err(_) => {
                return None;
            },
        };
        let cache = Rc::new(PixmapCache { pixmap, area, face });

        self.caches.set(self.index, Some(cache.clone()));
        self.index = if self.index == CACHE_SIZE - 1 {
            0
        } else {
            self.index + 1
        };

        Some(cache)
    }

    /// Rasterizes a document to `width` by `height` pixels. `transform` maps
    /// the logical canvas of the document onto the pixels.
    pub fn get_svg_pixmap(svg_data: &str, width: u32, height: u32, transform: Transform) -> (pixmap:
        Result<Pixmap, RasterError>)
        requires
            pixmap_fits(width, height) ==> width <= MAX_TARGET && height <= MAX_TARGET,
        ensures
            pixmap is Ok <==> document_is_valid(svg_data@) && pixmap_fits(width, height),
            pixmap matches Ok(p) ==> {
                &&& pixmap_width(p) == width
                &&& pixmap_height(p) == height
                &&& pixel_count(p) == width * height
            },
            pixmap matches Err(e) ==> e == if document_is_valid(svg_data@) {
                RasterError::AllocationFailed
            } else {
                RasterError::InvalidDocument
            },
    {
        let tree = match parse_document(svg_data) {
            Ok(tree) => tree,
            Err(_) => {
                return Err(RasterError::InvalidDocument);
            },
        };
        let mut pixmap = match Pixmap::new(width, height) {
            Some(pixmap) => pixmap,
            None => {
                return Err(RasterError::AllocationFailed);
            },
        };
        proof {
            lemma_rows(width as nat, height as nat);
        }
        render_tree(&tree, transform, &mut pixmap);
        Ok(pixmap)
    }
}

impl Default for FacePixmapStore {
    /// A store with every slot empty and the cursor on the first.
    fn default() -> (store: Self)
        ensures
            store.wf(),
            store@ == StoreState::empty(),
    {
        let mut caches: Vec<Option<Rc<PixmapCache>>> = Vec::new();
        let mut i: usize = 0;
        while i < CACHE_SIZE
            invariant
                i <= CACHE_SIZE,
                caches@ == Seq::new(i as nat, |k: int| None::<Rc<PixmapCache>>),
            decreases CACHE_SIZE - i,
        {
            caches.push(None);
            i += 1;
        }
        Self { caches, index: 0, documents: FaceDocuments::new() }
    }
}

/// Whether no two of the entries were made for the same face in areas of
/// the same size.
pub open spec fn distinct_keys(entries: Seq<Rc<PixmapCache>>) -> bool {
    forall|i: int, j: int|
        0 <= i < j < entries.len() ==> !(#[trigger] entries[i]).is_for(
            (#[trigger] entries[j]).face,
            entries[j].area,
        )
}

/// At most one slot is the first hit, so a lookup finds the entry of any
/// slot that is.
pub proof fn lemma_lookup_first_hit(store: StoreState, face: Face, area: Area, index: int)
    requires
        store.first_hit(face, area, index),
    ensures
        store.lookup(face, area) == store.slots[index],
{
    let chosen = choose|i: int| store.first_hit(face, area, i);
    assert(store.first_hit(face, area, chosen));
    if chosen < index {
        assert(store.hit(face, area, chosen));
    } else if index < chosen {
        assert(store.hit(face, area, index));
    }
}

/// A lookup finds nothing exactly where no slot holds an entry that serves
/// the face in the area.
pub proof fn lemma_lookup_miss(store: StoreState, face: Face, area: Area)
    ensures
        store.lookup(face, area) is None <==> forall|index: int| !store.hit(face, area, index),
{
    if exists|index: int| store.hit(face, area, index) {
        let some = choose|index: int| store.hit(face, area, index);
        lemma_least_hit(store, face, area, some);
        let first = choose|index: int| store.first_hit(face, area, index);
        lemma_lookup_first_hit(store, face, area, first);
    }
}

/// Where a slot is a hit, some slot is the first hit.
proof fn lemma_least_hit(store: StoreState, face: Face, area: Area, index: int)
    requires
        store.hit(face, area, index),
    ensures
        exists|first: int| store.first_hit(face, area, first),
    decreases index,
{
    if exists|earlier: int| 0 <= earlier < index && store.hit(face, area, earlier) {
        let earlier = choose|earlier: int| 0 <= earlier < index && store.hit(face, area, earlier);
        lemma_least_hit(store, face, area, earlier);
    } else {
        assert(store.first_hit(face, area, index));
    }
}

/// Where on the screen an area lies makes no difference to a lookup: two
/// areas of the same width and height find the same entry, or both find
/// nothing.
pub proof fn lemma_lookup_ignores_origin(store: StoreState, face: Face, here: Area, there: Area)
    requires
        here.width == there.width,
        here.height == there.height,
    ensures
        store.lookup(face, here) == store.lookup(face, there),
{
    assert forall|index: int| store.hit(face, here, index) == store.hit(face, there, index) by {}
    if exists|index: int| store.first_hit(face, here, index) {
        let first = choose|index: int| store.first_hit(face, here, index);
        assert forall|earlier: int| 0 <= earlier < first implies !store.hit(
            face,
            there,
            earlier,
        ) by {
            assert(!store.hit(face, here, earlier));
        }
        assert(store.first_hit(face, there, first));
        lemma_lookup_first_hit(store, face, here, first);
        lemma_lookup_first_hit(store, face, there, first);
    } else {
        lemma_lookup_miss(store, face, here);
        lemma_lookup_miss(store, face, there);
    }
}

/// Asking twice for the same face in the same area, with nothing asked in
/// between, gives the same entry twice: once `get` has handed out an entry,
/// the next `get` finds that entry, rasterizes nothing and leaves the store
/// as it is.
pub proof fn lemma_get_twice(
    before: StoreState,
    face: Face,
    area: Area,
    first: Rc<PixmapCache>,
    between: StoreState,
    second: Option<Rc<PixmapCache>>,
    after: StoreState,
)
    requires
        before.wf(),
        get_outcome(before, face, area, Some(first), between),
        get_outcome(between, face, area, second, after),
    ensures
        second == Some(first),
        after == between,
{
    if before.lookup(face, area) is None {
        lemma_lookup_miss(before, face, area);
        assert forall|earlier: int| 0 <= earlier < before.cursor implies !between.hit(
            face,
            area,
            earlier,
        ) by {
            assert(!before.hit(face, area, earlier));
        }
        assert(between.first_hit(face, area, before.cursor as int));
        lemma_lookup_first_hit(between, face, area, before.cursor as int);
    }
}

/// A new entry leaves every slot but the one under the cursor as it was, so
/// an entry made for another face or another size is still found afterwards
/// unless it sat under the cursor.
pub proof fn lemma_insert_keeps_others(
    store: StoreState,
    fresh: Rc<PixmapCache>,
    face: Face,
    area: Area,
    index: int,
)
    requires
        store.wf(),
        store.first_hit(face, area, index),
        index != store.cursor,
        !fresh.is_for(face, area),
    ensures
        store.insert(fresh).lookup(face, area) == store.lookup(face, area),
{
    let after = store.insert(fresh);
    assert forall|earlier: int| 0 <= earlier < index implies !after.hit(face, area, earlier) by {
        assert(!store.hit(face, area, earlier));
    }
    assert(after.first_hit(face, area, index));
    lemma_lookup_first_hit(after, face, area, index);
    lemma_lookup_first_hit(store, face, area, index);
}

/// Where the entries of a run went: the cursor has moved on by the length
/// of the run, and each of the last `CACHE_SIZE` entries sits in the slot
/// that the cursor was on when the entry went in.
proof fn lemma_insert_all_slots(store: StoreState, entries: Seq<Rc<PixmapCache>>)
    requires
        store.wf(),
    ensures
        store.insert_all(entries).wf(),
        store.insert_all(entries).cursor == (store.cursor + entries.len()) % (CACHE_SIZE as nat),
        forall|j: int|
            0 <= j < entries.len() && entries.len() - CACHE_SIZE <= j ==> store.insert_all(
                entries,
            ).slots[(store.cursor + j) % (CACHE_SIZE as int)] == Some(#[trigger] entries[j]),
    decreases entries.len(),
{
    if entries.len() > 0 {
        let earlier = entries.drop_last();
        lemma_insert_all_slots(store, earlier);
        let previous = store.insert_all(earlier);
        let last = entries.len() - 1;
        assert forall|j: int|
            0 <= j < entries.len() && entries.len() - CACHE_SIZE <= j implies store.insert_all(
            entries,
        ).slots[(store.cursor + j) % (CACHE_SIZE as int)] == Some(#[trigger] entries[j]) by {
            if j < last {
                assert(earlier[j] == entries[j]);
            }
        }
    }
}

/// The store keeps the last `CACHE_SIZE` entries and no others: after more
/// than `CACHE_SIZE` entries, no two made for the same face and size, went
/// in, each of the last `CACHE_SIZE` is found, and every one that went in
/// before them is gone.
pub proof fn lemma_capacity_bound(store: StoreState, entries: Seq<Rc<PixmapCache>>, i: int)
    requires
        store.wf(),
        distinct_keys(entries),
        entries.len() > CACHE_SIZE,
        0 <= i < entries.len(),
    ensures
        i < entries.len() - CACHE_SIZE ==> store.insert_all(entries).lookup(
            entries[i].face,
            entries[i].area,
        ) is None,
        i >= entries.len() - CACHE_SIZE ==> store.insert_all(entries).lookup(
            entries[i].face,
            entries[i].area,
        ) == Some(entries[i]),
{
    let after = store.insert_all(entries);
    let face = entries[i].face;
    let area = entries[i].area;
    let count = entries.len() as int;
    let size = CACHE_SIZE as int;
    lemma_full_turn(store, entries);
    if i < count - size {
        assert forall|slot: int| !after.hit(face, area, slot) by {
            if 0 <= slot < size {
                let j = late_entry(store.cursor as int, count, slot);
                assert(after.slots[slot] == Some(entries[j]));
                assert(!entries[i].is_for(entries[j].face, entries[j].area));
            }
        }
        lemma_lookup_miss(after, face, area);
    } else {
        let home = (store.cursor + i) % size;
        lemma_late_entry(store.cursor as int, count, home);
        assert(late_entry(store.cursor as int, count, home) == i);
        assert(after.slots[home] == Some(entries[i]));
        assert forall|slot: int| 0 <= slot < home implies !after.hit(face, area, slot) by {
            let j = late_entry(store.cursor as int, count, slot);
            lemma_late_entry(store.cursor as int, count, slot);
            assert(after.slots[slot] == Some(entries[j]));
            if i < j {
                assert(!entries[i].is_for(entries[j].face, entries[j].area));
            } else if j < i {
                assert(!entries[j].is_for(entries[i].face, entries[i].area));
            }
        }
        assert(after.first_hit(face, area, home));
        lemma_lookup_first_hit(after, face, area, home);
    }
}

/// The entry that `late_entry` names is one of the last `CACHE_SIZE`, and it
/// went into the slot asked for.
proof fn lemma_late_entry(cursor: int, count: int, slot: int)
    requires
        0 <= cursor < CACHE_SIZE,
        0 <= slot < CACHE_SIZE,
    ensures
        count - CACHE_SIZE <= late_entry(cursor, count, slot) < count,
        (cursor + late_entry(cursor, count, slot)) % (CACHE_SIZE as int) == slot,
{
}

/// After a run of at least `CACHE_SIZE` entries every slot holds one of
/// the last `CACHE_SIZE` of them.
proof fn lemma_full_turn(store: StoreState, entries: Seq<Rc<PixmapCache>>)
    requires
        store.wf(),
        entries.len() >= CACHE_SIZE,
    ensures
        store.insert_all(entries).wf(),
        forall|slot: int|
            0 <= slot < CACHE_SIZE ==> {
                let j = late_entry(store.cursor as int, entries.len() as int, slot);
                &&& entries.len() - CACHE_SIZE <= j < entries.len()
                &&& #[trigger] store.insert_all(entries).slots[slot] == Some(entries[j])
            },
{
    let after = store.insert_all(entries);
    lemma_insert_all_slots(store, entries);
    assert forall|slot: int| 0 <= slot < CACHE_SIZE implies {
        let j = late_entry(store.cursor as int, entries.len() as int, slot);
        &&& entries.len() - CACHE_SIZE <= j < entries.len()
        &&& #[trigger] after.slots[slot] == Some(entries[j])
    } by {
        let j = late_entry(store.cursor as int, entries.len() as int, slot);
        lemma_late_entry(store.cursor as int, entries.len() as int, slot);
        assert(after.slots[(store.cursor + j) % (CACHE_SIZE as int)] == Some(entries[j]));
    }
}

/// Which of `count` entries, put into a store whose cursor was on `cursor`,
/// went last into `slot`.
spec fn late_entry(cursor: int, count: int, slot: int) -> int {
    let base = count - CACHE_SIZE;
    base + (slot - (cursor + base)) % (CACHE_SIZE as int)
}

/// A buffer of `height` rows of `width` pixels holds `height` rows.
proof fn lemma_rows(width: nat, height: nat)
    requires
        width > 0,
    ensures
        (4 * width * height) / (4 * width) == height,
        (4 * width * height) / 4 == width * height,
{
    assert((4 * width * height) / (4 * width) == height) by (nonlinear_arith)
        requires
            width > 0,
    ;
    assert((4 * width * height) / 4 == width * height) by (nonlinear_arith);
}

} // verus!
