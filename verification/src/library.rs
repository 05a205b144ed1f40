use vstd::prelude::*;
use vstd::string::StringExecFns;
use crate::runtime::ColorSpace;
use crate::runtime::Image;
use crate::runtime::ImageFormat;
use crate::runtime::Runtime;
use crate::toolbox::scaled_axis;
use crate::toolbox::Toolbox;

verus! {

/// How an image of the library is named: temporary images are numbered
/// and live only for the session; others are named by their file path.
#[derive(Clone, PartialEq, Eq, Hash, Debug)]
pub enum LibraryImageIdentifier {
    Temp(usize),
    Path(String),
}

/// Identifier equality: same variant and same content.
pub open spec fn id_eq(a: LibraryImageIdentifier, b: LibraryImageIdentifier) -> bool {
    match a {
        LibraryImageIdentifier::Temp(x) => b matches LibraryImageIdentifier::Temp(y) && x == y,
        LibraryImageIdentifier::Path(p) => b matches LibraryImageIdentifier::Path(q) && p@ == q@,
    }
}

impl LibraryImageIdentifier {
    pub fn same_as(&self, other: &LibraryImageIdentifier) -> (r: bool)
        ensures
            r == id_eq(*self, *other),
    {
        match self {
            LibraryImageIdentifier::Temp(x) => match other {
                LibraryImageIdentifier::Temp(y) => *x == *y,
                _ => false,
            },
            LibraryImageIdentifier::Path(p) => match other {
                LibraryImageIdentifier::Path(q) => *p == *q,
                _ => false,
            },
        }
    }

    /// The number of a temporary identifier; zero for path names.
    pub fn index_if_temp(&self) -> (r: usize)
        ensures
            self matches LibraryImageIdentifier::Temp(x) ==> r == x,
    {
        match self {
            LibraryImageIdentifier::Temp(x) => *x,
            LibraryImageIdentifier::Path(_) => 0,
        }
    }

    pub fn clone_id(&self) -> (r: LibraryImageIdentifier)
        ensures
            id_eq(r, *self),
            r is Temp <==> self is Temp,
    {
        match self {
            LibraryImageIdentifier::Temp(x) => LibraryImageIdentifier::Temp(*x),
            LibraryImageIdentifier::Path(p) => LibraryImageIdentifier::Path(p.clone()),
        }
    }
}

/// One library entry: the full image and its thumbnail, either of
/// which may not be loaded yet.
#[derive(Clone, Copy)]
pub struct LibraryItem {
    pub image: Option<Image>,
    pub thumbnail: Option<Image>,
}

/// Why an entry could not be brought to a loaded state: no decoded
/// image was supplied for an entry that has none.
#[derive(Clone, Copy, PartialEq, Eq, Structural, Debug)]
pub enum LibraryLoadError {
    ImageUnavailable,
}

/// The paths the library persists between sessions.
#[derive(Clone)]
pub struct LibraryPersistentState {
    pub paths: Vec<String>,
}

impl LibraryPersistentState {
    pub fn new() -> (r: Self)
        ensures
            r.paths@.len() == 0,
    {
        Self { paths: Vec::new() }
    }
}

/// Whether an earlier entry of the path list names the same file.
pub open spec fn path_seen_before(paths: Seq<String>, j: int) -> bool {
    exists|i: int| 0 <= i < j && (#[trigger] paths[i])@ == paths[j]@
}

/// How many of the first `k` persisted paths are new to a library
/// whose entries are `s0`: not already present, and not a repeat of an
/// earlier persisted path.
pub open spec fn new_path_count(
    s0: Seq<(LibraryImageIdentifier, LibraryItem)>,
    paths: Seq<String>,
    k: int,
) -> int
    decreases k,
{
    if k <= 0 {
        0
    } else {
        new_path_count(s0, paths, k - 1) + (
        if find_item(s0, LibraryImageIdentifier::Path(paths[k - 1])) is None && !path_seen_before(
            paths,
            k - 1,
        ) {
            1int
        } else {
            0int
        })
    }
}

/// The first item whose identifier equals `id`.
pub open spec fn find_item(
    s: Seq<(LibraryImageIdentifier, LibraryItem)>,
    id: LibraryImageIdentifier,
) -> Option<LibraryItem>
    decreases s.len(),
{
    if s.len() == 0 {
        None
    } else if id_eq(s[0].0, id) {
        Some(s[0].1)
    } else {
        find_item(s.subrange(1, s.len() as int), id)
    }
}

/// The session's collection of images, in insertion order, each with
/// its lazily loaded full image and thumbnail.
pub struct Library {
    pub items: Vec<(LibraryImageIdentifier, LibraryItem)>,
    pub num_temp_images: usize,
    pub runtime: Runtime,
    pub toolbox: Toolbox,
}

impl Library {
    pub open spec fn find(&self, id: LibraryImageIdentifier) -> Option<LibraryItem> {
        find_item(self.items@, id)
    }

    pub open spec fn order(&self) -> Seq<LibraryImageIdentifier> {
        self.items@.map(|i: int, e: (LibraryImageIdentifier, LibraryItem)| e.0)
    }

    pub fn new(runtime: Runtime, toolbox: Toolbox) -> (r: Self)
        ensures
            r.items@.len() == 0,
            r.num_temp_images == 0,
            r.wf(),
    {
        Self { items: Vec::new(), num_temp_images: 0, runtime, toolbox }
    }

    pub fn num_images_total(&self) -> (r: usize)
        ensures
            r == self.items@.len(),
    {
        self.items.len()
    }

    pub fn num_temp_images(&self) -> (r: usize)
        ensures
            r == self.num_temp_images,
    {
        self.num_temp_images
    }

    /// Stores `item` under `identifier`: replaces the entry in place
    /// when the identifier is already known, else appends it, so the
    /// display order is the order of first insertion.
    pub fn add_item(&mut self, item: LibraryItem, identifier: LibraryImageIdentifier)
        ensures
            final(self).find(identifier) == Some(item),
            final(self).num_temp_images == old(self).num_temp_images,
            final(self).runtime == old(self).runtime,
            final(self).toolbox == old(self).toolbox,
            forall|j: int|
                0 <= j < old(self).items@.len() && !id_eq(
                    (#[trigger] old(self).items@[j]).0,
                    identifier,
                ) ==> final(self).items@[j] == old(self).items@[j],
            forall|j: int|
                0 <= j < old(self).items@.len() ==> id_eq(
                    (#[trigger] final(self).items@[j]).0,
                    old(self).items@[j].0,
                ),
            forall|q: LibraryImageIdentifier|
                !id_eq(q, identifier) ==> final(self).find(q) == old(self).find(q),
            old(self).find(identifier) is Some ==> final(self).items@.len() == old(self).items@.len(),
            old(self).find(identifier) is None ==> final(self).items@.len() == old(self).items@.len()
                + 1 && final(self).items@.last().0 == identifier && (forall|j: int|
                0 <= j < old(self).items@.len() ==> final(self).items@[j] == old(self).items@[j]),
            old(self).wf() && (identifier matches LibraryImageIdentifier::Temp(i) ==> i < old(self).num_temp_images) ==> final(self).wf(),
    {
        let ghost old_items = self.items@;
        let n = self.items.len();
        let mut i: usize = 0;
        while i < n
            invariant
                0 <= i <= n,
                n == self.items@.len(),
                self.items@ == old_items,
                old(self).items@ == old_items,
                self.num_temp_images == old(self).num_temp_images,
                self.runtime == old(self).runtime,
                self.toolbox == old(self).toolbox,
                forall|j: int| 0 <= j < i ==> !id_eq(old_items[j].0, identifier),
            decreases n - i,
        {
            if self.items[i].0.same_as(&identifier) {
                proof {
                    lemma_find_from_index(old_items, identifier, i as int);
                }
                let key = self.items[i].0.clone_id();
                self.items.set(i, (key, item));
                proof {
                    lemma_find_set(old_items, self.items@, identifier, item, i as int);
                    assert forall|q: LibraryImageIdentifier| !id_eq(q, identifier) implies find_item(
                        self.items@,
                        q,
                    ) == find_item(old_items, q) by {
                        lemma_find_frame(old_items, self.items@, identifier, q);
                    };
                    if old(self).wf() {
                        assert forall|j: int, l: int|
                            0 <= j < l < self.items@.len() implies !id_eq(
                            (#[trigger] self.items@[j]).0,
                            (#[trigger] self.items@[l]).0,
                        ) by {
                            if id_eq(self.items@[j].0, self.items@[l].0) {
                                lemma_id_eq_sym(self.items@[j].0, old_items[j].0);
                                lemma_id_eq_trans(old_items[j].0, self.items@[j].0, self.items@[l].0);
                                lemma_id_eq_trans(old_items[j].0, self.items@[l].0, old_items[l].0);
                            }
                        };
                        assert forall|j: int|
                            0 <= j < self.items@.len() implies ((#[trigger] self.items@[j]).0 matches
                            LibraryImageIdentifier::Temp(ti) ==> ti < self.num_temp_images) by {
                            assert(id_eq(self.items@[j].0, old_items[j].0));
                        };
                    }
                }
                return;
            }
            i = i + 1;
        }
        proof {
            lemma_find_none(old_items, identifier);
            lemma_find_none_no_key(old_items, identifier);
        }
        self.items.push((identifier, item));
        proof {
            assert forall|q: LibraryImageIdentifier| !id_eq(q, identifier) implies find_item(
                self.items@,
                q,
            ) == find_item(old_items, q) by {
                lemma_find_push_frame(old_items, identifier, item, q);
            };
            assert(id_eq(identifier, identifier)) by {
                match identifier {
                    LibraryImageIdentifier::Temp(_) => {},
                    LibraryImageIdentifier::Path(_) => {},
                }
            };
            lemma_find_push(old_items, identifier, item);
        }
    }

    /// Converts the decoded image to the working format — 16-bit float
    /// texels in linear color — computes its thumbnail and stores
    /// both.
    pub fn add_image(&mut self, image: Image, identifier: LibraryImageIdentifier)
        requires
            old(self).runtime.next_uuid + 4 <= u64::MAX,
        ensures
            (final(self).find(identifier) matches Some(item) && (item.image matches Some(img)
                && img.properties.format == ImageFormat::Rgba16Float
                && img.properties.color_space == ColorSpace::LinearRGB
                && img.properties.dimensions == image.properties.dimensions)
                && item.thumbnail is Some),
            final(self).num_temp_images == old(self).num_temp_images,
            forall|q: LibraryImageIdentifier|
                !id_eq(q, identifier) ==> final(self).find(q) == old(self).find(q),
            old(self).find(identifier) is Some ==> final(self).items@.len() == old(self).items@.len(),
            old(self).find(identifier) is None ==> final(self).items@.len() == old(self).items@.len() + 1,
            old(self).wf() && (identifier matches LibraryImageIdentifier::Temp(i) ==> i < old(self).num_temp_images) ==> final(self).wf(),
    {
        let thumbnail = self.compute_thumbnail(image);
        let converted = self.toolbox.convert_image_format(
            &mut self.runtime,
            image,
            ImageFormat::Rgba16Float,
        );
        let converted = self.toolbox.convert_color_space(
            &mut self.runtime,
            converted,
            ColorSpace::LinearRGB,
        );
        let library_item = LibraryItem { image: Some(converted), thumbnail: Some(thumbnail) };
        self.add_item(library_item, identifier);
    }

    /// Stores a decoded image under the next temporary number.
    pub fn add_image_temp(&mut self, image: Image) -> (r: LibraryImageIdentifier)
        requires
            old(self).runtime.next_uuid + 4 <= u64::MAX,
            old(self).num_temp_images < usize::MAX,
        ensures
            r == LibraryImageIdentifier::Temp(old(self).num_temp_images),
            final(self).num_temp_images == old(self).num_temp_images + 1,
            (final(self).find(r) matches Some(item) && (item.image matches Some(img)
                && img.properties.format == ImageFormat::Rgba16Float
                && img.properties.color_space == ColorSpace::LinearRGB
                && img.properties.dimensions == image.properties.dimensions)
                && item.thumbnail is Some),
            forall|q: LibraryImageIdentifier| !id_eq(q, r) ==> final(self).find(q) == old(self).find(q),
            old(self).find(LibraryImageIdentifier::Temp(old(self).num_temp_images)) is None
                ==> final(self).items@.len() == old(self).items@.len() + 1,
            old(self).wf() ==> final(self).wf() && old(self).find(
                LibraryImageIdentifier::Temp(old(self).num_temp_images),
            ) is None && final(self).items@.len() == old(self).items@.len() + 1,
    {
        proof {
            if old(self).wf() && old(self).find(
                LibraryImageIdentifier::Temp(old(self).num_temp_images),
            ) is Some {
                lemma_find_some_key(
                    old(self).items@,
                    LibraryImageIdentifier::Temp(old(self).num_temp_images),
                );
            }
        }
        let temp_image_id = LibraryImageIdentifier::Temp(self.num_temp_images);
        self.num_temp_images = self.num_temp_images + 1;
        self.add_image(image, LibraryImageIdentifier::Temp(temp_image_id.index_if_temp()));
        temp_image_id
    }

    /// Registers a path without loading anything from it yet.
    pub fn add_item_from_path(&mut self, path: String) -> (r: LibraryImageIdentifier)
        ensures
            id_eq(r, LibraryImageIdentifier::Path(path)),
            final(self).find(LibraryImageIdentifier::Path(path)) matches Some(item)
                && item.image is None && item.thumbnail is None,
            final(self).num_temp_images == old(self).num_temp_images,
            final(self).runtime == old(self).runtime,
            final(self).toolbox == old(self).toolbox,
            forall|q: LibraryImageIdentifier|
                !id_eq(q, LibraryImageIdentifier::Path(path)) ==> final(self).find(q) == old(self).find(q),
            forall|j: int|
                0 <= j < old(self).items@.len() && !id_eq(
                    (#[trigger] old(self).items@[j]).0,
                    LibraryImageIdentifier::Path(path),
                ) ==> final(self).items@[j] == old(self).items@[j],
            forall|j: int|
                0 <= j < old(self).items@.len() ==> id_eq(
                    (#[trigger] final(self).items@[j]).0,
                    old(self).items@[j].0,
                ),
            final(self).items@.len() == old(self).items@.len() + (
            if old(self).find(LibraryImageIdentifier::Path(path)) is Some {
                0int
            } else {
                1int
            }),
            old(self).wf() ==> final(self).wf(),
    {
        let id = LibraryImageIdentifier::Path(path);
        let r = id.clone_id();
        let item = LibraryItem { image: None, thumbnail: None };
        self.add_item(item, id);
        r
    }

    pub fn get_identifier_at_index(&self, index: usize) -> (r: &LibraryImageIdentifier)
        requires
            index < self.items@.len(),
        ensures
            *r == self.items@[index as int].0,
    {
        &self.items[index].0
    }

    pub fn get_image_at_index(&mut self, index: usize) -> (r: Option<Image>)
        requires
            index < old(self).items@.len(),
        ensures
            *final(self) == *old(self),
            r == old(self).items@[index as int].1.image,
    {
        self.items[index].1.image
    }

    pub fn get_thumbnail_at_index(&mut self, index: usize) -> (r: Option<Image>)
        requires
            index < old(self).items@.len(),
        ensures
            *final(self) == *old(self),
            r == old(self).items@[index as int].1.thumbnail,
    {
        self.items[index].1.thumbnail
    }

    /// Installs a freshly decoded image for an identifier whose entry
    /// is not loaded yet, converting it and computing the missing
    /// thumbnail; reading the bytes from disk is the caller's side of
    /// the work. An entry that is already loaded is left alone.
    pub fn ensure_loaded(&mut self, identifier: &LibraryImageIdentifier, decoded: Option<Image>)
        -> (r: Result<(), LibraryLoadError>)
        requires
            old(self).runtime.next_uuid + 4 <= u64::MAX,
        ensures
            final(self).num_temp_images == old(self).num_temp_images,
            old(self).wf() && (*identifier matches LibraryImageIdentifier::Temp(i) ==> i < old(self).num_temp_images) ==> final(self).wf(),
            r is Ok <==> (match old(self).find(*identifier) {
                Some(item) => item.image is Some || decoded is Some,
                None => decoded is Some,
            }),
            r is Err ==> *final(self) == *old(self),
            forall|q: LibraryImageIdentifier|
                !id_eq(q, *identifier) ==> final(self).find(q) == old(self).find(q),
            (match old(self).find(*identifier) {
                Some(item) => {
                    &&& (item.image is Some ==> (final(self).find(*identifier) matches Some(after)
                        && after.image == item.image && after.thumbnail is Some))
                    &&& (item.image is None && decoded is Some ==> (final(self).find(
                        *identifier,
                    ) matches Some(after) && (after.image matches Some(converted)
                        && converted.properties.format == ImageFormat::Rgba16Float
                        && converted.properties.color_space == ColorSpace::LinearRGB
                        && converted.properties.dimensions == decoded->0.properties.dimensions)
                        && after.thumbnail is Some))
                    &&& (item.image is None && decoded is None ==> *final(self) == *old(self))
                    &&& (r is Ok ==> (final(self).find(*identifier) matches Some(after)
                        && after.image is Some && after.thumbnail is Some))
                },
                None => {
                    &&& (decoded is Some ==> (final(self).find(*identifier) matches Some(
                        after,
                    ) && (after.image matches Some(converted) && converted.properties.format
                        == ImageFormat::Rgba16Float && converted.properties.color_space
                        == ColorSpace::LinearRGB && converted.properties.dimensions
                        == decoded->0.properties.dimensions) && after.thumbnail is Some))
                    &&& (decoded is None ==> *final(self) == *old(self))
                },
            }),
    {
        let ghost want = *identifier;
        let existing = self.get_item(identifier);
        match existing {
            Some(item) => {
                if item.image.is_none() {
                    match decoded {
                        Some(img) => {
                            let key = identifier.clone_id();
                            let ghost keyg = key;
                            let ghost pre = *self;
                            self.add_image(img, key);
                            proof {
                                lemma_find_congruent(self.items@, keyg, want);
                                assert forall|q: LibraryImageIdentifier|
                                    !id_eq(q, want) implies self.find(q) == pre.find(q) by {
                                    if id_eq(q, keyg) {
                                        lemma_id_eq_trans(q, keyg, want);
                                    }
                                };
                            }
                            Ok(())
                        },
                        None => Err(LibraryLoadError::ImageUnavailable),
                    }
                } else if item.thumbnail.is_none() {
                    let img = match item.image {
                        Some(img) => img,
                        None => {
                            return Err(LibraryLoadError::ImageUnavailable);
                        },
                    };
                    let thumbnail = self.compute_thumbnail(img);
                    let key = identifier.clone_id();
                    let ghost keyg = key;
                    let ghost pre = *self;
                    self.add_item(
                        LibraryItem { image: Some(img), thumbnail: Some(thumbnail) },
                        key,
                    );
                    proof {
                        lemma_find_congruent(self.items@, keyg, want);
                        assert forall|q: LibraryImageIdentifier|
                            !id_eq(q, want) implies self.find(q) == pre.find(q) by {
                            if id_eq(q, keyg) {
                                lemma_id_eq_trans(q, keyg, want);
                            }
                        };
                    }
                    Ok(())
                } else {
                    Ok(())
                }
            },
            None => {
                match decoded {
                    Some(img) => {
                        let key = identifier.clone_id();
                        let ghost keyg = key;
                        let ghost pre = *self;
                        self.add_image(img, key);
                        proof {
                            lemma_find_congruent(self.items@, keyg, want);
                            assert forall|q: LibraryImageIdentifier|
                                !id_eq(q, want) implies self.find(q) == pre.find(q) by {
                                if id_eq(q, keyg) {
                                    lemma_id_eq_trans(q, keyg, want);
                                }
                            };
                        }
                        Ok(())
                    },
                    None => Err(LibraryLoadError::ImageUnavailable),
                }
            },
        }
    }

    fn get_item(&self, identifier: &LibraryImageIdentifier) -> (r: Option<LibraryItem>)
        ensures
            r == self.find(*identifier),
    {
        let n = self.items.len();
        proof {
            assert(self.items@.subrange(0, n as int) =~= self.items@);
        }
        let mut i: usize = 0;
        while i < n
            invariant
                0 <= i <= n,
                n == self.items@.len(),
                forall|j: int| 0 <= j < i ==> !id_eq(self.items@[j].0, *identifier),
                find_item(self.items@, *identifier) == find_item(
                    self.items@.subrange(i as int, n as int),
                    *identifier,
                ),
            decreases n - i,
        {
            if self.items[i].0.same_as(identifier) {
                proof {
                    assert(self.items@.subrange(i as int, n as int)[0] == self.items@[i as int]);
                }
                return Some(self.items[i].1);
            }
            proof {
                assert(self.items@.subrange(i as int, n as int).subrange(
                    1,
                    (n - i) as int,
                ) =~= self.items@.subrange(i as int + 1, n as int));
            }
            i = i + 1;
        }
        proof {
            assert(self.items@.subrange(n as int, n as int).len() == 0);
        }
        None
    }

    /// The loaded image under an identifier, if the entry exists and
    /// has been loaded; loading itself goes through `ensure_loaded`.
    pub fn get_image_from_identifier(&mut self, identifier: &LibraryImageIdentifier) -> (r: Option<
        Image,
    >)
        ensures
            *final(self) == *old(self),
            r == (match old(self).find(*identifier) {
                Some(item) => item.image,
                None => None,
            }),
    {
        match self.get_item(identifier) {
            Some(item) => item.image,
            None => None,
        }
    }

    /// The thumbnail under an identifier, if the entry exists and has
    /// one.
    pub fn get_thumbnail_from_identifier(
        &mut self,
        identifier: &LibraryImageIdentifier,
    ) -> (r: Option<Image>)
        ensures
            *final(self) == *old(self),
            r == (match old(self).find(*identifier) {
                Some(item) => item.thumbnail,
                None => None,
            }),
    {
        match self.get_item(identifier) {
            Some(item) => item.thumbnail,
            None => None,
        }
    }

    /// The state worth persisting: every path-named image, in display
    /// order.
    pub fn get_persistent_state(&self) -> (r: LibraryPersistentState)
        ensures
            r.paths@.map(|i: int, p: String| p@) == persisted_paths(self.items@),
    {
        let mut paths: Vec<String> = Vec::new();
        let n = self.items.len();
        let mut i: usize = 0;
        while i < n
            invariant
                0 <= i <= n,
                n == self.items@.len(),
                paths@.map(|k: int, p: String| p@) =~= persisted_paths(
                    self.items@.subrange(0, i as int),
                ),
            decreases n - i,
        {
            proof {
                assert(self.items@.subrange(0, i as int + 1).drop_last() =~= self.items@.subrange(
                    0,
                    i as int,
                ));
                assert(self.items@.subrange(0, i as int + 1).last() == self.items@[i as int]);
            }
            match &self.items[i].0 {
                LibraryImageIdentifier::Path(p) => {
                    paths.push(p.clone());
                    proof {
                        assert(paths@.map(|k: int, q: String| q@) =~= persisted_paths(
                            self.items@.subrange(0, i as int + 1),
                        ));
                    }
                },
                _ => {
                    proof {
                        assert(paths@.map(|k: int, q: String| q@) =~= persisted_paths(
                            self.items@.subrange(0, i as int + 1),
                        ));
                    }
                },
            }
            i = i + 1;
        }
        proof {
            assert(self.items@.subrange(0, n as int) =~= self.items@);
        }
        LibraryPersistentState { paths }
    }

    /// Re-registers every persisted path; images load lazily later.
    pub fn load_persistent_state(&mut self, state: LibraryPersistentState)
        ensures
            final(self).num_temp_images == old(self).num_temp_images,
            old(self).wf() ==> final(self).wf(),
            final(self).items@.len() == old(self).items@.len() + new_path_count(
                old(self).items@,
                state.paths@,
                state.paths@.len() as int,
            ),
            forall|i: int|
                0 <= i < state.paths@.len() ==> ((#[trigger] final(self).find(
                    LibraryImageIdentifier::Path(state.paths@[i]),
                )) matches Some(item) && item.image is None && item.thumbnail is None),
    {
        let n = state.paths.len();
        let mut i: usize = 0;
        while i < n
            invariant
                0 <= i <= n,
                n == state.paths@.len(),
                self.num_temp_images == old(self).num_temp_images,
                old(self).wf() ==> self.wf(),
                self.items@.len() == old(self).items@.len() + new_path_count(
                    old(self).items@,
                    state.paths@,
                    i as int,
                ),
                forall|q: LibraryImageIdentifier|
                    old(self).find(q) is Some ==> #[trigger] self.find(q) is Some,
                forall|q: LibraryImageIdentifier|
                    (old(self).find(q) is None && (forall|j: int|
                        0 <= j < i ==> !id_eq(
                            q,
                            LibraryImageIdentifier::Path(#[trigger] state.paths@[j]),
                        ))) ==> #[trigger] self.find(q) is None,
                forall|j: int|
                    0 <= j < i ==> ((#[trigger] self.find(
                        LibraryImageIdentifier::Path(state.paths@[j]),
                    )) matches Some(item) && item.image is None && item.thumbnail is None),
            decreases n - i,
        {
            let path = state.paths[i].clone();
            let ghost arg_id = LibraryImageIdentifier::Path(path);
            let ghost pre = *self;
            proof {
                let q = LibraryImageIdentifier::Path(state.paths@[i as int]);
                if pre.find(q) is Some {
                    if old(self).find(q) is None {
                        // present now but not at the start: some
                        // earlier persisted path named the same file
                        assert(!(forall|j: int|
                            0 <= j < i ==> !id_eq(
                                q,
                                LibraryImageIdentifier::Path(#[trigger] state.paths@[j]),
                            )));
                        let j = choose|j: int|
                            0 <= j < i && id_eq(
                                q,
                                LibraryImageIdentifier::Path(#[trigger] state.paths@[j]),
                            );
                        assert(path_seen_before(state.paths@, i as int));
                    }
                } else {
                    assert(old(self).find(q) is None);
                    if path_seen_before(state.paths@, i as int) {
                        let j = choose|j: int|
                            0 <= j < i && (#[trigger] state.paths@[j])@ == state.paths@[i as int]@;
                        assert(id_eq(q, LibraryImageIdentifier::Path(state.paths@[j])));
                        lemma_find_congruent(
                            pre.items@,
                            q,
                            LibraryImageIdentifier::Path(state.paths@[j]),
                        );
                    }
                }
            }
            self.add_item_from_path(path);
            proof {
                let q = LibraryImageIdentifier::Path(state.paths@[i as int]);
                assert(id_eq(arg_id, q));
                lemma_find_congruent(pre.items@, arg_id, q);
                assert(new_path_count(old(self).items@, state.paths@, i + 1) == new_path_count(
                    old(self).items@,
                    state.paths@,
                    i as int,
                ) + (if find_item(old(self).items@, q) is None && !path_seen_before(
                    state.paths@,
                    i as int,
                ) {
                    1int
                } else {
                    0int
                }));
                if pre.find(q) is None {
                    if path_seen_before(state.paths@, i as int) {
                        let jj = choose|jj: int|
                            0 <= jj < i && (#[trigger] state.paths@[jj])@ == state.paths@[
                                i as int
                            ]@;
                        assert(id_eq(q, LibraryImageIdentifier::Path(state.paths@[jj])));
                        lemma_find_congruent(
                            pre.items@,
                            q,
                            LibraryImageIdentifier::Path(state.paths@[jj]),
                        );
                        assert(pre.find(LibraryImageIdentifier::Path(state.paths@[jj])) is Some);
                        assert(false);
                    }
                }
                assert(self.items@.len() == old(self).items@.len() + new_path_count(
                    old(self).items@,
                    state.paths@,
                    i + 1,
                ));
                assert forall|q: LibraryImageIdentifier|
                    old(self).find(q) is Some implies #[trigger] self.find(q) is Some by {
                    if id_eq(q, LibraryImageIdentifier::Path(state.paths@[i as int])) {
                        lemma_find_congruent(
                            self.items@,
                            q,
                            LibraryImageIdentifier::Path(state.paths@[i as int]),
                        );
                    } else {
                        assert(pre.find(q) is Some);
                    }
                };
                assert forall|q: LibraryImageIdentifier|
                    (old(self).find(q) is None && (forall|j: int|
                        0 <= j < i + 1 ==> !id_eq(
                            q,
                            LibraryImageIdentifier::Path(#[trigger] state.paths@[j]),
                        ))) implies #[trigger] self.find(q) is None by {
                    assert(!id_eq(q, LibraryImageIdentifier::Path(state.paths@[i as int])));
                    assert(pre.find(q) is None);
                };
                assert forall|j: int|
                    0 <= j < i + 1 implies ((#[trigger] self.find(
                    LibraryImageIdentifier::Path(state.paths@[j]),
                )) matches Some(item) && item.image is None && item.thumbnail is None) by {
                    if j < i {
                        if !id_eq(
                            LibraryImageIdentifier::Path(state.paths@[j]),
                            LibraryImageIdentifier::Path(state.paths@[i as int]),
                        ) {
                            assert(self.find(LibraryImageIdentifier::Path(state.paths@[j]))
                                == pre.find(LibraryImageIdentifier::Path(state.paths@[j])));
                        } else {
                            lemma_find_congruent(
                                self.items@,
                                LibraryImageIdentifier::Path(state.paths@[j]),
                                LibraryImageIdentifier::Path(state.paths@[i as int]),
                            );
                        }
                    } else {
                        lemma_find_congruent(
                            self.items@,
                            LibraryImageIdentifier::Path(state.paths@[j]),
                            LibraryImageIdentifier::Path(state.paths@[i as int]),
                        );
                    }
                };
            }
            i = i + 1;
        }
    }

    /// A thumbnail-sized copy: when the image's shorter edge is more
    /// than twice the thumbnail size, downscale so the shorter edge
    /// becomes the thumbnail size; small images are their own
    /// thumbnail.
    pub fn compute_thumbnail(&mut self, image: Image) -> (r: Image)
        requires
            old(self).runtime.next_uuid < u64::MAX,
        ensures
            final(self).items == old(self).items,
            final(self).num_temp_images == old(self).num_temp_images,
            old(self).runtime.next_uuid <= final(self).runtime.next_uuid <= old(
                self,
            ).runtime.next_uuid + 1,
            min_dimension(image) > 2 * THUMBNAIL_MIN_DIMENSION ==> r.uuid == old(self).runtime.next_uuid
                && final(self).toolbox.encoder.commands@ == old(self).toolbox.encoder.commands@.push(
                crate::runtime::Command::GenerateMipmaps { image: image.uuid },
            ).push(crate::runtime::Command::GenerateMipmaps { image: r.uuid }),
            min_dimension(image) <= 2 * THUMBNAIL_MIN_DIMENSION ==> final(self).toolbox == old(self).toolbox,
            min_dimension(image) > 2 * THUMBNAIL_MIN_DIMENSION ==> r.properties.dimensions == (
                scaled_axis(
                    image.properties.dimensions.0,
                    THUMBNAIL_MIN_DIMENSION,
                    min_dimension(image),
                ),
                scaled_axis(
                    image.properties.dimensions.1,
                    THUMBNAIL_MIN_DIMENSION,
                    min_dimension(image),
                ),
            ),
            min_dimension(image) <= 2 * THUMBNAIL_MIN_DIMENSION ==> r == image,
    {
        let min_dim = if image.properties.dimensions.0 <= image.properties.dimensions.1 {
            image.properties.dimensions.0
        } else {
            image.properties.dimensions.1
        };
        if min_dim > 2 * THUMBNAIL_MIN_DIMENSION {
            self.toolbox.generate_mipmap(&image);
            let thumbnail = self.toolbox.resize_image(
                &mut self.runtime,
                image,
                THUMBNAIL_MIN_DIMENSION,
                min_dim,
            );
            self.toolbox.generate_mipmap(&thumbnail);
            thumbnail
        } else {
            image
        }
    }

    /// Where a thumbnail for this image path would be stored: under
    /// the storage directory, named by the SHA-256 digest of the image
    /// file. Nothing when the file cannot be read.
    pub fn get_thumbnail_path_for_image_path(
        &self,
        image_path: &String,
        storage_dir: &String,
    ) -> (r: Option<String>)
        ensures
            r matches Some(p) ==> exists|digest: Seq<char>|
                digest.len() == 64 && p@ == storage_dir@ + "/thumbnails/"@ + digest + ".jpg"@,
    {
        let digest = match sha256_digest_of_file(image_path.as_str()) {
            Some(d) => d,
            None => {
                return None;
            },
        };
        let ghost digest_view = digest@;
        let mut full_path = storage_dir.clone();
        full_path.append("/thumbnails/");
        full_path.append(digest.as_str());
        full_path.append(".jpg");
        proof {
            assert(full_path@ == storage_dir@ + "/thumbnails/"@ + digest_view + ".jpg"@);
        }
        Some(full_path)
    }
}

/// The shorter edge of an image, in texels.
pub open spec fn min_dimension(image: Image) -> u32 {
    if image.properties.dimensions.0 <= image.properties.dimensions.1 {
        image.properties.dimensions.0
    } else {
        image.properties.dimensions.1
    }
}

/// Thumbnails aim for a shorter edge of this many texels.
pub const THUMBNAIL_MIN_DIMENSION: u32 = 400;

/// The paths of the path-named entries, in order.
pub open spec fn persisted_paths(s: Seq<(LibraryImageIdentifier, LibraryItem)>) -> Seq<Seq<char>>
    decreases s.len(),
{
    if s.len() == 0 {
        Seq::empty()
    } else {
        let rest = persisted_paths(s.drop_last());
        match s.last().0 {
            LibraryImageIdentifier::Path(p) => rest.push(p@),
            _ => rest,
        }
    }
}

/// A lowercase hexadecimal digit.
pub open spec fn is_lower_hex_digit(c: char) -> bool {
    ('0' <= c && c <= '9') || ('a' <= c && c <= 'f')
}

/// Relies on sha256::try_digest: on success, the SHA-256 digest of the
/// bytes of the file at the path, as 64 lowercase hex characters; the
/// result depends on what is on disk, so nothing more is assumed of
/// it. Failure means the file could not be opened or read.
#[verifier::external_body]
fn sha256_digest_of_file(path: &str) -> (r: Option<String>)
    ensures
        r matches Some(d) ==> d@.len() == 64 && forall|i: int|
            0 <= i < 64 ==> is_lower_hex_digit(#[trigger] d@[i]),
{
    sha256::try_digest(std::path::Path::new(path)).ok()
}

impl Library {
    /// Every temporary key was handed out by the counter — so the next
    /// temporary number is always fresh — and no two entries share an
    /// identifier.
    pub open spec fn wf(&self) -> bool {
        &&& forall|j: int|
            0 <= j < self.items@.len() ==> ((#[trigger] self.items@[j]).0 matches
                LibraryImageIdentifier::Temp(i) ==> i < self.num_temp_images)
        &&& forall|j: int, l: int|
            0 <= j < l < self.items@.len() ==> !id_eq(
                (#[trigger] self.items@[j]).0,
                (#[trigger] self.items@[l]).0,
            )
    }
}

/// Nothing found means no key matches.
proof fn lemma_find_none_no_key(
    s: Seq<(LibraryImageIdentifier, LibraryItem)>,
    id: LibraryImageIdentifier,
)
    requires
        find_item(s, id) is None,
    ensures
        forall|j: int| 0 <= j < s.len() ==> !id_eq((#[trigger] s[j]).0, id),
    decreases s.len(),
{
    if s.len() > 0 {
        lemma_find_none_no_key(s.subrange(1, s.len() as int), id);
        assert forall|j: int| 0 <= j < s.len() implies !id_eq((#[trigger] s[j]).0, id) by {
            if j > 0 {
                assert(s.subrange(1, s.len() as int)[j - 1] == s[j]);
            }
        };
    }
}

/// Something found means some key matches.
proof fn lemma_find_some_key(
    s: Seq<(LibraryImageIdentifier, LibraryItem)>,
    id: LibraryImageIdentifier,
)
    requires
        find_item(s, id) is Some,
    ensures
        exists|j: int| 0 <= j < s.len() && id_eq((#[trigger] s[j]).0, id),
    decreases s.len(),
{
    if s.len() > 0 {
        if id_eq(s[0].0, id) {
        } else {
            lemma_find_some_key(s.subrange(1, s.len() as int), id);
            let j = choose|j: int|
                0 <= j < s.subrange(1, s.len() as int).len() && id_eq(
                    (#[trigger] s.subrange(1, s.len() as int)[j]).0,
                    id,
                );
            assert(id_eq(s[j + 1].0, id));
        }
    }
}

/// Identifier equality carries across equal views.
proof fn lemma_id_eq_trans(a: LibraryImageIdentifier, b: LibraryImageIdentifier, c: LibraryImageIdentifier)
    requires
        id_eq(a, b),
        id_eq(b, c),
    ensures
        id_eq(a, c),
{
}

/// Identifier equality is symmetric.
proof fn lemma_id_eq_sym(a: LibraryImageIdentifier, b: LibraryImageIdentifier)
    requires
        id_eq(a, b),
    ensures
        id_eq(b, a),
{
}

/// Replacing the entry of one identifier leaves every other lookup
/// alone.
proof fn lemma_find_frame(
    s1: Seq<(LibraryImageIdentifier, LibraryItem)>,
    s2: Seq<(LibraryImageIdentifier, LibraryItem)>,
    changed: LibraryImageIdentifier,
    q: LibraryImageIdentifier,
)
    requires
        s1.len() == s2.len(),
        forall|j: int| 0 <= j < s1.len() ==> id_eq((#[trigger] s2[j]).0, s1[j].0),
        forall|j: int|
            0 <= j < s1.len() && !id_eq((#[trigger] s1[j]).0, changed) ==> s2[j] == s1[j],
        !id_eq(q, changed),
    ensures
        find_item(s2, q) == find_item(s1, q),
    decreases s1.len(),
{
    if s1.len() > 0 {
        if id_eq(s1[0].0, changed) {
            if id_eq(s1[0].0, q) {
                lemma_id_eq_trans(q, s1[0].0, changed);
            }
            if id_eq(s2[0].0, q) {
                lemma_id_eq_trans(q, s2[0].0, s1[0].0);
                lemma_id_eq_trans(q, s1[0].0, changed);
            }
        }
        assert(s2.subrange(1, s2.len() as int).len() == s1.subrange(1, s1.len() as int).len());
        assert forall|j: int|
            0 <= j < s1.subrange(1, s1.len() as int).len() ==> id_eq(
                (#[trigger] s2.subrange(1, s2.len() as int)[j]).0,
                s1.subrange(1, s1.len() as int)[j].0,
            ) by {};
        lemma_find_frame(
            s1.subrange(1, s1.len() as int),
            s2.subrange(1, s2.len() as int),
            changed,
            q,
        );
    }
}

/// Appending an entry leaves every other lookup alone.
proof fn lemma_find_push_frame(
    s: Seq<(LibraryImageIdentifier, LibraryItem)>,
    key: LibraryImageIdentifier,
    item: LibraryItem,
    q: LibraryImageIdentifier,
)
    requires
        !id_eq(q, key),
    ensures
        find_item(s.push((key, item)), q) == find_item(s, q),
    decreases s.len(),
{
    let s2 = s.push((key, item));
    if s.len() == 0 {
        assert(s2.len() == 1);
        if id_eq(s2[0].0, q) {
            lemma_id_eq_sym(key, q);
        } else {
            assert(s2.subrange(1, 1).len() == 0);
            assert(find_item(s2.subrange(1, 1), q) is None);
            assert(find_item(s, q) is None);
        }
    } else {
        assert(s2.subrange(1, s2.len() as int) =~= s.subrange(1, s.len() as int).push(
            (key, item),
        ));
        lemma_find_push_frame(s.subrange(1, s.len() as int), key, item, q);
    }
}

/// Equal identifiers find the same entry.
proof fn lemma_find_congruent(
    s: Seq<(LibraryImageIdentifier, LibraryItem)>,
    a: LibraryImageIdentifier,
    b: LibraryImageIdentifier,
)
    requires
        id_eq(a, b),
    ensures
        find_item(s, a) == find_item(s, b),
    decreases s.len(),
{
    if s.len() > 0 {
        lemma_find_congruent(s.subrange(1, s.len() as int), a, b);
    }
}

/// When the first match sits at index `i`, that entry is the one
/// found.
proof fn lemma_find_from_index(
    s: Seq<(LibraryImageIdentifier, LibraryItem)>,
    id: LibraryImageIdentifier,
    i: int,
)
    requires
        0 <= i < s.len(),
        id_eq(s[i].0, id),
        forall|j: int| 0 <= j < i ==> !id_eq(s[j].0, id),
    ensures
        find_item(s, id) == Some(s[i].1),
    decreases i,
{
    if i > 0 {
        lemma_find_from_index(s.subrange(1, s.len() as int), id, i - 1);
    }
}

/// With no matching identifier there is nothing to find.
proof fn lemma_find_none(
    s: Seq<(LibraryImageIdentifier, LibraryItem)>,
    id: LibraryImageIdentifier,
)
    requires
        forall|j: int| 0 <= j < s.len() ==> !id_eq(s[j].0, id),
    ensures
        find_item(s, id) is None,
    decreases s.len(),
{
    if s.len() > 0 {
        lemma_find_none(s.subrange(1, s.len() as int), id);
    }
}

proof fn lemma_find_set(
    old_s: Seq<(LibraryImageIdentifier, LibraryItem)>,
    new_s: Seq<(LibraryImageIdentifier, LibraryItem)>,
    id: LibraryImageIdentifier,
    item: LibraryItem,
    i: int,
)
    requires
        0 <= i < old_s.len(),
        new_s == old_s.update(i, (new_s[i].0, item)),
        id_eq(old_s[i].0, id),
        id_eq(new_s[i].0, id),
        forall|j: int| 0 <= j < i ==> !id_eq(old_s[j].0, id),
    ensures
        find_item(new_s, id) == Some(item),
    decreases i,
{
    if i == 0 {
        assert(id_eq(new_s[0].0, id));
    } else {
        assert(!id_eq(new_s[0].0, id));
        assert(new_s.subrange(1, new_s.len() as int) =~= old_s.subrange(
            1,
            old_s.len() as int,
        ).update(i - 1, (new_s[i].0, item)));
        lemma_find_set(
            old_s.subrange(1, old_s.len() as int),
            new_s.subrange(1, new_s.len() as int),
            id,
            item,
            i - 1,
        );
    }
}

proof fn lemma_find_push(
    old_s: Seq<(LibraryImageIdentifier, LibraryItem)>,
    id: LibraryImageIdentifier,
    item: LibraryItem,
)
    requires
        forall|j: int| 0 <= j < old_s.len() ==> !id_eq(old_s[j].0, id),
        id_eq(id, id),
    ensures
        find_item(old_s.push((id, item)), id) == Some(item),
    decreases old_s.len(),
{
    let s = old_s.push((id, item));
    if old_s.len() == 0 {
        assert(id_eq(s[0].0, id));
    } else {
        assert(!id_eq(s[0].0, id));
        lemma_find_push(old_s.subrange(1, old_s.len() as int), id, item);
        assert(s.subrange(1, s.len() as int) =~= old_s.subrange(1, old_s.len() as int).push(
            (id, item),
        ));
    }
}

} // verus!
