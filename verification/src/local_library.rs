use vstd::prelude::*;
use crate::runtime::Image;
use crate::text::str_eq;
use vstd::string::StringExecFns;
use crate::runtime::Runtime;

verus! {

/// What adding a resource to a library yields: the index of a new
/// entry, the index of an already-known one, or a message naming the
/// resource that could not be opened.
pub enum AddImageResult {
    AddedNewImage(usize),
    ImageAlreadyExists(usize),
    Error(String),
}

/// A collection of images addressed by index.
pub trait Library: Sized {
    spec fn paths_view(&self) -> Seq<Seq<char>>;

    spec fn image_view(&self, index: int) -> Option<Image>;

    fn num_images(&self) -> (r: usize)
        ensures
            r == self.paths_view().len(),
    ;

    /// Registers a resource path. The path must name a readable file —
    /// that check is the one part that looks at the disk — and a path
    /// already in the library is reported with its existing index
    /// rather than added twice.
    fn add(&mut self, resource: &str) -> (r: AddImageResult)
        ensures
            match r {
                AddImageResult::AddedNewImage(i) => {
                    &&& i == old(self).paths_view().len()
                    &&& final(self).paths_view() == old(self).paths_view().push(resource@)
                    &&& forall|j: int|
                        0 <= j < old(self).paths_view().len() ==> old(self).paths_view()[j]
                            != resource@
                },
                AddImageResult::ImageAlreadyExists(i) => {
                    &&& 0 <= i < old(self).paths_view().len()
                    &&& old(self).paths_view()[i as int] == resource@
                    &&& final(self).paths_view() == old(self).paths_view()
                },
                AddImageResult::Error(message) => final(self).paths_view() == old(self).paths_view()
                    && message@ == "cannot open "@ + resource@,
            },
    ;

    /// The image at an index, when it has been loaded; images load
    /// from disk outside the library and are installed by the host.
    fn get_image(&mut self, index: usize) -> (r: Option<Image>)
        ensures
            *final(self) == *old(self),
            final(self).paths_view() == old(self).paths_view(),
            index < old(self).paths_view().len() ==> r == old(self).image_view(index as int),
            index >= old(self).paths_view().len() ==> r is None,
    ;

    /// The thumbnail at an index; this library serves the image
    /// itself.
    fn get_thumbnail(&mut self, index: usize) -> (r: Option<Image>)
        ensures
            *final(self) == *old(self),
            final(self).paths_view() == old(self).paths_view(),
            index < old(self).paths_view().len() ==> r == old(self).image_view(index as int),
            index >= old(self).paths_view().len() ==> r is None,
    ;
}

/// A library backed by files on the local disk, keeping decoded images
/// by index.
pub struct LocalLibrary {
    pub paths: Vec<String>,
    pub images: Vec<Option<Image>>,
    pub runtime: Runtime,
}

impl LocalLibrary {
    pub open spec fn wf(&self) -> bool {
        self.paths@.len() == self.images@.len()
    }

    pub fn new(runtime: Runtime) -> (r: Self)
        ensures
            r.wf(),
            r.paths@.len() == 0,
    {
        Self { paths: Vec::new(), images: Vec::new(), runtime }
    }

    /// Installs the decoded image for an index; decoding happens
    /// outside the library.
    pub fn insert_image(&mut self, index: usize, image: Image)
        requires
            old(self).wf(),
            index < old(self).paths@.len(),
        ensures
            final(self).wf(),
            final(self).paths == old(self).paths,
            final(self).images@ == old(self).images@.update(index as int, Some(image)),
    {
        self.images.set(index, Some(image));
    }
}

/// Relies on std::path::Path::exists: whether the path points at an
/// existing file or directory at the time of the call; the answer
/// depends on the disk, so nothing is assumed of it.
#[verifier::external_body]
fn path_exists(resource: &str) -> bool {
    std::path::Path::new(resource).exists()
}

impl Library for LocalLibrary {
    open spec fn paths_view(&self) -> Seq<Seq<char>> {
        self.paths@.map(|i: int, p: String| p@)
    }

    open spec fn image_view(&self, index: int) -> Option<Image> {
        if 0 <= index < self.images@.len() {
            self.images@[index]
        } else {
            None
        }
    }

    fn num_images(&self) -> (r: usize) {
        self.paths.len()
    }

    fn add(&mut self, resource: &str) -> (r: AddImageResult) {
        if !path_exists(resource) {
            let mut message = String::new();
            message.append("cannot open ");
            message.append(resource);
            proof {
                assert(message@ =~= "cannot open "@ + resource@);
            }
            return AddImageResult::Error(message);
        }
        let n = self.paths.len();
        let mut i: usize = 0;
        while i < n
            invariant
                0 <= i <= n,
                n == self.paths@.len(),
                *self == *old(self),
                forall|j: int|
                    0 <= j < i ==> (#[trigger] self.paths@[j])@ != resource@,
            decreases n - i,
        {
            let p: &String = &self.paths[i];
            if str_eq(p.as_str(), resource) {
                proof {
                    assert(self.paths_view()[i as int] == resource@);
                }
                return AddImageResult::ImageAlreadyExists(i);
            }
            i = i + 1;
        }
        let i = self.paths.len();
        let mut owned = String::new();
        owned.append(resource);
        self.paths.push(owned);
        self.images.push(None);
        proof {
            assert(self.paths_view() =~= old(self).paths_view().push(resource@));
            assert forall|j: int|
                0 <= j < old(self).paths_view().len() implies old(self).paths_view()[j]
                != resource@ by {
                assert(old(self).paths@[j]@ != resource@);
            };
        }
        AddImageResult::AddedNewImage(i)
    }

    fn get_image(&mut self, index: usize) -> (r: Option<Image>) {
        if index < self.paths.len() && index < self.images.len() {
            self.images[index]
        } else {
            None
        }
    }

    fn get_thumbnail(&mut self, index: usize) -> (r: Option<Image>) {
        if index < self.paths.len() && index < self.images.len() {
            self.images[index]
        } else {
            None
        }
    }
}

} // verus!
