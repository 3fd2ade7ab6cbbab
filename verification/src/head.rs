//! The metadata of a page's `<head>` section: title, optional description,
//! optional social-share image and an ordered list of resource-preload hints.

use vstd::prelude::*;

verus! {

/// The mathematical value of a [`Head`]: every field reduced to sequences of
/// characters, with absence kept structural (`None`, never an empty string).
#[verifier::ext_equal]
pub ghost struct HeadView {
    pub title: Seq<char>,
    pub description: Option<Seq<char>>,
    pub image: Option<Seq<char>>,
    pub preloads: Seq<Seq<char>>,
}

/// The metadata value a fresh [`Head`] starts from: empty title, no
/// description, no image, no preloads.
pub open spec fn empty_head() -> HeadView {
    HeadView {
        title: Seq::<char>::empty(),
        description: None,
        image: None,
        preloads: Seq::<Seq<char>>::empty(),
    }
}

/// Metadata for one page's `<head>` section. A value is built fresh for each
/// page, filled through the methods below and consumed by a single render.
#[derive(Clone)]
pub struct Head {
    pub title: String,
    pub description: Option<String>,
    pub image: Option<String>,
    pub preloads: Vec<String>,
}

impl View for Head {
    type V = HeadView;

    open spec fn view(&self) -> HeadView {
        HeadView {
            title: self.title@,
            description: self.description.deep_view(),
            image: self.image.deep_view(),
            preloads: self.preloads.deep_view(),
        }
    }
}

impl Default for Head {
    fn default() -> (r: Head)
        ensures
            r@ == empty_head(),
    {
        let r = Head { title: String::new(), description: None, image: None, preloads: Vec::new() };
        proof {
            assert(r@ =~= empty_head());
        }
        r
    }
}

impl Head {
    /// A fresh metadata value: empty title, no description, no image, no
    /// preloads.
    pub fn new() -> (r: Head)
        ensures
            r@ == empty_head(),
    {
        Head::default()
    }

    /// Appends `preload` to the end of the preload list, in place. Order is
    /// kept and duplicates are allowed: nothing is deduplicated.
    pub fn add_preload(&mut self, preload: &str)
        ensures
            final(self)@.preloads == old(self)@.preloads.push(preload@),
            final(self)@.title == old(self)@.title,
            final(self)@.description == old(self)@.description,
            final(self)@.image == old(self)@.image,
    {
        self.preloads.push(preload.to_owned());
        proof {
            assert(self@.preloads =~= old(self)@.preloads.push(preload@));
        }
    }

    /// Returns a copy of the metadata whose title is `title`; every other
    /// field is unchanged.
    pub fn title(self, title: &str) -> (r: Head)
        ensures
            r@.title == title@,
            r@.description == self@.description,
            r@.image == self@.image,
            r@.preloads == self@.preloads,
    {
        let mut r = self;
        r.title = title.to_owned();
        r
    }

    /// Returns a copy of the metadata whose description is present and equal
    /// to `description`; every other field is unchanged.
    pub fn description(self, description: &str) -> (r: Head)
        ensures
            r@.description == Some(description@),
            r@.title == self@.title,
            r@.image == self@.image,
            r@.preloads == self@.preloads,
    {
        let mut r = self;
        r.description = Some(description.to_owned());
        r
    }

    /// Returns a copy of the metadata whose social-share image is present and
    /// equal to `image`; every other field is unchanged.
    pub fn image(self, image: &str) -> (r: Head)
        ensures
            r@.image == Some(image@),
            r@.title == self@.title,
            r@.description == self@.description,
            r@.preloads == self@.preloads,
    {
        let mut r = self;
        r.image = Some(image.to_owned());
        r
    }

    /// The metadata of the "not found" page: fresh except for its title.
    pub fn not_found() -> (r: Head)
        ensures
            r@.title == "404 - Not Found"@,
            r@.description == None::<Seq<char>>,
            r@.image == None::<Seq<char>>,
            r@.preloads == Seq::<Seq<char>>::empty(),
    {
        Head::new().title("404 - Not Found")
    }
}

} // verus!
