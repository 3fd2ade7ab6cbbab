//! Rendering of [`Head`] metadata into the markup of a document's `<head>`
//! section.

use vstd::prelude::*;
use crate::head::{Head, HeadView, empty_head};

verus! {

/// The descriptive text emitted when the metadata carries no description.
pub open spec fn default_description() -> Seq<char> {
    "Train and deploy models to make online predictions using only SQL, with an open source Postgres extension."@
}

/// The title element: the page title, an en dash, and the site name.
pub open spec fn title_element(title: Seq<char>) -> Seq<char> {
    "<title>"@ + title + " \u{2013} PostgresML</title>\n"@
}

/// The description meta element carrying `text`.
pub open spec fn description_element(text: Seq<char>) -> Seq<char> {
    "<meta name=\"description\" content=\""@ + text + "\">\n"@
}

/// The social-share image meta element carrying `url`.
pub open spec fn image_element(url: Seq<char>) -> Seq<char> {
    "<meta property=\"og:image\" content=\""@ + url + "\">\n"@
}

/// The resource-preload link element for `path`: an image preload of MIME
/// subtype webp with a high fetch-priority hint.
pub open spec fn preload_element(path: Seq<char>) -> Seq<char> {
    "<link rel=\"preload\" href=\""@ + path
        + "\" as=\"image\" type=\"image/webp\" fetchpriority=\"high\">\n"@
}

/// One preload link element per path, in list order.
pub open spec fn preload_elements(paths: Seq<Seq<char>>) -> Seq<char>
    decreases paths.len(),
{
    if paths.len() == 0 {
        Seq::<char>::empty()
    } else {
        preload_elements(paths.drop_last()) + preload_element(paths.last())
    }
}

/// The description section: the given description when present, the default
/// text otherwise. Some description meta element is always emitted.
pub open spec fn description_section(description: Option<Seq<char>>) -> Seq<char> {
    match description {
        Some(text) => description_element(text),
        None => description_element(default_description()),
    }
}

/// The image section: a social-share meta element when an image is present,
/// nothing otherwise.
pub open spec fn image_section(image: Option<Seq<char>>) -> Seq<char> {
    match image {
        Some(url) => image_element(url),
        None => Seq::<char>::empty(),
    }
}

/// Everything of the rendered head that precedes the preload links.
pub open spec fn rendered_prefix(h: HeadView) -> Seq<char> {
    "<head>\n"@ + title_element(h.title) + description_section(h.description)
        + image_section(h.image)
}

/// The full markup of the head section for metadata `h`.
pub open spec fn rendered_head(h: HeadView) -> Seq<char> {
    rendered_prefix(h) + preload_elements(h.preloads) + "</head>\n"@
}

/// The renderer: wraps the metadata that a render call consumes.
#[derive(Clone)]
pub struct DefaultHeadTemplate {
    pub head: Head,
}

impl Default for DefaultHeadTemplate {
    fn default() -> (r: DefaultHeadTemplate)
        ensures
            r.head@ == empty_head(),
    {
        DefaultHeadTemplate { head: Head::default() }
    }
}

impl DefaultHeadTemplate {
    /// Wraps `head` for rendering; an absent value is replaced by a fresh
    /// default [`Head`].
    pub fn new(head: Option<Head>) -> (r: DefaultHeadTemplate)
        ensures
            head matches Some(h) ==> r.head@ == h@,
            head is None ==> r.head@ == empty_head(),
    {
        let head = match head {
            Some(head) => head,
            None => Head::new(),
        };

        DefaultHeadTemplate { head }
    }

    /// Renders the wrapped metadata into the head markup. Rendering is total:
    /// every metadata value renders, and the output is a function of the
    /// metadata alone.
    pub fn render(&self) -> (r: String)
        ensures
            r@ == rendered_head(self.head@),
    {
        let mut out = String::new();
        out.push_str("<head>\n");
        out.push_str("<title>");
        out.push_str(self.head.title.as_str());
        out.push_str(" \u{2013} PostgresML</title>\n");
        match &self.head.description {
            Some(text) => {
                out.push_str("<meta name=\"description\" content=\"");
                out.push_str(text.as_str());
                out.push_str("\">\n");
            },
            None => {
                out.push_str("<meta name=\"description\" content=\"");
                out.push_str(
                    "Train and deploy models to make online predictions using only SQL, with an open source Postgres extension.",
                );
                out.push_str("\">\n");
            },
        }
        match &self.head.image {
            Some(url) => {
                out.push_str("<meta property=\"og:image\" content=\"");
                out.push_str(url.as_str());
                out.push_str("\">\n");
            },
            None => {},
        }
        proof {
            assert(self.head@.preloads.take(0) =~= Seq::<Seq<char>>::empty());
            assert(out@ =~= rendered_prefix(self.head@) + preload_elements(
                self.head@.preloads.take(0),
            ));
        }
        let mut i: usize = 0;
        while i < self.head.preloads.len()
            invariant
                i <= self.head@.preloads.len(),
                out@ == rendered_prefix(self.head@) + preload_elements(
                    self.head@.preloads.take(i as int),
                ),
            decreases self.head@.preloads.len() - i,
        {
            let path: &String = &self.head.preloads[i];
            out.push_str("<link rel=\"preload\" href=\"");
            out.push_str(path.as_str());
            out.push_str("\" as=\"image\" type=\"image/webp\" fetchpriority=\"high\">\n");
            proof {
                let ps = self.head@.preloads;
                assert(ps.take(i as int + 1).drop_last() =~= ps.take(i as int));
                assert(ps.take(i as int + 1).last() == ps[i as int]);
                assert(out@ =~= rendered_prefix(self.head@) + preload_elements(
                    ps.take(i as int + 1),
                ));
            }
            i = i + 1;
        }
        out.push_str("</head>\n");
        proof {
            assert(self.head@.preloads.take(self.head@.preloads.len() as int)
                =~= self.head@.preloads);
            assert(out@ =~= rendered_head(self.head@));
        }
        out
    }
}

/// Rendering is deterministic and stateless: the rendered text is a function
/// of the metadata value alone, so two renders of equal metadata values
/// produce byte-identical output.
pub proof fn lemma_render_deterministic(a: HeadView, b: HeadView)
    requires
        a == b,
    ensures
        rendered_head(a) == rendered_head(b),
{
}

/// Every rendered head starts with the opening tag line and ends with the
/// closing tag line, whatever the metadata holds.
pub proof fn lemma_rendered_head_delimited(h: HeadView)
    ensures
        rendered_head(h).len() >= 15,
        rendered_head(h).take(7) == "<head>\n"@,
        rendered_head(h).skip(rendered_head(h).len() - 8) == "</head>\n"@,
{
    reveal_strlit("<head>\n");
    reveal_strlit("</head>\n");
    assert(rendered_head(h).take(7) =~= "<head>\n"@);
    assert(rendered_head(h).skip(rendered_head(h).len() - 8) =~= "</head>\n"@);
}

/// Relies on std's `String::push_str`: it appends the given string slice onto
/// the end of the string, and does nothing else.
pub assume_specification[ String::push_str ](s: &mut String, string: &str)
    ensures
        final(s)@ == old(s)@ + string@,
;

} // verus!
