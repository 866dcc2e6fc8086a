//! Materials, as registered in the catalog and as quoted inside log entries.

use vstd::prelude::*;

verus! {

/// Mathematical model of an optional text.
pub open spec fn option_text(t: Option<String>) -> Option<Seq<char>> {
    match t {
        Some(s) => Some(s@),
        None => None,
    }
}

/// Mathematical model of a [`Material`].
pub struct MaterialView {
    pub name: Seq<char>,
    pub fullname: Option<Seq<char>>,
}

impl MaterialView {
    /// The material that a submitted form describes: an empty full name
    /// means that there is none.
    pub open spec fn submitted(name: Seq<char>, fullname: Seq<char>) -> MaterialView {
        MaterialView {
            name,
            fullname: if fullname.len() == 0 {
                None
            } else {
                Some(fullname)
            },
        }
    }
}

/// A kind of material: its short name and, optionally, a longer one.
#[derive(Debug, PartialEq, Eq)]
pub struct Material {
    pub name: String,
    pub fullname: Option<String>,
}

impl View for Material {
    type V = MaterialView;

    open spec fn view(&self) -> MaterialView {
        MaterialView { name: self.name@, fullname: option_text(self.fullname) }
    }
}

/// A copy of an optional text.
pub fn clone_option_text(t: &Option<String>) -> (r: Option<String>)
    ensures
        option_text(r) == option_text(*t),
{
    match t {
        Some(s) => Some(s.clone()),
        None => None,
    }
}

impl Clone for Material {
    fn clone(&self) -> (m: Material)
        ensures
            m@ == self@,
    {
        Material { name: self.name.clone(), fullname: clone_option_text(&self.fullname) }
    }
}

/// Mathematical model of a [`MaterialForm`].
pub struct MaterialFormView {
    pub name: Seq<char>,
    pub fullname: Seq<char>,
}

/// A submitted new material. An empty `fullname` means that there is none.
#[derive(Debug, PartialEq, Eq)]
pub struct MaterialForm {
    pub name: String,
    pub fullname: String,
}

impl View for MaterialForm {
    type V = MaterialFormView;

    open spec fn view(&self) -> MaterialFormView {
        MaterialFormView { name: self.name@, fullname: self.fullname@ }
    }
}

impl Material {
    /// The material that a submitted form describes. An empty full name is
    /// stored as absent.
    pub fn from_form(form: &MaterialForm) -> (m: Material)
        ensures
            m@ == MaterialView::submitted(form@.name, form@.fullname),
    {
        let fullname = if form.fullname.as_str().is_empty() {
            None
        } else {
            Some(form.fullname.clone())
        };
        Material { name: form.name.clone(), fullname }
    }
}

/// Mathematical model of a [`LogMaterial`].
pub struct LogMaterialView {
    pub slug: Seq<char>,
    pub name: Seq<char>,
    pub fullname: Option<Seq<char>>,
}

impl LogMaterialView {
    /// The quotation of `material`, found in the catalog under `slug`.
    pub open spec fn quoting(slug: Seq<char>, material: MaterialView) -> LogMaterialView {
        LogMaterialView { slug, name: material.name, fullname: material.fullname }
    }
}

/// A material as a log entry quotes it: the catalog's record together with
/// the slug it was found under.
#[derive(Debug, PartialEq, Eq)]
pub struct LogMaterial {
    pub slug: String,
    pub name: String,
    pub fullname: Option<String>,
}

impl View for LogMaterial {
    type V = LogMaterialView;

    open spec fn view(&self) -> LogMaterialView {
        LogMaterialView { slug: self.slug@, name: self.name@, fullname: option_text(self.fullname) }
    }
}

impl LogMaterial {
    /// Quotes `material`, found in the catalog under `slug`.
    pub fn quote(slug: &str, material: &Material) -> (q: LogMaterial)
        ensures
            q@ == LogMaterialView::quoting(slug@, material@),
    {
        LogMaterial {
            slug: slug.to_owned(),
            name: material.name.clone(),
            fullname: clone_option_text(&material.fullname),
        }
    }
}

} // verus!
