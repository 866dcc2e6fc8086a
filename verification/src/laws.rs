//! Laws that relate the operations of this crate to one another.

use vstd::prelude::*;
use crate::entry::EntryFormView;
use crate::failure::Failure;
use crate::login::LoginView;
use crate::material::{MaterialFormView, MaterialView};
use crate::routes::{entry_plan, material_plan, PlanView, WriteView};
use crate::slug::slug_text;
use crate::store::{loaded, CatalogFile};

verus! {

/// Unlocking leaves the station unlocked with the given user as the current
/// one; locking leaves it locked with no current user. Both are states in
/// which a locked station remembers nobody.
pub proof fn lemma_unlock_then_lock(username: Seq<char>)
    ensures
        LoginView::unlocked_by(username).unlocked,
        LoginView::unlocked_by(username).user == username,
        LoginView::unlocked_by(username).consistent(),
        !LoginView::locked().unlocked,
        LoginView::locked().user.len() == 0,
        LoginView::locked().consistent(),
{
}

/// A missing catalog file is an empty catalog, never an error.
pub proof fn lemma_missing_file_is_empty_catalog()
    ensures
        loaded(CatalogFile::Absent) == Ok::<Map<Seq<char>, MaterialView>, Failure>(Map::empty()),
{
}

/// A registered material is found again. If a submitted material was
/// accepted, and the catalog file then holds what was written, the reloaded
/// catalog files that material under the slug of its name, with a full name
/// exactly if the submitted one was not empty.
pub proof fn lemma_registered_material_is_reloaded(
    before: CatalogFile,
    form: MaterialFormView,
    after: CatalogFile,
)
    requires
        material_plan(before, form, slug_text(form.name)).write matches Some(
            WriteView::Catalog(written),
        ) && loaded(after) == Ok::<Map<Seq<char>, MaterialView>, Failure>(written),
    ensures
        loaded(after) matches Ok(reloaded) && reloaded.contains_key(slug_text(form.name)) && (
        reloaded[slug_text(form.name)] == MaterialView {
            name: form.name,
            fullname: if form.fullname.len() == 0 {
                None
            } else {
                Some(form.fullname)
            },
        }),
{
}

/// An entry is written only for a material that the catalog holds. Where
/// the catalog loads and lacks the material, the submission is rejected as
/// naming an unknown material; and a rejected submission writes nothing to
/// the log.
pub proof fn lemma_unknown_material_is_not_logged(
    file: CatalogFile,
    form: EntryFormView,
    rendered: Option<Seq<char>>,
    key: Seq<char>,
)
    ensures
        loaded(file) matches Ok(catalog) && !catalog.contains_key(form.material) ==> entry_plan(
            file,
            form,
            rendered,
            key,
        ) == PlanView::rejected(Failure::UnknownMaterial),
        entry_plan(file, form, rendered, key).write is Some ==> (loaded(file) matches Ok(catalog)
            && catalog.contains_key(form.material)),
        entry_plan(file, form, rendered, key).reply is Failed ==> entry_plan(
            file,
            form,
            rendered,
            key,
        ).write is None,
{
}

/// Colliding names do not overwrite one another in silence. If a first
/// material was accepted, and the catalog file then holds what was written,
/// a second material whose name has the same slug is rejected as a
/// conflict, and the first stays in the catalog.
pub proof fn lemma_colliding_names_conflict(
    before: CatalogFile,
    first: MaterialFormView,
    between: CatalogFile,
    second: MaterialFormView,
)
    requires
        slug_text(first.name) == slug_text(second.name),
        material_plan(before, first, slug_text(first.name)).write matches Some(
            WriteView::Catalog(written),
        ) && loaded(between) == Ok::<Map<Seq<char>, MaterialView>, Failure>(written),
    ensures
        material_plan(between, second, slug_text(second.name)) == PlanView::rejected(
            Failure::SlugConflict,
        ),
        loaded(between) matches Ok(catalog) && catalog[slug_text(first.name)]
            == MaterialView::submitted(first.name, first.fullname),
{
}

/// A submitted material is answered by a redirect exactly if the catalog
/// was written: no failure, in deciding or in writing, ends in a redirect.
pub proof fn lemma_material_redirects_only_when_written(
    file: CatalogFile,
    form: MaterialFormView,
    slug: Seq<char>,
    written: bool,
)
    ensures
        material_plan(file, form, slug).settled(written) is Redirect <==> material_plan(
            file,
            form,
            slug,
        ).write is Some && written,
        !(material_plan(file, form, slug).settled(written) is Redirect) ==> material_plan(
            file,
            form,
            slug,
        ).settled(written) is Failed,
{
}

/// A submitted entry is answered by a redirect exactly if its record was
/// appended to the log: no failure, in deciding or in writing, ends in a
/// redirect.
pub proof fn lemma_entry_redirects_only_when_written(
    file: CatalogFile,
    form: EntryFormView,
    rendered: Option<Seq<char>>,
    key: Seq<char>,
    written: bool,
)
    ensures
        entry_plan(file, form, rendered, key).settled(written) is Redirect <==> entry_plan(
            file,
            form,
            rendered,
            key,
        ).write is Some && written,
        !(entry_plan(file, form, rendered, key).settled(written) is Redirect) ==> entry_plan(
            file,
            form,
            rendered,
            key,
        ).settled(written) is Failed,
{
}

} // verus!
