//! The material catalog: a mapping from slug to material.
//!
//! On disk the catalog is a sequence of stanzas, each filing one material
//! under one slug. In memory it is one coherent mapping in which every slug
//! occurs once, kept in the order of registration.

use vstd::prelude::*;
use crate::failure::Failure;
use crate::material::{Material, MaterialView};

verus! {

/// Mathematical model of one stanza: a slug and the material filed under it.
pub open spec fn stanza_view(stanza: (String, Material)) -> (Seq<char>, MaterialView) {
    (stanza.0@, stanza.1@)
}

/// Mathematical model of a sequence of stanzas.
pub open spec fn stanzas_view(stanzas: Seq<(String, Material)>) -> Seq<(Seq<char>, MaterialView)> {
    stanzas.map_values(|stanza: (String, Material)| stanza_view(stanza))
}

/// The mapping that a sequence of stanzas stands for: where a slug occurs
/// more than once, the last stanza wins.
pub open spec fn consolidate(stanzas: Seq<(Seq<char>, MaterialView)>) -> Map<
    Seq<char>,
    MaterialView,
>
    decreases stanzas.len(),
{
    if stanzas.len() == 0 {
        Map::empty()
    } else {
        consolidate(stanzas.drop_last()).insert(stanzas.last().0, stanzas.last().1)
    }
}

/// No slug occurs in two stanzas.
pub open spec fn distinct_slugs(stanzas: Seq<(Seq<char>, MaterialView)>) -> bool {
    forall|i: int, j: int|
        0 <= i < j < stanzas.len() ==> (#[trigger] stanzas[i]).0 != (#[trigger] stanzas[j]).0
}

/// The slugs of a sequence of stanzas, in order.
pub open spec fn slugs_of(stanzas: Seq<(Seq<char>, MaterialView)>) -> Seq<Seq<char>> {
    stanzas.map_values(|stanza: (Seq<char>, MaterialView)| stanza.0)
}

/// Whether registering under `slug` is accepted by a catalog holding
/// `catalog`.
pub open spec fn appended(catalog: Map<Seq<char>, MaterialView>, slug: Seq<char>) -> Result<
    (),
    Failure,
> {
    if catalog.contains_key(slug) {
        Err(Failure::SlugConflict)
    } else {
        Ok(())
    }
}

/// The catalog after an attempt to register `material` under `slug`.
pub open spec fn after_append(
    catalog: Map<Seq<char>, MaterialView>,
    material: MaterialView,
    slug: Seq<char>,
) -> Map<Seq<char>, MaterialView> {
    if catalog.contains_key(slug) {
        catalog
    } else {
        catalog.insert(slug, material)
    }
}

/// A slug is in the consolidated mapping exactly if some stanza files
/// something under it.
pub proof fn lemma_consolidate_domain(stanzas: Seq<(Seq<char>, MaterialView)>, slug: Seq<char>)
    ensures
        consolidate(stanzas).contains_key(slug) <==> exists|i: int|
            0 <= i < stanzas.len() && (#[trigger] stanzas[i]).0 == slug,
        consolidate(stanzas).dom().finite(),
    decreases stanzas.len(),
{
    if stanzas.len() > 0 {
        let front = stanzas.drop_last();
        lemma_consolidate_domain(front, slug);
        if consolidate(stanzas).contains_key(slug) {
            if stanzas.last().0 == slug {
                assert(stanzas[stanzas.len() - 1].0 == slug);
            } else {
                let i = choose|i: int| 0 <= i < front.len() && (#[trigger] front[i]).0 == slug;
                assert(stanzas[i].0 == slug);
            }
        }
        if exists|i: int| 0 <= i < stanzas.len() && (#[trigger] stanzas[i]).0 == slug {
            let i = choose|i: int| 0 <= i < stanzas.len() && (#[trigger] stanzas[i]).0 == slug;
            if i < front.len() {
                assert(front[i].0 == slug);
            }
        }
    }
}

/// Where no slug occurs twice, every stanza's material is the one that the
/// consolidated mapping holds under its slug.
pub proof fn lemma_consolidate_value(stanzas: Seq<(Seq<char>, MaterialView)>, i: int)
    requires
        distinct_slugs(stanzas),
        0 <= i < stanzas.len(),
    ensures
        consolidate(stanzas).contains_key(stanzas[i].0),
        consolidate(stanzas)[stanzas[i].0] == stanzas[i].1,
    decreases stanzas.len(),
{
    let front = stanzas.drop_last();
    if i < stanzas.len() - 1 {
        assert forall|a: int, b: int| 0 <= a < b < front.len() implies (#[trigger] front[a]).0 != (
        #[trigger] front[b]).0 by {
            assert(stanzas[a].0 != stanzas[b].0);
        }
        lemma_consolidate_value(front, i);
        assert(front[i] == stanzas[i]);
        assert(stanzas[i].0 != stanzas[stanzas.len() - 1].0);
    }
}

/// Filing one more stanza under a slug not yet present adds exactly that
/// stanza to the mapping.
proof fn lemma_push_stanza(
    stanzas: Seq<(Seq<char>, MaterialView)>,
    slug: Seq<char>,
    material: MaterialView,
)
    ensures
        consolidate(stanzas.push((slug, material))) == consolidate(stanzas).insert(slug, material),
{
    assert(stanzas.push((slug, material)).drop_last() =~= stanzas);
}

/// Replacing the material of the stanza at `i` replaces it in the mapping.
proof fn lemma_replace_stanza(
    stanzas: Seq<(Seq<char>, MaterialView)>,
    i: int,
    material: MaterialView,
)
    requires
        distinct_slugs(stanzas),
        0 <= i < stanzas.len(),
    ensures
        distinct_slugs(stanzas.update(i, (stanzas[i].0, material))),
        consolidate(stanzas.update(i, (stanzas[i].0, material))) == consolidate(stanzas).insert(
            stanzas[i].0,
            material,
        ),
{
    let slug = stanzas[i].0;
    let updated = stanzas.update(i, (slug, material));
    assert forall|a: int, b: int| 0 <= a < b < updated.len() implies (#[trigger] updated[a]).0 != (
    #[trigger] updated[b]).0 by {
        assert(stanzas[a].0 != stanzas[b].0);
    }
    let left = consolidate(updated);
    let right = consolidate(stanzas).insert(slug, material);
    assert forall|k: Seq<char>| left.contains_key(k) <==> right.contains_key(k) by {
        lemma_consolidate_domain(updated, k);
        lemma_consolidate_domain(stanzas, k);
        if left.contains_key(k) {
            let j = choose|j: int| 0 <= j < updated.len() && (#[trigger] updated[j]).0 == k;
            assert(stanzas[j].0 == k);
        }
        if right.contains_key(k) {
            if k == slug {
                assert(updated[i].0 == k);
            } else {
                let j = choose|j: int| 0 <= j < stanzas.len() && (#[trigger] stanzas[j]).0 == k;
                assert(updated[j].0 == k);
            }
        }
    }
    assert forall|k: Seq<char>| left.contains_key(k) implies left[k] == right[k] by {
        lemma_consolidate_domain(updated, k);
        let j = choose|j: int| 0 <= j < updated.len() && (#[trigger] updated[j]).0 == k;
        lemma_consolidate_value(updated, j);
        if j != i {
            assert(stanzas[j] == updated[j]);
            lemma_consolidate_value(stanzas, j);
        }
    }
    assert(left =~= right);
}

/// The material catalog.
#[derive(Debug)]
pub struct Catalog {
    stanzas: Vec<(String, Material)>,
}

impl View for Catalog {
    type V = Map<Seq<char>, MaterialView>;

    closed spec fn view(&self) -> Map<Seq<char>, MaterialView> {
        consolidate(self.model())
    }
}

impl Catalog {
    closed spec fn model(&self) -> Seq<(Seq<char>, MaterialView)> {
        stanzas_view(self.stanzas@)
    }

    #[verifier::type_invariant]
    spec fn inv(self) -> bool {
        distinct_slugs(self.model())
    }

    /// The catalog's slugs in the order in which they were registered.
    pub closed spec fn slugs(&self) -> Seq<Seq<char>> {
        slugs_of(self.model())
    }

    /// The slugs enumerate the mapping's domain, each once.
    pub open spec fn slugs_enumerate_domain(&self) -> bool {
        &&& self.slugs().no_duplicates()
        &&& forall|slug: Seq<char>| self@.contains_key(slug) <==> self.slugs().contains(slug)
    }

    proof fn lemma_slugs(&self)
        requires
            distinct_slugs(self.model()),
        ensures
            self.slugs_enumerate_domain(),
            self.slugs().len() == self.model().len(),
            forall|i: int|
                0 <= i < self.model().len() ==> self@.contains_key(#[trigger] self.slugs()[i])
                    && self@[self.slugs()[i]] == self.model()[i].1,
    {
        let model = self.model();
        let slugs = self.slugs();
        assert forall|i: int, j: int| 0 <= i < slugs.len() && 0 <= j < slugs.len() && i != j implies slugs[i]
            != slugs[j] by {
            if i < j {
                assert(model[i].0 != model[j].0);
            } else {
                assert(model[j].0 != model[i].0);
            }
        }
        assert forall|slug: Seq<char>| self@.contains_key(slug) <==> slugs.contains(slug) by {
            lemma_consolidate_domain(model, slug);
            if self@.contains_key(slug) {
                let i = choose|i: int| 0 <= i < model.len() && (#[trigger] model[i]).0 == slug;
                assert(slugs[i] == slug);
            }
            if slugs.contains(slug) {
                let i = choose|i: int| 0 <= i < slugs.len() && slugs[i] == slug;
                assert(model[i].0 == slug);
            }
        }
        assert forall|i: int| 0 <= i < model.len() implies self@.contains_key(#[trigger] slugs[i])
            && self@[slugs[i]] == model[i].1 by {
            lemma_consolidate_value(model, i);
        }
    }

    /// The empty catalog.
    pub fn new() -> (catalog: Catalog)
        ensures
            catalog@ == Map::<Seq<char>, MaterialView>::empty(),
            catalog.slugs() == Seq::<Seq<char>>::empty(),
    {
        let catalog = Catalog { stanzas: Vec::new() };
        assert(catalog.model() =~= Seq::empty());
        assert(catalog.slugs() =~= Seq::empty());
        catalog
    }

    /// The number of materials.
    pub fn len(&self) -> (n: usize)
        ensures
            n == self.slugs().len(),
            n == self@.dom().len(),
            self@.dom().finite(),
            self.slugs_enumerate_domain(),
    {
        proof {
            use_type_invariant(self);
            self.lemma_slugs();
            lemma_consolidate_domain(self.model(), Seq::empty());
            self.slugs().unique_seq_to_set();
            assert(self.slugs().to_set() =~= self@.dom());
        }
        self.stanzas.len()
    }

    /// The slug that was registered as the `i`-th.
    pub fn slug_at(&self, i: usize) -> (slug: &String)
        requires
            i < self.slugs().len(),
        ensures
            slug@ == self.slugs()[i as int],
            self@.contains_key(slug@),
    {
        proof {
            use_type_invariant(self);
            self.lemma_slugs();
        }
        &self.stanzas[i].0
    }

    /// The material that was registered as the `i`-th.
    pub fn material_at(&self, i: usize) -> (material: &Material)
        requires
            i < self.slugs().len(),
        ensures
            self@.contains_key(self.slugs()[i as int]),
            material@ == self@[self.slugs()[i as int]],
    {
        proof {
            use_type_invariant(self);
            self.lemma_slugs();
        }
        &self.stanzas[i].1
    }

    fn position(&self, slug: &String) -> (found: Option<usize>)
        ensures
            match found {
                Some(i) => i < self.model().len() && self.model()[i as int].0 == slug@,
                None => forall|i: int| 0 <= i < self.model().len() ==> (#[trigger] self.model()[i]).0 != slug@,
            },
    {
        let mut i: usize = 0;
        while i < self.stanzas.len()
            invariant
                i <= self.stanzas.len(),
                self.model().len() == self.stanzas.len(),
                forall|j: int| 0 <= j < i ==> (#[trigger] self.model()[j]).0 != slug@,
            decreases self.stanzas.len() - i,
        {
            if self.stanzas[i].0 == *slug {
                return Some(i);
            }
            i += 1;
        }
        None
    }

    /// Whether a material is filed under `slug`.
    pub fn contains(&self, slug: &str) -> (present: bool)
        ensures
            present == self@.contains_key(slug@),
    {
        self.get(slug).is_some()
    }

    /// The material filed under `slug`, if there is one.
    pub fn get(&self, slug: &str) -> (found: Option<&Material>)
        ensures
            match found {
                Some(material) => self@.contains_key(slug@) && material@ == self@[slug@],
                None => !self@.contains_key(slug@),
            },
    {
        let key = slug.to_owned();
        proof {
            use_type_invariant(self);
            lemma_consolidate_domain(self.model(), slug@);
        }
        match self.position(&key) {
            Some(i) => {
                proof {
                    lemma_consolidate_value(self.model(), i as int);
                }
                Some(&self.stanzas[i].1)
            },
            None => None,
        }
    }

    /// Files `material` under `slug`, replacing what was filed there.
    fn put(&mut self, material: Material, slug: String)
        ensures
            final(self)@ == old(self)@.insert(slug@, material@),
            final(self).slugs() == if old(self)@.contains_key(slug@) {
                old(self).slugs()
            } else {
                old(self).slugs().push(slug@)
            },
    {
        proof {
            use_type_invariant(&*self);
            lemma_consolidate_domain(self.model(), slug@);
        }
        let ghost before = self.model();
        let found = self.position(&slug);
        let mut stanzas: Vec<(String, Material)> = Vec::new();
        std::mem::swap(&mut self.stanzas, &mut stanzas);
        match found {
            Some(i) => {
                proof {
                    lemma_replace_stanza(before, i as int, material@);
                }
                stanzas.set(i, (slug, material));
                assert(stanzas_view(stanzas@) =~= before.update(i as int, (slug@, material@)));
            },
            None => {
                proof {
                    lemma_push_stanza(before, slug@, material@);
                }
                stanzas.push((slug, material));
                assert(stanzas_view(stanzas@) =~= before.push((slug@, material@)));
                assert forall|a: int, b: int|
                    0 <= a < b < before.len() + 1 implies (#[trigger] before.push(
                    (slug@, material@),
                )[a]).0 != (#[trigger] before.push((slug@, material@))[b]).0 by {
                    if b < before.len() {
                        assert(before[a].0 != before[b].0);
                    } else {
                        assert(before[a].0 != slug@);
                    }
                }
            },
        }
        self.stanzas = stanzas;
        proof {
            if found is Some {
                assert(self.slugs() =~= slugs_of(before));
            } else {
                assert(self.slugs() =~= slugs_of(before).push(slug@));
            }
        }
    }

    /// Registers `material` under `slug`. A slug that is already taken is a
    /// conflict: the catalog stays as it is, and the caller is told.
    pub fn append_material(&mut self, material: Material, slug: String) -> (outcome: Result<
        (),
        Failure,
    >)
        ensures
            outcome == appended(old(self)@, slug@),
            final(self)@ == after_append(old(self)@, material@, slug@),
            final(self).slugs() == if old(self)@.contains_key(slug@) {
                old(self).slugs()
            } else {
                old(self).slugs().push(slug@)
            },
    {
        if self.contains(slug.as_str()) {
            Err(Failure::SlugConflict)
        } else {
            self.put(material, slug);
            Ok(())
        }
    }

    /// The catalog as stanzas, one for each material, in the order of
    /// registration. Consolidating them gives the catalog back.
    pub fn to_stanzas(&self) -> (stanzas: Vec<(String, Material)>)
        ensures
            distinct_slugs(stanzas_view(stanzas@)),
            slugs_of(stanzas_view(stanzas@)) == self.slugs(),
            consolidate(stanzas_view(stanzas@)) == self@,
    {
        proof {
            use_type_invariant(self);
        }
        let mut stanzas: Vec<(String, Material)> = Vec::new();
        let mut i: usize = 0;
        while i < self.stanzas.len()
            invariant
                i <= self.stanzas.len(),
                stanzas.len() == i,
                self.model().len() == self.stanzas.len(),
                stanzas_view(stanzas@) == self.model().take(i as int),
            decreases self.stanzas.len() - i,
        {
            let slug = self.stanzas[i].0.clone();
            let material = self.stanzas[i].1.clone();
            let ghost copied = stanzas_view(stanzas@);
            stanzas.push((slug, material));
            assert forall|j: int| 0 <= j < i + 1 implies stanzas_view(stanzas@)[j]
                == self.model().take(i + 1)[j] by {
                if j < i {
                    assert(stanzas_view(stanzas@)[j] == copied[j]);
                    assert(copied[j] == self.model().take(i as int)[j]);
                }
            }
            assert(stanzas_view(stanzas@) =~= self.model().take(i + 1));
            i += 1;
        }
        assert(self.model().take(i as int) =~= self.model());
        stanzas
    }

    /// The catalog that a file's stanzas stand for. Where a slug occurs more
    /// than once, the last stanza wins.
    pub fn from_stanzas(stanzas: &Vec<(String, Material)>) -> (catalog: Catalog)
        ensures
            catalog@ == consolidate(stanzas_view(stanzas@)),
    {
        let mut catalog = Catalog::new();
        let mut i: usize = 0;
        while i < stanzas.len()
            invariant
                i <= stanzas.len(),
                catalog@ == consolidate(stanzas_view(stanzas@).take(i as int)),
            decreases stanzas.len() - i,
        {
            let slug = stanzas[i].0.clone();
            let material = stanzas[i].1.clone();
            proof {
                let all = stanzas_view(stanzas@);
                assert(all.take(i + 1).drop_last() =~= all.take(i as int));
                assert(all.take(i + 1).last() == (slug@, material@));
            }
            catalog.put(material, slug);
            i += 1;
        }
        assert(stanzas_view(stanzas@).take(i as int) =~= stanzas_view(stanzas@));
        catalog
    }
}

} // verus!
