//! Model discovery.
//!
//! A usable model is a weight file whose same-stem descriptor file
//! lies beside it; models marked as video models are left out.  This
//! module turns one directory's scan results into models; walking the
//! disk itself stays behind two small trusted calls.

use vstd::prelude::*;
use crate::options::Model;
use crate::paths;

verus! {

/// One weight file found in a scanned directory, and whether its
/// same-stem descriptor file exists beside it.
#[derive(Debug, Clone)]
pub struct ScanEntry {
    pub path: String,
    pub has_param: bool,
}

/// An entry that yields a model: its descriptor file exists and its
/// stem is not marked as a video model.
pub open spec fn entry_valid(e: ScanEntry) -> bool {
    &&& e.has_param
    &&& !paths::spec_contains(paths::file_stem_of(paths::file_name_of(e.path@)), "video"@)
}

/// The model built from the entry `e` found in `folder`.
pub open spec fn model_for(folder: Seq<char>, e: ScanEntry, m: Model) -> bool {
    &&& m.path@ == e.path@
    &&& m.folder@ == folder
    &&& m.name@ == paths::file_stem_of(paths::file_name_of(e.path@))
}

/// `models` is exactly what scanning `entries` in `folder` yields, in
/// order.
pub open spec fn catalog_matches(folder: Seq<char>, entries: Seq<ScanEntry>, models: Seq<Model>) -> bool
    decreases entries.len(),
{
    if entries.len() == 0 {
        models.len() == 0
    } else if entry_valid(entries[0]) {
        models.len() > 0 && model_for(folder, entries[0], models[0]) && catalog_matches(
            folder,
            entries.skip(1),
            models.skip(1),
        )
    } else {
        catalog_matches(folder, entries.skip(1), models)
    }
}

/// How many entries of `entries` yield a model.
pub open spec fn valid_count(entries: Seq<ScanEntry>) -> int
    decreases entries.len(),
{
    if entries.len() == 0 {
        0
    } else {
        (if entry_valid(entries[0]) {
            1int
        } else {
            0int
        }) + valid_count(entries.skip(1))
    }
}

/// Discovery yields exactly one model per valid entry, each named
/// after the stem of its weight file and carrying the scanned folder:
/// weight-only or video-marked entries contribute nothing.
pub proof fn lemma_catalog_counts(folder: Seq<char>, entries: Seq<ScanEntry>, models: Seq<Model>)
    requires
        catalog_matches(folder, entries, models),
    ensures
        models.len() == valid_count(entries),
        forall|j: int| 0 <= j < models.len() ==> (#[trigger] models[j]).wf(),
        forall|j: int| 0 <= j < models.len() ==> (#[trigger] models[j]).folder@ == folder,
    decreases entries.len(),
{
    if entries.len() == 0 {
    } else if entry_valid(entries[0]) {
        lemma_catalog_counts(folder, entries.skip(1), models.skip(1));
        assert forall|j: int| 0 <= j < models.len() implies (#[trigger] models[j]).wf()
            && models[j].folder@ == folder by {
            if j > 0 {
                assert(models[j] == models.skip(1)[j - 1]);
            }
        }
    } else {
        lemma_catalog_counts(folder, entries.skip(1), models);
    }
}

proof fn lemma_catalog_step(
    folder: Seq<char>,
    entries: Seq<ScanEntry>,
    models: Seq<Model>,
    e: ScanEntry,
    m: Option<Model>,
)
    requires
        catalog_matches(folder, entries, models),
        match m {
            Some(x) => entry_valid(e) && model_for(folder, e, x),
            None => !entry_valid(e),
        },
    ensures
        match m {
            Some(x) => catalog_matches(folder, entries.push(e), models.push(x)),
            None => catalog_matches(folder, entries.push(e), models),
        },
    decreases entries.len(),
{
    let entries2 = entries.push(e);
    if entries.len() == 0 {
        assert(entries =~= Seq::<ScanEntry>::empty());
        assert(models =~= Seq::<Model>::empty());
        assert(entries2[0] == e);
        assert(entries2.skip(1) =~= Seq::<ScanEntry>::empty());
        assert(catalog_matches(folder, Seq::<ScanEntry>::empty(), Seq::<Model>::empty()));
        match m {
            Some(x) => {
                assert(models.push(x)[0] == x);
                assert(models.push(x).skip(1) =~= Seq::<Model>::empty());
            },
            None => {},
        }
    } else {
        assert(entries2[0] == entries[0]);
        assert(entries2.skip(1) =~= entries.skip(1).push(e));
        if entry_valid(entries[0]) {
            lemma_catalog_step(folder, entries.skip(1), models.skip(1), e, m);
            match m {
                Some(x) => {
                    assert(models.push(x)[0] == models[0]);
                    assert(models.push(x).skip(1) =~= models.skip(1).push(x));
                },
                None => {},
            }
        } else {
            lemma_catalog_step(folder, entries.skip(1), models, e, m);
        }
    }
}

/// Turns one directory's scan results into models, in scan order.
pub fn models_from_entries(folder: &str, entries: &Vec<ScanEntry>) -> (models: Vec<Model>)
    ensures
        catalog_matches(folder@, entries@, models@),
{
    let mut models: Vec<Model> = Vec::new();
    let mut i: usize = 0;
    proof {
        assert(entries@.subrange(0, 0) =~= Seq::<ScanEntry>::empty());
    }
    while i < entries.len()
        invariant
            i <= entries@.len(),
            catalog_matches(folder@, entries@.subrange(0, i as int), models@),
        decreases entries@.len() - i,
    {
        let entry = &entries[i];
        proof {
            assert(entries@.subrange(0, i + 1 as int) =~= entries@.subrange(0, i as int).push(
                entries@[i as int],
            ));
        }
        let name = paths::file_name(entry.path.as_str());
        let stem = paths::file_stem(name.as_str());
        if entry.has_param && !paths::contains_sub(stem.as_str(), "video") {
            let m = Model {
                path: entry.path.clone(),
                folder: folder.to_owned(),
                name: stem,
            };
            proof {
                lemma_catalog_step(
                    folder@,
                    entries@.subrange(0, i as int),
                    models@,
                    entries@[i as int],
                    Some(m),
                );
            }
            models.push(m);
        } else {
            proof {
                lemma_catalog_step(
                    folder@,
                    entries@.subrange(0, i as int),
                    models@,
                    entries@[i as int],
                    None,
                );
            }
        }
        i = i + 1;
    }
    proof {
        assert(entries@.subrange(0, entries@.len() as int) =~= entries@);
    }
    models
}

/// Relies on `glob::glob`: every path on disk that matches the
/// pattern, converted to a string.  Aborts when the pattern cannot be
/// parsed or an entry cannot be read, as catalog scanning treats both
/// as fatal.
#[verifier::external_body]
pub(crate) fn glob_paths(pattern: &str) -> Vec<String> {
    let mut out: Vec<String> = Vec::new();
    for entry in glob::glob(pattern).unwrap() {
        let p = entry.expect("Error while getting models");
        out.push(p.to_string_lossy().to_string());
    }
    out
}

} // verus!
