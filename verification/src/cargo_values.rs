//! Default values and copies of the values of the publication pipeline.
//!
//! A default value is empty: texts and lists hold nothing, options are
//! absent, flags are off. A copy holds the same data as what it was made of.

use crate::cargo::{
    badge_data, clone_features, clone_opt_string, clone_strings, CrateMetadata,
    CrateMetadataDependency, CrateUploadResult, CrateUploadWarnings, DeclaredDependency,
    DependencyKind, IndexCrateDependency, IndexCrateMetadata, IndexRecord, IndexedDependency,
    PublishedMetadata, YesNoMsgResult, YesNoResult,
};
use crate::json::{Json, JsonData};
use crate::string_map::{lemma_same_names, StringMap};
use vstd::prelude::*;

verus! {

impl Default for YesNoResult {
    /// By default the answer is no.
    fn default() -> (result: YesNoResult)
        ensures
            !result.ok,
    {
        YesNoResult { ok: false }
    }
}

impl Clone for YesNoResult {
    fn clone(&self) -> (copy: YesNoResult)
        ensures
            copy.ok == self.ok,
    {
        YesNoResult { ok: self.ok }
    }
}

impl Default for YesNoMsgResult {
    /// By default the answer is no, without a message.
    fn default() -> (result: YesNoMsgResult)
        ensures
            !result.ok,
            result.msg@.len() == 0,
    {
        YesNoMsgResult { ok: false, msg: String::new() }
    }
}

impl Clone for YesNoMsgResult {
    fn clone(&self) -> (copy: YesNoMsgResult)
        ensures
            copy.ok == self.ok,
            copy.msg == self.msg,
    {
        YesNoMsgResult { ok: self.ok, msg: self.msg.clone() }
    }
}

impl Default for CrateUploadWarnings {
    /// By default there is no warning.
    fn default() -> (warnings: CrateUploadWarnings)
        ensures
            warnings.invalid_categories@.len() == 0,
            warnings.invalid_badges@.len() == 0,
            warnings.other@.len() == 0,
    {
        CrateUploadWarnings {
            invalid_categories: Vec::new(),
            invalid_badges: Vec::new(),
            other: Vec::new(),
        }
    }
}

impl Clone for CrateUploadWarnings {
    fn clone(&self) -> (copy: CrateUploadWarnings)
        ensures
            copy.invalid_categories@ == self.invalid_categories@,
            copy.invalid_badges@ == self.invalid_badges@,
            copy.other@ == self.other@,
    {
        CrateUploadWarnings {
            invalid_categories: clone_strings(&self.invalid_categories),
            invalid_badges: clone_strings(&self.invalid_badges),
            other: clone_strings(&self.other),
        }
    }
}

impl Clone for CrateUploadResult {
    fn clone(&self) -> (copy: CrateUploadResult)
        ensures
            copy.warnings.invalid_categories@ == self.warnings.invalid_categories@,
            copy.warnings.invalid_badges@ == self.warnings.invalid_badges@,
            copy.warnings.other@ == self.warnings.other@,
    {
        CrateUploadResult { warnings: self.warnings.clone() }
    }
}

/// The declared dependency that holds nothing: a normal dependency without
/// a name, on every target, that is not optional.
pub open spec fn no_declared_dependency() -> DeclaredDependency {
    DeclaredDependency {
        name: Seq::empty(),
        version_req: Seq::empty(),
        features: Seq::empty(),
        optional: false,
        default_features: false,
        target: None,
        kind: DependencyKind::Normal,
        registry: None,
        explicit_name_in_toml: None,
    }
}

impl Default for CrateMetadataDependency {
    fn default() -> (dep: CrateMetadataDependency)
        ensures
            dep@ == no_declared_dependency(),
    {
        let dep = CrateMetadataDependency {
            name: String::new(),
            version_req: String::new(),
            features: Vec::new(),
            optional: false,
            default_features: false,
            target: None,
            kind: DependencyKind::Normal,
            registry: None,
            explicit_name_in_toml: None,
        };
        assert(dep@.features =~= Seq::<Seq<char>>::empty());
        dep
    }
}

impl Clone for CrateMetadataDependency {
    fn clone(&self) -> (copy: CrateMetadataDependency)
        ensures
            copy@ == self@,
    {
        CrateMetadataDependency {
            name: self.name.clone(),
            version_req: self.version_req.clone(),
            features: clone_strings(&self.features),
            optional: self.optional,
            default_features: self.default_features,
            target: clone_opt_string(&self.target),
            kind: self.kind,
            registry: clone_opt_string(&self.registry),
            explicit_name_in_toml: clone_opt_string(&self.explicit_name_in_toml),
        }
    }
}

/// The index dependency that holds nothing.
pub open spec fn no_indexed_dependency() -> IndexedDependency {
    IndexedDependency {
        name: Seq::empty(),
        req: Seq::empty(),
        features: Seq::empty(),
        optional: false,
        default_features: false,
        target: None,
        kind: DependencyKind::Normal,
        registry: None,
        package: None,
    }
}

impl Default for IndexCrateDependency {
    fn default() -> (dep: IndexCrateDependency)
        ensures
            dep@ == no_indexed_dependency(),
    {
        let dep = IndexCrateDependency {
            name: String::new(),
            req: String::new(),
            features: Vec::new(),
            optional: false,
            default_features: false,
            target: None,
            kind: DependencyKind::Normal,
            registry: None,
            package: None,
        };
        assert(dep@.features =~= Seq::<Seq<char>>::empty());
        dep
    }
}

impl Clone for IndexCrateDependency {
    fn clone(&self) -> (copy: IndexCrateDependency)
        ensures
            copy@ == self@,
    {
        IndexCrateDependency {
            name: self.name.clone(),
            req: self.req.clone(),
            features: clone_strings(&self.features),
            optional: self.optional,
            default_features: self.default_features,
            target: clone_opt_string(&self.target),
            kind: self.kind,
            registry: clone_opt_string(&self.registry),
            package: clone_opt_string(&self.package),
        }
    }
}

/// A copy of a list of badges, entry by entry.
pub fn clone_badges(badges: &StringMap<Json>) -> (copy: StringMap<Json>)
    ensures
        badge_data(copy@) == badge_data(badges@),
{
    let copy = badges.clone();
    proof {
        let a = badges.entries();
        let b = copy.entries();
        lemma_same_names(a, b);
        let x = badge_data(badges@);
        let y = badge_data(copy@);
        assert forall|k: Seq<char>| x.contains_key(k) implies #[trigger] y[k] == x[k] by {
            let i = crate::string_map::position_of(a, k);
            assert(cloned(a[i].1, b[i].1));
            assert(b[i].1@ == a[i].1@);
        }
        assert(x =~= y);
    }
    copy
}

/// The metadata that holds nothing.
pub open spec fn no_metadata() -> PublishedMetadata {
    PublishedMetadata {
        name: Seq::empty(),
        vers: Seq::empty(),
        deps: Seq::empty(),
        features: Map::empty(),
        authors: Seq::empty(),
        description: None,
        documentation: None,
        homepage: None,
        readme: None,
        readme_file: None,
        keywords: Seq::empty(),
        categories: Seq::empty(),
        license: None,
        license_file: None,
        repository: None,
        badges: Map::empty(),
        links: None,
        rust_version: None,
    }
}

impl Default for CrateMetadata {
    fn default() -> (metadata: CrateMetadata)
        ensures
            metadata@ == no_metadata(),
    {
        let metadata = CrateMetadata {
            name: String::new(),
            vers: String::new(),
            deps: Vec::new(),
            features: StringMap::new(),
            authors: Vec::new(),
            description: None,
            documentation: None,
            homepage: None,
            readme: None,
            readme_file: None,
            keywords: Vec::new(),
            categories: Vec::new(),
            license: None,
            license_file: None,
            repository: None,
            badges: StringMap::new(),
            links: None,
            rust_version: None,
        };
        proof {
            assert(metadata@.deps =~= Seq::<DeclaredDependency>::empty());
            assert(metadata@.features =~= Map::<Seq<char>, Seq<Seq<char>>>::empty());
            assert(metadata@.authors =~= Seq::<Seq<char>>::empty());
            assert(metadata@.keywords =~= Seq::<Seq<char>>::empty());
            assert(metadata@.categories =~= Seq::<Seq<char>>::empty());
            assert(metadata@.badges =~= Map::<Seq<char>, JsonData>::empty());
        }
        metadata
    }
}

impl Clone for CrateMetadata {
    fn clone(&self) -> (copy: CrateMetadata)
        ensures
            copy@ == self@,
    {
        let deps = self.deps.clone();
        assert forall|j: int| 0 <= j < deps@.len() implies (#[trigger] deps@[j])@
            == self.deps@[j]@ by {
            assert(cloned(self.deps@[j], deps@[j]));
        }
        let copy = CrateMetadata {
            name: self.name.clone(),
            vers: self.vers.clone(),
            deps,
            features: clone_features(&self.features),
            authors: clone_strings(&self.authors),
            description: clone_opt_string(&self.description),
            documentation: clone_opt_string(&self.documentation),
            homepage: clone_opt_string(&self.homepage),
            readme: clone_opt_string(&self.readme),
            readme_file: clone_opt_string(&self.readme_file),
            keywords: clone_strings(&self.keywords),
            categories: clone_strings(&self.categories),
            license: clone_opt_string(&self.license),
            license_file: clone_opt_string(&self.license_file),
            repository: clone_opt_string(&self.repository),
            badges: clone_badges(&self.badges),
            links: clone_opt_string(&self.links),
            rust_version: clone_opt_string(&self.rust_version),
        };
        assert(copy@.deps =~= self@.deps);
        copy
    }
}

/// The index record that holds nothing: no schema version, no extended
/// features, not yanked.
pub open spec fn no_index_record() -> IndexRecord {
    IndexRecord {
        name: Seq::empty(),
        vers: Seq::empty(),
        deps: Seq::empty(),
        cksum: Seq::empty(),
        features: Map::empty(),
        yanked: false,
        links: None,
        v: None,
        features2: None,
        rust_version: None,
    }
}

impl Default for IndexCrateMetadata {
    fn default() -> (record: IndexCrateMetadata)
        ensures
            record@ == no_index_record(),
    {
        let record = IndexCrateMetadata {
            name: String::new(),
            vers: String::new(),
            deps: Vec::new(),
            cksum: String::new(),
            features: StringMap::new(),
            yanked: false,
            links: None,
            v: None,
            features2: None,
            rust_version: None,
        };
        proof {
            assert(record@.deps =~= Seq::<IndexedDependency>::empty());
            assert(record@.features =~= Map::<Seq<char>, Seq<Seq<char>>>::empty());
        }
        record
    }
}

impl Clone for IndexCrateMetadata {
    fn clone(&self) -> (copy: IndexCrateMetadata)
        ensures
            copy@ == self@,
    {
        let deps = self.deps.clone();
        assert forall|j: int| 0 <= j < deps@.len() implies (#[trigger] deps@[j])@
            == self.deps@[j]@ by {
            assert(cloned(self.deps@[j], deps@[j]));
        }
        let features2 = match &self.features2 {
            Some(extended) => Some(clone_features(extended)),
            None => None,
        };
        let copy = IndexCrateMetadata {
            name: self.name.clone(),
            vers: self.vers.clone(),
            deps,
            cksum: self.cksum.clone(),
            features: clone_features(&self.features),
            yanked: self.yanked,
            links: clone_opt_string(&self.links),
            v: self.v,
            features2,
            rust_version: clone_opt_string(&self.rust_version),
        };
        assert(copy@.deps =~= self@.deps);
        copy
    }
}

} // verus!
