//! Which dependencies of an index record are active, for given targets and
//! enabled features.
//!
//! A target written as a `cfg(..)` expression is never active: such
//! expressions are not evaluated.

use crate::cargo::{resolved_name, texts, IndexCrateDependency, IndexedDependency};
use crate::text::{chars_of, find_from, first_index_of, has_part_at, lemma_first_index_of,
    lemma_first_index_unique, same_chars};
use vstd::prelude::*;

verus! {

/// How a target that is a `cfg` expression begins.
pub open spec fn cfg_prefix() -> Seq<char> {
    "cfg("@
}

/// How a feature that names a dependency begins.
pub open spec fn dep_prefix() -> Seq<char> {
    "dep:"@
}

/// The texts of a list of string slices.
pub open spec fn str_texts(list: Seq<&str>) -> Seq<Seq<char>> {
    Seq::new(list.len(), |i: int| list[i]@)
}

/// Whether `target` is written as a `cfg` expression.
pub open spec fn is_cfg_target(target: Seq<char>) -> bool {
    cfg_prefix().len() <= target.len() && target.subrange(0, cfg_prefix().len() as int)
        == cfg_prefix()
}

/// The target filter. A dependency without a target passes; one with a plain
/// target passes where that target is among the active ones; one with a `cfg`
/// expression does not pass.
pub open spec fn target_allows(target: Option<Seq<char>>, active_targets: Seq<Seq<char>>) -> bool {
    match target {
        None => true,
        Some(t) => !is_cfg_target(t) && active_targets.contains(t),
    }
}

/// Whether `feature` is `dep:` followed by `name`.
pub open spec fn names_dependency(feature: Seq<char>, name: Seq<char>) -> bool {
    feature == dep_prefix() + name
}

/// Whether `feature` holds a `/` and what stands before its first `/` is
/// `name`.
pub open spec fn enables_feature_of(feature: Seq<char>, name: Seq<char>) -> bool {
    let slash = first_index_of(feature, '/');
    slash < feature.len() && feature.take(slash) == name
}

/// Whether `feature` activates the optional dependency on the package `name`.
pub open spec fn activates(feature: Seq<char>, name: Seq<char>) -> bool {
    names_dependency(feature, name) || enables_feature_of(feature, name)
}

/// Whether a dependency is active. It must pass the target filter; then it is
/// active if it is not optional, or if one of the active features activates
/// it under its resolved name.
pub open spec fn is_active(
    dep: IndexedDependency,
    active_targets: Seq<Seq<char>>,
    active_features: Seq<Seq<char>>,
) -> bool {
    target_allows(dep.target, active_targets) && (!dep.optional || exists|i: int|
        0 <= i < active_features.len() && activates(
            #[trigger] active_features[i],
            resolved_name(dep),
        ))
}

/// Whether `feature` is `name`, a `/`, and anything after it.
pub open spec fn has_form_name_slash(feature: Seq<char>, name: Seq<char>) -> bool {
    name.len() < feature.len() && feature.take(name.len() as int) == name
        && feature[name.len() as int] == '/'
}

/// A dependency that is not optional and has no target is active, whatever
/// the targets and features.
pub proof fn lemma_required_dependency_is_active(
    dep: IndexedDependency,
    active_targets: Seq<Seq<char>>,
    active_features: Seq<Seq<char>>,
)
    requires
        !dep.optional,
        dep.target is None,
    ensures
        is_active(dep, active_targets, active_features),
{
}

/// A dependency whose target does not pass the filter is inactive, whatever
/// the features: so is one with a plain target that is not among the active
/// targets, and one with a `cfg` expression.
pub proof fn lemma_target_filter_comes_first(
    dep: IndexedDependency,
    active_targets: Seq<Seq<char>>,
    active_features: Seq<Seq<char>>,
)
    requires
        dep.target matches Some(t) && (is_cfg_target(t) || !active_targets.contains(t)),
    ensures
        !is_active(dep, active_targets, active_features),
{
}

/// For a name without `/`, a feature enables a feature of `name` exactly when
/// it is `name`, a `/`, and anything after it.
pub proof fn lemma_enables_iff_form(feature: Seq<char>, name: Seq<char>)
    requires
        !name.contains('/'),
    ensures
        enables_feature_of(feature, name) <==> has_form_name_slash(feature, name),
{
    lemma_first_index_of(feature, '/');
    let slash = first_index_of(feature, '/');
    if has_form_name_slash(feature, name) {
        let n = name.len() as int;
        assert forall|j: int| 0 <= j < n implies feature[j] != '/' by {
            assert(feature.take(n)[j] == name[j]);
            if feature[j] == '/' {
                assert(name.contains('/'));
            }
        }
        lemma_first_index_unique(feature, '/', n);
    }
    if enables_feature_of(feature, name) {
        assert(feature.take(slash).len() == slash);
    }
}

/// An optional dependency that passes the target filter, on a package whose
/// name holds no `/`, is active exactly when some active feature is `dep:`
/// followed by the resolved name, or the resolved name followed by `/` and
/// anything.
pub proof fn lemma_optional_dependency_activation(
    dep: IndexedDependency,
    active_targets: Seq<Seq<char>>,
    active_features: Seq<Seq<char>>,
)
    requires
        dep.optional,
        target_allows(dep.target, active_targets),
        !resolved_name(dep).contains('/'),
    ensures
        is_active(dep, active_targets, active_features) <==> exists|i: int|
            0 <= i < active_features.len() && (#[trigger] active_features[i] == dep_prefix()
                + resolved_name(dep) || has_form_name_slash(
                active_features[i],
                resolved_name(dep),
            )),
{
    let name = resolved_name(dep);
    assert forall|i: int| 0 <= i < active_features.len() implies (activates(
        #[trigger] active_features[i],
        name,
    ) <==> (active_features[i] == dep_prefix() + name || has_form_name_slash(
        active_features[i],
        name,
    ))) by {
        lemma_enables_iff_form(active_features[i], name);
    }
    if is_active(dep, active_targets, active_features) {
        let i = choose|i: int|
            0 <= i < active_features.len() && activates(#[trigger] active_features[i], name);
        assert(active_features[i] == dep_prefix() + name || has_form_name_slash(
            active_features[i],
            name,
        ));
    }
    if exists|i: int|
        0 <= i < active_features.len() && (#[trigger] active_features[i] == dep_prefix() + name
            || has_form_name_slash(active_features[i], name)) {
        let i = choose|i: int|
            0 <= i < active_features.len() && (#[trigger] active_features[i] == dep_prefix()
                + name || has_form_name_slash(active_features[i], name));
        assert(activates(active_features[i], name));
    }
}

/// Whether `feature` activates the optional dependency on the package `name`.
pub fn feature_activates(feature: &[char], name: &[char]) -> (found: bool)
    ensures
        found == activates(feature@, name@),
{
    let prefix = chars_of("dep:");
    let named = if has_part_at(feature, 0, prefix.as_slice()) {
        let rest_matches = has_part_at(feature, prefix.len(), name);
        let whole = rest_matches && feature.len() - prefix.len() == name.len();
        proof {
            let p = prefix@;
            assert(feature@.subrange(0, p.len() as int) == p);
            if whole {
                assert(feature@ =~= p + name@);
            }
            if feature@ == p + name@ {
                assert(feature@.subrange(p.len() as int, (p.len() + name@.len()) as int) =~= name@);
            }
        }
        whole
    } else {
        proof {
            let p = prefix@;
            if feature@ == p + name@ {
                assert(feature@.subrange(0, p.len() as int) =~= p);
            }
        }
        false
    };
    if named {
        return true;
    }
    let slash = find_from(feature, 0, '/');
    proof {
        assert(feature@.skip(0) =~= feature@);
    }
    if slash < feature.len() {
        let before = has_part_at(feature, 0, name);
        let same = before && slash == name.len();
        proof {
            if same {
                assert(feature@.take(slash as int) =~= feature@.subrange(0, name@.len() as int));
            }
            if feature@.take(slash as int) == name@ {
                assert(feature@.take(slash as int).len() == slash);
                assert(feature@.subrange(0, name@.len() as int) =~= feature@.take(slash as int));
            }
        }
        same
    } else {
        false
    }
}

/// Whether `list` holds a string whose text is `wanted`.
pub fn holds_text(list: &[String], wanted: &[char]) -> (found: bool)
    ensures
        found == texts(list@).contains(wanted@),
{
    let mut i: usize = 0;
    while i < list.len()
        invariant
            i <= list@.len(),
            forall|j: int| 0 <= j < i ==> list@[j]@ != wanted@,
        decreases list@.len() - i,
    {
        let item = chars_of(list[i].as_str());
        if same_chars(item.as_slice(), wanted) {
            assert(texts(list@)[i as int] == wanted@);
            return true;
        }
        i += 1;
    }
    proof {
        if texts(list@).contains(wanted@) {
            let j = choose|j: int| 0 <= j < texts(list@).len() && texts(list@)[j] == wanted@;
            assert(list@[j]@ == wanted@);
        }
    }
    false
}

impl IndexCrateDependency {
    /// Gets whether this dependency is active, for the specified targets and features
    #[must_use]
    pub fn is_active_for(&self, active_targets: &[String], active_features: &[&str]) -> (active:
        bool)
        ensures
            active == is_active(self@, texts(active_targets@), str_texts(active_features@)),
    {
        let is_in_targets = match &self.target {
            None => true,
            Some(target_spec) => {
                let target = chars_of(target_spec.as_str());
                let prefix = chars_of("cfg(");
                if has_part_at(target.as_slice(), 0, prefix.as_slice()) {
                    false
                } else {
                    holds_text(active_targets, target.as_slice())
                }
            },
        };
        if !is_in_targets {
            return false;
        }
        if !self.optional {
            return true;
        }
        let name = chars_of(self.get_name());
        let ghost features = str_texts(active_features@);
        let mut i: usize = 0;
        while i < active_features.len()
            invariant
                i <= active_features@.len(),
                self.optional,
                target_allows(self@.target, texts(active_targets@)),
                name@ == resolved_name(self@),
                features == str_texts(active_features@),
                forall|j: int| 0 <= j < i ==> !activates(#[trigger] features[j], name@),
            decreases active_features@.len() - i,
        {
            let feature = chars_of(active_features[i]);
            if feature_activates(feature.as_slice(), name.as_slice()) {
                assert(activates(features[i as int], name@));
                return true;
            }
            i += 1;
        }
        false
    }
}

} // verus!
