//! Data model of the publication pipeline: the metadata that a publisher
//! sends, its validation, and the index record derived from it.

use crate::apierror::{
    error_invalid_request, is_specialized, specialize, ApiError, SourceError,
    BACKEND_FAILURE_MESSAGE, HTTP_BACKEND_FAILURE, HTTP_INVALID_REQUEST, INVALID_REQUEST_MESSAGE,
};
use crate::envelope::{frame_of, UploadFrame};
use crate::hashes::{checksum_of, sha256, sha256_digest};
use crate::json::{Json, JsonData};
use crate::string_map::{lemma_same_names, position_of, StringMap};
use crate::text::{
    chars_of, is_ascii_digit_char, is_ascii_letter, is_digit, is_letter, same_text,
};
use vstd::prelude::*;

verus! {

/// The texts of a list of strings.
pub open spec fn texts(list: Seq<String>) -> Seq<Seq<char>> {
    Seq::new(list.len(), |i: int| list[i]@)
}

/// The text of an optional string.
pub open spec fn opt_text(value: Option<String>) -> Option<Seq<char>> {
    match value {
        Some(s) => Some(s@),
        None => None,
    }
}

/// A feature map as a mathematical map from feature names to what each
/// enables.
pub open spec fn feature_lists(features: Map<Seq<char>, Vec<String>>) -> Map<
    Seq<char>,
    Seq<Seq<char>>,
> {
    features.map_values(|list: Vec<String>| texts(list@))
}

/// A copy of a list of strings.
pub fn clone_strings(list: &Vec<String>) -> (copy: Vec<String>)
    ensures
        copy@ == list@,
{
    let copy = list.clone();
    assert(copy@ =~= list@);
    copy
}

/// A copy of an optional string.
pub fn clone_opt_string(value: &Option<String>) -> (copy: Option<String>)
    ensures
        copy == *value,
{
    match value {
        Some(s) => Some(s.clone()),
        None => None,
    }
}

/// A copy of a feature map, entry by entry.
pub fn clone_features(features: &StringMap<Vec<String>>) -> (copy: StringMap<Vec<String>>)
    ensures
        feature_lists(copy@) == feature_lists(features@),
{
    let copy = features.clone();
    proof {
        let a = features.entries();
        let b = copy.entries();
        lemma_same_names(a, b);
        let x = feature_lists(features@);
        let y = feature_lists(copy@);
        assert forall|k: Seq<char>| x.contains_key(k) implies #[trigger] y[k] == x[k] by {
            let i = position_of(a, k);
            assert(cloned(a[i].1, b[i].1));
            assert(b[i].1@ =~= a[i].1@);
        }
        assert(x =~= y);
    }
    copy
}

/// The result for a yank operation
#[derive(Debug)]
pub struct YesNoResult {
    /// The value for the result
    pub ok: bool,
}

impl YesNoResult {
    /// Creates a new instance, which says yes.
    #[must_use]
    pub fn new() -> (result: YesNoResult)
        ensures
            result.ok,
    {
        YesNoResult { ok: true }
    }
}

/// The result for an operation that reports with a message
#[derive(Debug)]
pub struct YesNoMsgResult {
    /// The value for the result
    pub ok: bool,
    /// A string message that will be displayed
    pub msg: String,
}

impl YesNoMsgResult {
    /// Creates a new instance, which says yes with the given message.
    #[must_use]
    pub fn new(msg: String) -> (result: YesNoMsgResult)
        ensures
            result.ok,
            result.msg == msg,
    {
        YesNoMsgResult { ok: true, msg }
    }
}

/// An error response for the web API
#[derive(Debug, Clone)]
pub struct ApiResponseError {
    /// The details for the error
    pub detail: String,
}

/// A set of errors as a response for the web API
#[derive(Debug, Clone)]
pub struct ApiResponseErrors {
    /// The individual errors
    pub errors: Vec<ApiResponseError>,
}

impl ApiResponseErrors {
    /// The response for one error: a single entry that holds its rendering.
    pub fn from(err: ApiError) -> (response: ApiResponseErrors)
        ensures
            response.errors@.len() == 1,
            response.errors@[0].detail@ == crate::apierror::error_text(
                err.message@,
                crate::apierror::details_text(err.details),
                err.source_messages(),
            ),
    {
        let mut errors: Vec<ApiResponseError> = Vec::new();
        errors.push(ApiResponseError { detail: err.to_string() });
        ApiResponseErrors { errors }
    }
}

/// The kind of dependency
#[derive(Debug, Clone, Copy, PartialEq, Eq, Structural)]
pub enum DependencyKind {
    /// A normal dependency
    Normal,
    /// A dev dependency (for tests, etc.)
    Dev,
    /// A build dependency (for build.rs)
    Build,
}

/// The kind that a text names, if it names one.
pub open spec fn kind_named(text: Seq<char>) -> Option<DependencyKind> {
    if text == "normal"@ {
        Some(DependencyKind::Normal)
    } else if text == "dev"@ {
        Some(DependencyKind::Dev)
    } else if text == "build"@ {
        Some(DependencyKind::Build)
    } else {
        None
    }
}

impl DependencyKind {
    /// Reads a kind from its name: `normal`, `dev` or `build`.
    pub fn from_str(s: &str) -> (kind: Result<DependencyKind, ()>)
        ensures
            match kind {
                Ok(k) => kind_named(s@) == Some(k),
                Err(_) => kind_named(s@) is None,
            },
    {
        if same_text(s, "normal") {
            Ok(DependencyKind::Normal)
        } else if same_text(s, "dev") {
            Ok(DependencyKind::Dev)
        } else if same_text(s, "build") {
            Ok(DependencyKind::Build)
        } else {
            Err(())
        }
    }
}

impl Default for DependencyKind {
    /// A dependency is a normal one unless it says otherwise.
    fn default() -> (kind: DependencyKind)
        ensures
            kind == DependencyKind::Normal,
    {
        DependencyKind::Normal
    }
}

/// A dependency for a crate
#[derive(Debug)]
pub struct CrateMetadataDependency {
    /// Name of the dependency.
    /// If the dependency is renamed from the original package name,
    /// this is the original name. The new package name is stored in
    /// the `explicit_name_in_toml` field.
    pub name: String,
    /// The semver requirement for this dependency
    pub version_req: String,
    /// Array of features (as strings) enabled for this dependency
    pub features: Vec<String>,
    /// Boolean of whether this is an optional dependency
    pub optional: bool,
    /// Boolean of whether default features are enabled
    pub default_features: bool,
    /// The target platform for the dependency.
    /// null if not a target dependency.
    /// Otherwise, a string such as "cfg(windows)".
    pub target: Option<String>,
    /// The dependency kind.
    /// "dev", "build", or "normal".
    pub kind: DependencyKind,
    /// The URL of the index of the registry where this dependency is
    /// from as a string. If not specified or null, it is assumed the
    /// dependency is in the current registry.
    pub registry: Option<String>,
    /// If the dependency is renamed, this is a string of the new
    /// package name. If not specified or null, this dependency is not
    /// renamed.
    pub explicit_name_in_toml: Option<String>,
}

/// A declared dependency as plain values.
pub struct DeclaredDependency {
    pub name: Seq<char>,
    pub version_req: Seq<char>,
    pub features: Seq<Seq<char>>,
    pub optional: bool,
    pub default_features: bool,
    pub target: Option<Seq<char>>,
    pub kind: DependencyKind,
    pub registry: Option<Seq<char>>,
    pub explicit_name_in_toml: Option<Seq<char>>,
}

impl View for CrateMetadataDependency {
    type V = DeclaredDependency;

    open spec fn view(&self) -> DeclaredDependency {
        DeclaredDependency {
            name: self.name@,
            version_req: self.version_req@,
            features: texts(self.features@),
            optional: self.optional,
            default_features: self.default_features,
            target: opt_text(self.target),
            kind: self.kind,
            registry: opt_text(self.registry),
            explicit_name_in_toml: opt_text(self.explicit_name_in_toml),
        }
    }
}

/// A dependency for a crate in the index
#[derive(Debug)]
pub struct IndexCrateDependency {
    /// Name of the dependency, as the depending crate refers to it.
    /// If the dependency is renamed, this is the new name, and the
    /// original package name is stored in the `package` field.
    pub name: String,
    /// The semver requirement for this dependency.
    pub req: String,
    /// Array of features (as strings) enabled for this dependency
    pub features: Vec<String>,
    /// Boolean of whether this is an optional dependency
    pub optional: bool,
    /// Boolean of whether default features are enabled
    pub default_features: bool,
    /// The target platform for the dependency.
    /// null if not a target dependency.
    /// Otherwise, a string such as "cfg(windows)".
    pub target: Option<String>,
    /// The dependency kind.
    /// "dev", "build", or "normal".
    pub kind: DependencyKind,
    /// The URL of the index of the registry where this dependency is
    /// from as a string. If not specified or null, it is assumed the
    /// dependency is in the current registry.
    pub registry: Option<String>,
    /// If the dependency is renamed, this is the name of the package
    /// that is depended on. If not specified or null, this dependency is
    /// not renamed.
    pub package: Option<String>,
}

/// An index dependency as plain values.
pub struct IndexedDependency {
    pub name: Seq<char>,
    pub req: Seq<char>,
    pub features: Seq<Seq<char>>,
    pub optional: bool,
    pub default_features: bool,
    pub target: Option<Seq<char>>,
    pub kind: DependencyKind,
    pub registry: Option<Seq<char>>,
    pub package: Option<Seq<char>>,
}

impl View for IndexCrateDependency {
    type V = IndexedDependency;

    open spec fn view(&self) -> IndexedDependency {
        IndexedDependency {
            name: self.name@,
            req: self.req@,
            features: texts(self.features@),
            optional: self.optional,
            default_features: self.default_features,
            target: opt_text(self.target),
            kind: self.kind,
            registry: opt_text(self.registry),
            package: opt_text(self.package),
        }
    }
}

/// The index form of a declared dependency. A renamed dependency goes by its
/// new name and keeps the name of its package beside it; any other goes by
/// the name of its package alone.
pub open spec fn index_form(dep: DeclaredDependency) -> IndexedDependency {
    IndexedDependency {
        name: match dep.explicit_name_in_toml {
            Some(alias) => alias,
            None => dep.name,
        },
        req: dep.version_req,
        features: dep.features,
        optional: dep.optional,
        default_features: dep.default_features,
        target: dep.target,
        kind: dep.kind,
        registry: dep.registry,
        package: match dep.explicit_name_in_toml {
            Some(_) => Some(dep.name),
            None => None,
        },
    }
}

/// The index forms of a list of declared dependencies, in the same order.
pub open spec fn index_forms(deps: Seq<CrateMetadataDependency>) -> Seq<IndexedDependency> {
    Seq::new(deps.len(), |i: int| index_form(deps[i]@))
}

/// The views of a list of index dependencies.
pub open spec fn indexed_views(deps: Seq<IndexCrateDependency>) -> Seq<IndexedDependency> {
    Seq::new(deps.len(), |i: int| deps[i]@)
}

/// The rename rule. Where a dependency declares a new name, its index form
/// goes by that name and `package` holds the original one; where it declares
/// none, its index form goes by the original name and has no `package`.
pub proof fn lemma_rename_rule(dep: DeclaredDependency)
    ensures
        dep.explicit_name_in_toml matches Some(alias) ==> index_form(dep).name == alias
            && index_form(dep).package == Some(dep.name),
        dep.explicit_name_in_toml is None ==> index_form(dep).name == dep.name && index_form(
            dep,
        ).package is None,
        resolved_name(index_form(dep)) == dep.name,
{
}

/// The name of the package that an index dependency stands for: `package`
/// where the dependency is renamed, `name` otherwise.
pub open spec fn resolved_name(dep: IndexedDependency) -> Seq<char> {
    match dep.package {
        Some(package) => package,
        None => dep.name,
    }
}

impl IndexCrateDependency {
    /// The index form of a declared dependency.
    pub fn from(dep: &CrateMetadataDependency) -> (indexed: IndexCrateDependency)
        ensures
            indexed@ == index_form(dep@),
    {
        let name = match &dep.explicit_name_in_toml {
            Some(alias) => alias.clone(),
            None => dep.name.clone(),
        };
        let package = match &dep.explicit_name_in_toml {
            Some(_) => Some(dep.name.clone()),
            None => None,
        };
        IndexCrateDependency {
            name,
            req: dep.version_req.clone(),
            features: clone_strings(&dep.features),
            optional: dep.optional,
            default_features: dep.default_features,
            target: clone_opt_string(&dep.target),
            kind: dep.kind,
            registry: clone_opt_string(&dep.registry),
            package,
        }
    }

    /// Gets the crate name for this dependency
    #[must_use]
    pub fn get_name(&self) -> (name: &str)
        ensures
            name@ == resolved_name(self@),
    {
        match &self.package {
            Some(package) => package.as_str(),
            None => self.name.as_str(),
        }
    }
}

/// The metadata for a crate
#[derive(Debug)]
pub struct CrateMetadata {
    /// The name of the package
    pub name: String,
    /// The version of the package being published
    pub vers: String,
    /// Array of direct dependencies of the package
    pub deps: Vec<CrateMetadataDependency>,
    /// Set of features defined for the package.
    /// Each feature maps to an array of features or dependencies it enables.
    pub features: StringMap<Vec<String>>,
    /// List of strings of the authors.
    /// May be empty.
    pub authors: Vec<String>,
    /// Description field from the manifest.
    pub description: Option<String>,
    /// String of the URL to the website for this package's documentation.
    pub documentation: Option<String>,
    /// String of the URL to the website for this package's home page.
    pub homepage: Option<String>,
    /// String of the content of the README file.
    pub readme: Option<String>,
    /// String of a relative path to a README file in the crate.
    pub readme_file: Option<String>,
    /// Array of strings of keywords for the package.
    pub keywords: Vec<String>,
    /// Array of strings of categories for the package.
    pub categories: Vec<String>,
    /// String of the license for the package.
    pub license: Option<String>,
    /// String of a relative path to a license file in the crate.
    pub license_file: Option<String>,
    /// String of the URL to the website for the source repository of this package.
    pub repository: Option<String>,
    /// Optional object of "status" badges. Each value is an object of
    /// arbitrary string to string mappings.
    pub badges: StringMap<Json>,
    /// The `links` string value from the package's manifest, or null if not
    /// specified.
    pub links: Option<String>,
    /// The minimal supported Rust version (optional)
    pub rust_version: Option<String>,
}

/// The views of a list of declared dependencies.
pub open spec fn declared_views(deps: Seq<CrateMetadataDependency>) -> Seq<DeclaredDependency> {
    Seq::new(deps.len(), |i: int| deps[i]@)
}

/// Badges as a mathematical map from their names to their data.
pub open spec fn badge_data(badges: Map<Seq<char>, Json>) -> Map<Seq<char>, JsonData> {
    badges.map_values(|badge: Json| badge@)
}

/// The metadata of a version as plain values.
pub struct PublishedMetadata {
    pub name: Seq<char>,
    pub vers: Seq<char>,
    pub deps: Seq<DeclaredDependency>,
    pub features: Map<Seq<char>, Seq<Seq<char>>>,
    pub authors: Seq<Seq<char>>,
    pub description: Option<Seq<char>>,
    pub documentation: Option<Seq<char>>,
    pub homepage: Option<Seq<char>>,
    pub readme: Option<Seq<char>>,
    pub readme_file: Option<Seq<char>>,
    pub keywords: Seq<Seq<char>>,
    pub categories: Seq<Seq<char>>,
    pub license: Option<Seq<char>>,
    pub license_file: Option<Seq<char>>,
    pub repository: Option<Seq<char>>,
    pub badges: Map<Seq<char>, JsonData>,
    pub links: Option<Seq<char>>,
    pub rust_version: Option<Seq<char>>,
}

impl View for CrateMetadata {
    type V = PublishedMetadata;

    open spec fn view(&self) -> PublishedMetadata {
        PublishedMetadata {
            name: self.name@,
            vers: self.vers@,
            deps: declared_views(self.deps@),
            features: feature_lists(self.features@),
            authors: texts(self.authors@),
            description: opt_text(self.description),
            documentation: opt_text(self.documentation),
            homepage: opt_text(self.homepage),
            readme: opt_text(self.readme),
            readme_file: opt_text(self.readme_file),
            keywords: texts(self.keywords@),
            categories: texts(self.categories@),
            license: opt_text(self.license),
            license_file: opt_text(self.license_file),
            repository: opt_text(self.repository),
            badges: badge_data(self.badges@),
            links: opt_text(self.links),
            rust_version: opt_text(self.rust_version),
        }
    }
}

/// The warnings for the upload of a crate
#[derive(Debug)]
pub struct CrateUploadWarnings {
    /// Array of strings of categories that are invalid and ignored
    pub invalid_categories: Vec<String>,
    /// Array of strings of badge names that are invalid and ignored
    pub invalid_badges: Vec<String>,
    /// Array of strings of arbitrary warnings to display to the user
    pub other: Vec<String>,
}

/// The result for the upload of a crate
#[derive(Debug)]
pub struct CrateUploadResult {
    /// The warnings
    pub warnings: CrateUploadWarnings,
}

impl CrateUploadResult {
    /// Whether this result carries no warning at all.
    pub open spec fn is_clean(&self) -> bool {
        &&& self.warnings.invalid_categories@.len() == 0
        &&& self.warnings.invalid_badges@.len() == 0
        &&& self.warnings.other@.len() == 0
    }
}

impl Default for CrateUploadResult {
    /// A result without warnings.
    fn default() -> (result: CrateUploadResult)
        ensures
            result.is_clean(),
    {
        CrateUploadResult {
            warnings: CrateUploadWarnings {
                invalid_categories: Vec::new(),
                invalid_badges: Vec::new(),
                other: Vec::new(),
            },
        }
    }
}

/// What is wrong with a package name.
#[derive(Debug, Clone, Copy, PartialEq, Eq, Structural)]
pub enum NameFault {
    /// The name has no character
    Empty,
    /// The name has more than 64 characters
    TooLong,
    /// The first character is no ASCII letter
    BadStart,
    /// A character is neither an ASCII letter or digit, nor `-` or `_`
    BadCharacter,
}

/// The longest package name, in characters.
pub const MAX_NAME_LENGTH: usize = 64;

/// Whether `c` may stand in a package name.
pub open spec fn is_name_char(c: char) -> bool {
    is_ascii_letter(c) || is_ascii_digit_char(c) || c == '-' || c == '_'
}

/// A valid package name: 1 to 64 characters, the first an ASCII letter, the
/// others ASCII letters, digits, `-` or `_`.
pub open spec fn is_valid_name(name: Seq<char>) -> bool {
    &&& 1 <= name.len() <= MAX_NAME_LENGTH
    &&& is_ascii_letter(name[0])
    &&& forall|i: int| 0 <= i < name.len() ==> is_name_char(#[trigger] name[i])
}

/// The first rule that `name` breaks, in the order in which the rules are
/// checked: length, first character, other characters.
pub open spec fn name_fault(name: Seq<char>) -> Option<NameFault> {
    if name.len() == 0 {
        Some(NameFault::Empty)
    } else if name.len() > MAX_NAME_LENGTH {
        Some(NameFault::TooLong)
    } else if !is_ascii_letter(name[0]) {
        Some(NameFault::BadStart)
    } else if exists|i: int| 0 <= i < name.len() && !is_name_char(#[trigger] name[i]) {
        Some(NameFault::BadCharacter)
    } else {
        None
    }
}

/// A name breaks no rule exactly when it is valid.
pub proof fn lemma_fault_iff_invalid(name: Seq<char>)
    ensures
        name_fault(name) is None <==> is_valid_name(name),
{
}

/// Message for an empty name.
pub const NAME_EMPTY_MESSAGE: &'static str = "Name must not be empty";

/// Message for a name that is too long.
pub const NAME_TOO_LONG_MESSAGE: &'static str = "Name must not exceed 64 characters";

/// Message for a name that starts with something else than a letter.
pub const NAME_BAD_START_MESSAGE: &'static str = "Name must start with an ASCII letter";

/// Message for a name that holds a character that is not allowed.
pub const NAME_BAD_CHARACTER_MESSAGE: &'static str = "Name must only contain alphanumeric, -, _";

/// The message that reports a fault.
pub open spec fn fault_message(fault: NameFault) -> Seq<char> {
    match fault {
        NameFault::Empty => NAME_EMPTY_MESSAGE@,
        NameFault::TooLong => NAME_TOO_LONG_MESSAGE@,
        NameFault::BadStart => NAME_BAD_START_MESSAGE@,
        NameFault::BadCharacter => NAME_BAD_CHARACTER_MESSAGE@,
    }
}

/// Whether `error` is the validation error with the given details: an
/// invalid-request error that carries them.
pub open spec fn is_validation_error(error: ApiError, details: Seq<char>) -> bool {
    is_specialized(error, HTTP_INVALID_REQUEST, INVALID_REQUEST_MESSAGE@, details)
}

/// Creates a validation error: always an error, of the invalid-request class,
/// with `details` as its detail.
pub fn validation_error(details: &str) -> (result: Result<(), ApiError>)
    ensures
        result matches Err(e) && is_validation_error(e, details@),
{
    Err(specialize(error_invalid_request(), details.to_owned()))
}

/// Whether `c` may stand in a package name.
fn is_allowed_in_name(c: char) -> (b: bool)
    ensures
        b == is_name_char(c),
{
    is_letter(c) || is_digit(c) || c == '-' || c == '_'
}

impl CrateMetadata {
    /// Validates the package name. Succeeds on every valid name and on no
    /// other; a failure is a validation error whose detail names the first
    /// rule that the name breaks.
    pub fn validate_name(&self) -> (result: Result<(), ApiError>)
        ensures
            result is Ok <==> is_valid_name(self.name@),
            match name_fault(self.name@) {
                None => result is Ok,
                Some(fault) => result matches Err(e) && is_validation_error(
                    e,
                    fault_message(fault),
                ),
            },
    {
        let name = chars_of(self.name.as_str());
        if name.len() == 0 {
            return validation_error(NAME_EMPTY_MESSAGE);
        }
        if name.len() > MAX_NAME_LENGTH {
            return validation_error(NAME_TOO_LONG_MESSAGE);
        }
        if !is_letter(name[0]) {
            return validation_error(NAME_BAD_START_MESSAGE);
        }
        let mut i: usize = 0;
        while i < name.len()
            invariant
                i <= name@.len(),
                name@ == self.name@,
                1 <= name@.len() <= MAX_NAME_LENGTH,
                is_ascii_letter(name@[0]),
                forall|j: int| 0 <= j < i ==> is_name_char(#[trigger] name@[j]),
            decreases name@.len() - i,
        {
            if !is_allowed_in_name(name[i]) {
                assert(!is_name_char(name@[i as int]));
                return validation_error(NAME_BAD_CHARACTER_MESSAGE);
            }
            i += 1;
        }
        Ok(())
    }

    /// Validate the crate's metadata. Succeeds exactly where the name is
    /// valid, then without any warning; fails as `validate_name` does.
    pub fn validate(&self) -> (result: Result<CrateUploadResult, ApiError>)
        ensures
            result is Ok <==> is_valid_name(self.name@),
            match name_fault(self.name@) {
                None => result matches Ok(r) && r.is_clean(),
                Some(fault) => result matches Err(e) && is_validation_error(
                    e,
                    fault_message(fault),
                ),
            },
    {
        match self.validate_name() {
            Ok(_) => Ok(CrateUploadResult::default()),
            Err(e) => Err(e),
        }
    }
}

/// The metadata for a crate inside the index
#[derive(Debug)]
pub struct IndexCrateMetadata {
    /// The name of the package
    pub name: String,
    /// The version of the package this row is describing.
    pub vers: String,
    /// Array of direct dependencies of the package
    pub deps: Vec<IndexCrateDependency>,
    /// A SHA256 checksum of the `.crate` file.
    pub cksum: String,
    /// Set of features defined for the package.
    /// Each feature maps to an array of features or dependencies it enables.
    pub features: StringMap<Vec<String>>,
    /// Boolean of whether this version has been yanked.
    pub yanked: bool,
    /// The `links` string value from the package's manifest, or null if not
    /// specified.
    pub links: Option<String>,
    /// An unsigned 32-bit integer value indicating the schema version of this
    /// entry. If this not specified, it should be interpreted as the default
    /// of 1. Version 2 adds the `features2` field.
    pub v: Option<u32>,
    /// This optional field contains features with new, extended syntax.
    /// Specifically, namespaced features (`dep:`) and weak dependencies
    /// (`pkg?/feat`).
    pub features2: Option<StringMap<Vec<String>>>,
    /// The minimal supported Rust version (optional)
    pub rust_version: Option<String>,
}

/// The schema version of the records that this library writes.
pub const INDEX_SCHEMA_VERSION: u32 = 2;

/// An index record as plain values.
pub struct IndexRecord {
    pub name: Seq<char>,
    pub vers: Seq<char>,
    pub deps: Seq<IndexedDependency>,
    pub cksum: Seq<char>,
    pub features: Map<Seq<char>, Seq<Seq<char>>>,
    pub yanked: bool,
    pub links: Option<Seq<char>>,
    pub v: Option<u32>,
    pub features2: Option<Map<Seq<char>, Seq<Seq<char>>>>,
    pub rust_version: Option<Seq<char>>,
}

impl View for IndexCrateMetadata {
    type V = IndexRecord;

    open spec fn view(&self) -> IndexRecord {
        IndexRecord {
            name: self.name@,
            vers: self.vers@,
            deps: indexed_views(self.deps@),
            cksum: self.cksum@,
            features: feature_lists(self.features@),
            yanked: self.yanked,
            links: opt_text(self.links),
            v: self.v,
            features2: match self.features2 {
                Some(f) => Some(feature_lists(f@)),
                None => None,
            },
            rust_version: opt_text(self.rust_version),
        }
    }
}

/// The record that the index keeps for a version with the given metadata and
/// checksum. The dependencies are in index form and in the declared order,
/// the whole feature map stands in the extended slot and the legacy slot is
/// empty, the schema version is 2, and the version is not yanked.
pub open spec fn index_record_of(metadata: CrateMetadata, cksum: Seq<char>) -> IndexRecord {
    IndexRecord {
        name: metadata.name@,
        vers: metadata.vers@,
        deps: index_forms(metadata.deps@),
        cksum,
        features: Map::empty(),
        yanked: false,
        links: opt_text(metadata.links),
        v: Some(INDEX_SCHEMA_VERSION),
        features2: Some(feature_lists(metadata.features@)),
        rust_version: opt_text(metadata.rust_version),
    }
}

/// The feature list that a record gives for `feature`: the one in the
/// extended map where that map has the name, else the one in the legacy map.
pub open spec fn feature_of(record: IndexRecord, feature: Seq<char>) -> Option<Seq<Seq<char>>> {
    let extended = match record.features2 {
        Some(map) => map,
        None => Map::empty(),
    };
    if extended.contains_key(feature) {
        Some(extended[feature])
    } else if record.features.contains_key(feature) {
        Some(record.features[feature])
    } else {
        None
    }
}

impl IndexCrateMetadata {
    /// Gets the value associated to a requested feature. The extended map is
    /// asked first, the legacy map second.
    pub fn get_feature(&self, feature: &str) -> (list: Option<&[String]>)
        ensures
            match list {
                Some(l) => feature_of(self@, feature@) == Some(texts(l@)),
                None => feature_of(self@, feature@) is None,
            },
    {
        match &self.features2 {
            Some(extended) => {
                match extended.get(feature) {
                    Some(l) => {
                        return Some(l.as_slice());
                    },
                    None => {},
                }
            },
            None => {},
        }
        match self.features.get(feature) {
            Some(l) => Some(l.as_slice()),
            None => None,
        }
    }
}

/// The upload data for publishing a crate
#[derive(Debug)]
pub struct CrateUploadData {
    /// The metadata
    pub metadata: CrateMetadata,
    /// The content of the .crate package
    pub content: Vec<u8>,
}

/// The cause reported for a buffer that ends before the envelope does.
pub const TRUNCATED_UPLOAD_MESSAGE: &'static str = "failed to fill whole buffer";

/// Whether `error` reports that an upload could not be decoded for the given
/// cause: an internal fault whose chain of causes is that cause alone.
pub open spec fn is_decode_error(error: ApiError, cause: Seq<char>) -> bool {
    &&& error.http == HTTP_BACKEND_FAILURE
    &&& error.message@ == BACKEND_FAILURE_MESSAGE@
    &&& error.details is None
    &&& error.source_messages() == Some(seq![cause])
}

/// The error for an upload that could not be decoded.
pub fn decode_error(cause: String) -> (error: ApiError)
    ensures
        is_decode_error(error, cause@),
{
    let mut causes: Vec<String> = Vec::new();
    causes.push(cause);
    let error = ApiError::from(SourceError::new(causes));
    assert(error.source_messages()->0 =~= seq![cause@]);
    error
}

impl CrateUploadData {
    /// The upload made of a metadata and an archive.
    pub fn from_parts(metadata: CrateMetadata, content: Vec<u8>) -> (upload: CrateUploadData)
        ensures
            upload.metadata == metadata,
            upload.content == content,
    {
        CrateUploadData { metadata, content }
    }

    /// Deserialize the content of an input payload. The payload is an
    /// envelope; `parse_metadata` reads the metadata document in it, and
    /// answers with the metadata or with the reason why the document is none.
    ///
    /// Decoding fails where the buffer ends before the envelope does, and
    /// where `parse_metadata` rejects the document; it succeeds in every
    /// other case, with what `parse_metadata` read and with the archive of
    /// the envelope.
    pub fn new<P>(buffer: &[u8], parse_metadata: P) -> (upload: Result<CrateUploadData, ApiError>)
        where P: FnOnce(&[u8]) -> Result<CrateMetadata, String>
        requires
            forall|document: &[u8]| call_requires(parse_metadata, (document,)),
        ensures
            match frame_of(buffer@) {
                Err(_) => upload matches Err(e) && is_decode_error(e, TRUNCATED_UPLOAD_MESSAGE@),
                Ok((document, content)) => match upload {
                    Ok(u) => u.content@ == content && exists|bytes: &[u8]|
                        bytes@ == document && call_ensures(
                            parse_metadata,
                            (bytes,),
                            Ok::<CrateMetadata, String>(u.metadata),
                        ),
                    Err(e) => exists|bytes: &[u8], cause: String|
                        bytes@ == document && is_decode_error(e, cause@) && call_ensures(
                            parse_metadata,
                            (bytes,),
                            Err::<CrateMetadata, String>(cause),
                        ),
                },
            },
    {
        match UploadFrame::decode(buffer) {
            Err(_) => Err(decode_error(TRUNCATED_UPLOAD_MESSAGE.to_owned())),
            Ok(frame) => {
                let document = frame.metadata.as_slice();
                match parse_metadata(document) {
                    Ok(metadata) => Ok(CrateUploadData { metadata, content: frame.content }),
                    Err(cause) => Err(decode_error(cause)),
                }
            },
        }
    }

    /// Builds the index record of this version for a checksum that was
    /// computed beforehand.
    pub fn build_index_data_with(&self, cksum: String) -> (record: IndexCrateMetadata)
        ensures
            record@ == index_record_of(self.metadata, cksum@),
            record.deps@.len() == self.metadata.deps@.len(),
    {
        let mut deps: Vec<IndexCrateDependency> = Vec::new();
        let mut i: usize = 0;
        while i < self.metadata.deps.len()
            invariant
                i <= self.metadata.deps@.len(),
                deps@.len() == i,
                forall|j: int| 0 <= j < i ==> (#[trigger] deps@[j])@ == index_form(
                    self.metadata.deps@[j]@,
                ),
            decreases self.metadata.deps@.len() - i,
        {
            deps.push(IndexCrateDependency::from(&self.metadata.deps[i]));
            i += 1;
        }
        let features2 = clone_features(&self.metadata.features);
        let record = IndexCrateMetadata {
            name: self.metadata.name.clone(),
            vers: self.metadata.vers.clone(),
            deps,
            cksum,
            features: StringMap::new(),
            yanked: false,
            links: clone_opt_string(&self.metadata.links),
            v: Some(INDEX_SCHEMA_VERSION),
            features2: Some(features2),
            rust_version: clone_opt_string(&self.metadata.rust_version),
        };
        proof {
            assert(record@.deps =~= index_forms(self.metadata.deps@));
            assert(record@.features =~= Map::<Seq<char>, Seq<Seq<char>>>::empty());
        }
        record
    }

    /// Builds the metadata to be indexed for this version. Its checksum is
    /// the SHA-256 digest of the archive in lower-case hexadecimal.
    pub fn build_index_data(&self) -> (record: IndexCrateMetadata)
        ensures
            record@ == index_record_of(self.metadata, checksum_of(sha256_digest(self.content@))),
            record.deps@.len() == self.metadata.deps@.len(),
            record.cksum@.len() == 64,
    {
        let cksum = sha256(self.content.as_slice());
        self.build_index_data_with(cksum)
    }
}

/// The checksum in an index record depends on the bytes of the archive alone:
/// two uploads with the same archive get the same checksum, whatever their
/// metadata.
pub proof fn lemma_checksum_is_deterministic(
    first: CrateUploadData,
    second: CrateUploadData,
)
    requires
        first.content@ == second.content@,
    ensures
        index_record_of(first.metadata, checksum_of(sha256_digest(first.content@))).cksum
            == index_record_of(second.metadata, checksum_of(sha256_digest(second.content@))).cksum,
        index_record_of(first.metadata, checksum_of(sha256_digest(first.content@))).cksum
            == checksum_of(sha256_digest(first.content@)),
{
}

} // verus!
