//! Scenarios: the manifest that selects the modules of a simulation run.

use vstd::prelude::*;
use vstd::string::*;

use crate::error::{Error, Result};
use crate::map::{map_of, VecMap};
use crate::model::deser;
use crate::model::module::{nonempty, nonempty_string, ov};
use crate::model::toml_value::{toml_text, toml_to_string, TomlValue};
use crate::text::{str_eq, string_of};

verus! {

// ---- version requirements and paths -----------------------------------------

/// Outcome of `semver::VersionReq::parse` on a text: the requirement as it
/// displays, or the display text of the parse error.
pub uninterp spec fn version_req_parse_spec(text: Seq<char>) -> core::result::Result<Seq<char>, Seq<char>>;

/// Outcome of `semver::Version::parse` on a text: `None` when it parses, the
/// display text of the parse error otherwise.
pub uninterp spec fn version_parse_error_spec(text: Seq<char>) -> Option<Seq<char>>;

/// Whether the requirement `req` matches the version `version`, both parsed
/// by `semver`.
pub uninterp spec fn version_req_matches_spec(req: Seq<char>, version: Seq<char>) -> bool;

/// Parent of a path, as `std::path::Path::parent` gives it.
pub uninterp spec fn path_parent_spec(path: Seq<char>) -> Option<Seq<char>>;

/// File stem of a path, as `std::path::Path::file_stem` gives it.
pub uninterp spec fn path_file_stem_spec(path: Seq<char>) -> Option<Seq<char>>;

/// Parses a version requirement with `semver::VersionReq::parse` and
/// displays the result, or the error, with `ToString::to_string`.
///
/// The outcome is named by `version_req_parse_spec`.
#[verifier::external_body]
fn version_req_parse(text: &str) -> (res: core::result::Result<String, String>)
    ensures
        match (res, version_req_parse_spec(text@)) {
            (Ok(r), Ok(t)) => r@ == t,
            (Err(e), Err(t)) => e@ == t,
            _ => false,
        },
{
    match semver::VersionReq::parse(text) {
        Ok(req) => Ok(req.to_string()),
        Err(e) => Err(e.to_string()),
    }
}

/// Displays `semver::VersionReq::STAR`; its `Display` implementation writes
/// `*` for a requirement without comparators, which `STAR` is.
#[verifier::external_body]
fn version_req_star_text() -> (res: String)
    ensures
        res@ == "*"@,
{
    semver::VersionReq::STAR.to_string()
}

/// Parses a version with `semver::Version::parse`; the error, if any, is
/// displayed with `ToString::to_string`.
///
/// The outcome is named by `version_parse_error_spec`.
#[verifier::external_body]
fn version_parse_error(text: &str) -> (res: Option<String>)
    ensures
        match (res, version_parse_error_spec(text@)) {
            (Some(e), Some(t)) => e@ == t,
            (None, None) => true,
            _ => false,
        },
{
    match semver::Version::parse(text) {
        Ok(_) => None,
        Err(e) => Some(e.to_string()),
    }
}

/// Calls `semver::VersionReq::matches` on the parsed requirement and
/// version; both texts must parse.
///
/// The outcome is named by `version_req_matches_spec`.
#[verifier::external_body]
fn version_req_matches(req: &str, version: &str) -> (res: bool)
    requires
        version_req_parse_spec(req@) is Ok,
        version_parse_error_spec(version@) is None,
    ensures
        res == version_req_matches_spec(req@, version@),
{
    semver::VersionReq::parse(req).unwrap().matches(&semver::Version::parse(version).unwrap())
}

/// Parent of a path, through `std::path::Path::parent`, displayed with
/// `to_string_lossy`.
///
/// The outcome is named by `path_parent_spec`.
#[verifier::external_body]
pub(crate) fn path_parent(path: &str) -> (res: Option<String>)
    ensures
        match (res, path_parent_spec(path@)) {
            (Some(p), Some(t)) => p@ == t,
            (None, None) => true,
            _ => false,
        },
{
    match std::path::Path::new(path).parent() {
        Some(p) => Some(p.to_string_lossy().to_string()),
        None => None,
    }
}

/// File stem of a path, through `std::path::Path::file_stem`, displayed with
/// `to_string_lossy`.
///
/// The outcome is named by `path_file_stem_spec`.
#[verifier::external_body]
fn path_file_stem(path: &str) -> (res: Option<String>)
    ensures
        match (res, path_file_stem_spec(path@)) {
            (Some(p), Some(t)) => p@ == t,
            (None, None) => true,
            _ => false,
        },
{
    match std::path::Path::new(path).file_stem() {
        Some(p) => Some(p.to_string_lossy().to_string()),
        None => None,
    }
}

// ---- module requirements ----------------------------------------------------

/// Scenario module dependency.
#[derive(Debug, Clone)]
pub struct ModuleReq {
    pub name: String,
    pub version_req: String,
    pub git_address: Option<String>,
}

/// Version requirement text given the outcome of parsing it: the
/// requirement as it displays once parsed, or `*` when it does not parse.
pub open spec fn req_text_of(parsed: core::result::Result<Seq<char>, Seq<char>>) -> Seq<char> {
    match parsed {
        Ok(t) => t,
        Err(_) => "*"@,
    }
}

/// Version requirement that a module requirement text stands for.
pub open spec fn req_text(s: Seq<char>) -> Seq<char> {
    req_text_of(version_req_parse_spec(s))
}

impl ModuleReq {
    /// Creates a scenario module dependency from its manifest entry: a string
    /// is a version requirement. Any other value than a string or a table is
    /// not a module dependency.
    pub fn from_toml_value(scenario_name: &String, value: &TomlValue) -> (res: Option<ModuleReq>)
        requires
            !(value is Table),
        ensures
            match *value {
                TomlValue::String(s) => res matches Some(r) && r.name == *scenario_name
                    && r.version_req@ == req_text(s@) && r.git_address is None,
                _ => res is None,
            },
    {
        match value {
            TomlValue::String(s) => {
                let parsed = version_req_parse(s.as_str());
                Some(ModuleReq::from_parsed_req(scenario_name, parsed))
            },
            _ => None,
        }
    }

    /// Creates a module requirement given the outcome of parsing its
    /// version requirement: the displayed requirement, or `*` when it did
    /// not parse.
    pub fn from_parsed_req(scenario_name: &String, parsed: core::result::Result<String, String>) -> (res: ModuleReq)
        ensures
            res.name == *scenario_name,
            res.version_req@ == req_text_of(match parsed {
                Ok(t) => Ok(t@),
                Err(e) => Err(e@),
            }),
            res.git_address is None,
    {
        let version_req = match parsed {
            Ok(vr) => vr,
            Err(_) => version_req_star_text(),
        };
        ModuleReq { name: scenario_name.clone(), version_req, git_address: None }
    }
}

// ---- scenario manifest ------------------------------------------------------

/// Scenario manifest model.
#[derive(Debug, Clone)]
pub struct ScenarioManifest {
    /// Name of, and unique reference to, the scenario
    pub name: String,
    /// Semver specifier for the scenario version
    pub version: String,
    /// Semver specifier for the engine version
    pub engine: String,
    /// List of the module dependencies for the scenario
    pub mods: Vec<ModuleReq>,
    /// Map of settings, each being essentially an arbitrary data setter
    pub settings: VecMap<String, String>,
    /// More free-form than the name
    pub title: Option<String>,
    /// Short description of the scenario
    pub desc: Option<String>,
    /// Long description of the scenario
    pub desc_long: Option<String>,
    /// Author information
    pub author: Option<String>,
    /// Source website information
    pub website: Option<String>,
}

/// Every module entry of a deserialized scenario manifest is a string.
pub open spec fn mods_are_strings(d: deser::ScenarioManifest) -> bool {
    forall|i: int| 0 <= i < d.mods.entries().len() ==> (#[trigger] d.mods.entries()[i]).1 is String
}

/// The settings map: each setting's value as TOML displays it.
pub open spec fn settings_spec(m: Map<Seq<char>, TomlValue>) -> Map<Seq<char>, Seq<char>> {
    m.map_values(|v: TomlValue| toml_text(v))
}

/// The views of a map of strings.
pub open spec fn string_map_view(m: Map<Seq<char>, String>) -> Map<Seq<char>, Seq<char>> {
    m.map_values(|v: String| v@)
}

/// The module requirement made of a manifest entry.
pub open spec fn mod_req_of(e: (String, TomlValue), r: ModuleReq) -> bool {
    &&& r.name == e.0
    &&& r.version_req@ == req_text(crate::model::toml_value::str_of(e.1))
    &&& r.git_address is None
}

/// The scenario manifest made from its deserialized form.
pub open spec fn scenario_manifest_from_deser(d: deser::ScenarioManifest, m: ScenarioManifest) -> bool {
    &&& m.name == d.scenario.name
    &&& m.version == d.scenario.version
    &&& m.engine == d.scenario.engine
    &&& m.mods@.len() == d.mods.entries().len()
    &&& forall|i: int| 0 <= i < m.mods@.len() ==> mod_req_of(d.mods.entries()[i], #[trigger] m.mods@[i])
    &&& string_map_view(m.settings@) == settings_spec(d.settings@)
    &&& ov(m.title) == nonempty(d.scenario.title@)
    &&& ov(m.desc) == nonempty(d.scenario.desc@)
    &&& ov(m.desc_long) == nonempty(d.scenario.desc_long@)
    &&& ov(m.author) == nonempty(d.scenario.author@)
    &&& ov(m.website) == nonempty(d.scenario.website@)
}

proof fn lemma_map_of_take<V>(s: Seq<(String, V)>, i: int)
    requires
        0 <= i < s.len(),
    ensures
        map_of(s.take(i + 1)) == map_of(s.take(i)).insert(s[i].0@, s[i].1),
{
    assert(s.take(i + 1).drop_last() =~= s.take(i));
}

/// Settings of a deserialized manifest, each value displayed as TOML text.
fn settings_from_deser(settings: &VecMap<String, TomlValue>) -> (res: VecMap<String, String>)
    ensures
        string_map_view(res@) == settings_spec(settings@),
{
    let mut out: VecMap<String, String> = VecMap::new();
    let n = settings.len();
    let mut i: usize = 0;
    while i < n
        invariant
            n == settings.entries().len(),
            i <= n,
            string_map_view(out@) == settings_spec(map_of(settings.entries().take(i as int))),
        decreases n - i,
    {
        let e = settings.entry(i);
        let text = toml_to_string(&e.1);
        let ghost before = out@;
        out.insert(e.0.clone(), text);
        proof {
            lemma_map_of_take(settings.entries(), i as int);
            let prev = map_of(settings.entries().take(i as int));
            let k = settings.entries()[i as int].0@;
            let v = settings.entries()[i as int].1;
            assert(out@ == before.insert(k, text));
            assert(string_map_view(before.insert(k, text)) =~= string_map_view(before).insert(k, toml_text(v)));
            assert(settings_spec(prev.insert(k, v)) =~= settings_spec(prev).insert(k, toml_text(v)));
        }
        i = i + 1;
    }
    assert(settings.entries().take(n as int) =~= settings.entries());
    out
}

impl ScenarioManifest {
    /// Creates the scenario manifest from its deserialized form. Every
    /// module entry must be a version requirement string.
    pub fn from_deser(deser_manifest: deser::ScenarioManifest) -> (res: ScenarioManifest)
        requires
            mods_are_strings(deser_manifest),
        ensures
            scenario_manifest_from_deser(deser_manifest, res),
    {
        let ghost d = deser_manifest;
        let mut mods: Vec<ModuleReq> = Vec::new();
        let n = deser_manifest.mods.len();
        let mut i: usize = 0;
        while i < n
            invariant
                n == d.mods.entries().len(),
                deser_manifest == d,
                mods_are_strings(d),
                i <= n,
                mods@.len() == i,
                forall|k: int| 0 <= k < i ==> mod_req_of(d.mods.entries()[k], #[trigger] mods@[k]),
            decreases n - i,
        {
            let e = deser_manifest.mods.entry(i);
            assert(d.mods.entries()[i as int].1 is String);
            let req = ModuleReq::from_toml_value(&e.0, &e.1);
            match req {
                Some(r) => mods.push(r),
                None => {
                    assert(false);
                },
            }
            i = i + 1;
        }
        let settings = settings_from_deser(&deser_manifest.settings);
        let deser::ScenarioManifest { scenario, mods: _, settings: _, services: _ } = deser_manifest;
        let deser::ScenarioManifestScenario { name, version, engine, title, desc, desc_long, author, website } = scenario;
        ScenarioManifest {
            name,
            version,
            engine,
            mods,
            settings,
            title: nonempty_string(title),
            desc: nonempty_string(desc),
            desc_long: nonempty_string(desc_long),
            author: nonempty_string(author),
            website: nonempty_string(website),
        }
    }
}

// ---- scenario ---------------------------------------------------------------

/// Scenario model consisting of the manifest and list of modules.
#[derive(Debug, Clone)]
pub struct Scenario {
    pub name: String,
    /// Scenario manifest
    pub manifest: ScenarioManifest,
    /// List of module requirements
    pub modules: Vec<ModuleReq>,
}

/// Project root of a scenario manifest at `path`, given the manifest's
/// directory `dir`, that directory's stem `stem`, and the directory above
/// it `up`: the manifest's directory, or the directory above it when the
/// manifest lies in a `scenarios` directory. `Err` carries the message of
/// the step that failed.
pub open spec fn root_from_spec(
    path: Seq<char>,
    dir: Option<Seq<char>>,
    stem: Option<Seq<char>>,
    up: Option<Seq<char>>,
) -> core::result::Result<Seq<char>, Seq<char>> {
    match dir {
        None => Err("unable to get parent of path: "@ + path),
        Some(d) => match stem {
            None => Err("unable to get stem of path: "@ + path),
            Some(st) => if st == crate::SCENARIOS_DIR_NAME@ {
                match up {
                    None => Err("unable to get parent of path: "@ + path),
                    Some(u) => Ok(u),
                }
            } else {
                Ok(d)
            },
        },
    }
}

/// Project root of a scenario manifest path, with the directory, its stem
/// and its parent as `std::path::Path` gives them.
pub open spec fn project_root_spec(path: Seq<char>) -> core::result::Result<Seq<char>, Seq<char>> {
    match path_parent_spec(path) {
        None => root_from_spec(path, None, None, None),
        Some(d) => root_from_spec(path, Some(d), path_file_stem_spec(d), path_parent_spec(d)),
    }
}

/// Views of an optional string.
pub open spec fn opt_seq(o: Option<String>) -> Option<Seq<char>> {
    match o {
        Some(s) => Some(s@),
        None => None,
    }
}

/// The error raised by an engine check, given the outcome of parsing the
/// requirement, the error of parsing the version, and whether the version
/// meets the requirement: a requirement or a version that does not parse,
/// with `semver`'s message (`true`), or a requirement that is not met.
pub open spec fn engine_error_of(
    req_parsed: core::result::Result<Seq<char>, Seq<char>>,
    version_error: Option<Seq<char>>,
    matches: bool,
) -> Option<(bool, Seq<char>)> {
    match req_parsed {
        Err(e) => Some((true, e)),
        Ok(_) => match version_error {
            Some(e) => Some((true, e)),
            None => if matches {
                None
            } else {
                Some((false, "engine version does not match module requirement"@))
            },
        },
    }
}

/// The error raised when checking the engine `version` against the
/// requirement `req`, if any.
pub open spec fn engine_error(req: Seq<char>, version: Seq<char>) -> Option<(bool, Seq<char>)> {
    engine_error_of(version_req_parse_spec(req), version_parse_error_spec(version), version_req_matches_spec(req, version))
}

impl Scenario {
    /// Project root directory of the scenario whose manifest is at
    /// `manifest_path`; manifests are expected to be kept in a dedicated
    /// `scenarios` directory directly under the project root.
    pub fn project_root(manifest_path: &str) -> (res: Result<String>)
        ensures
            match (res, project_root_spec(manifest_path@)) {
                (Ok(r), Ok(t)) => r@ == t,
                (Err(Error::Other(m)), Err(t)) => m@ == t,
                _ => false,
            },
    {
        match path_parent(manifest_path) {
            None => Scenario::root_from(manifest_path, None, None, None),
            Some(dir) => {
                let stem = path_file_stem(dir.as_str());
                let in_scenarios = match &stem {
                    Some(st) => str_eq(st.as_str(), crate::SCENARIOS_DIR_NAME),
                    None => false,
                };
                let up = if in_scenarios {
                    path_parent(dir.as_str())
                } else {
                    None
                };
                Scenario::root_from(manifest_path, Some(dir), stem, up)
            },
        }
    }

    /// Project root of the scenario whose manifest is at `manifest_path`,
    /// given the manifest's directory `dir`, that directory's stem `stem`
    /// and, where the stem is `scenarios`, the directory above it `up`.
    pub fn root_from(manifest_path: &str, dir: Option<String>, stem: Option<String>, up: Option<String>) -> (res: Result<
        String,
    >)
        ensures
            match (res, root_from_spec(manifest_path@, opt_seq(dir), opt_seq(stem), opt_seq(up))) {
                (Ok(r), Ok(t)) => r@ == t,
                (Err(Error::Other(m)), Err(t)) => m@ == t,
                _ => false,
            },
    {
        let dir = match dir {
            Some(d) => d,
            None => {
                let mut m = string_of("unable to get parent of path: ");
                m.append(manifest_path);
                return Err(Error::Other(m));
            },
        };
        let stem = match stem {
            Some(s) => s,
            None => {
                let mut m = string_of("unable to get stem of path: ");
                m.append(manifest_path);
                return Err(Error::Other(m));
            },
        };
        if str_eq(stem.as_str(), crate::SCENARIOS_DIR_NAME) {
            match up {
                Some(u) => Ok(u),
                None => {
                    let mut m = string_of("unable to get parent of path: ");
                    m.append(manifest_path);
                    Err(Error::Other(m))
                },
            }
        } else {
            Ok(dir)
        }
    }

    /// Creates the scenario from its manifest, once the engine version
    /// `engine_version` is checked against the manifest's engine
    /// requirement. The scenario takes its name and module list from the
    /// manifest.
    pub fn from_manifest(scenario_manifest: ScenarioManifest, engine_version: &str) -> (res: Result<Scenario>)
        ensures
            match engine_error(scenario_manifest.engine@, engine_version@) {
                None => res matches Ok(s) && s.name == scenario_manifest.name
                    && s.manifest == scenario_manifest
                    && s.modules@ == scenario_manifest.mods@,
                Some((true, t)) => res matches Err(Error::SemverError(m)) && m@ == t,
                Some((false, t)) => res matches Err(Error::Other(m)) && m@ == t,
            },
    {
        let req_parsed = version_req_parse(scenario_manifest.engine.as_str());
        if req_parsed.is_err() {
            return Scenario::from_checked_manifest(scenario_manifest, req_parsed, None, false);
        }
        let version_error = version_parse_error(engine_version);
        if version_error.is_some() {
            return Scenario::from_checked_manifest(scenario_manifest, req_parsed, version_error, false);
        }
        let matches = version_req_matches(scenario_manifest.engine.as_str(), engine_version);
        Scenario::from_checked_manifest(scenario_manifest, req_parsed, version_error, matches)
    }

    /// Creates the scenario from its manifest, given the outcome of parsing
    /// the engine requirement, the error of parsing the engine version, and
    /// whether the version meets the requirement.
    pub fn from_checked_manifest(
        scenario_manifest: ScenarioManifest,
        req_parsed: core::result::Result<String, String>,
        version_error: Option<String>,
        matches: bool,
    ) -> (res: Result<Scenario>)
        ensures
            match engine_error_of(
                match req_parsed {
                    Ok(t) => Ok(t@),
                    Err(e) => Err(e@),
                },
                opt_seq(version_error),
                matches,
            ) {
                None => res matches Ok(s) && s.name == scenario_manifest.name
                    && s.manifest == scenario_manifest
                    && s.modules@ == scenario_manifest.mods@,
                Some((true, t)) => res matches Err(Error::SemverError(m)) && m@ == t,
                Some((false, t)) => res matches Err(Error::Other(m)) && m@ == t,
            },
    {
        match req_parsed {
            Err(e) => return Err(Error::SemverError(e)),
            Ok(_) => {},
        }
        match version_error {
            Some(e) => return Err(Error::SemverError(e)),
            None => {},
        }
        if !matches {
            return Err(Error::Other(string_of("engine version does not match module requirement")));
        }
        let name = scenario_manifest.name.clone();
        let modules = clone_reqs(&scenario_manifest.mods);
        Ok(Scenario { name, manifest: scenario_manifest, modules })
    }
}

fn clone_reqs(v: &Vec<ModuleReq>) -> (res: Vec<ModuleReq>)
    ensures
        res@ == v@,
{
    let mut out: Vec<ModuleReq> = Vec::new();
    let mut i: usize = 0;
    while i < v.len()
        invariant
            i <= v@.len(),
            out@ == v@.take(i as int),
        decreases v@.len() - i,
    {
        let r = &v[i];
        let git_address = match &r.git_address {
            Some(g) => Some(g.clone()),
            None => None,
        };
        out.push(ModuleReq { name: r.name.clone(), version_req: r.version_req.clone(), git_address });
        assert(out@ =~= v@.take(i + 1));
        i = i + 1;
    }
    assert(out@ =~= v@);
    out
}

} // verus!
