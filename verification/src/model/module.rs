//! Module manifests and modules.

use vstd::prelude::*;
use vstd::string::*;

use crate::map::VecMap;
use crate::model::deser;
use crate::model::toml_value::{
    all_strings, str_of, strings_of, strs_of, toml_text, toml_to_string, TomlValue,
};
use crate::model::{Model, ServiceModel};
use crate::text::{push_char, string_of, views};

verus! {

/// Fully processed representation of a module.
#[derive(Debug)]
pub struct Module {
    pub manifest: ModuleManifest,
    pub model: Model,
}

/// Module manifest model.
#[derive(Debug)]
pub struct ModuleManifest {
    /// Module name
    pub name: String,
    /// Module version
    pub version: String,
    /// Required engine version
    pub engine_version_req: String,
    /// Required engine features
    pub engine_features: Vec<String>,
    /// List of other module dependencies for this module
    pub dependencies: VecMap<String, ModuleDep>,
    /// List of required target addrs
    pub reqs: Vec<String>,
    pub libraries: Vec<ModuleLib>,
    pub services: Vec<ServiceModel>,
    /// Free-form module name
    pub title: Option<String>,
    /// Module description
    pub desc: Option<String>,
    /// Longer module description
    pub desc_long: Option<String>,
    /// Author information
    pub author: Option<String>,
    /// Website information
    pub website: Option<String>,
}

/// Module dependency on another module.
#[derive(Debug, Clone)]
pub struct ModuleDep {
    pub name: String,
    pub version_req: String,
    pub git_address: Option<String>,
}

/// Library declared by a module.
#[derive(Debug, Clone)]
pub struct ModuleLib {
    pub name: String,
    /// Path to dynamic library file relative to module root
    pub path: Option<String>,
    /// Path to buildable project
    pub project_path: Option<String>,
    /// Build the project in debug or release mode
    pub project_mode: Option<String>,
    pub project_features: Option<String>,
    pub project_inherit_features: bool,
    pub project_env: Option<String>,
}

/// Views of an optional string.
pub open spec fn ov(o: Option<String>) -> Option<Seq<char>> {
    match o {
        Some(s) => Some(s@),
        None => None,
    }
}

/// `None` for empty text, the text otherwise.
pub open spec fn nonempty(s: Seq<char>) -> Option<Seq<char>> {
    if s.len() == 0 {
        None
    } else {
        Some(s)
    }
}

pub(crate) fn nonempty_string(s: String) -> (res: Option<String>)
    ensures
        ov(res) == nonempty(s@),
{
    if s.unicode_len() == 0 {
        None
    } else {
        Some(s)
    }
}

/// The boolean held by a boolean value.
pub open spec fn bool_of(v: TomlValue) -> bool {
    match v {
        TomlValue::Boolean(b) => b,
        _ => false,
    }
}

/// Whether a key reads `lit`.
fn key_is(k: &String, lit: &str) -> (res: bool)
    ensures
        res == (k@ == lit@),
{
    crate::text::str_eq(k.as_str(), lit)
}

// ---- engine requirement ----------------------------------------------------

/// Effect of one entry of an engine table on the version requirement and
/// the feature list.
pub open spec fn engine_step(acc: (Seq<char>, Seq<Seq<char>>), e: (String, TomlValue)) -> (Seq<char>, Seq<Seq<char>>) {
    if e.0@ == "version"@ {
        (str_of(e.1), acc.1)
    } else if e.0@ == "features"@ {
        match e.1 {
            TomlValue::Array(a) => (acc.0, strs_of(a@)),
            _ => acc,
        }
    } else {
        acc
    }
}

/// Effect of the entries of an engine table, in order.
pub open spec fn engine_fold(s: Seq<(String, TomlValue)>, acc: (Seq<char>, Seq<Seq<char>>)) -> (Seq<char>, Seq<Seq<char>>)
    decreases s.len(),
{
    if s.len() == 0 {
        acc
    } else {
        engine_fold(s.drop_first(), engine_step(acc, s[0]))
    }
}

/// Version requirement and features that an engine entry names: a table
/// gives its `version` and `features` entries, a string is the requirement.
pub open spec fn engine_spec(v: TomlValue) -> (Seq<char>, Seq<Seq<char>>) {
    match v {
        TomlValue::Table(t) => engine_fold(t@, (Seq::empty(), Seq::empty())),
        TomlValue::String(s) => (s@, Seq::empty()),
        _ => (Seq::empty(), Seq::empty()),
    }
}

/// An engine table entry can be read: `version` is a string and `features`
/// an array of strings.
pub open spec fn engine_entry_ok(e: (String, TomlValue)) -> bool {
    &&& e.0@ == "version"@ ==> e.1 is String
    &&& e.0@ == "features"@ ==> (e.1 matches TomlValue::Array(a) && all_strings(a@))
}

/// An engine entry can be read.
pub open spec fn engine_ok(v: TomlValue) -> bool {
    match v {
        TomlValue::Table(t) => forall|i: int| 0 <= i < t@.len() ==> engine_entry_ok(#[trigger] t@[i]),
        _ => true,
    }
}

proof fn lemma_engine_entry_bad(t: Vec<(String, TomlValue)>, i: int)
    requires
        0 <= i < t@.len(),
        !engine_entry_ok(t@[i]),
    ensures
        !engine_ok(TomlValue::Table(t)),
{
    let v = TomlValue::Table(t);
    assert(v matches TomlValue::Table(u) && u == t);
    assert(!engine_entry_ok(t@[i]));
}

fn engine_from_value(v: &TomlValue) -> (res: (String, Vec<String>))
    requires
        engine_ok(*v),
    ensures
        (res.0@, views(res.1@)) == engine_spec(*v),
{
    let mut req = String::new();
    let mut features: Vec<String> = Vec::new();
    match v {
        TomlValue::Table(t) => {
            proof {
                reveal_strlit("version");
                reveal_strlit("features");
            }
            let mut i: usize = 0;
            assert(t@.subrange(0, t@.len() as int) =~= t@);
            assert(views(features@) =~= Seq::<Seq<char>>::empty());
            assert(engine_ok(TomlValue::Table(*t)));
            while i < t.len()
                invariant
                    forall|k: int| 0 <= k < t@.len() ==> engine_entry_ok(#[trigger] t@[k]),
                    *v == TomlValue::Table(*t),
                    i <= t@.len(),
                    engine_fold(t@, (Seq::empty(), Seq::empty())) == engine_fold(
                        t@.subrange(i as int, t@.len() as int),
                        (req@, views(features@)),
                    ),
                decreases t@.len() - i,
            {
                let e = &t[i];
                assert(engine_entry_ok((*t)@[i as int]));
                assert(t@.subrange(i as int, t@.len() as int).drop_first() =~= t@.subrange(i + 1, t@.len() as int));
                let ghost before = (req@, views(features@));
                if key_is(&e.0, "version") {
                    match &e.1 {
                        TomlValue::String(s) => {
                            req = s.clone();
                        },
                        _ => {},
                    }
                } else if key_is(&e.0, "features") {
                    match &e.1 {
                        TomlValue::Array(a) => {
                            features = strings_of(a);
                        },
                        _ => {},
                    }
                }
                assert((req@, views(features@)) == engine_step(before, t@[i as int]));
                i = i + 1;
            }
            assert(t@.subrange(t@.len() as int, t@.len() as int) =~= Seq::<(String, TomlValue)>::empty());
        },
        TomlValue::String(s) => {
            req = s.clone();
        },
        _ => {},
    }
    (req, features)
}

// ---- libraries --------------------------------------------------------------

/// Fields of a library declaration, as read so far.
pub struct LibSpec {
    pub path: Option<Seq<char>>,
    pub project_path: Option<Seq<char>>,
    pub project_mode: Option<Seq<char>>,
    pub project_features: Option<Seq<char>>,
    pub project_inherit_features: bool,
    pub project_env: Option<Seq<char>>,
}

/// A library declaration with no field given.
pub open spec fn lib_init() -> LibSpec {
    LibSpec {
        path: None,
        project_path: None,
        project_mode: None,
        project_features: None,
        project_inherit_features: false,
        project_env: None,
    }
}

/// Effect of one entry of a library's `project` table.
pub open spec fn project_step(acc: LibSpec, e: (String, TomlValue)) -> LibSpec {
    let k = e.0@;
    if k == "path"@ {
        LibSpec { project_path: Some(str_of(e.1)), ..acc }
    } else if k == "mode"@ {
        LibSpec { project_mode: Some(str_of(e.1)), ..acc }
    } else if k == "features"@ {
        LibSpec { project_features: Some(str_of(e.1)), ..acc }
    } else if k == "inherit-features"@ {
        LibSpec { project_inherit_features: bool_of(e.1), ..acc }
    } else if k == "env"@ {
        LibSpec { project_env: Some(str_of(e.1)), ..acc }
    } else {
        acc
    }
}

/// Effect of the entries of a `project` table, in order.
pub open spec fn project_fold(s: Seq<(String, TomlValue)>, acc: LibSpec) -> LibSpec
    decreases s.len(),
{
    if s.len() == 0 {
        acc
    } else {
        project_fold(s.drop_first(), project_step(acc, s[0]))
    }
}

/// Effect of one entry of a library table.
pub open spec fn lib_step(acc: LibSpec, e: (String, TomlValue)) -> LibSpec {
    let k = e.0@;
    if k == "path"@ || k == "library"@ {
        LibSpec { path: Some(str_of(e.1)), ..acc }
    } else if k == "project"@ {
        match e.1 {
            TomlValue::Table(t) => project_fold(t@, acc),
            _ => LibSpec { project_path: Some(str_of(e.1)), ..acc },
        }
    } else {
        acc
    }
}

/// Effect of the entries of a library table, in order.
pub open spec fn lib_fold(s: Seq<(String, TomlValue)>, acc: LibSpec) -> LibSpec
    decreases s.len(),
{
    if s.len() == 0 {
        acc
    } else {
        lib_fold(s.drop_first(), lib_step(acc, s[0]))
    }
}

proof fn lemma_lib_fold_push(s: Seq<(String, TomlValue)>, e: (String, TomlValue), acc: LibSpec)
    ensures
        lib_fold(s.push(e), acc) == lib_step(lib_fold(s, acc), e),
    decreases s.len(),
{
    if s.len() == 0 {
        assert(s.push(e)[0] == e);
        assert(s.push(e).drop_first() =~= Seq::<(String, TomlValue)>::empty());
        assert(lib_fold(s.push(e).drop_first(), lib_step(acc, e)) == lib_step(acc, e));
    } else {
        assert(s.push(e)[0] == s[0]);
        assert(s.push(e).drop_first() =~= s.drop_first().push(e));
        lemma_lib_fold_push(s.drop_first(), e, lib_step(acc, s[0]));
    }
}

/// The library path is set by the last `path` or `library` entry of a
/// library table: an entry with either key, added after any entries, makes
/// its string the path; an entry with any other key but `project` leaves
/// the library as it was.
pub proof fn lemma_lib_path_keys(t: Vec<(String, TomlValue)>, u: Vec<(String, TomlValue)>, e: (String, TomlValue))
    requires
        u@ == t@.push(e),
    ensures
        (e.0@ == "path"@ || e.0@ == "library"@) ==> lib_spec(TomlValue::Table(u)).path == Some(str_of(e.1)),
        (e.0@ == "path"@ || e.0@ == "library"@) ==> lib_spec(TomlValue::Table(u)).project_path == lib_spec(
            TomlValue::Table(t),
        ).project_path,
        (e.0@ != "path"@ && e.0@ != "library"@ && e.0@ != "project"@) ==> lib_spec(TomlValue::Table(u)) == lib_spec(
            TomlValue::Table(t),
        ),
{
    lemma_lib_fold_push(t@, e, lib_init());
}

/// Library that a library entry declares: a table gives its fields, a
/// string is the library path.
pub open spec fn lib_spec(v: TomlValue) -> LibSpec {
    match v {
        TomlValue::Table(t) => lib_fold(t@, lib_init()),
        TomlValue::String(s) => LibSpec { path: Some(s@), ..lib_init() },
        _ => lib_init(),
    }
}

/// A `project` table entry can be read: paths, mode, features and
/// environment are strings, `inherit-features` a boolean.
pub open spec fn project_entry_ok(e: (String, TomlValue)) -> bool {
    let k = e.0@;
    &&& (k == "path"@ || k == "mode"@ || k == "features"@ || k == "env"@) ==> e.1 is String
    &&& k == "inherit-features"@ ==> e.1 is Boolean
}

/// A library table entry can be read.
pub open spec fn lib_entry_ok(e: (String, TomlValue)) -> bool {
    let k = e.0@;
    &&& (k == "path"@ || k == "library"@) ==> e.1 is String
    &&& k == "project"@ ==> match e.1 {
        TomlValue::Table(t) => forall|i: int| 0 <= i < t@.len() ==> project_entry_ok(#[trigger] t@[i]),
        TomlValue::String(_) => true,
        _ => false,
    }
}

/// A library entry can be read.
pub open spec fn lib_ok(v: TomlValue) -> bool {
    match v {
        TomlValue::Table(t) => forall|i: int| 0 <= i < t@.len() ==> lib_entry_ok(#[trigger] t@[i]),
        _ => true,
    }
}

/// Library fields being read.
struct LibAcc {
    path: Option<String>,
    project_path: Option<String>,
    project_mode: Option<String>,
    project_features: Option<String>,
    project_inherit_features: bool,
    project_env: Option<String>,
}

impl LibAcc {
    spec fn view(self) -> LibSpec {
        LibSpec {
            path: ov(self.path),
            project_path: ov(self.project_path),
            project_mode: ov(self.project_mode),
            project_features: ov(self.project_features),
            project_inherit_features: self.project_inherit_features,
            project_env: ov(self.project_env),
        }
    }
}

fn string_in(v: &TomlValue) -> (res: String)
    requires
        v is String,
    ensures
        res@ == str_of(*v),
{
    match v {
        TomlValue::String(s) => s.clone(),
        _ => String::new(),
    }
}

fn apply_project(t: &Vec<(String, TomlValue)>, acc: &mut LibAcc)
    requires
        forall|i: int| 0 <= i < t@.len() ==> project_entry_ok(#[trigger] t@[i]),
    ensures
        final(acc).view() == project_fold(t@, old(acc).view()),
{
    proof {
        reveal_strlit("path");
        reveal_strlit("mode");
        reveal_strlit("features");
        reveal_strlit("inherit-features");
        reveal_strlit("env");
    }
    let ghost start = acc.view();
    let mut i: usize = 0;
    assert(t@.subrange(0, t@.len() as int) =~= t@);
    while i < t.len()
        invariant
            forall|k: int| 0 <= k < t@.len() ==> project_entry_ok(#[trigger] t@[k]),
            i <= t@.len(),
            project_fold(t@, start) == project_fold(t@.subrange(i as int, t@.len() as int), acc.view()),
        decreases t@.len() - i,
    {
        let e = &t[i];
        assert(project_entry_ok((*t)@[i as int]));
        assert(t@.subrange(i as int, t@.len() as int).drop_first() =~= t@.subrange(i + 1, t@.len() as int));
        let ghost before = acc.view();
        if key_is(&e.0, "path") {
            acc.project_path = Some(string_in(&e.1));
        } else if key_is(&e.0, "mode") {
            acc.project_mode = Some(string_in(&e.1));
        } else if key_is(&e.0, "features") {
            acc.project_features = Some(string_in(&e.1));
        } else if key_is(&e.0, "inherit-features") {
            match &e.1 {
                TomlValue::Boolean(b) => {
                    acc.project_inherit_features = *b;
                },
                _ => {},
            }
        } else if key_is(&e.0, "env") {
            acc.project_env = Some(string_in(&e.1));
        }
        assert(acc.view() == project_step(before, t@[i as int]));
        i = i + 1;
    }
    assert(t@.subrange(t@.len() as int, t@.len() as int) =~= Seq::<(String, TomlValue)>::empty());
}

fn lib_from_value(name: String, v: &TomlValue) -> (res: ModuleLib)
    requires
        lib_ok(*v),
    ensures
        lib_matches(res, name@, lib_spec(*v)),
{
    let mut acc = LibAcc {
        path: None,
        project_path: None,
        project_mode: None,
        project_features: None,
        project_inherit_features: false,
        project_env: None,
    };
    assert(acc.view() == lib_init());
    match v {
        TomlValue::Table(t) => {
            proof {
                reveal_strlit("path");
                reveal_strlit("library");
                reveal_strlit("project");
            }
            assert(lib_ok(TomlValue::Table(*t)));
            let mut i: usize = 0;
            assert(t@.subrange(0, t@.len() as int) =~= t@);
            while i < t.len()
                invariant
                    forall|k: int| 0 <= k < t@.len() ==> lib_entry_ok(#[trigger] t@[k]),
                    *v == TomlValue::Table(*t),
                    i <= t@.len(),
                    lib_fold(t@, lib_init()) == lib_fold(t@.subrange(i as int, t@.len() as int), acc.view()),
                decreases t@.len() - i,
            {
                let e = &t[i];
                assert(lib_entry_ok((*t)@[i as int]));
                assert(t@.subrange(i as int, t@.len() as int).drop_first() =~= t@.subrange(i + 1, t@.len() as int));
                let ghost before = acc.view();
                if key_is(&e.0, "path") || key_is(&e.0, "library") {
                    acc.path = Some(string_in(&e.1));
                } else if key_is(&e.0, "project") {
                    match &e.1 {
                        TomlValue::Table(pt) => {
                            apply_project(pt, &mut acc);
                        },
                        _ => {
                            acc.project_path = Some(string_in(&e.1));
                        },
                    }
                }
                assert(acc.view() == lib_step(before, t@[i as int]));
                i = i + 1;
            }
            assert(t@.subrange(t@.len() as int, t@.len() as int) =~= Seq::<(String, TomlValue)>::empty());
        },
        TomlValue::String(s) => {
            acc.path = Some(s.clone());
        },
        _ => {},
    }
    ModuleLib {
        name,
        path: acc.path,
        project_path: acc.project_path,
        project_mode: acc.project_mode,
        project_features: acc.project_features,
        project_inherit_features: acc.project_inherit_features,
        project_env: acc.project_env,
    }
}

/// A library declaration holds the given name and fields.
pub open spec fn lib_matches(l: ModuleLib, name: Seq<char>, s: LibSpec) -> bool {
    &&& l.name@ == name
    &&& ov(l.path) == s.path
    &&& ov(l.project_path) == s.project_path
    &&& ov(l.project_mode) == s.project_mode
    &&& ov(l.project_features) == s.project_features
    &&& l.project_inherit_features == s.project_inherit_features
    &&& ov(l.project_env) == s.project_env
}

// ---- services ---------------------------------------------------------------

/// Whether text can have its first and last character cut off as the
/// manifest reader does, by byte position: it has at least two
/// characters, and the first and the last are ASCII.
pub open spec fn strip_ok(s: Seq<char>) -> bool {
    s.len() >= 2 && (s[0] as u32) < 128 && (s.last() as u32) < 128
}

/// Text without its first and last character.
pub open spec fn strip(s: Seq<char>) -> Seq<char> {
    s.subrange(1, s.len() - 1)
}

/// Fields of a service declaration, as read so far.
pub struct SvcSpec {
    pub executable: Option<Seq<char>>,
    pub project: Option<Seq<char>>,
    pub args: Seq<Seq<char>>,
    pub output: Option<Seq<char>>,
}

/// A service declaration with no field given.
pub open spec fn svc_init() -> SvcSpec {
    SvcSpec { executable: None, project: None, args: Seq::empty(), output: None }
}

/// Path of an executable relative to the module directory.
pub open spec fn exec_path(dir: Seq<char>, rel: Seq<char>) -> Seq<char> {
    dir + "/"@ + rel
}

/// Effect of one entry of a service table: `executable` (or `path`) is
/// the module-relative path of the displayed value without its quotes,
/// `project` and `output` the displayed values, `args` an array of strings.
pub open spec fn service_step(dir: Seq<char>, acc: SvcSpec, e: (String, TomlValue)) -> SvcSpec {
    let k = e.0@;
    if k == "type"@ || k == "type_"@ || k == "policy"@ {
        acc
    } else if k == "executable"@ || k == "path"@ {
        SvcSpec { executable: Some(exec_path(dir, strip(toml_text(e.1)))), ..acc }
    } else if k == "project"@ {
        SvcSpec { project: Some(toml_text(e.1)), ..acc }
    } else if k == "args"@ {
        match e.1 {
            TomlValue::Array(a) => SvcSpec { args: strs_of(a@), ..acc },
            _ => acc,
        }
    } else if k == "output"@ {
        SvcSpec { output: Some(toml_text(e.1)), ..acc }
    } else {
        acc
    }
}

/// Effect of the entries of a service table, in order.
pub open spec fn service_fold(dir: Seq<char>, s: Seq<(String, TomlValue)>, acc: SvcSpec) -> SvcSpec
    decreases s.len(),
{
    if s.len() == 0 {
        acc
    } else {
        service_fold(dir, s.drop_first(), service_step(dir, acc, s[0]))
    }
}

/// Service that a service entry declares: a table gives its fields, a
/// string the executable path, without its first and last character.
pub open spec fn service_spec(dir: Seq<char>, v: TomlValue) -> SvcSpec {
    match v {
        TomlValue::Table(t) => service_fold(dir, t@, svc_init()),
        TomlValue::String(s) => SvcSpec { executable: Some(exec_path(dir, strip(s@))), ..svc_init() },
        _ => svc_init(),
    }
}

/// A service table entry can be read.
pub open spec fn service_entry_ok(e: (String, TomlValue)) -> bool {
    let k = e.0@;
    &&& (k == "executable"@ || k == "path"@) ==> strip_ok(toml_text(e.1))
    &&& k == "args"@ ==> match e.1 {
        TomlValue::Array(a) => all_strings(a@),
        _ => true,
    }
}

/// A service entry can be read.
pub open spec fn service_ok(v: TomlValue) -> bool {
    match v {
        TomlValue::Table(t) => forall|i: int| 0 <= i < t@.len() ==> service_entry_ok(#[trigger] t@[i]),
        TomlValue::String(s) => strip_ok(s@),
        _ => true,
    }
}

/// A service model holds the given name and fields, with no type, and is
/// managed.
pub open spec fn service_matches(m: ServiceModel, name: Seq<char>, s: SvcSpec) -> bool {
    &&& m.name@ == name
    &&& m.type_ is None
    &&& m.type_args is None
    &&& ov(m.executable) == s.executable
    &&& ov(m.project) == s.project
    &&& m.managed
    &&& views(m.args@) == s.args
    &&& ov(m.output) == s.output
}

/// Cuts off the first and the last character.
fn strip_string(s: &str) -> (res: String)
    requires
        strip_ok(s@),
    ensures
        res@ == strip(s@),
{
    let n = s.unicode_len();
    string_of(s.substring_char(1, n - 1))
}

fn exec_path_string(dir: &str, rel: String) -> (res: String)
    ensures
        res@ == exec_path(dir@, rel@),
{
    let mut out = string_of(dir);
    out.append("/");
    out.append(rel.as_str());
    out
}

struct SvcAcc {
    executable: Option<String>,
    project: Option<String>,
    args: Vec<String>,
    output: Option<String>,
}

impl SvcAcc {
    spec fn view(self) -> SvcSpec {
        SvcSpec {
            executable: ov(self.executable),
            project: ov(self.project),
            args: views(self.args@),
            output: ov(self.output),
        }
    }
}

fn service_from_value(dir: &str, name: String, v: &TomlValue) -> (res: ServiceModel)
    requires
        service_ok(*v),
    ensures
        service_matches(res, name@, service_spec(dir@, *v)),
{
    let mut acc = SvcAcc { executable: None, project: None, args: Vec::new(), output: None };
    assert(views(acc.args@) =~= Seq::<Seq<char>>::empty());
    assert(acc.view() == svc_init());
    match v {
        TomlValue::Table(t) => {
            proof {
                reveal_strlit("type");
                reveal_strlit("type_");
                reveal_strlit("policy");
                reveal_strlit("executable");
                reveal_strlit("path");
                reveal_strlit("project");
                reveal_strlit("args");
                reveal_strlit("output");
            }
            assert(service_ok(TomlValue::Table(*t)));
            let mut i: usize = 0;
            assert(t@.subrange(0, t@.len() as int) =~= t@);
            while i < t.len()
                invariant
                    forall|k: int| 0 <= k < t@.len() ==> service_entry_ok(#[trigger] t@[k]),
                    *v == TomlValue::Table(*t),
                    i <= t@.len(),
                    service_fold(dir@, t@, svc_init()) == service_fold(
                        dir@,
                        t@.subrange(i as int, t@.len() as int),
                        acc.view(),
                    ),
                decreases t@.len() - i,
            {
                let e = &t[i];
                assert(service_entry_ok((*t)@[i as int]));
                assert(t@.subrange(i as int, t@.len() as int).drop_first() =~= t@.subrange(i + 1, t@.len() as int));
                let ghost before = acc.view();
                if key_is(&e.0, "type") || key_is(&e.0, "type_") || key_is(&e.0, "policy") {
                } else if key_is(&e.0, "executable") || key_is(&e.0, "path") {
                    let shown = toml_to_string(&e.1);
                    acc.executable = Some(exec_path_string(dir, strip_string(shown.as_str())));
                } else if key_is(&e.0, "project") {
                    acc.project = Some(toml_to_string(&e.1));
                } else if key_is(&e.0, "args") {
                    match &e.1 {
                        TomlValue::Array(a) => {
                            acc.args = strings_of(a);
                        },
                        _ => {},
                    }
                } else if key_is(&e.0, "output") {
                    acc.output = Some(toml_to_string(&e.1));
                }
                assert(acc.view() == service_step(dir@, before, t@[i as int]));
                i = i + 1;
            }
            assert(t@.subrange(t@.len() as int, t@.len() as int) =~= Seq::<(String, TomlValue)>::empty());
        },
        TomlValue::String(s) => {
            acc.executable = Some(exec_path_string(dir, strip_string(s.as_str())));
        },
        _ => {},
    }
    ServiceModel {
        name,
        type_: None,
        type_args: None,
        executable: acc.executable,
        project: acc.project,
        managed: true,
        args: acc.args,
        output: acc.output,
    }
}

// ---- manifest ---------------------------------------------------------------

/// A deserialized module manifest can be read without failing.
pub open spec fn manifest_ok(m: deser::ModuleManifest) -> bool {
    &&& engine_ok(m._mod.engine)
    &&& forall|i: int| 0 <= i < m.libraries.entries().len() ==> lib_ok(#[trigger] m.libraries.entries()[i].1)
    &&& forall|i: int| 0 <= i < m.services.entries().len() ==> service_ok(#[trigger] m.services.entries()[i].1)
}

/// The module manifest read from a deserialized manifest found in the
/// directory `dir`: the module's name and version, the engine requirement
/// and features, no dependencies, the requirements as given, a library
/// and a service per entry in the order they are held, and the optional
/// texts, absent when empty.
pub open spec fn manifest_from_deser(dir: Seq<char>, m: deser::ModuleManifest, r: ModuleManifest) -> bool {
    &&& r.name == m._mod.name
    &&& r.version == m._mod.version
    &&& r.engine_version_req@ == engine_spec(m._mod.engine).0
    &&& views(r.engine_features@) == engine_spec(m._mod.engine).1
    &&& r.dependencies@.len() == 0
    &&& r.reqs@ == m.reqs@
    &&& r.libraries@.len() == m.libraries.entries().len()
    &&& forall|i: int| 0 <= i < r.libraries@.len() ==> lib_matches(#[trigger] r.libraries@[i], m.libraries.entries()[i].0@, lib_spec(m.libraries.entries()[i].1))
    &&& r.services@.len() == m.services.entries().len()
    &&& forall|i: int| 0 <= i < r.services@.len() ==> service_matches(#[trigger] r.services@[i], m.services.entries()[i].0@, service_spec(dir, m.services.entries()[i].1))
    &&& ov(r.title) == nonempty(m._mod.title@)
    &&& ov(r.desc) == nonempty(m._mod.desc@)
    &&& ov(r.desc_long) == nonempty(m._mod.desc_long@)
    &&& ov(r.author) == nonempty(m._mod.author@)
    &&& ov(r.website) == nonempty(m._mod.website@)
}

impl ModuleManifest {
    /// Creates the module manifest from its deserialized form, as found in
    /// the module directory at `dir_path`.
    pub fn from_deser(dir_path: &str, deser_manifest: deser::ModuleManifest) -> (res: Self)
        requires
            manifest_ok(deser_manifest),
        ensures
            manifest_from_deser(dir_path@, deser_manifest, res),
    {
        let ghost m = deser_manifest;
        let (engine_version_req, engine_features) = engine_from_value(&deser_manifest._mod.engine);
        let mut libs: Vec<ModuleLib> = Vec::new();
        let n = deser_manifest.libraries.len();
        let mut i: usize = 0;
        while i < n
            invariant
                m == deser_manifest,
                n == m.libraries.entries().len(),
                forall|k: int| 0 <= k < n ==> lib_ok(#[trigger] m.libraries.entries()[k].1),
                i <= n,
                libs@.len() == i,
                forall|k: int| 0 <= k < i ==> lib_matches(#[trigger] libs@[k], m.libraries.entries()[k].0@, lib_spec(m.libraries.entries()[k].1)),
            decreases n - i,
        {
            let e = deser_manifest.libraries.entry(i);
            assert(lib_ok(m.libraries.entries()[i as int].1));
            libs.push(lib_from_value(e.0.clone(), &e.1));
            i = i + 1;
        }
        let mut services: Vec<ServiceModel> = Vec::new();
        let n = deser_manifest.services.len();
        let mut i: usize = 0;
        while i < n
            invariant
                m == deser_manifest,
                n == m.services.entries().len(),
                forall|k: int| 0 <= k < n ==> service_ok(#[trigger] m.services.entries()[k].1),
                i <= n,
                services@.len() == i,
                forall|k: int| 0 <= k < i ==> service_matches(#[trigger] services@[k], m.services.entries()[k].0@, service_spec(dir_path@, m.services.entries()[k].1)),
            decreases n - i,
        {
            let e = deser_manifest.services.entry(i);
            assert(service_ok(m.services.entries()[i as int].1));
            services.push(service_from_value(dir_path, e.0.clone(), &e.1));
            i = i + 1;
        }
        let deser::ModuleManifest { _mod, dependencies, reqs, libraries, services: _ } = deser_manifest;
        let deser::ModuleManifestMod { name, version, engine, title, desc, desc_long, author, website } = _mod;
        ModuleManifest {
            name,
            engine_version_req,
            engine_features,
            version,
            dependencies: VecMap::new(),
            reqs,
            libraries: libs,
            services,
            title: nonempty_string(title),
            desc: nonempty_string(desc),
            desc_long: nonempty_string(desc_long),
            author: nonempty_string(author),
            website: nonempty_string(website),
        }
    }

    /// Creates the module manifest from its deserialized form when it can be
    /// read; `None` when an entry does not have the form it must have.
    pub fn try_from_deser(dir_path: &str, deser_manifest: deser::ModuleManifest) -> (res: Option<Self>)
        ensures
            res is Some <==> manifest_ok(deser_manifest),
            res matches Some(r) ==> manifest_from_deser(dir_path@, deser_manifest, r),
    {
        if manifest_is_ok(&deser_manifest) {
            Some(Self::from_deser(dir_path, deser_manifest))
        } else {
            None
        }
    }
}

fn is_ascii_char(c: char) -> (res: bool)
    ensures
        res == ((c as u32) < 128),
{
    (c as u32) < 128
}

fn strip_is_ok(s: &str) -> (res: bool)
    ensures
        res == strip_ok(s@),
{
    let n = s.unicode_len();
    n >= 2 && is_ascii_char(s.get_char(0)) && is_ascii_char(s.get_char(n - 1))
}

fn is_string_value(v: &TomlValue) -> (res: bool)
    ensures
        res == (*v is String),
{
    match v {
        TomlValue::String(_) => true,
        _ => false,
    }
}

fn is_bool_value(v: &TomlValue) -> (res: bool)
    ensures
        res == (*v is Boolean),
{
    match v {
        TomlValue::Boolean(_) => true,
        _ => false,
    }
}

fn all_strings_check(a: &Vec<TomlValue>) -> (res: bool)
    ensures
        res == all_strings(a@),
{
    let mut i: usize = 0;
    while i < a.len()
        invariant
            i <= a@.len(),
            forall|k: int| 0 <= k < i ==> (#[trigger] a@[k]) is String,
        decreases a@.len() - i,
    {
        match &a[i] {
            TomlValue::String(_) => {},
            _ => return false,
        }
        i = i + 1;
    }
    true
}

fn engine_is_ok(v: &TomlValue) -> (res: bool)
    ensures
        res == engine_ok(*v),
{
    match v {
        TomlValue::Table(t) => {
            let mut i: usize = 0;
            while i < t.len()
                invariant
                    *v == TomlValue::Table(*t),
                    i <= t@.len(),
                    forall|k: int| 0 <= k < i ==> engine_entry_ok(#[trigger] t@[k]),
                decreases t@.len() - i,
            {
                let e = &t[i];
                if key_is(&e.0, "version") {
                    if !is_string_value(&e.1) {
                        proof { lemma_engine_entry_bad(*t, i as int); }
                        return false;
                    }
                }
                if key_is(&e.0, "features") {
                    match &e.1 {
                        TomlValue::Array(a) => {
                            if !all_strings_check(a) {
                                proof { lemma_engine_entry_bad(*t, i as int); }
                                return false;
                            }
                        },
                        _ => {
                            proof { lemma_engine_entry_bad(*t, i as int); }
                            return false;
                        },
                    }
                }
                i = i + 1;
            }
            true
        },
        _ => true,
    }
}

fn project_entries_ok(t: &Vec<(String, TomlValue)>) -> (res: bool)
    ensures
        res == forall|i: int| 0 <= i < t@.len() ==> project_entry_ok(#[trigger] t@[i]),
{
    let mut i: usize = 0;
    while i < t.len()
        invariant
            i <= t@.len(),
            forall|k: int| 0 <= k < i ==> project_entry_ok(#[trigger] t@[k]),
        decreases t@.len() - i,
    {
        let e = &t[i];
        if key_is(&e.0, "path") || key_is(&e.0, "mode") || key_is(&e.0, "features") || key_is(&e.0, "env") {
            if !is_string_value(&e.1) {
                assert(!project_entry_ok((*t)@[i as int]));
                return false;
            }
        }
        if key_is(&e.0, "inherit-features") {
            if !is_bool_value(&e.1) {
                assert(!project_entry_ok((*t)@[i as int]));
                return false;
            }
        }
        i = i + 1;
    }
    true
}

proof fn lemma_lib_entry_bad(t: Vec<(String, TomlValue)>, i: int)
    requires
        0 <= i < t@.len(),
        !lib_entry_ok(t@[i]),
    ensures
        !lib_ok(TomlValue::Table(t)),
{
    let v = TomlValue::Table(t);
    assert(v matches TomlValue::Table(u) && u == t);
    assert(!lib_entry_ok(t@[i]));
}

fn lib_is_ok(v: &TomlValue) -> (res: bool)
    ensures
        res == lib_ok(*v),
{
    match v {
        TomlValue::Table(t) => {
            let mut i: usize = 0;
            while i < t.len()
                invariant
                    *v == TomlValue::Table(*t),
                    i <= t@.len(),
                    forall|k: int| 0 <= k < i ==> lib_entry_ok(#[trigger] t@[k]),
                decreases t@.len() - i,
            {
                let e = &t[i];
                if key_is(&e.0, "path") || key_is(&e.0, "library") {
                    if !is_string_value(&e.1) {
                        proof { lemma_lib_entry_bad(*t, i as int); }
                        return false;
                    }
                }
                if key_is(&e.0, "project") {
                    match &e.1 {
                        TomlValue::Table(pt) => {
                            if !project_entries_ok(pt) {
                                proof { lemma_lib_entry_bad(*t, i as int); }
                                return false;
                            }
                        },
                        TomlValue::String(_) => {},
                        _ => {
                            proof { lemma_lib_entry_bad(*t, i as int); }
                            return false;
                        },
                    }
                }
                i = i + 1;
            }
            true
        },
        _ => true,
    }
}

proof fn lemma_service_entry_bad(t: Vec<(String, TomlValue)>, i: int)
    requires
        0 <= i < t@.len(),
        !service_entry_ok(t@[i]),
    ensures
        !service_ok(TomlValue::Table(t)),
{
    let v = TomlValue::Table(t);
    assert(v matches TomlValue::Table(u) && u == t);
    assert(!service_entry_ok(t@[i]));
}

fn service_is_ok(v: &TomlValue) -> (res: bool)
    ensures
        res == service_ok(*v),
{
    match v {
        TomlValue::Table(t) => {
            let mut i: usize = 0;
            while i < t.len()
                invariant
                    *v == TomlValue::Table(*t),
                    i <= t@.len(),
                    forall|k: int| 0 <= k < i ==> service_entry_ok(#[trigger] t@[k]),
                decreases t@.len() - i,
            {
                let e = &t[i];
                if key_is(&e.0, "executable") || key_is(&e.0, "path") {
                    let shown = toml_to_string(&e.1);
                    if !strip_is_ok(shown.as_str()) {
                        proof { lemma_service_entry_bad(*t, i as int); }
                        return false;
                    }
                }
                if key_is(&e.0, "args") {
                    match &e.1 {
                        TomlValue::Array(a) => {
                            if !all_strings_check(a) {
                                proof { lemma_service_entry_bad(*t, i as int); }
                                return false;
                            }
                        },
                        _ => {},
                    }
                }
                i = i + 1;
            }
            true
        },
        TomlValue::String(s) => strip_is_ok(s.as_str()),
        _ => true,
    }
}

fn manifest_is_ok(m: &deser::ModuleManifest) -> (res: bool)
    ensures
        res == manifest_ok(*m),
{
    if !engine_is_ok(&m._mod.engine) {
        return false;
    }
    let n = m.libraries.len();
    let mut i: usize = 0;
    while i < n
        invariant
            n == m.libraries.entries().len(),
            i <= n,
            forall|k: int| 0 <= k < i ==> lib_ok(#[trigger] m.libraries.entries()[k].1),
        decreases n - i,
    {
        if !lib_is_ok(&m.libraries.entry(i).1) {
            return false;
        }
        i = i + 1;
    }
    let n = m.services.len();
    let mut i: usize = 0;
    while i < n
        invariant
            n == m.services.entries().len(),
            i <= n,
            forall|k: int| 0 <= k < i ==> service_ok(#[trigger] m.services.entries()[k].1),
        decreases n - i,
    {
        if !service_is_ok(&m.services.entry(i).1) {
            return false;
        }
        i = i + 1;
    }
    true
}

} // verus!
