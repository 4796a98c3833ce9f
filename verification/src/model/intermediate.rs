//! Intermediate model representation. It's existence is predicated by the
//! need to resolve differences between the readily deserializable file
//! structure and the regular model representation.

use vstd::prelude::*;

use crate::map::{Key, VecMap};
use vstd::string::*;

use crate::text::{string_of, views};
use crate::StringId;

verus! {

/// Intermediate model, as read from the model files.
#[derive(Debug)]
pub struct Model {
    pub meta: Meta,
    pub dependencies: VecMap<String, Dependency>,
    pub scenarios: Vec<Scenario>,
    pub behaviors: Vec<Behavior>,
    pub components: Vec<Component>,
    pub data: VecMap<String, String>,
}

/// Model metadata.
#[derive(Debug, Clone)]
pub struct Meta {
    pub name: Option<String>,
    pub description: Option<String>,
    pub author: Option<String>,
    /// Paths of further model files to file_path
    pub includes: Vec<String>,
}

impl Meta {
    /// Merges another `Meta` into `self`: fields missing from `self` are taken
    /// from `other`, and the includes of `other` follow those of `self`.
    pub fn merge(&mut self, other: Meta)
        ensures
            final(self).name == (if old(self).name is Some { old(self).name } else { other.name }),
            final(self).description == (if old(self).description is Some {
                old(self).description
            } else {
                other.description
            }),
            final(self).author == (if old(self).author is Some { old(self).author } else { other.author }),
            final(self).includes@ == old(self).includes@ + other.includes@,
    {
        let mut other = other;
        if self.name.is_none() {
            self.name = other.name;
        }
        if self.description.is_none() {
            self.description = other.description;
        }
        if self.author.is_none() {
            self.author = other.author;
        }
        self.includes.append(&mut other.includes);
    }
}

impl Model {
    /// Merges another intermediate model into `self`: metadata as
    /// `Meta::merge` does, scenarios, behaviors and components appended,
    /// data entries of `other` added, replacing those of the same key.
    /// Dependencies of `other` are not taken.
    pub fn merge(&mut self, other: Model)
        ensures
            final(self).meta.name == (if old(self).meta.name is Some {
                old(self).meta.name
            } else {
                other.meta.name
            }),
            final(self).meta.description == (if old(self).meta.description is Some {
                old(self).meta.description
            } else {
                other.meta.description
            }),
            final(self).meta.author == (if old(self).meta.author is Some {
                old(self).meta.author
            } else {
                other.meta.author
            }),
            final(self).meta.includes@ == old(self).meta.includes@ + other.meta.includes@,
            final(self).dependencies@ == old(self).dependencies@,
            final(self).scenarios@ == old(self).scenarios@ + other.scenarios@,
            final(self).behaviors@ == old(self).behaviors@ + other.behaviors@,
            final(self).components@ == old(self).components@ + other.components@,
            final(self).data@ == old(self).data@.union_prefer_right(other.data@),
    {
        let Model { meta, dependencies, scenarios, behaviors, components, data } = other;
        let mut scenarios = scenarios;
        let mut behaviors = behaviors;
        let mut components = components;
        self.meta.merge(meta);
        self.scenarios.append(&mut scenarios);
        self.behaviors.append(&mut behaviors);
        self.components.append(&mut components);
        let ghost other_data = data@;
        let ghost after_meta = self.meta;
        let ghost after_deps = self.dependencies;
        let ghost after_scenarios = self.scenarios@;
        let ghost after_behaviors = self.behaviors@;
        let ghost after_components = self.components@;
        let entries = data.into_entries();
        let ghost es = entries@;
        let ghost start = self.data@;
        let mut i: usize = 0;
        let mut entries = entries;
        let mut rest: Vec<(String, String)> = Vec::new();
        proof {
            crate::map::lemma_map_of(es);
        }
        while i < entries.len()
            invariant
                entries@ == es,
                other_data == crate::map::map_of(es),
                crate::map::distinct_keys(es),
                i <= es.len(),
                self.meta == after_meta,
                self.dependencies == after_deps,
                self.scenarios@ == after_scenarios,
                self.behaviors@ == after_behaviors,
                self.components@ == after_components,
                self.data@ == start.union_prefer_right(crate::map::map_of(es.subrange(0, i as int))),
            decreases es.len() - i,
        {
            let (k, v) = (entries[i].0.clone(), entries[i].1.clone());
            let ghost before = self.data@;
            self.data.insert(k, v);
            proof {
                let t = es.subrange(0, i + 1);
                assert(t.drop_last() =~= es.subrange(0, i as int));
                assert(crate::map::map_of(t) == crate::map::map_of(es.subrange(0, i as int)).insert(es[i as int].0@, es[i as int].1));
                assert(self.data@ =~= start.union_prefer_right(crate::map::map_of(t)));
            }
            i = i + 1;
        }
        assert(es.subrange(0, es.len() as int) =~= es);
    }
}

/// Dependency of a model on another model.
#[derive(Debug, Clone)]
pub struct Dependency {
    pub path: Option<String>,
    pub git: Option<String>,
    pub version: Option<String>,
}

/// Scenario as declared in model files; data values are held as their JSON
/// text.
#[derive(Debug)]
pub struct Scenario {
    pub name: String,
    pub data: VecMap<String, String>,
}

/// Behavior as declared in model files.
#[derive(Debug, Clone)]
pub struct Behavior {
    pub name: String,
    pub type_: String,
    pub path: String,
    pub entry: String,
    pub lib: String,
}

/// Component as declared in model files; variable values are held as their
/// JSON text.
#[derive(Debug)]
pub struct Component {
    pub name: StringId,
    pub vars: VecMap<StringId, String>,
}

/// Scenario data value.
#[derive(Debug)]
pub enum ScenarioData {
    Number(i32),
    String(String),
    Table(VecMap<String, String>),
    Csv(String),
}

/// Data entry.
#[derive(Debug, Clone)]
pub struct DataEntry {}

/// Path `path` taken relative to the directory `base`, as
/// `std::path::Path::join` forms it with `/` separators: an absolute
/// `path` replaces `base`; otherwise `path` is appended, after a `/`
/// unless `base` is empty or already ends in one.
pub open spec fn path_join_spec(base: Seq<char>, path: Seq<char>) -> Seq<char> {
    if path.len() > 0 && path[0] == '/' {
        path
    } else if base.len() > 0 && base.last() != '/' {
        base + seq!['/'] + path
    } else {
        base + path
    }
}

/// Joins `path` onto the directory `base`.
pub fn path_join(base: &str, path: &str) -> (res: String)
    ensures
        res@ == path_join_spec(base@, path@),
{
    let plen = path.unicode_len();
    let blen = base.unicode_len();
    if plen > 0 && path.get_char(0) == '/' {
        return string_of(path);
    }
    let mut out = string_of(base);
    if blen > 0 && base.get_char(blen - 1) != '/' {
        out.append("/");
        proof {
            reveal_strlit("/");
        }
    }
    out.append(path);
    out
}

/// The includes of a model file, made relative to the directory `parent`
/// of that file.
pub open spec fn normalized_includes(parent: Seq<char>, includes: Seq<String>) -> Seq<Seq<char>> {
    views(includes).map_values(|i: Seq<char>| path_join_spec(parent, i))
}

/// What merging the model read from the file at `file_path` does to the
/// walk: the file's includes, made relative to the file's directory, are
/// queued after the paths already queued and stand in the merged metadata
/// in that form; scenarios, behaviors and components are appended, data is
/// merged with the file's entries winning, and the metadata fields that are
/// still unset are taken from the file.
pub open spec fn absorbed(pre: IncludeWalk, post: IncludeWalk, file_path: Seq<char>, file_model: Model) -> bool {
    let parent = crate::model::scenario::path_parent_spec(file_path)->Some_0;
    &&& post.to_include@.len() == pre.to_include@.len() + file_model.meta.includes@.len()
    &&& post.to_include@.subrange(0, pre.to_include@.len() as int) == pre.to_include@
    &&& views(post.to_include@.subrange(pre.to_include@.len() as int, post.to_include@.len() as int))
        == normalized_includes(parent, file_model.meta.includes@)
    &&& post.model.scenarios@ == pre.model.scenarios@ + file_model.scenarios@
    &&& post.model.behaviors@ == pre.model.behaviors@ + file_model.behaviors@
    &&& post.model.components@ == pre.model.components@ + file_model.components@
    &&& post.model.data@ == pre.model.data@.union_prefer_right(file_model.data@)
    &&& post.model.dependencies@ == pre.model.dependencies@
    &&& post.model.meta.name == (if pre.model.meta.name is Some { pre.model.meta.name } else { file_model.meta.name })
    &&& post.model.meta.description == (if pre.model.meta.description is Some {
        pre.model.meta.description
    } else {
        file_model.meta.description
    })
    &&& post.model.meta.author == (if pre.model.meta.author is Some { pre.model.meta.author } else { file_model.meta.author })
    &&& views(post.model.meta.includes@) == views(pre.model.meta.includes@) + normalized_includes(parent, file_model.meta.includes@)
}

/// Walk over the files that a model includes: the model merged so far and
/// the paths still to read, the last of which is read next.
#[derive(Debug)]
pub struct IncludeWalk {
    pub model: Model,
    pub to_include: Vec<String>,
}

impl IncludeWalk {
    /// Starts the walk at the model manifest: its includes are to be read.
    pub fn new(manifest: Model) -> (res: Self)
        ensures
            res.to_include@ == manifest.meta.includes@,
            res.model == manifest,
    {
        let to_include = manifest.meta.includes.clone();
        assert(to_include@ =~= manifest.meta.includes@);
        IncludeWalk { model: manifest, to_include }
    }

    /// The path of the next file to read, taken off the paths to read; the
    /// most recently found file_path is read first.
    pub fn next_file(&mut self) -> (res: Option<String>)
        ensures
            old(self).to_include@.len() == 0 ==> res is None && final(self).to_include@.len() == 0,
            old(self).to_include@.len() > 0 ==> res == Some(old(self).to_include@.last())
                && final(self).to_include@ == old(self).to_include@.drop_last(),
            final(self).model == old(self).model,
    {
        self.to_include.pop()
    }

    /// Merges the model read from the file at `file_path` into the walk: its
    /// own includes, made relative to that file's directory, are to be read
    /// too, and stand in the merged metadata in that form. The file's path
    /// must have a parent directory.
    pub fn absorb_file(&mut self, file_path: &str, file_model: Model)
        requires
            crate::model::scenario::path_parent_spec(file_path@) is Some,
        ensures
            absorbed(*old(self), *final(self), file_path@, file_model),
    {
        let parent = match crate::model::scenario::path_parent(file_path) {
            Some(p) => p,
            None => String::new(),
        };
        let mut file_model = file_model;
        let ghost inc = file_model.meta.includes@;
        let mut normalized: Vec<String> = Vec::new();
        let mut i: usize = 0;
        while i < file_model.meta.includes.len()
            invariant
                file_model.meta.includes@ == inc,
                i <= inc.len(),
                normalized@.len() == i,
                forall|j: int| 0 <= j < i ==> #[trigger] normalized@[j]@ == path_join_spec(parent@, inc[j]@),
            decreases inc.len() - i,
        {
            normalized.push(path_join(parent.as_str(), file_model.meta.includes[i].as_str()));
            i = i + 1;
        }
        assert(views(normalized@) =~= normalized_includes(parent@, inc));
        let queued = normalized.clone();
        assert(queued@ =~= normalized@);
        file_model.meta.includes = normalized;
        let ghost before = self.to_include@;
        let mut queued = queued;
        self.to_include.append(&mut queued);
        assert(self.to_include@.subrange(0, before.len() as int) =~= before);
        assert(self.to_include@.subrange(before.len() as int, self.to_include@.len() as int) =~= normalized@);
        let ghost old_includes = self.model.meta.includes@;
        self.model.merge(file_model);
        assert(views(self.model.meta.includes@) =~= views(old_includes) + views(normalized@));
    }

    /// Merges the model read from the file at `file_path` into the walk, as
    /// `absorb_file` does, when the path has a parent directory; returns
    /// whether it did, and leaves the walk unchanged when it did not.
    pub fn try_absorb_file(&mut self, file_path: &str, file_model: Model) -> (res: bool)
        ensures
            res == (crate::model::scenario::path_parent_spec(file_path@) is Some),
            !res ==> *final(self) == *old(self),
            res ==> absorbed(*old(self), *final(self), file_path@, file_model),
    {
        match crate::model::scenario::path_parent(file_path) {
            Some(_) => {
                self.absorb_file(file_path, file_model);
                true
            },
            None => false,
        }
    }
}

} // verus!
