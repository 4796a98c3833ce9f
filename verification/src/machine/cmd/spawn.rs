//! `spawn` command: spawns an entity from a prefab.

use vstd::prelude::*;

use crate::machine::{Error, ErrorKind, LocationInfo, Result};
use crate::text::{string_of, views};
use crate::{string, StringId};

verus! {

/// Outcome of reading command arguments with `getopts`, with one option
/// `-o`/`--out` taking a value: the free arguments and the value of the
/// option, or the text of the failure.
pub uninterp spec fn getopts_out_parse(args: Seq<Seq<char>>) -> core::result::Result<
    (Seq<Seq<char>>, Option<Seq<char>>),
    Seq<char>,
>;

/// Reads arguments with `getopts::Options::parse`, the options holding
/// `optopt("o", "out", "", "")`, and takes the free arguments and
/// `Matches::opt_str("out")`; a failure is turned into its display text.
///
/// The outcome is named by `getopts_out_parse`. The crate's source only
/// pushes given arguments to the free list, so there are no more free
/// arguments than given ones; nothing else is claimed.
#[verifier::external_body]
fn getopts_parse_out(args: &Vec<String>) -> (res: core::result::Result<(Vec<String>, Option<String>), String>)
    ensures
        match (res, getopts_out_parse(views(args@))) {
            (Ok((free, out)), Ok((f, o))) => views(free@) == f && free@.len() <= args@.len()
                && match (out, o) {
                (Some(a), Some(b)) => a@ == b,
                (None, None) => true,
                _ => false,
            },
            (Err(e), Err(t)) => e@ == t,
            _ => false,
        },
{
    let mut opts = getopts::Options::new();
    opts.optopt("o", "out", "", "");
    match opts.parse(args) {
        Ok(m) => Ok((m.free.clone(), m.opt_str("out"))),
        Err(e) => Err(e.to_string()),
    }
}

/// Spawn
#[derive(Debug)]
pub struct Spawn {
    pub prefab: Option<StringId>,
    pub spawn_id: Option<StringId>,
    /// Address to write the spawned entity's name to
    pub out: Option<String>,
}

impl Clone for Spawn {
    fn clone(&self) -> (res: Self)
        ensures
            res == *self,
    {
        Spawn { prefab: self.prefab.clone(), spawn_id: self.spawn_id.clone(), out: self.out.clone() }
    }
}

/// Views of an optional string.
pub open spec fn opt_view(o: Option<String>) -> Option<Seq<char>> {
    match o {
        Some(s) => Some(s@),
        None => None,
    }
}

/// Message carried by an error kind, if it carries one.
pub open spec fn m_of(k: ErrorKind) -> String {
    match k {
        ErrorKind::CommandSearchFailed(m) => m,
        ErrorKind::ParseError(m) => m,
        ErrorKind::InvalidCommandBody(m) => m,
        ErrorKind::UnknownCommand(m) => m,
        ErrorKind::CommandNotAvailable(m) => m,
        ErrorKind::CoreError(m) => m,
        ErrorKind::Other(m) => m,
        ErrorKind::NoCommandPresent => arbitrary(),
    }
}

/// A parse outcome as plain values.
pub open spec fn parsed_view(p: core::result::Result<(Vec<String>, Option<String>), String>) -> core::result::Result<
    (Seq<Seq<char>>, Option<Seq<char>>),
    Seq<char>,
> {
    match p {
        Ok((free, out)) => Ok((views(free@), opt_view(out))),
        Err(e) => Err(e@),
    }
}

/// What the spawn command made of the arguments `args` read at `location`
/// is, given the outcome `parsed` of reading them: the parse failure, or up
/// to two free arguments taken from the leading arguments as prefab and
/// name, with the `--out` value.
pub open spec fn spawn_from_spec(
    args: Seq<String>,
    parsed: core::result::Result<(Seq<Seq<char>>, Option<Seq<char>>), Seq<char>>,
    location: LocationInfo,
    res: Result<Spawn>,
) -> bool {
    match parsed {
        Err(t) => match res {
            Err(e) => e.location == location && e.kind == ErrorKind::ParseError(m_of(e.kind)) && m_of(e.kind)@ == t,
            _ => false,
        },
        Ok((free, out)) => if free.len() <= 2 {
            res matches Ok(s) && opt_view(s.out) == out
                && opt_view(s.prefab) == (if free.len() >= 1 { Some(args[0]@) } else { None })
                && opt_view(s.spawn_id) == (if free.len() == 2 { Some(args[1]@) } else { None })
        } else {
            match res {
                Err(e) => e.location == location && e.kind == ErrorKind::InvalidCommandBody(m_of(e.kind))
                    && m_of(e.kind)@ == "can't accept more than 2 arguments"@,
                _ => false,
            }
        },
    }
}

/// What `Spawn::new` gives for the arguments `args` read at `location`.
pub open spec fn spawn_new_spec(args: Seq<String>, location: LocationInfo, res: Result<Spawn>) -> bool {
    spawn_from_spec(args, getopts_out_parse(views(args)), location, res)
}

impl Spawn {
    /// Creates the command from its arguments: up to two free arguments,
    /// the prefab and the entity name, and an optional `--out` address.
    /// The prefab and the name are taken from the leading arguments.
    pub fn new(args: Vec<String>, location: &LocationInfo) -> (res: Result<Self>)
        ensures
            spawn_new_spec(args@, *location, res),
    {
        let parsed = getopts_parse_out(&args);
        Spawn::from_parsed(args, parsed, location)
    }

    /// Creates the command from its arguments, given the outcome of reading
    /// them for free arguments and the `--out` option.
    pub fn from_parsed(
        args: Vec<String>,
        parsed: core::result::Result<(Vec<String>, Option<String>), String>,
        location: &LocationInfo,
    ) -> (res: Result<Self>)
        requires
            parsed matches Ok((free, _)) ==> free@.len() <= args@.len(),
        ensures
            spawn_from_spec(args@, parsed_view(parsed), *location, res),
    {
        let (free, out) = match parsed {
            Ok(p) => p,
            Err(e) => return Err(Error::new(location.clone(), ErrorKind::ParseError(e))),
        };
        assert(free@.len() == views(free@).len());
        if free.len() == 0 {
            Ok(Spawn { prefab: None, spawn_id: None, out })
        } else if free.len() == 1 {
            Ok(Spawn { prefab: Some(string::new_truncate(args[0].as_str())), spawn_id: None, out })
        } else if free.len() == 2 {
            Ok(
                Spawn {
                    prefab: Some(string::new_truncate(args[0].as_str())),
                    spawn_id: Some(string::new_truncate(args[1].as_str())),
                    out,
                },
            )
        } else {
            Err(
                Error::new(
                    location.clone(),
                    ErrorKind::InvalidCommandBody(string_of("can't accept more than 2 arguments")),
                ),
            )
        }
    }
}

} // verus!
