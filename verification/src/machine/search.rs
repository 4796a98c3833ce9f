//! Search for the end, and the intermediate parts, of a block structure
//! within a list of command prototypes.

use vstd::prelude::*;
use vstd::string::*;

use crate::machine::{CommandPrototype, Error, ErrorKind, LocationInfo, Result};
use crate::text::{contains_string, string_of, views};

verus! {

/// Name of each command prototype, as characters.
pub open spec fn proto_names(commands: Seq<CommandPrototype>) -> Seq<Option<Seq<char>>> {
    commands.map_values(
        |p: CommandPrototype|
            match p.name {
                Some(n) => Some(n@),
                None => None,
            },
    )
}

/// Outcome of a block search, as a mathematical value.
pub enum SearchOutcome {
    /// Line of the ending part and lines of the middle parts
    Found(usize, Seq<usize>),
    /// The list of begin definitions is empty
    BeginDefsEmpty,
    /// The list of ending definitions is empty
    EndDefsEmpty,
    /// A nested begin part was met while nesting is not allowed
    BadNesting(Seq<char>),
    /// A nested begin part was met and no end was found for it
    NestedEndNotFound(Seq<char>),
    /// The list ends before an ending part is met
    NoEnd,
}

/// The outcome of searching `cmds` from line `start`.
///
/// `begin`, `middle` and `end` are the definitions of the parts of the block
/// searched for; `open` and `close` mark other blocks that may enclose
/// ending or middle parts not belonging to the searched block.
pub open spec fn search_spec(
    cmds: Seq<Option<Seq<char>>>,
    start: int,
    begin: Seq<Seq<char>>,
    middle: Seq<Seq<char>>,
    end: Seq<Seq<char>>,
    open: Seq<Seq<char>>,
    close: Seq<Seq<char>>,
    recurse: bool,
) -> SearchOutcome
    decreases cmds.len() - start, 1int,
{
    if begin.len() == 0 {
        SearchOutcome::BeginDefsEmpty
    } else if end.len() == 0 {
        SearchOutcome::EndDefsEmpty
    } else {
        scan_spec(cmds, start, start, 0, Seq::empty(), begin, middle, end, open, close, recurse)
    }
}

/// The outcome of the scan at `line`, having skipped up to `skip_to`, with
/// `diff` other blocks open and middle parts `mids` found so far.
pub open spec fn scan_spec(
    cmds: Seq<Option<Seq<char>>>,
    line: int,
    skip_to: int,
    diff: nat,
    mids: Seq<usize>,
    begin: Seq<Seq<char>>,
    middle: Seq<Seq<char>>,
    end: Seq<Seq<char>>,
    open: Seq<Seq<char>>,
    close: Seq<Seq<char>>,
    recurse: bool,
) -> SearchOutcome
    decreases cmds.len() - line, 0int,
{
    if line >= cmds.len() {
        SearchOutcome::NoEnd
    } else if line < skip_to {
        scan_spec(cmds, line + 1, skip_to, diff, mids, begin, middle, end, open, close, recurse)
    } else {
        match cmds[line] {
            None => scan_spec(
                cmds,
                line + 1,
                skip_to,
                diff,
                mids,
                begin,
                middle,
                end,
                open,
                close,
                recurse,
            ),
            Some(c) => {
                if open.contains(c) {
                    scan_spec(
                        cmds,
                        line + 1,
                        skip_to,
                        diff + 1,
                        mids,
                        begin,
                        middle,
                        end,
                        open,
                        close,
                        recurse,
                    )
                } else if middle.contains(c) {
                    scan_spec(
                        cmds,
                        line + 1,
                        skip_to,
                        diff,
                        mids.push(line as usize),
                        begin,
                        middle,
                        end,
                        open,
                        close,
                        recurse,
                    )
                } else if close.contains(c) && diff > 0 {
                    scan_spec(
                        cmds,
                        line + 1,
                        skip_to,
                        (diff - 1) as nat,
                        mids,
                        begin,
                        middle,
                        end,
                        open,
                        close,
                        recurse,
                    )
                } else if end.contains(c) {
                    SearchOutcome::Found(line as usize, mids)
                } else if begin.contains(c) {
                    if recurse {
                        match search_spec(cmds, line + 1, begin, middle, end, open, close, recurse) {
                            SearchOutcome::Found(e, _) => scan_spec(
                                cmds,
                                line + 1,
                                e + 1,
                                diff,
                                mids,
                                begin,
                                middle,
                                end,
                                open,
                                close,
                                recurse,
                            ),
                            other => other,
                        }
                    } else {
                        SearchOutcome::BadNesting(c)
                    }
                } else {
                    scan_spec(
                        cmds,
                        line + 1,
                        skip_to,
                        diff,
                        mids,
                        begin,
                        middle,
                        end,
                        open,
                        close,
                        recurse,
                    )
                }
            },
        }
    }
}

/// Whether `mids` are lines in `[lo, hi)`, in increasing order, each
/// holding a middle part.
pub open spec fn mids_ok(cmds: Seq<Option<Seq<char>>>, middle: Seq<Seq<char>>, mids: Seq<usize>, lo: int, hi: int) -> bool {
    &&& forall|i: int| 0 <= i < mids.len() ==> lo <= #[trigger] mids[i] < hi
    &&& forall|i: int| 0 <= i < mids.len() ==> (cmds[#[trigger] mids[i] as int] matches Some(c) && middle.contains(c))
    &&& forall|i: int, j: int| 0 <= i < j < mids.len() ==> mids[i] < mids[j]
}

proof fn lemma_scan_found(
    cmds: Seq<Option<Seq<char>>>,
    line: int,
    skip_to: int,
    diff: nat,
    mids: Seq<usize>,
    begin: Seq<Seq<char>>,
    middle: Seq<Seq<char>>,
    end: Seq<Seq<char>>,
    open: Seq<Seq<char>>,
    close: Seq<Seq<char>>,
    recurse: bool,
    lo: int,
)
    requires
        0 <= lo <= line,
        cmds.len() <= usize::MAX,
        mids_ok(cmds, middle, mids, lo, line),
    ensures
        scan_spec(cmds, line, skip_to, diff, mids, begin, middle, end, open, close, recurse) matches SearchOutcome::Found(e, ms)
            ==> line <= e < cmds.len() && (cmds[e as int] matches Some(c) && end.contains(c)) && mids_ok(cmds, middle, ms, lo, e as int),
    decreases cmds.len() - line,
{
    if line >= cmds.len() {
    } else if line < skip_to {
        lemma_scan_found(cmds, line + 1, skip_to, diff, mids, begin, middle, end, open, close, recurse, lo);
    } else {
        match cmds[line] {
            None => {
                lemma_scan_found(cmds, line + 1, skip_to, diff, mids, begin, middle, end, open, close, recurse, lo);
            },
            Some(c) => {
                if open.contains(c) {
                    lemma_scan_found(cmds, line + 1, skip_to, diff + 1, mids, begin, middle, end, open, close, recurse, lo);
                } else if middle.contains(c) {
                    let m2 = mids.push(line as usize);
                    assert(mids_ok(cmds, middle, m2, lo, line + 1)) by {
                        assert forall|i: int| 0 <= i < m2.len() implies (cmds[#[trigger] m2[i] as int] matches Some(d)
                            && middle.contains(d)) by {
                            if i < mids.len() {
                                assert(m2[i] == mids[i]);
                            }
                        }
                        assert forall|i: int, j: int| 0 <= i < j < m2.len() implies m2[i] < m2[j] by {
                            assert(m2[i] == mids[i]);
                        }
                    }
                    lemma_scan_found(cmds, line + 1, skip_to, diff, m2, begin, middle, end, open, close, recurse, lo);
                } else if close.contains(c) && diff > 0 {
                    lemma_scan_found(
                        cmds,
                        line + 1,
                        skip_to,
                        (diff - 1) as nat,
                        mids,
                        begin,
                        middle,
                        end,
                        open,
                        close,
                        recurse,
                        lo,
                    );
                } else if end.contains(c) {
                } else if begin.contains(c) {
                    if recurse {
                        match search_spec(cmds, line + 1, begin, middle, end, open, close, recurse) {
                            SearchOutcome::Found(e, _) => {
                                lemma_scan_found(cmds, line + 1, e + 1, diff, mids, begin, middle, end, open, close, recurse, lo);
                            },
                            _ => {},
                        }
                    }
                } else {
                    lemma_scan_found(cmds, line + 1, skip_to, diff, mids, begin, middle, end, open, close, recurse, lo);
                }
            },
        }
    }
}

/// The structure of a found block: the ending part stands at a line at or
/// after `start` and holds one of the ending definitions; the middle parts
/// stand, in increasing order, at lines between `start` and the end, and
/// each holds one of the middle definitions.
pub proof fn lemma_search_found(
    cmds: Seq<Option<Seq<char>>>,
    start: int,
    begin: Seq<Seq<char>>,
    middle: Seq<Seq<char>>,
    end: Seq<Seq<char>>,
    open: Seq<Seq<char>>,
    close: Seq<Seq<char>>,
    recurse: bool,
)
    requires
        0 <= start,
        cmds.len() <= usize::MAX,
    ensures
        search_spec(cmds, start, begin, middle, end, open, close, recurse) matches SearchOutcome::Found(e, mids) ==> {
            &&& start <= e < cmds.len()
            &&& cmds[e as int] matches Some(c) && end.contains(c)
            &&& mids_ok(cmds, middle, mids, start, e as int)
        },
{
    if begin.len() > 0 && end.len() > 0 {
        lemma_scan_found(cmds, start, start, 0, Seq::empty(), begin, middle, end, open, close, recurse, start);
    }
}

/// Number of other blocks left open after the lines `[from, to)`: an
/// opening mark opens one, a middle part leaves the count as it is, and a
/// closing mark closes one when one is open.
pub open spec fn open_blocks(
    cmds: Seq<Option<Seq<char>>>,
    from: int,
    to: int,
    middle: Seq<Seq<char>>,
    open: Seq<Seq<char>>,
    close: Seq<Seq<char>>,
) -> nat
    decreases to - from,
{
    if to <= from {
        0
    } else {
        let d = open_blocks(cmds, from, to - 1, middle, open, close);
        match cmds[to - 1] {
            Some(c) => if open.contains(c) {
                d + 1
            } else if middle.contains(c) {
                d
            } else if close.contains(c) && d > 0 {
                (d - 1) as nat
            } else {
                d
            },
            None => d,
        }
    }
}

/// Whether no line from `start` on holds a begin part.
pub open spec fn no_begin_after(cmds: Seq<Option<Seq<char>>>, start: int, begin: Seq<Seq<char>>) -> bool {
    forall|l: int| start <= l < cmds.len() ==> !(#[trigger] cmds[l] matches Some(c) && begin.contains(c))
}

proof fn lemma_scan_depth(
    cmds: Seq<Option<Seq<char>>>,
    line: int,
    skip_to: int,
    diff: nat,
    mids: Seq<usize>,
    begin: Seq<Seq<char>>,
    middle: Seq<Seq<char>>,
    end: Seq<Seq<char>>,
    open: Seq<Seq<char>>,
    close: Seq<Seq<char>>,
    recurse: bool,
    start: int,
)
    requires
        0 <= start <= line,
        skip_to <= line,
        cmds.len() <= usize::MAX,
        diff == open_blocks(cmds, start, line, middle, open, close),
        no_begin_after(cmds, start, begin),
    ensures
        scan_spec(cmds, line, skip_to, diff, mids, begin, middle, end, open, close, recurse) matches SearchOutcome::Found(e, _)
            ==> (cmds[e as int] matches Some(c) && !open.contains(c) && !middle.contains(c) && (close.contains(c)
            ==> open_blocks(cmds, start, e as int, middle, open, close) == 0)),
    decreases cmds.len() - line,
{
    if line < cmds.len() {
        assert(open_blocks(cmds, start, line + 1, middle, open, close) == match cmds[line] {
            Some(c) => if open.contains(c) {
                diff + 1
            } else if middle.contains(c) {
                diff
            } else if close.contains(c) && diff > 0 {
                (diff - 1) as nat
            } else {
                diff
            },
            None => diff,
        });
        match cmds[line] {
            None => {
                lemma_scan_depth(cmds, line + 1, skip_to, diff, mids, begin, middle, end, open, close, recurse, start);
            },
            Some(c) => {
                if open.contains(c) {
                    lemma_scan_depth(cmds, line + 1, skip_to, diff + 1, mids, begin, middle, end, open, close, recurse, start);
                } else if middle.contains(c) {
                    lemma_scan_depth(
                        cmds,
                        line + 1,
                        skip_to,
                        diff,
                        mids.push(line as usize),
                        begin,
                        middle,
                        end,
                        open,
                        close,
                        recurse,
                        start,
                    );
                } else if close.contains(c) && diff > 0 {
                    lemma_scan_depth(
                        cmds,
                        line + 1,
                        skip_to,
                        (diff - 1) as nat,
                        mids,
                        begin,
                        middle,
                        end,
                        open,
                        close,
                        recurse,
                        start,
                    );
                } else if end.contains(c) {
                } else {
                    assert(!begin.contains(c));
                    lemma_scan_depth(cmds, line + 1, skip_to, diff, mids, begin, middle, end, open, close, recurse, start);
                }
            },
        }
    }
}

/// Blocks opened inside the searched block are closed by their own closing
/// marks: where no begin part is nested after `start`, the found end holds
/// no opening mark and no middle part, and it is a closing mark only when
/// every other block opened since `start` has been closed.
pub proof fn lemma_search_end_not_enclosed(
    cmds: Seq<Option<Seq<char>>>,
    start: int,
    begin: Seq<Seq<char>>,
    middle: Seq<Seq<char>>,
    end: Seq<Seq<char>>,
    open: Seq<Seq<char>>,
    close: Seq<Seq<char>>,
    recurse: bool,
)
    requires
        0 <= start,
        cmds.len() <= usize::MAX,
        no_begin_after(cmds, start, begin),
    ensures
        search_spec(cmds, start, begin, middle, end, open, close, recurse) matches SearchOutcome::Found(e, _) ==> (cmds[e as int]
            matches Some(c) && !open.contains(c) && !middle.contains(c) && (close.contains(c) ==> open_blocks(
            cmds,
            start,
            e as int,
            middle,
            open,
            close,
        ) == 0)),
{
    if begin.len() > 0 && end.len() > 0 {
        lemma_scan_depth(cmds, start, start, 0, Seq::empty(), begin, middle, end, open, close, recurse, start);
    }
}

/// Text of the debug formatting of a list of strings, as produced by
/// `format!("{:?}", ..)` on a `Vec<String>`.
pub uninterp spec fn debug_list_text(items: Seq<Seq<char>>) -> Seq<char>;

/// Debug-formats a list of strings.
///
/// Calls the standard library's `Debug` implementation of `Vec<String>`;
/// the text is named by `debug_list_text` and nothing more is claimed of it.
#[verifier::external_body]
fn debug_list(items: &Vec<String>) -> (res: String)
    ensures
        res@ == debug_list_text(views(items@)),
{
    format!("{:?}", items)
}

/// Message of the error returned for each failing outcome.
pub open spec fn search_message(outcome: SearchOutcome, begin: Seq<Seq<char>>) -> Seq<char> {
    match outcome {
        SearchOutcome::BeginDefsEmpty => "command search requires begin definitions to be non-empty"@,
        SearchOutcome::EndDefsEmpty => "command search requires ending definitions to be non-empty"@,
        SearchOutcome::BadNesting(c) => "bad nesting: got "@ + c,
        SearchOutcome::NestedEndNotFound(c) => "bad nesting: got "@ + c + " but end not found"@,
        SearchOutcome::NoEnd => "no end of structure for begin defs: "@ + debug_list_text(begin),
        SearchOutcome::Found(_, _) => Seq::empty(),
    }
}

/// Relates the result returned by `command_search` to the search outcome.
pub open spec fn search_result_matches(
    res: Result<Option<(usize, Vec<usize>)>>,
    outcome: SearchOutcome,
    location: LocationInfo,
    begin: Seq<Seq<char>>,
) -> bool {
    match outcome {
        SearchOutcome::Found(e, m) => match res {
            Ok(Some((re, rm))) => re == e && rm@ == m,
            _ => false,
        },
        _ => match res {
            Err(err) => err.location == location && match err.kind {
                ErrorKind::CommandSearchFailed(msg) => msg@ == search_message(outcome, begin),
                _ => false,
            },
            _ => false,
        },
    }
}

} // verus!

verus! {

/// Builds the error returned for a failed search.
fn search_error(location: &LocationInfo, msg: String) -> (res: Error)
    ensures
        res.location == *location,
        res.kind == ErrorKind::CommandSearchFailed(msg),
{
    Error::new(location.clone(), ErrorKind::CommandSearchFailed(msg))
}

/// Performs a command search on the provided command prototype list.
///
/// Goal is to find the end, and potentially intermediate parts, of a block.
/// To accomplish this, the function takes lists of defs describing beginning,
/// middle and ending marks of any blocks that it may stumble upon during
/// the search.
///
/// On success returns a tuple of single end part line number and list of
/// middle part line numbers.
pub fn command_search(
    location: &LocationInfo,
    commands: &Vec<CommandPrototype>,
    constraints: (usize, Option<usize>),
    defs: (&Vec<String>, &Vec<String>, &Vec<String>),
    blocks: (&Vec<String>, &Vec<String>),
    recurse: bool,
) -> (res: Result<Option<(usize, Vec<usize>)>>)
    ensures
        search_result_matches(
            res,
            search_spec(
                proto_names(commands@),
                constraints.0 as int,
                views(defs.0@),
                views(defs.1@),
                views(defs.2@),
                views(blocks.0@),
                views(blocks.1@),
                recurse,
            ),
            *location,
            views(defs.0@),
        ),
        res matches Ok(Some((e, _))) ==> e < commands.len(),
    decreases commands.len() - constraints.0,
{
    let ghost cmds = proto_names(commands@);
    let ghost begin = views(defs.0@);
    let ghost middle = views(defs.1@);
    let ghost end = views(defs.2@);
    let ghost open = views(blocks.0@);
    let ghost close = views(blocks.1@);
    if defs.0.len() == 0 {
        return Err(
            search_error(
                location,
                string_of("command search requires begin definitions to be non-empty"),
            ),
        );
    }
    if defs.2.len() == 0 {
        return Err(
            search_error(
                location,
                string_of("command search requires ending definitions to be non-empty"),
            ),
        );
    }
    let mut mids: Vec<usize> = Vec::new();
    let mut skip_to: usize = constraints.0;
    let mut block_diff: usize = 0;
    let finish_idx = commands.len();
    let mut line: usize = constraints.0;
    assert(scan_spec(cmds, line as int, skip_to as int, 0, mids@, begin, middle, end, open, close, recurse)
        == search_spec(cmds, constraints.0 as int, begin, middle, end, open, close, recurse));
    while line < finish_idx
        invariant
            cmds == proto_names(commands@),
            begin == views(defs.0@),
            middle == views(defs.1@),
            end == views(defs.2@),
            open == views(blocks.0@),
            close == views(blocks.1@),
            begin.len() > 0,
            end.len() > 0,
            finish_idx == commands.len(),
            constraints.0 <= line || finish_idx <= line,
            block_diff <= line,
            forall|k: int| 0 <= k < mids@.len() ==> mids@[k] < finish_idx,
            scan_spec(cmds, line as int, skip_to as int, block_diff as nat, mids@, begin, middle, end, open, close, recurse)
                == search_spec(cmds, constraints.0 as int, begin, middle, end, open, close, recurse),
        decreases finish_idx - line,
    {
        if line >= skip_to {
            let command = &commands[line];
            assert(cmds[line as int] == match command.name {
                Some(n) => Some(n@),
                None => None::<Seq<char>>,
            });
            match &command.name {
                Some(command) => {
                    if contains_string(blocks.0, command) {
                        block_diff = block_diff + 1;
                    } else if contains_string(defs.1, command) {
                        mids.push(line);
                    } else if contains_string(blocks.1, command) && block_diff > 0 {
                        block_diff = block_diff - 1;
                    } else if contains_string(defs.2, command) {
                        return Ok(Some((line, mids)));
                    } else if contains_string(defs.0, command) {
                        if recurse {
                            match command_search(
                                location,
                                commands,
                                (line + 1, Some(finish_idx)),
                                defs,
                                blocks,
                                recurse,
                            ) {
                                Ok(locs_opt) => match locs_opt {
                                    Some(locs) => {
                                        skip_to = locs.0 + 1;
                                    },
                                    None => {
                                        let mut msg = string_of("bad nesting: got ");
                                        msg.append(command.as_str());
                                        msg.append(" but end not found");
                                        return Err(search_error(location, msg));
                                    },
                                },
                                Err(error) => return Err(error),
                            }
                        } else {
                            let mut msg = string_of("bad nesting: got ");
                            msg.append(command.as_str());
                            return Err(search_error(location, msg));
                        }
                    }
                },
                None => {},
            }
        }
        line = line + 1;
    }
    let mut msg = string_of("no end of structure for begin defs: ");
    let listed = debug_list(defs.0);
    msg.append(listed.as_str());
    Err(search_error(location, msg))
}

} // verus!
