//! Client configuration.

use vstd::prelude::*;
use vstd::string::*;

use crate::error::{Error, Result};
use crate::text::{
    has_prefix, parse_usize, parse_usize_spec, push_char, starts_with, str_eq, string_of,
    IntParseErrorKind,
};
use crate::time::Duration;

verus! {

/// Configuration settings for client.
#[derive(Debug)]
pub struct ClientConfig {
    /// Self-assigned name
    pub name: String,
    /// Whether to send regular heartbeats, and with what frequency
    pub heartbeat_interval: Option<Duration>,
    /// Blocking client requires server to wait for it's explicit step advance
    pub is_blocking: bool,
    /// Compression policy for outgoing messages
    pub compress: CompressionPolicy,
}

impl Default for ClientConfig {
    fn default() -> (res: Self)
        ensures
            res.name@ == "default_client"@,
            res.heartbeat_interval == Some(Duration { micros: 1_000_000 }),
            !res.is_blocking,
            res.compress == CompressionPolicy::OnlyDataTransfers,
    {
        ClientConfig {
            name: string_of("default_client"),
            heartbeat_interval: Some(Duration::from_secs(1)),
            is_blocking: false,
            compress: CompressionPolicy::OnlyDataTransfers,
        }
    }
}

/// List of available compression policies for outgoing messages.
#[derive(Debug, Clone, Copy, PartialEq, Eq)]
pub enum CompressionPolicy {
    /// Compress all outgoing traffic
    Everything,
    /// Only compress messages larger than given size in bytes
    LargerThan(usize),
    /// Only compress data-heavy messages
    OnlyDataTransfers,
    /// Don't use compression
    Nothing,
}

/// Characters of `s` before its first underscore, or all of `s`.
pub open spec fn until_underscore(s: Seq<char>) -> Seq<char>
    decreases s.len(),
{
    if s.len() == 0 || s[0] == '_' {
        Seq::empty()
    } else {
        seq![s[0]] + until_underscore(s.drop_first())
    }
}

/// Text of a failure to read an integer, as `ParseIntError` displays it.
pub open spec fn int_error_text(k: IntParseErrorKind) -> Seq<char> {
    match k {
        IntParseErrorKind::Empty => "cannot parse integer from empty string"@,
        IntParseErrorKind::InvalidDigit => "invalid digit found in string"@,
        IntParseErrorKind::PosOverflow => "number too large to fit in target type"@,
    }
}

/// The size given after a `larger_than_` or `bigger_than_` prefix: the text
/// up to the next underscore.
pub open spec fn size_field(s: Seq<char>) -> Seq<char> {
    until_underscore(s.subrange(12, s.len() as int))
}

/// The policy named by `s`, or the error text for it.
pub open spec fn compression_policy_spec(s: Seq<char>) -> core::result::Result<CompressionPolicy, Seq<char>> {
    if has_prefix(s, "bigger_than_"@) || has_prefix(s, "larger_than_"@) {
        match parse_usize_spec(size_field(s)) {
            Ok(n) => Ok(CompressionPolicy::LargerThan(n as usize)),
            Err(e) => Err(int_error_text(e)),
        }
    } else if s == "all"@ || s == "everything"@ {
        Ok(CompressionPolicy::Everything)
    } else if s == "data"@ || s == "only_data"@ {
        Ok(CompressionPolicy::OnlyDataTransfers)
    } else if s == "none"@ || s == "nothing"@ {
        Ok(CompressionPolicy::Nothing)
    } else {
        Err("failed parsing compression policy from string: "@ + s)
    }
}

fn int_error_message(k: IntParseErrorKind) -> (res: String)
    ensures
        res@ == int_error_text(k),
{
    match k {
        IntParseErrorKind::Empty => string_of("cannot parse integer from empty string"),
        IntParseErrorKind::InvalidDigit => string_of("invalid digit found in string"),
        IntParseErrorKind::PosOverflow => string_of("number too large to fit in target type"),
    }
}

impl CompressionPolicy {
    /// Reads a compression policy from its name; `larger_than_N` (also
    /// `bigger_than_N`) gives a size threshold of `N` bytes.
    pub fn from_str(s: &str) -> (res: Result<Self>)
        ensures
            match (res, compression_policy_spec(s@)) {
                (Ok(p), Ok(q)) => p == q,
                (Err(Error::Other(m)), Err(t)) => m@ == t,
                _ => false,
            },
    {
        proof {
            reveal_strlit("bigger_than_");
            reveal_strlit("larger_than_");
        }
        if starts_with(s, "bigger_than_") || starts_with(s, "larger_than_") {
            let n = s.unicode_len();
            let mut field = String::new();
            let mut i: usize = 12;
            while i < n && s.get_char(i) != '_'
                invariant
                    n == s@.len(),
                    12 <= i <= n,
                    until_underscore(s@.subrange(12, n as int)) == field@ + until_underscore(
                        s@.subrange(i as int, n as int),
                    ),
                decreases n - i,
            {
                let c = s.get_char(i);
                assert(s@.subrange(i as int, n as int).drop_first() =~= s@.subrange(
                    i + 1,
                    n as int,
                ));
                push_char(&mut field, c);
                i = i + 1;
            }
            assert(until_underscore(s@.subrange(i as int, n as int)) =~= Seq::<char>::empty());
            assert(field@ =~= size_field(s@));
            return match parse_usize(field.as_str()) {
                Ok(v) => Ok(CompressionPolicy::LargerThan(v)),
                Err(e) => Err(Error::Other(int_error_message(e))),
            };
        }
        if str_eq(s, "all") || str_eq(s, "everything") {
            Ok(CompressionPolicy::Everything)
        } else if str_eq(s, "data") || str_eq(s, "only_data") {
            Ok(CompressionPolicy::OnlyDataTransfers)
        } else if str_eq(s, "none") || str_eq(s, "nothing") {
            Ok(CompressionPolicy::Nothing)
        } else {
            let mut msg = string_of("failed parsing compression policy from string: ");
            msg.append(s);
            Err(Error::Other(msg))
        }
    }
}


/// Each policy is read from exactly its own names: `none` and `nothing`
/// give no compression, `data` and `only_data` compression of data
/// transfers, `all` and `everything` compression of everything, and a size
/// threshold only comes from a `bigger_than_` or `larger_than_` name.
pub proof fn lemma_compression_policy_names(s: Seq<char>)
    ensures
        compression_policy_spec(s) == Ok::<CompressionPolicy, Seq<char>>(CompressionPolicy::Nothing) <==> (s == "none"@
            || s == "nothing"@),
        compression_policy_spec(s) == Ok::<CompressionPolicy, Seq<char>>(CompressionPolicy::OnlyDataTransfers) <==> (s
            == "data"@ || s == "only_data"@),
        compression_policy_spec(s) == Ok::<CompressionPolicy, Seq<char>>(CompressionPolicy::Everything) <==> (s
            == "all"@ || s == "everything"@),
        compression_policy_spec(s) matches Ok(CompressionPolicy::LargerThan(_)) ==> has_prefix(s, "bigger_than_"@)
            || has_prefix(s, "larger_than_"@),
{
    reveal_strlit("none");
    reveal_strlit("nothing");
    reveal_strlit("data");
    reveal_strlit("only_data");
    reveal_strlit("all");
    reveal_strlit("everything");
    reveal_strlit("bigger_than_");
    reveal_strlit("larger_than_");
    if s == "none"@ || s == "nothing"@ || s == "data"@ || s == "only_data"@ || s == "all"@ || s == "everything"@ {
        assert(!has_prefix(s, "bigger_than_"@));
        assert(!has_prefix(s, "larger_than_"@));
    }
    if s == "none"@ {
        assert(s != "all"@ && s != "everything"@);
        assert("none"@[0] != "data"@[0]);
        assert(s != "data"@);
        assert(s != "only_data"@);
    }
    if s == "nothing"@ {
        assert(s != "all"@ && s != "everything"@);
        assert(s != "data"@);
        assert(s != "only_data"@);
    }
    if s == "data"@ || s == "only_data"@ {
        assert(s != "all"@ && s != "everything"@);
    }
}

} // verus!
