//! The configuration of one submission and the wire names of its options.

use vstd::prelude::*;

verus! {

/// Release track of the toolchain that the service runs.
#[derive(Copy, Clone, Debug, PartialEq, Eq, Structural)]
pub enum Channel {
    Stable,
    Nightly,
    Beta,
}

/// Optimization level that the service compiles with.
#[derive(Copy, Clone, Debug, PartialEq, Eq, Structural)]
pub enum Optimize {
    O0,
    O1,
    O2,
    O3,
}

impl Channel {
    /// The wire name of a channel: its name in lower case.
    pub open spec fn wire_name(self) -> Seq<char> {
        match self {
            Channel::Stable => "stable"@,
            Channel::Nightly => "nightly"@,
            Channel::Beta => "beta"@,
        }
    }

    /// Encodes the channel as the string that the service expects.
    pub fn serialize(&self) -> (name: &'static str)
        ensures
            name@ == self.wire_name(),
    {
        match *self {
            Channel::Stable => "stable",
            Channel::Nightly => "nightly",
            Channel::Beta => "beta",
        }
    }
}

impl Optimize {
    /// The wire name of a level: its decimal digit, as a string.
    pub open spec fn wire_name(self) -> Seq<char> {
        match self {
            Optimize::O0 => "0"@,
            Optimize::O1 => "1"@,
            Optimize::O2 => "2"@,
            Optimize::O3 => "3"@,
        }
    }

    /// Encodes the level as the string that the service expects.
    pub fn serialize(&self) -> (name: &'static str)
        ensures
            name@ == self.wire_name(),
    {
        match *self {
            Optimize::O0 => "0",
            Optimize::O1 => "1",
            Optimize::O2 => "2",
            Optimize::O3 => "3",
        }
    }
}

/// The wire name of the backtrace switch: `"1"` when on, `"0"` when off.
pub open spec fn backtrace_wire_name(act: bool) -> Seq<char> {
    if act {
        "1"@
    } else {
        "0"@
    }
}

/// Encodes the backtrace switch as the string that the service expects.
pub fn serialize_backtrace(act: bool) -> (name: &'static str)
    ensures
        name@ == backtrace_wire_name(act),
{
    if act {
        "1"
    } else {
        "0"
    }
}

/// The four levels travel as the decimal digits `"0"` to `"3"`, and a level
/// has no other name.
pub proof fn lemma_optimize_wire_names(level: Optimize)
    ensures
        Optimize::O0.wire_name() == seq!['0'],
        Optimize::O1.wire_name() == seq!['1'],
        Optimize::O2.wire_name() == seq!['2'],
        Optimize::O3.wire_name() == seq!['3'],
        level.wire_name() == seq!['0'] || level.wire_name() == seq!['1'] || level.wire_name()
            == seq!['2'] || level.wire_name() == seq!['3'],
{
    reveal_strlit("0");
    reveal_strlit("1");
    reveal_strlit("2");
    reveal_strlit("3");
    assert("0"@ =~= seq!['0']);
    assert("1"@ =~= seq!['1']);
    assert("2"@ =~= seq!['2']);
    assert("3"@ =~= seq!['3']);
}

/// The three channels travel as their names in lower case, `"stable"`,
/// `"nightly"` and `"beta"`, and a channel has no other name.
pub proof fn lemma_channel_wire_names(channel: Channel)
    ensures
        Channel::Stable.wire_name() == seq!['s', 't', 'a', 'b', 'l', 'e'],
        Channel::Nightly.wire_name() == seq!['n', 'i', 'g', 'h', 't', 'l', 'y'],
        Channel::Beta.wire_name() == seq!['b', 'e', 't', 'a'],
        channel.wire_name() == Channel::Stable.wire_name() || channel.wire_name()
            == Channel::Nightly.wire_name() || channel.wire_name() == Channel::Beta.wire_name(),
{
    reveal_strlit("stable");
    reveal_strlit("nightly");
    reveal_strlit("beta");
    assert("stable"@ =~= seq!['s', 't', 'a', 'b', 'l', 'e']);
    assert("nightly"@ =~= seq!['n', 'i', 'g', 'h', 't', 'l', 'y']);
    assert("beta"@ =~= seq!['b', 'e', 't', 'a']);
}

/// The backtrace switch travels as `"1"` when it is on and as `"0"` when it
/// is off.
pub proof fn lemma_backtrace_wire_names()
    ensures
        backtrace_wire_name(true) == seq!['1'],
        backtrace_wire_name(false) == seq!['0'],
{
    reveal_strlit("0");
    reveal_strlit("1");
    assert("0"@ =~= seq!['0']);
    assert("1"@ =~= seq!['1']);
}

/// One submission: the source text and the options to run it with.
///
/// The service also takes a `separate_output` flag. It is always sent as
/// `true` and is no part of this value, so no caller can change it.
#[derive(Copy, Clone, Debug)]
pub struct Request<'a> {
    pub code: &'a str,
    pub version: Channel,
    pub optimize: Optimize,
    pub backtrace: bool,
    pub color: bool,
    pub test: bool,
}

impl<'a> Request<'a> {
    /// The request that carries `code` and every option at its default.
    pub open spec fn with_defaults(code: &'a str) -> Request<'a> {
        Request {
            code,
            version: Channel::Nightly,
            optimize: Optimize::O2,
            backtrace: true,
            color: false,
            test: false,
        }
    }
}

impl<'a> Default for Request<'a> {
    fn default() -> (request: Request<'a>)
        ensures
            request == Request::with_defaults(""),
    {
        Request {
            code: "",
            version: Channel::Nightly,
            optimize: Optimize::O2,
            backtrace: true,
            color: false,
            test: false,
        }
    }
}

impl<'a> From<&'a str> for Request<'a> {
    fn from(s: &'a str) -> (request: Request<'a>) {
        Request { code: s, ..Default::default() }
    }
}

impl<'a> vstd::std_specs::convert::FromSpecImpl<&'a str> for Request<'a> {
    open spec fn obeys_from_spec() -> bool {
        true
    }

    open spec fn from_spec(s: &'a str) -> Request<'a> {
        Request::with_defaults(s)
    }
}

} // verus!
