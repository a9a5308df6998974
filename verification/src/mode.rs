//! The two network-access postures and their external string form.

use vstd::prelude::*;

verus! {

/// The posture the node is in: isolated next to the tool node, or open to
/// the internet.  There is no third value and no in-between.
#[derive(Clone, Copy, Debug, PartialEq, Eq, Structural)]
pub enum Mode {
    /// General outbound access allowed, inbound SSH allowed, peer blocked.
    InternetOnly,
    /// Outbound restricted to loopback and the peer; inbound SSH dropped.
    ToolNodeOnly,
}

/// External string form of a posture: `"internet"` or `"tool-node"`.
pub open spec fn mode_str_spec(m: Mode) -> Seq<char> {
    match m {
        Mode::InternetOnly => "internet"@,
        Mode::ToolNodeOnly => "tool-node"@,
    }
}

/// The other posture.
pub open spec fn toggled_spec(m: Mode) -> Mode {
    match m {
        Mode::InternetOnly => Mode::ToolNodeOnly,
        Mode::ToolNodeOnly => Mode::InternetOnly,
    }
}

impl Mode {
    /// The string a query endpoint reports for this posture.
    pub fn as_str(&self) -> (r: &'static str)
        ensures
            r@ == mode_str_spec(*self),
    {
        match self {
            Mode::InternetOnly => "internet",
            Mode::ToolNodeOnly => "tool-node",
        }
    }

    /// The opposite posture; what an unconditional toggle trigger requests.
    pub fn toggled(&self) -> (r: Mode)
        ensures
            r == toggled_spec(*self),
            r != *self,
    {
        match self {
            Mode::InternetOnly => Mode::ToolNodeOnly,
            Mode::ToolNodeOnly => Mode::InternetOnly,
        }
    }
}

/// The two postures' string forms never collide, so a reported mode string
/// identifies the posture.
pub proof fn lemma_mode_strings_distinct()
    ensures
        mode_str_spec(Mode::InternetOnly) != mode_str_spec(Mode::ToolNodeOnly),
{
    reveal_strlit("internet");
    reveal_strlit("tool-node");
    assert(mode_str_spec(Mode::InternetOnly).len() == 8);
    assert(mode_str_spec(Mode::ToolNodeOnly).len() == 9);
}

} // verus!
