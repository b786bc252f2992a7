//! How harsh clippy should be.

use crate::text::str_eq;
use vstd::prelude::*;
use vstd::string::*;

verus! {

/// Enumeration describing how harsh clippy should be
#[derive(Copy, Clone, PartialEq, Eq, PartialOrd, Ord, Debug, Structural)]
pub enum ClippyFlavor {
    /// The pedantic style, used by CI/CD for main branches
    Pedantic,
    /// Rather pedantic style for local development and other branches. This
    /// is the default.
    Development,
    /// Unpedantic style usable for small scripts or prototypes
    Prototype,
}

/// A token that names no flavor.
#[derive(Clone, PartialEq, Eq, Debug)]
pub struct InvalidArgument {
    /// The token as it was given
    pub token: String,
}

/// What [`InvalidArgument::message`] says of a rejected token: the token, and
/// the names of all the flavors.
pub open spec fn invalid_argument_message(token: Seq<char>) -> Seq<char> {
    "invalid flavor '"@ + token + "' [possible values: "@ + ClippyFlavor::Pedantic.name() + ", "@
        + ClippyFlavor::Development.name() + ", "@ + ClippyFlavor::Prototype.name() + "]"@
}

impl InvalidArgument {
    /// The message for the user: the rejected token and the valid ones.
    pub fn message(&self) -> (text: String)
        ensures
            text@ == invalid_argument_message(self.token@),
    {
        let mut text = String::from_str("invalid flavor '");
        text.append(self.token.as_str());
        text.append("' [possible values: ");
        text.append(ClippyFlavor::Pedantic.as_str());
        text.append(", ");
        text.append(ClippyFlavor::Development.as_str());
        text.append(", ");
        text.append(ClippyFlavor::Prototype.as_str());
        text.append("]");
        text
    }
}

impl ClippyFlavor {
    /// The lowercase name of a flavor, as it is written on a command line.
    pub open spec fn name(self) -> Seq<char> {
        match self {
            ClippyFlavor::Pedantic => "pedantic"@,
            ClippyFlavor::Development => "development"@,
            ClippyFlavor::Prototype => "prototype"@,
        }
    }

    /// The flavor that a token names, if it names one.
    pub open spec fn named(token: Seq<char>) -> Option<ClippyFlavor> {
        if token == ClippyFlavor::Pedantic.name() {
            Some(ClippyFlavor::Pedantic)
        } else if token == ClippyFlavor::Development.name() {
            Some(ClippyFlavor::Development)
        } else if token == ClippyFlavor::Prototype.name() {
            Some(ClippyFlavor::Prototype)
        } else {
            None
        }
    }

    /// The lowercase name of the flavor.
    pub fn as_str(&self) -> (name: &'static str)
        ensures
            name@ == self.name(),
    {
        match self {
            ClippyFlavor::Pedantic => "pedantic",
            ClippyFlavor::Development => "development",
            ClippyFlavor::Prototype => "prototype",
        }
    }

    /// The lowercase name of the flavor, as an owned string.
    pub fn to_string(&self) -> (name: String)
        ensures
            name@ == self.name(),
    {
        String::from_str(self.as_str())
    }

    /// Reads a flavor from its lowercase name. Any other token, a name in
    /// upper case included, is handed back in the error.
    pub fn parse(token: &str) -> (parsed: Result<ClippyFlavor, InvalidArgument>)
        ensures
            match parsed {
                Ok(flavor) => ClippyFlavor::named(token@) == Some(flavor),
                Err(e) => ClippyFlavor::named(token@) is None && e.token@ == token@,
            },
    {
        if str_eq(token, ClippyFlavor::Pedantic.as_str()) {
            Ok(ClippyFlavor::Pedantic)
        } else if str_eq(token, ClippyFlavor::Development.as_str()) {
            Ok(ClippyFlavor::Development)
        } else if str_eq(token, ClippyFlavor::Prototype.as_str()) {
            Ok(ClippyFlavor::Prototype)
        } else {
            Err(InvalidArgument { token: String::from_str(token) })
        }
    }
}

impl Default for ClippyFlavor {
    /// The flavor used when none is given.
    fn default() -> (flavor: ClippyFlavor)
        ensures
            flavor == ClippyFlavor::Development,
    {
        ClippyFlavor::Development
    }
}

/// No two flavors share a name.
pub proof fn lemma_names_distinct(a: ClippyFlavor, b: ClippyFlavor)
    ensures
        a.name() == b.name() <==> a == b,
{
    reveal_strlit("pedantic");
    reveal_strlit("development");
    reveal_strlit("prototype");
    assert("pedantic"@.len() == 8);
    assert("development"@.len() == 11);
    assert("prototype"@.len() == 9);
}

/// Reading and writing a flavor undo each other: the name of a flavor reads
/// back as that flavor, and a token that reads as a flavor is that flavor's
/// name.
pub proof fn lemma_name_round_trip(flavor: ClippyFlavor, token: Seq<char>)
    ensures
        ClippyFlavor::named(flavor.name()) == Some(flavor),
        ClippyFlavor::named(token) == Some(flavor) <==> token == flavor.name(),
{
    lemma_names_distinct(flavor, ClippyFlavor::Pedantic);
    lemma_names_distinct(flavor, ClippyFlavor::Development);
    lemma_names_distinct(flavor, ClippyFlavor::Prototype);
}

} // verus!
